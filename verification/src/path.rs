//! The grammar of resource paths.
//!
//! A path is the base address, then the fixed prefix of the kind of
//! subscription, then the optional fields of that kind in a fixed order: the
//! stream id for an activity subscription; the contract and then the event
//! name for an event subscription. Nothing is put between the parts.

use vstd::prelude::*;

verus! {

/// The two kinds of subscription.
#[derive(Clone, Copy, Debug, PartialEq, Eq, Structural)]
pub enum ConfigType {
    /// Creation and update of streams.
    Activity,
    /// Events that contracts raise.
    Event,
}

/// The prefix of every activity path.
pub open spec fn activity_prefix() -> Seq<char> {
    "/api/activity/subscribe/"@
}

/// The prefix of every event path.
pub open spec fn event_prefix() -> Seq<char> {
    "/api/events/"@
}

/// The fixed prefix of a kind.
pub open spec fn prefix(kind: ConfigType) -> Seq<char> {
    match kind {
        ConfigType::Activity => activity_prefix(),
        ConfigType::Event => event_prefix(),
    }
}

/// What an optional field adds to a path: its value, or nothing.
pub open spec fn segment(field: Option<Seq<char>>) -> Seq<char> {
    match field {
        Some(value) => value,
        None => Seq::empty(),
    }
}

/// The path of a subscription of `kind` at `base` before any field is given.
pub open spec fn root(kind: ConfigType, base: Seq<char>) -> Seq<char> {
    base + prefix(kind)
}

/// The canonical path of a subscription: the fields of the other kind are
/// not looked at.
pub open spec fn resolve(
    kind: ConfigType,
    base: Seq<char>,
    stream_id: Option<Seq<char>>,
    contract: Option<Seq<char>>,
    event: Option<Seq<char>>,
) -> Seq<char> {
    match kind {
        ConfigType::Activity => root(kind, base) + segment(stream_id),
        ConfigType::Event => root(kind, base) + segment(contract) + segment(event),
    }
}

} // verus!
