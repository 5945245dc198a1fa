//! What holds of configurations, whatever the values.
//!
//! The setters are described by [`ConfigView::with_stream_id`],
//! [`ConfigView::with_contract`] and [`ConfigView::with_event`]; the laws
//! below are stated over these.

use vstd::prelude::*;
use crate::config::ConfigView;
use crate::error::SSEError;
use crate::path::{ConfigType, activity_prefix, event_prefix, root, segment};

verus! {

/// A configuration with no field given holds the invariant, and its path is
/// canonical.
pub proof fn lemma_fresh_is_canonical(kind: ConfigType, base: Seq<char>)
    ensures
        ConfigView::fresh(kind, base).wf(),
        ConfigView::fresh(kind, base).canonical(),
{
}

/// Whatever a setter accepts, the kind and the base address stay as they
/// were, and the invariant holds of the result.
pub proof fn lemma_setters_keep_invariant(config: ConfigView, value: Seq<char>)
    requires
        config.wf(),
    ensures
        config.with_stream_id(value) matches Ok(next) ==> next.wf() && next.kind == config.kind
            && next.base_url == config.base_url,
        config.with_contract(value) matches Ok(next) ==> next.wf() && next.kind == config.kind
            && next.base_url == config.base_url,
        config.with_event(value) matches Ok(next) ==> next.wf() && next.kind == config.kind
            && next.base_url == config.base_url,
{
}

/// A setter that accepts a value leaves the other fields as they were, so
/// that no field is ever taken back.
pub proof fn lemma_setters_keep_other_fields(config: ConfigView, value: Seq<char>)
    ensures
        config.with_stream_id(value) matches Ok(next) ==> next.stream_id == Some(value)
            && next.contract == config.contract && next.event == config.event,
        config.with_contract(value) matches Ok(next) ==> next.contract == Some(value)
            && next.stream_id == config.stream_id && next.event == config.event,
        config.with_event(value) matches Ok(next) ==> next.event == Some(value)
            && next.stream_id == config.stream_id && next.contract == config.contract,
{
}

/// A stream id that is the first to be given keeps the path canonical.
pub proof fn lemma_first_stream_id_is_canonical(config: ConfigView, id: Seq<char>)
    requires
        config.wf(),
        config.canonical(),
        config.kind == ConfigType::Activity,
        config.stream_id is None,
    ensures
        config.with_stream_id(id) matches Ok(next) && next.canonical(),
{
}

/// A contract that is the first to be given, before any event name, keeps
/// the path canonical.
pub proof fn lemma_first_contract_is_canonical(config: ConfigView, contract: Seq<char>)
    requires
        config.wf(),
        config.canonical(),
        config.kind == ConfigType::Event,
        config.contract is None,
    ensures
        config.with_contract(contract) matches Ok(next) && next.canonical(),
{
}

/// An event name that is the first to be given keeps the path canonical.
pub proof fn lemma_first_event_is_canonical(config: ConfigView, event: Seq<char>)
    requires
        config.wf(),
        config.canonical(),
        config.kind == ConfigType::Event,
        config.contract is Some,
        config.event is None,
    ensures
        config.with_event(event) matches Ok(next) && next.canonical(),
{
}

/// A stream id that follows one that is not empty leaves a path that is not
/// canonical: it holds both.
pub proof fn lemma_second_stream_id_is_malformed(config: ConfigView, id: Seq<char>)
    requires
        config.wf(),
        config.canonical(),
        config.kind == ConfigType::Activity,
        config.stream_id matches Some(first) && first.len() > 0,
    ensures
        config.with_stream_id(id) matches Ok(next) && !next.canonical(),
{
    let next = config.with_stream_id(id)->Ok_0;
    assert(next.url.len() == root(config.kind, config.base_url).len()
        + config.stream_id->Some_0.len() + id.len());
}

/// A contract that follows one that is not empty leaves a path that is not
/// canonical.
pub proof fn lemma_second_contract_is_malformed(config: ConfigView, contract: Seq<char>)
    requires
        config.wf(),
        config.canonical(),
        config.kind == ConfigType::Event,
        config.contract matches Some(first) && first.len() > 0,
    ensures
        config.with_contract(contract) matches Ok(next) && !next.canonical(),
{
    let next = config.with_contract(contract)->Ok_0;
    assert(next.url.len() == root(config.kind, config.base_url).len()
        + config.contract->Some_0.len() + segment(config.event).len() + contract.len());
}

/// An event name that follows one that is not empty leaves a path that is
/// not canonical.
pub proof fn lemma_second_event_is_malformed(config: ConfigView, event: Seq<char>)
    requires
        config.wf(),
        config.canonical(),
        config.kind == ConfigType::Event,
        config.event matches Some(first) && first.len() > 0,
    ensures
        config.with_event(event) matches Ok(next) && !next.canonical(),
{
    let next = config.with_event(event)->Ok_0;
    assert(next.url.len() == root(config.kind, config.base_url).len() + segment(
        config.contract,
    ).len() + config.event->Some_0.len() + event.len());
}

/// The path after each sequence of setters in which every field of the kind
/// is given at most once and in the order of the grammar: the base address,
/// the prefix of the kind, and the values in that order.
pub proof fn lemma_paths_of_ordered_setters(
    base: Seq<char>,
    id: Seq<char>,
    contract: Seq<char>,
    event: Seq<char>,
)
    ensures
        ConfigView::fresh(ConfigType::Activity, base).url == base + activity_prefix(),
        ConfigView::fresh(ConfigType::Activity, base).with_stream_id(id) matches Ok(with_id)
            && with_id.url == base + activity_prefix() + id,
        ConfigView::fresh(ConfigType::Event, base).url == base + event_prefix(),
        ({
            &&& ConfigView::fresh(ConfigType::Event, base).with_contract(contract) matches Ok(
                with_contract,
            )
            &&& with_contract.url == base + event_prefix() + contract
            &&& with_contract.with_event(event) matches Ok(with_event)
            &&& with_event.url == base + event_prefix() + contract + event
        }),
{
}

/// A setter for a field of the other kind is refused.
pub proof fn lemma_other_kind_is_refused(config: ConfigView, value: Seq<char>)
    ensures
        config.kind == ConfigType::Event ==> config.with_stream_id(value) == Err::<
            ConfigView,
            SSEError,
        >(SSEError::IncompatibleConfig),
        config.kind == ConfigType::Activity ==> config.with_contract(value) == Err::<
            ConfigView,
            SSEError,
        >(SSEError::IncompatibleConfig),
        config.kind == ConfigType::Activity ==> config.with_event(value) == Err::<
            ConfigView,
            SSEError,
        >(SSEError::IncompatibleConfig),
{
}

/// An event name is refused as long as an event configuration has no
/// contract, whatever its base address.
pub proof fn lemma_event_needs_contract(config: ConfigView, event: Seq<char>)
    requires
        config.kind == ConfigType::Event,
        config.contract is None,
    ensures
        config.with_event(event) == Err::<ConfigView, SSEError>(SSEError::ContractNotSet),
        forall|base: Seq<char>| #[trigger]
            ConfigView::fresh(ConfigType::Event, base).with_event(event) == Err::<
                ConfigView,
                SSEError,
            >(SSEError::ContractNotSet),
{
}

/// A contract and then an event name end the path, in that order; the event
/// name cannot come first.
pub proof fn lemma_contract_comes_before_event(
    config: ConfigView,
    contract: Seq<char>,
    event: Seq<char>,
)
    requires
        config.kind == ConfigType::Event,
    ensures
        ({
            &&& config.with_contract(contract) matches Ok(with_contract)
            &&& with_contract.with_event(event) matches Ok(with_event)
            &&& with_event.url == config.url + contract + event
            &&& (contract + event).is_suffix_of(with_event.url)
        }),
        config.contract is None ==> config.with_event(event) is Err,
{
    let path = config.url + contract + event;
    let tail = contract + event;
    assert(path.subrange((path.len() - tail.len()) as int, path.len() as int) =~= tail);
}

} // verus!
