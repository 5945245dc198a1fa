//! What holds of the life of a subscription, whatever the transport reports.

use vstd::prelude::*;
use crate::stream::{Signal, StreamState, delivered, pushes, settled};

verus! {

/// A subscription that has ended stays as it is, and hands nothing on.
pub proof fn lemma_ended_is_final<E>(state: StreamState, signals: Seq<Signal<E>>)
    requires
        state.terminal(),
    ensures
        settled(state, signals) == state,
        delivered(state, signals) == Seq::<E>::empty(),
    decreases signals.len(),
{
    if signals.len() > 0 {
        lemma_ended_is_final(state, signals.drop_first());
    }
}

/// Before the session is set up nothing is handed on.
pub proof fn lemma_nothing_before_open<E>(signals: Seq<Signal<E>>)
    requires
        forall|i: int| 0 <= i < signals.len() ==> signals[i] != Signal::<E>::Opened,
    ensures
        settled(StreamState::Unopened, signals) == StreamState::Unopened,
        delivered(StreamState::Unopened, signals) == Seq::<E>::empty(),
    decreases signals.len(),
{
    if signals.len() > 0 {
        let rest = signals.drop_first();
        assert forall|i: int| 0 <= i < rest.len() implies rest[i] != Signal::<E>::Opened by {
            assert(rest[i] == signals[i + 1]);
        }
        lemma_nothing_before_open(rest);
    }
}

/// An open subscription hands on every event that is pushed, in the order
/// of arrival, and stays open.
pub proof fn lemma_open_delivers_in_order<E>(events: Seq<E>, then: Seq<Signal<E>>)
    ensures
        settled(StreamState::Open, pushes(events) + then) == settled(StreamState::Open, then),
        delivered(StreamState::Open, pushes(events) + then) == events + delivered(
            StreamState::Open,
            then,
        ),
    decreases events.len(),
{
    let signals = pushes(events) + then;
    if events.len() == 0 {
        assert(signals =~= then);
    } else {
        assert(signals[0] == Signal::Event(events[0]));
        assert(signals.drop_first() =~= pushes(events.drop_first()) + then);
        lemma_open_delivers_in_order(events.drop_first(), then);
        assert(seq![events[0]] + (events.drop_first() + delivered(StreamState::Open, then))
            =~= events + delivered(StreamState::Open, then));
    }
}

/// Of a stream that is opened, pushes `events` and is then closed, the
/// consumer gets exactly `events`, in order; the subscription is then
/// closed, whatever the transport reports afterwards.
pub proof fn lemma_closed_stream_delivers_all<E>(events: Seq<E>, later: Seq<Signal<E>>)
    ensures
        settled(
            StreamState::Unopened,
            seq![Signal::Opened] + pushes(events) + seq![Signal::Ended] + later,
        ) == StreamState::Closed,
        delivered(
            StreamState::Unopened,
            seq![Signal::Opened] + pushes(events) + seq![Signal::Ended] + later,
        ) == events,
{
    let end = seq![Signal::<E>::Ended] + later;
    let signals = seq![Signal::<E>::Opened] + pushes(events) + seq![Signal::<E>::Ended] + later;
    assert(signals.drop_first() =~= pushes(events) + end);
    lemma_open_delivers_in_order(events, end);
    assert(end.drop_first() =~= later);
    lemma_ended_is_final(StreamState::Closed, later);
    assert(events + Seq::<E>::empty() =~= events);
}

/// Of a stream that is opened, pushes `events` and then breaks, the consumer
/// gets exactly `events`, in order; the subscription has then failed,
/// whatever the transport reports afterwards.
pub proof fn lemma_broken_stream_delivers_all<E>(events: Seq<E>, later: Seq<Signal<E>>)
    ensures
        settled(
            StreamState::Unopened,
            seq![Signal::Opened] + pushes(events) + seq![Signal::Error] + later,
        ) == StreamState::Failed,
        delivered(
            StreamState::Unopened,
            seq![Signal::Opened] + pushes(events) + seq![Signal::Error] + later,
        ) == events,
{
    let end = seq![Signal::<E>::Error] + later;
    let signals = seq![Signal::<E>::Opened] + pushes(events) + seq![Signal::<E>::Error] + later;
    assert(signals.drop_first() =~= pushes(events) + end);
    lemma_open_delivers_in_order(events, end);
    assert(end.drop_first() =~= later);
    lemma_ended_is_final(StreamState::Failed, later);
    assert(events + Seq::<E>::empty() =~= events);
}

} // verus!
