//! The life of one subscription.
//!
//! A subscription starts unopened. It is open once the transport has set up
//! its session; from then on every event that the transport pushes is handed
//! on, one for one and in the order of arrival. It ends when the transport
//! closes the stream or reports an error that it cannot recover from. After
//! that nothing is handed on, and nothing opens it again.
//!
//! The transport is not called from here: whoever runs it reports what it
//! did as a [`Signal`] and does what the [`Reaction`] says.

use vstd::prelude::*;

verus! {

/// Where a subscription stands.
#[derive(Clone, Copy, Debug, PartialEq, Eq, Structural)]
pub enum StreamState {
    /// No session has been set up yet.
    Unopened,
    /// Events are being handed on.
    Open,
    /// The transport has closed the stream.
    Closed,
    /// The transport has given the stream up.
    Failed,
}

/// What the transport reports.
#[derive(Debug, PartialEq, Eq)]
pub enum Signal<E> {
    /// The session has been set up.
    Opened,
    /// An event has arrived.
    Event(E),
    /// The stream has been closed in good order.
    Ended,
    /// The stream has broken and will not be taken up again.
    Error,
}

/// What is done about a signal.
#[derive(Debug, PartialEq, Eq)]
pub enum Reaction<E> {
    /// Nothing is handed to the consumer.
    Nothing,
    /// The event is handed to the consumer.
    Deliver(E),
    /// The consumer is told that no event will follow.
    Finish,
}

impl StreamState {
    /// No signal changes the state any more.
    pub open spec fn terminal(self) -> bool {
        self == StreamState::Closed || self == StreamState::Failed
    }

    /// The state that follows on a signal.
    pub open spec fn after<E>(self, signal: Signal<E>) -> StreamState {
        match (self, signal) {
            (StreamState::Unopened, Signal::Opened) => StreamState::Open,
            (StreamState::Open, Signal::Ended) => StreamState::Closed,
            (StreamState::Open, Signal::Error) => StreamState::Failed,
            _ => self,
        }
    }

    /// What is done about a signal in this state.
    pub open spec fn reaction<E>(self, signal: Signal<E>) -> Reaction<E> {
        match (self, signal) {
            (StreamState::Open, Signal::Event(event)) => Reaction::Deliver(event),
            (StreamState::Open, Signal::Ended) => Reaction::Finish,
            (StreamState::Open, Signal::Error) => Reaction::Finish,
            _ => Reaction::Nothing,
        }
    }

    /// Takes one signal of the transport: gives the state that follows and
    /// what is to be done.
    pub fn on<E>(self, signal: Signal<E>) -> (res: (StreamState, Reaction<E>))
        ensures
            res.0 == self.after(signal),
            res.1 == self.reaction(signal),
    {
        match self {
            StreamState::Unopened => match signal {
                Signal::Opened => (StreamState::Open, Reaction::Nothing),
                _ => (self, Reaction::Nothing),
            },
            StreamState::Open => match signal {
                Signal::Opened => (self, Reaction::Nothing),
                Signal::Event(event) => (self, Reaction::Deliver(event)),
                Signal::Ended => (StreamState::Closed, Reaction::Finish),
                Signal::Error => (StreamState::Failed, Reaction::Finish),
            },
            _ => (self, Reaction::Nothing),
        }
    }

    /// Whether the subscription has ended.
    pub fn is_terminal(self) -> (res: bool)
        ensures
            res == self.terminal(),
    {
        match self {
            StreamState::Closed => true,
            StreamState::Failed => true,
            _ => false,
        }
    }
}

/// The state after a run of signals, taken in order.
pub open spec fn settled<E>(state: StreamState, signals: Seq<Signal<E>>) -> StreamState
    decreases signals.len(),
{
    if signals.len() == 0 {
        state
    } else {
        settled(state.after(signals[0]), signals.drop_first())
    }
}

/// The events that are handed to the consumer over a run of signals, in the
/// order in which they are handed over.
pub open spec fn delivered<E>(state: StreamState, signals: Seq<Signal<E>>) -> Seq<E>
    decreases signals.len(),
{
    if signals.len() == 0 {
        Seq::empty()
    } else {
        let rest = delivered(state.after(signals[0]), signals.drop_first());
        match state.reaction(signals[0]) {
            Reaction::Deliver(event) => seq![event] + rest,
            _ => rest,
        }
    }
}

/// The signals by which the transport pushes `events`, one after the other.
pub open spec fn pushes<E>(events: Seq<E>) -> Seq<Signal<E>> {
    events.map_values(|event: E| Signal::Event(event))
}

} // verus!
