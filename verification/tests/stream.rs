use active_sse::stream::{Reaction, Signal, StreamState};

fn run(
    start: StreamState,
    signals: Vec<Signal<String>>,
) -> (StreamState, Vec<String>, Vec<StreamState>) {
    let mut state = start;
    let mut delivered = Vec::new();
    let mut finished_in = Vec::new();
    for signal in signals {
        let (next, reaction) = state.on(signal);
        state = next;
        match reaction {
            Reaction::Deliver(event) => delivered.push(event),
            Reaction::Finish => finished_in.push(state),
            Reaction::Nothing => {}
        }
    }
    (state, delivered, finished_in)
}

fn event(text: &str) -> Signal<String> {
    Signal::Event(text.to_string())
}

#[test]
fn three_events_then_close_are_observed_in_order() {
    let (state, delivered, finished_in) = run(
        StreamState::Unopened,
        vec![
            Signal::Opened,
            event("one"),
            event("two"),
            event("three"),
            Signal::Ended,
        ],
    );
    assert_eq!(delivered, vec!["one", "two", "three"]);
    assert_eq!(finished_in, vec![StreamState::Closed]);
    assert_eq!(state, StreamState::Closed);
    assert!(state.is_terminal());
}

#[test]
fn nothing_is_delivered_after_the_close() {
    let (state, delivered, finished_in) = run(
        StreamState::Unopened,
        vec![
            Signal::Opened,
            event("one"),
            Signal::Ended,
            event("late"),
            Signal::Opened,
            event("later"),
            Signal::Error,
            Signal::Ended,
        ],
    );
    assert_eq!(delivered, vec!["one"]);
    assert_eq!(finished_in, vec![StreamState::Closed]);
    assert_eq!(state, StreamState::Closed);
}

#[test]
fn an_error_ends_the_stream_as_failed() {
    let (state, delivered, finished_in) = run(
        StreamState::Unopened,
        vec![
            Signal::Opened,
            event("one"),
            event("two"),
            Signal::Error,
            event("late"),
            Signal::Ended,
            Signal::Opened,
        ],
    );
    assert_eq!(delivered, vec!["one", "two"]);
    assert_eq!(finished_in, vec![StreamState::Failed]);
    assert_eq!(state, StreamState::Failed);
    assert!(state.is_terminal());
}

#[test]
fn nothing_is_delivered_before_the_stream_is_open() {
    let (state, delivered, finished_in) = run(
        StreamState::Unopened,
        vec![event("early"), Signal::Ended, Signal::Error, event("early")],
    );
    assert!(delivered.is_empty());
    assert!(finished_in.is_empty());
    assert_eq!(state, StreamState::Unopened);
    assert!(!state.is_terminal());
}

#[test]
fn a_stream_without_events_closes() {
    let (state, delivered, finished_in) =
        run(StreamState::Unopened, vec![Signal::Opened, Signal::Ended]);
    assert!(delivered.is_empty());
    assert_eq!(finished_in, vec![StreamState::Closed]);
    assert_eq!(state, StreamState::Closed);
}

#[test]
fn equal_events_are_each_delivered() {
    let (state, delivered, _) = run(
        StreamState::Unopened,
        vec![Signal::Opened, event("same"), event("same"), event("same")],
    );
    assert_eq!(delivered, vec!["same", "same", "same"]);
    assert_eq!(state, StreamState::Open);
    assert!(!state.is_terminal());
}

#[test]
fn each_transition_of_the_table() {
    let states = [
        StreamState::Unopened,
        StreamState::Open,
        StreamState::Closed,
        StreamState::Failed,
    ];
    for state in states {
        let opened = state.on(Signal::<u8>::Opened);
        let pushed = state.on(Signal::Event(7u8));
        let ended = state.on(Signal::<u8>::Ended);
        let broken = state.on(Signal::<u8>::Error);
        match state {
            StreamState::Unopened => {
                assert_eq!(opened, (StreamState::Open, Reaction::Nothing));
                assert_eq!(pushed, (StreamState::Unopened, Reaction::Nothing));
                assert_eq!(ended, (StreamState::Unopened, Reaction::Nothing));
                assert_eq!(broken, (StreamState::Unopened, Reaction::Nothing));
            }
            StreamState::Open => {
                assert_eq!(opened, (StreamState::Open, Reaction::Nothing));
                assert_eq!(pushed, (StreamState::Open, Reaction::Deliver(7u8)));
                assert_eq!(ended, (StreamState::Closed, Reaction::Finish));
                assert_eq!(broken, (StreamState::Failed, Reaction::Finish));
            }
            StreamState::Closed | StreamState::Failed => {
                assert_eq!(opened, (state, Reaction::Nothing));
                assert_eq!(pushed, (state, Reaction::Nothing));
                assert_eq!(ended, (state, Reaction::Nothing));
                assert_eq!(broken, (state, Reaction::Nothing));
            }
        }
    }
}

#[test]
fn only_closed_and_failed_are_terminal() {
    assert!(!StreamState::Unopened.is_terminal());
    assert!(!StreamState::Open.is_terminal());
    assert!(StreamState::Closed.is_terminal());
    assert!(StreamState::Failed.is_terminal());
}
