use std::sync::mpsc::{channel, Receiver};

use active_sse::error::{SSEError, SSEResult};
use active_sse::stream::{Reaction, Signal, StreamState};
use active_sse::{ActiveSSE, Config};

fn stub_transport(events: Vec<&'static str>) -> Result<Receiver<&'static str>, String> {
    let (sender, receiver) = channel();
    for event in events {
        sender.send(event).unwrap();
    }
    Ok(receiver)
}

#[test]
fn manager_names_the_path_of_the_configuration() {
    let sse = ActiveSSE::new(Config::activity("http://localhost:5260"));
    assert_eq!(sse.url(), "http://localhost:5260/api/activity/subscribe/");

    let mut config = Config::event("http://localhost:5260");
    config.set_contract("contract_id").unwrap();
    config.set_event("event").unwrap();
    let sse = ActiveSSE::new(config);
    assert_eq!(sse.url(), "http://localhost:5260/api/events/contract_idevent");
}

#[test]
fn transport_is_asked_once_for_the_path_of_the_configuration() {
    let mut config = Config::activity("http://host:5260");
    config.set_stream_id("stream-1").unwrap();
    let sse = ActiveSSE::new(config);
    let mut asked = Vec::new();
    let outcome: SSEResult<usize> = sse.subscribe(|url: &str| -> Result<usize, ()> {
        asked.push(url.to_string());
        Ok(url.len())
    });
    assert_eq!(
        asked,
        vec!["http://host:5260/api/activity/subscribe/stream-1"]
    );
    assert_eq!(
        outcome,
        Ok("http://host:5260/api/activity/subscribe/stream-1".len())
    );
}

#[test]
fn a_session_is_handed_through() {
    let sse = ActiveSSE::new(Config::activity("http://localhost:5260"));
    let outcome = sse.subscribe(|_url: &str| -> Result<Vec<u8>, String> { Ok(vec![1, 2, 3]) });
    assert_eq!(outcome, Ok(vec![1, 2, 3]));
    let opened: Result<Vec<u8>, String> = Ok(vec![4, 5]);
    assert_eq!(ActiveSSE::session(opened), Ok(vec![4, 5]));
}

#[test]
fn a_refusal_becomes_the_one_error() {
    let sse = ActiveSSE::new(Config::event("127.0.0.1:1236/sub"));
    let outcome = sse.subscribe(|_url: &str| -> Result<u32, String> {
        Err("relative URL without a base".to_string())
    });
    assert_eq!(outcome, Err(SSEError::EventSource));
    let refused: Result<u32, u8> = Err(0);
    assert_eq!(ActiveSSE::session(refused), Err(SSEError::EventSource));
    let refused: Result<u32, SSEError> = Err(SSEError::ContractNotSet);
    assert_eq!(ActiveSSE::session(refused), Err(SSEError::EventSource));
}

#[test]
fn a_refusal_leaves_the_manager_usable() {
    let sse = ActiveSSE::new(Config::activity("http://localhost:5260"));
    let refused = sse.subscribe(|_url: &str| -> Result<u8, ()> { Err(()) });
    assert_eq!(refused, Err(SSEError::EventSource));
    assert_eq!(sse.url(), "http://localhost:5260/api/activity/subscribe/");
    let opened = sse.subscribe(|_url: &str| -> Result<u8, ()> { Ok(9) });
    assert_eq!(opened, Ok(9));
}

#[test]
fn stub_transport_yields_three_events_then_closes() {
    let sse = ActiveSSE::new(Config::activity("http://host:5260"));
    let receiver = sse
        .subscribe(|url: &str| {
            assert_eq!(url, "http://host:5260/api/activity/subscribe/");
            stub_transport(vec!["first", "second", "third"])
        })
        .unwrap();
    assert_eq!(receiver.recv().ok(), Some("first"));
    assert_eq!(receiver.recv().ok(), Some("second"));
    assert_eq!(receiver.recv().ok(), Some("third"));
    assert!(receiver.recv().is_err());
    assert!(receiver.recv().is_err());
}

#[test]
fn consumer_of_a_stub_transport_sees_each_event_once_and_then_the_end() {
    let sse = ActiveSSE::new(Config::event("http://host:5260"));
    let receiver = sse
        .subscribe(|_url: &str| stub_transport(vec!["first", "second", "third"]))
        .unwrap();
    let (mut state, _) = StreamState::Unopened.on(Signal::<&str>::Opened);
    let mut seen = Vec::new();
    let mut ends = 0;
    for _ in 0..6 {
        let signal = match receiver.recv() {
            Ok(event) => Signal::Event(event),
            Err(_) => Signal::Ended,
        };
        let (next, reaction) = state.on(signal);
        state = next;
        match reaction {
            Reaction::Deliver(event) => seen.push(event),
            Reaction::Finish => ends += 1,
            Reaction::Nothing => {}
        }
    }
    assert_eq!(seen, vec!["first", "second", "third"]);
    assert_eq!(ends, 1);
    assert_eq!(state, StreamState::Closed);
}
