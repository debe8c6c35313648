use rusty_llama::coordinator::{
    endpoint_url, ChunkError, CoordState, Coordinator, SubmitError, TransportState,
};
use rusty_llama::message::Author;

#[test]
fn endpoint_fixes_scheme_and_port_around_the_host() {
    assert_eq!(endpoint_url("localhost"), "ws://localhost:3000/ws");
    assert_eq!(endpoint_url("chat.example.org"), "ws://chat.example.org:3000/ws");
}

fn streaming_coordinator(text: &str) -> (Coordinator, usize) {
    let mut c = Coordinator::new();
    c.connection_opened();
    let frame = c.submit(String::from(text)).expect("submit should succeed");
    assert_eq!(frame, text);
    let handle = c.send_accepted().expect("a send was in flight");
    (c, handle)
}

#[test]
fn session_starts_awaiting_connection() {
    let c = Coordinator::new();
    assert_eq!(c.state, CoordState::AwaitingConnection);
    assert_eq!(c.link, TransportState::Connecting);
    assert_eq!(c.conversation.len(), 0);
    assert!(!c.is_busy());
}

#[test]
fn connection_opened_makes_session_idle() {
    let mut c = Coordinator::new();
    c.connection_opened();
    assert_eq!(c.state, CoordState::Idle);
    assert_eq!(c.link, TransportState::Open);
}

#[test]
fn clean_end_loses_nothing() {
    let (mut c, handle) = streaming_coordinator("question");
    assert!(c.apply_chunk(handle, "Hel").is_ok());
    assert!(c.apply_chunk(handle, "lo").is_ok());
    c.stream_end();
    assert_eq!(c.conversation.len(), 2);
    assert_eq!(c.conversation.message_at(1).text, "Hello");
    assert_eq!(c.conversation.message_at(1).author, Author::Assistant);
    assert_eq!(c.state, CoordState::Idle);
    assert!(!c.is_busy());
}

#[test]
fn fragments_concatenate_in_arrival_order() {
    let (mut c, handle) = streaming_coordinator("q");
    for frag in ["to", "ken ", "by ", "token"] {
        assert!(c.apply_chunk(handle, frag).is_ok());
    }
    assert_eq!(c.conversation.message_at(1).text, "token by token");
}

#[test]
fn submit_while_connecting_yields_not_connected_and_no_echo() {
    let mut c = Coordinator::new();
    let r = c.submit(String::from("hello?"));
    assert_eq!(r, Err(SubmitError::NotConnected));
    assert_eq!(c.conversation.len(), 0);
    assert_eq!(c.state, CoordState::AwaitingConnection);
}

#[test]
fn submit_after_handshake_failure_yields_not_connected() {
    let mut c = Coordinator::new();
    c.connection_failed();
    assert_eq!(c.state, CoordState::Errored);
    assert_eq!(c.link, TransportState::Errored);
    let r = c.submit(String::from("hello?"));
    assert_eq!(r, Err(SubmitError::NotConnected));
    assert_eq!(c.conversation.len(), 0);
}

#[test]
fn submit_after_peer_closed_yields_not_connected() {
    let mut c = Coordinator::new();
    c.connection_opened();
    c.connection_closed();
    assert_eq!(c.link, TransportState::Closed);
    let r = c.submit(String::from("anyone?"));
    assert_eq!(r, Err(SubmitError::NotConnected));
    assert_eq!(c.conversation.len(), 0);
    assert_eq!(c.state, CoordState::Errored);
}

#[test]
fn stream_error_retains_partial_text() {
    let (mut c, handle) = streaming_coordinator("question");
    assert!(c.apply_chunk(handle, "Hi").is_ok());
    c.stream_error();
    assert_eq!(c.conversation.len(), 2);
    assert_eq!(c.conversation.message_at(1).text, "Hi");
    assert_eq!(c.state, CoordState::Errored);
}

#[test]
fn second_submit_while_streaming_is_rejected_busy() {
    let (mut c, _handle) = streaming_coordinator("first");
    assert!(c.is_busy());
    let r = c.submit(String::from("second"));
    assert_eq!(r, Err(SubmitError::Busy));
    assert_eq!(c.conversation.len(), 2);
    assert_eq!(c.state, CoordState::StreamingReply);
}

#[test]
fn submit_while_send_in_flight_is_rejected_busy() {
    let mut c = Coordinator::new();
    c.connection_opened();
    c.submit(String::from("first")).expect("submit should succeed");
    assert!(c.is_busy());
    let r = c.submit(String::from("second"));
    assert_eq!(r, Err(SubmitError::Busy));
    assert_eq!(c.conversation.len(), 1);
}

#[test]
fn send_failure_keeps_user_message_and_errors_the_session() {
    let mut c = Coordinator::new();
    c.connection_opened();
    c.submit(String::from("lost")).expect("submit should succeed");
    c.send_failed();
    assert_eq!(c.conversation.len(), 1);
    assert_eq!(c.conversation.message_at(0).author, Author::User);
    assert_eq!(c.state, CoordState::Errored);
    assert!(!c.is_busy());
}

#[test]
fn send_accepted_without_pending_send_changes_nothing() {
    let mut c = Coordinator::new();
    c.connection_opened();
    assert_eq!(c.send_accepted(), None);
    assert_eq!(c.conversation.len(), 0);
    assert_eq!(c.state, CoordState::Idle);
}

#[test]
fn chunk_without_open_stream_is_rejected() {
    let mut c = Coordinator::new();
    c.connection_opened();
    let r = c.apply_chunk(0, "stray");
    assert_eq!(r, Err(ChunkError::NoOpenStream));
    assert_eq!(c.conversation.len(), 0);
}

#[test]
fn chunk_with_stale_handle_is_rejected() {
    let (mut c, handle) = streaming_coordinator("question");
    let r = c.apply_chunk(handle + 1, "mis");
    assert_eq!(r, Err(ChunkError::StaleHandle));
    assert_eq!(c.conversation.message_at(1).text, "");
}

#[test]
fn open_handle_names_the_streaming_placeholder() {
    let mut c = Coordinator::new();
    assert_eq!(c.open_handle(), None);
    c.connection_opened();
    c.submit(String::from("q")).expect("submit should succeed");
    assert_eq!(c.open_handle(), None);
    let handle = c.send_accepted().expect("a send was in flight");
    assert_eq!(c.open_handle(), Some(handle));
    assert_eq!(handle, 1);
    c.stream_end();
    assert_eq!(c.open_handle(), None);
}

#[test]
fn stream_end_outside_streaming_changes_nothing() {
    let mut c = Coordinator::new();
    c.connection_opened();
    c.stream_end();
    assert_eq!(c.state, CoordState::Idle);
    c.stream_error();
    assert_eq!(c.state, CoordState::Idle);
}

#[test]
fn fresh_submit_is_accepted_after_error_once_reconnected() {
    let (mut c, handle) = streaming_coordinator("first");
    assert!(c.apply_chunk(handle, "par").is_ok());
    c.stream_error();
    assert_eq!(c.state, CoordState::Errored);
    c.connection_opened();
    let frame = c.submit(String::from("again")).expect("submit should succeed");
    assert_eq!(frame, "again");
    let new_handle = c.send_accepted().expect("a send was in flight");
    assert_eq!(new_handle, 3);
    assert!(c.apply_chunk(new_handle, "fresh").is_ok());
    c.stream_end();
    assert_eq!(c.conversation.len(), 4);
    assert_eq!(c.conversation.message_at(1).text, "par");
    assert_eq!(c.conversation.message_at(3).text, "fresh");
    assert_eq!(c.state, CoordState::Idle);
}

#[test]
fn log_is_append_only_across_a_session() {
    let (mut c, handle) = streaming_coordinator("ask");
    let authors_before: Vec<Author> = (0..c.conversation.len())
        .map(|i| c.conversation.message_at(i).author)
        .collect();
    let len_before = c.conversation.len();
    assert!(c.apply_chunk(handle, "answer").is_ok());
    c.stream_end();
    c.connection_closed();
    let _ = c.submit(String::from("more"));
    assert!(c.conversation.len() >= len_before);
    for (i, a) in authors_before.iter().enumerate() {
        assert_eq!(c.conversation.message_at(i).author, *a);
    }
}
