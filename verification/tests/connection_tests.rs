use pubsub_producer::connection::{ConnectOutcome, Connection, ConnectionState};
use pubsub_producer::errors::{ConnectError, SendError};

fn connected() -> Connection {
    let mut c = Connection::new(String::from("broker:9092"));
    c.begin_connect();
    c.complete_connect(ConnectOutcome::Accepted).unwrap();
    c
}

#[test]
fn connect_success_transitions_to_connected() {
    let mut c = Connection::new(String::from("broker:9092"));
    assert_eq!(c.state, ConnectionState::Disconnected);
    assert!(c.last_error.is_none());
    c.begin_connect();
    assert_eq!(c.state, ConnectionState::Connecting);
    let r = c.complete_connect(ConnectOutcome::Accepted);
    assert_eq!(r, Ok(()));
    assert_eq!(c.state, ConnectionState::Connected);
    assert!(c.last_error.is_none());
    assert_eq!(c.endpoint, "broker:9092");
}

#[test]
fn connect_unreachable_falls_back_to_disconnected() {
    let mut c = Connection::new(String::from("nowhere"));
    c.begin_connect();
    let r = c.complete_connect(ConnectOutcome::Unreachable);
    assert_eq!(r, Err(ConnectError::Unreachable));
    assert_eq!(c.state, ConnectionState::Disconnected);
    assert_eq!(c.last_error, Some(ConnectError::Unreachable));
}

#[test]
fn connect_rejected_records_broker_refusal() {
    let mut c = Connection::new(String::from("broker:9092"));
    c.begin_connect();
    let r = c.complete_connect(ConnectOutcome::Rejected);
    assert_eq!(r, Err(ConnectError::Rejected));
    assert_eq!(c.state, ConnectionState::Disconnected);
    assert_eq!(c.last_error, Some(ConnectError::Rejected));
}

#[test]
fn send_requires_connected_state() {
    let mut c = Connection::new(String::from("broker:9092"));
    let frame = vec![1u8, 2, 3];
    assert_eq!(c.send(&frame, true), Err(SendError::NotConnected));
    assert_eq!(c.state, ConnectionState::Disconnected);
}

#[test]
fn send_transport_failure_drops_the_link() {
    let mut c = connected();
    let frame = vec![42u8];
    assert_eq!(c.send(&frame, true), Ok(()));
    assert_eq!(c.state, ConnectionState::Connected);
    assert_eq!(c.send(&frame, false), Err(SendError::Transport));
    assert_eq!(c.state, ConnectionState::Disconnected);
}

#[test]
fn close_is_idempotent() {
    let mut c = connected();
    c.close();
    assert_eq!(c.state, ConnectionState::Closed);
    let endpoint_after_first = c.endpoint.clone();
    let error_after_first = c.last_error;
    // A second close produces no error and changes nothing.
    c.close();
    assert_eq!(c.state, ConnectionState::Closed);
    assert_eq!(c.endpoint, endpoint_after_first);
    assert_eq!(c.last_error, error_after_first);
}

#[test]
fn close_from_any_state_lands_in_closed() {
    let mut fresh = Connection::new(String::from("e"));
    fresh.close();
    assert_eq!(fresh.state, ConnectionState::Closed);

    let mut dialing = Connection::new(String::from("e"));
    dialing.begin_connect();
    dialing.close();
    assert_eq!(dialing.state, ConnectionState::Closed);
}
