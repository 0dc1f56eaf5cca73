use pubsub_producer::client::{backoff_delay_ms, BrokerReply, Client};
use pubsub_producer::connection::{ConnectOutcome, ConnectionState};
use pubsub_producer::errors::{ConnectError, PublishError, SubscribeError};
use pubsub_producer::registry::{FailReason, SubscriptionState};

fn connected_client(retry_budget: u64) -> Client {
    let mut c = Client::new(retry_budget);
    c.connect(String::from("broker:9092"), ConnectOutcome::Accepted).unwrap();
    c
}

#[test]
fn new_client_is_disconnected_and_empty() {
    let c = Client::new(3);
    assert_eq!(c.connection.state, ConnectionState::Disconnected);
    assert_eq!(c.registry.len(), 0);
    assert_eq!(c.retry_budget, 3);
}

#[test]
fn connect_failure_is_reported_and_recorded() {
    let mut c = Client::new(0);
    let r = c.connect(String::from("nowhere"), ConnectOutcome::Unreachable);
    assert_eq!(r, Err(ConnectError::Unreachable));
    assert_eq!(c.connection.state, ConnectionState::Disconnected);
    assert_eq!(c.connection.last_error, Some(ConnectError::Unreachable));
}

#[test]
fn subscribe_ack_confirms_the_topic() {
    let mut c = connected_client(0);
    let r = c.subscribe(String::from("a"), &vec![BrokerReply::Ack]);
    assert_eq!(r, Ok(()));
    assert_eq!(c.registry.state_at(0), SubscriptionState::Confirmed);
    assert_eq!(c.registry.topic_at(0), "a");
}

#[test]
fn subscribe_rejection_is_not_retried() {
    let mut c = connected_client(5);
    // Replies after the rejection would allow success, but a rejection is
    // broker-authoritative and decides immediately.
    let replies = vec![BrokerReply::Rejection, BrokerReply::Ack];
    let r = c.subscribe(String::from("a"), &replies);
    assert_eq!(r, Err(SubscribeError::Rejected));
    assert_eq!(c.registry.state_at(0), SubscriptionState::Failed(FailReason::Rejected));
    assert_eq!(c.connection.state, ConnectionState::Connected);
}

#[test]
fn subscribe_timeout_then_ack_within_budget_confirms() {
    let mut c = connected_client(1);
    let replies = vec![BrokerReply::Timeout, BrokerReply::Ack];
    let r = c.subscribe(String::from("a"), &replies);
    assert_eq!(r, Ok(()));
    assert_eq!(c.registry.state_at(0), SubscriptionState::Confirmed);
}

#[test]
fn subscribe_timeout_past_budget_fails() {
    let mut c = connected_client(1);
    let replies = vec![BrokerReply::Timeout, BrokerReply::Timeout, BrokerReply::Ack];
    let r = c.subscribe(String::from("a"), &replies);
    assert_eq!(r, Err(SubscribeError::Timeout));
    assert_eq!(c.registry.state_at(0), SubscriptionState::Failed(FailReason::Timeout));
}

#[test]
fn subscribe_with_zero_budget_fails_on_first_timeout() {
    let mut c = connected_client(0);
    let replies = vec![BrokerReply::Timeout, BrokerReply::Ack];
    let r = c.subscribe(String::from("a"), &replies);
    assert_eq!(r, Err(SubscribeError::Timeout));
}

#[test]
fn subscribe_connection_lost_drops_the_link() {
    let mut c = connected_client(2);
    let replies = vec![BrokerReply::ConnectionLost];
    let r = c.subscribe(String::from("a"), &replies);
    assert_eq!(r, Err(SubscribeError::ConnectionLost));
    assert_eq!(c.registry.state_at(0), SubscriptionState::Failed(FailReason::ConnectionLost));
    assert_eq!(c.connection.state, ConnectionState::Disconnected);
}

#[test]
fn subscribe_duplicate_topic_is_refused_without_side_effects() {
    let mut c = connected_client(0);
    c.subscribe(String::from("a"), &vec![BrokerReply::Ack]).unwrap();
    let r = c.subscribe(String::from("a"), &vec![BrokerReply::Ack]);
    assert_eq!(r, Err(SubscribeError::DuplicateTopic));
    assert_eq!(c.registry.len(), 1);
    assert_eq!(c.registry.state_at(0), SubscriptionState::Confirmed);
}

#[test]
fn publish_unknown_topic_fails_whatever_the_connection_state() {
    let mut c = connected_client(0);
    c.subscribe(String::from("a"), &vec![BrokerReply::Ack]).unwrap();
    let payload = vec![1u8];
    let r = c.publish(&String::from("b"), &payload, true);
    assert_eq!(r, Err(PublishError::NotSubscribed));

    // Same refusal on a client whose connection is long gone.
    c.close();
    let r2 = c.publish(&String::from("b"), &payload, true);
    assert_eq!(r2, Err(PublishError::NotSubscribed));
}

#[test]
fn publish_confirmed_topic_forwards_on_the_connection() {
    let mut c = connected_client(0);
    c.subscribe(String::from("a"), &vec![BrokerReply::Ack]).unwrap();
    let payload = vec![9u8, 9, 9];
    assert_eq!(c.publish(&String::from("a"), &payload, true), Ok(()));
    assert_eq!(c.publish(&String::from("a"), &payload, false), Err(PublishError::Transport));
    assert_eq!(c.connection.state, ConnectionState::Disconnected);
    // With the link down, forwarding keeps failing as a transport error.
    assert_eq!(c.publish(&String::from("a"), &payload, true), Err(PublishError::Transport));
}

#[test]
fn publish_pending_topic_is_not_subscribed() {
    let mut c = connected_client(0);
    // A subscription that failed is not Confirmed: publishing is refused.
    let _ = c.subscribe(String::from("a"), &vec![BrokerReply::Rejection]);
    let payload = vec![0u8];
    assert_eq!(c.publish(&String::from("a"), &payload, true), Err(PublishError::NotSubscribed));
}

#[test]
fn close_discards_subscriptions_and_is_idempotent() {
    let mut c = connected_client(0);
    c.subscribe(String::from("a"), &vec![BrokerReply::Ack]).unwrap();
    c.close();
    assert_eq!(c.connection.state, ConnectionState::Closed);
    assert_eq!(c.registry.len(), 0);
    // Closing again produces no error and no further change.
    c.close();
    assert_eq!(c.connection.state, ConnectionState::Closed);
    assert_eq!(c.registry.len(), 0);
}

#[test]
fn backoff_grows_exponentially_up_to_the_cap() {
    assert_eq!(backoff_delay_ms(0), 100);
    assert_eq!(backoff_delay_ms(1), 200);
    assert_eq!(backoff_delay_ms(2), 400);
    assert_eq!(backoff_delay_ms(6), 6400);
    assert_eq!(backoff_delay_ms(7), 10000);
    assert_eq!(backoff_delay_ms(40), 10000);
}
