use pubsub_producer::errors::RegistryError;
use pubsub_producer::registry::{FailReason, Registry, SubscriptionState};

#[test]
fn register_keeps_insertion_order() {
    let mut r = Registry::new();
    r.register(String::from("alpha")).unwrap();
    r.register(String::from("beta")).unwrap();
    r.register(String::from("gamma")).unwrap();
    assert_eq!(r.len(), 3);
    assert_eq!(r.topic_at(0), "alpha");
    assert_eq!(r.topic_at(1), "beta");
    assert_eq!(r.topic_at(2), "gamma");
    assert_eq!(r.state_at(0), SubscriptionState::Pending);
}

#[test]
fn register_duplicate_is_refused() {
    let mut r = Registry::new();
    r.register(String::from("a")).unwrap();
    let second = r.register(String::from("a"));
    assert_eq!(second, Err(RegistryError::DuplicateTopic));
    assert_eq!(r.len(), 1);
}

#[test]
fn mark_confirmed_transitions_pending_entry() {
    let mut r = Registry::new();
    r.register(String::from("a")).unwrap();
    r.register(String::from("b")).unwrap();
    r.mark_confirmed(&String::from("a")).unwrap();
    assert_eq!(r.state_at(0), SubscriptionState::Confirmed);
    assert_eq!(r.state_at(1), SubscriptionState::Pending);
}

#[test]
fn mark_failed_records_the_reason() {
    let mut r = Registry::new();
    r.register(String::from("a")).unwrap();
    r.mark_failed(&String::from("a"), FailReason::Rejected).unwrap();
    assert_eq!(r.state_at(0), SubscriptionState::Failed(FailReason::Rejected));
}

#[test]
fn mark_unknown_topic_fails() {
    let mut r = Registry::new();
    r.register(String::from("a")).unwrap();
    let e = r.mark_confirmed(&String::from("missing"));
    assert_eq!(e, Err(RegistryError::UnknownTopic));
}

#[test]
fn all_resolved_tracks_pending_entries() {
    let mut r = Registry::new();
    assert!(r.all_resolved());
    r.register(String::from("a")).unwrap();
    r.register(String::from("b")).unwrap();
    assert!(!r.all_resolved());
    r.mark_confirmed(&String::from("a")).unwrap();
    assert!(!r.all_resolved());
    r.mark_failed(&String::from("b"), FailReason::Timeout).unwrap();
    assert!(r.all_resolved());
}

#[test]
fn outcomes_reports_in_registration_order() {
    let mut r = Registry::new();
    r.register(String::from("x")).unwrap();
    r.register(String::from("y")).unwrap();
    r.mark_confirmed(&String::from("y")).unwrap();
    let out = r.outcomes();
    assert_eq!(out.len(), 2);
    assert_eq!(out[0].topic, "x");
    assert_eq!(out[0].state, SubscriptionState::Pending);
    assert_eq!(out[1].topic, "y");
    assert_eq!(out[1].state, SubscriptionState::Confirmed);
}
