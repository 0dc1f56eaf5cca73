//! Error taxonomy of the producer core.
//!
//! Transport-transient failures (`Timeout`, `Transport`) may be retried by the
//! layer that owns the retry policy; broker-authoritative failures
//! (`Rejected`, `NotSubscribed`) are surfaced immediately and never retried.

use vstd::prelude::*;

verus! {

/// Failure of a connection attempt.
#[derive(Clone, Copy, Debug, PartialEq, Eq, Structural)]
pub enum ConnectError {
    /// Network-level failure: the endpoint could not be reached.
    Unreachable,
    /// Broker-level refusal, e.g. failed authentication.
    Rejected,
}

/// Failure of a subscription request.
#[derive(Clone, Copy, Debug, PartialEq, Eq, Structural)]
pub enum SubscribeError {
    /// The broker refused the subscription; never retried.
    Rejected,
    /// The bounded wait for an acknowledgment elapsed, and the retry budget
    /// was exhausted.
    Timeout,
    /// The connection dropped while the request was in flight; the caller
    /// must re-issue the subscription explicitly.
    ConnectionLost,
    /// The topic is already present in the subscription set.
    DuplicateTopic,
}

/// Failure of a publish request.
#[derive(Clone, Copy, Debug, PartialEq, Eq, Structural)]
pub enum PublishError {
    /// The topic's subscription is not in the `Confirmed` state.
    NotSubscribed,
    /// The frame could not be handed to the transport.
    Transport,
}

/// Failure of a raw send on the connection.
#[derive(Clone, Copy, Debug, PartialEq, Eq, Structural)]
pub enum SendError {
    /// The connection is not in the `Connected` state.
    NotConnected,
    /// I/O failure while writing the frame.
    Transport,
}

/// Failure of a subscription-registry operation.
#[derive(Clone, Copy, Debug, PartialEq, Eq, Structural)]
pub enum RegistryError {
    /// The topic is already registered for this registry.
    DuplicateTopic,
    /// The topic was never registered.
    UnknownTopic,
}

/// A producer lifecycle operation was called in the wrong state: a
/// programming error, reported distinctly from runtime and network errors.
#[derive(Clone, Copy, Debug, PartialEq, Eq, Structural)]
pub enum StateError {
    /// `start` was called on a producer that is not `Ready`.
    NotReady,
    /// `stop` was called on a producer that is not `Running`.
    NotRunning,
}

} // verus!
