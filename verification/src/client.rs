//! The client: one connection plus one subscription registry.
//!
//! The client owns the retry policy: a subscription request that times out is
//! retried up to a fixed budget (with exponential backoff between attempts,
//! computed by [`backoff_delay_ms`]); a broker rejection is authoritative and
//! never retried. The broker's per-attempt answers reach the client as a
//! sequence of [`BrokerReply`] values observed by the caller; the client
//! decides the outcome and records it in the registry.

use crate::connection::{ConnectOutcome, Connection, ConnectionState};
use crate::errors::{ConnectError, PublishError, SubscribeError};
use crate::registry::{FailReason, Registry, Subscription, SubscriptionState};
use vstd::prelude::*;

verus! {

/// The broker's answer to one subscription attempt, as observed by the
/// caller that performed the exchange.
#[derive(Clone, Copy, Debug, PartialEq, Eq, Structural)]
pub enum BrokerReply {
    /// The broker acknowledged the subscription.
    Ack,
    /// The broker refused the subscription; authoritative, never retried.
    Rejection,
    /// The bounded wait for an acknowledgment elapsed.
    Timeout,
    /// The connection dropped while the request was in flight.
    ConnectionLost,
}

/// Base delay before the first retry, in milliseconds.
pub const BACKOFF_BASE_MS: u64 = 100;

/// Upper bound on any single backoff delay, in milliseconds.
pub const BACKOFF_CAP_MS: u64 = 10000;

/// 2 to the power `n`.
pub open spec fn pow2(n: nat) -> nat
    decreases n,
{
    if n == 0 {
        1
    } else {
        2 * pow2((n - 1) as nat)
    }
}

/// The outcome of one subscription request under the bounded retry policy,
/// given the broker's per-attempt replies in order: the first reply that is
/// not a timeout decides; each timeout consumes one unit of `budget`; a
/// timeout past the budget — or an exhausted reply sequence — is a timeout
/// failure.
pub open spec fn subscribe_outcome(replies: Seq<BrokerReply>, budget: nat) -> Result<
    (),
    SubscribeError,
>
    decreases replies.len(),
{
    if replies.len() == 0 {
        Err(SubscribeError::Timeout)
    } else {
        match replies[0] {
            BrokerReply::Ack => Ok(()),
            BrokerReply::Rejection => Err(SubscribeError::Rejected),
            BrokerReply::ConnectionLost => Err(SubscribeError::ConnectionLost),
            BrokerReply::Timeout => if budget == 0 {
                Err(SubscribeError::Timeout)
            } else {
                subscribe_outcome(replies.drop_first(), (budget - 1) as nat)
            },
        }
    }
}

/// The terminal registry state that records a subscription outcome.
/// `DuplicateTopic` is rejected before any entry exists, so no registry
/// state corresponds to it; the arm is mapped to `Pending` and never used.
pub open spec fn resolved_state(r: Result<(), SubscribeError>) -> SubscriptionState {
    match r {
        Ok(_) => SubscriptionState::Confirmed,
        Err(SubscribeError::Rejected) => SubscriptionState::Failed(FailReason::Rejected),
        Err(SubscribeError::Timeout) => SubscriptionState::Failed(FailReason::Timeout),
        Err(SubscribeError::ConnectionLost) => SubscriptionState::Failed(
            FailReason::ConnectionLost,
        ),
        Err(SubscribeError::DuplicateTopic) => SubscriptionState::Pending,
    }
}

/// The delay before retry number `attempt` (counted from 0), in
/// milliseconds: exponential backoff from [`BACKOFF_BASE_MS`], capped at
/// [`BACKOFF_CAP_MS`].
pub fn backoff_delay_ms(attempt: u64) -> (r: u64)
    ensures
        BACKOFF_BASE_MS * pow2(attempt as nat) <= BACKOFF_CAP_MS ==> r == BACKOFF_BASE_MS * pow2(
            attempt as nat,
        ),
        BACKOFF_BASE_MS * pow2(attempt as nat) > BACKOFF_CAP_MS ==> r == BACKOFF_CAP_MS,
{
    let mut d: u64 = BACKOFF_BASE_MS;
    let mut k: u64 = 0;
    while k < attempt
        invariant
            k <= attempt,
            d as nat == BACKOFF_BASE_MS * pow2(k as nat) || (d == BACKOFF_CAP_MS
                && BACKOFF_BASE_MS * pow2(k as nat) > BACKOFF_CAP_MS),
            d <= BACKOFF_CAP_MS,
        decreases attempt - k,
    {
        assert(pow2(k as nat + 1) == 2 * pow2(k as nat));
        if d <= BACKOFF_CAP_MS / 2 {
            d = d * 2;
            if d > BACKOFF_CAP_MS {
                d = BACKOFF_CAP_MS;
            }
        } else {
            d = BACKOFF_CAP_MS;
        }
        k += 1;
    }
    d
}

/// A producer-side client: the connection and the subscription registry it
/// exclusively owns, plus the retry budget its policy allows per
/// subscription.
pub struct Client {
    /// The single logical link to the broker.
    pub connection: Connection,
    /// Per-topic registration state, in registration order.
    pub registry: Registry,
    /// How many retries a timed-out subscription attempt may consume.
    pub retry_budget: u64,
}

impl Client {
    /// Well-formedness: the registry holds each topic at most once.
    pub open spec fn wf(self) -> bool {
        self.registry.wf()
    }

    /// Constructs a client with a disconnected connection and an empty
    /// registry. No network activity is implied: the caller dials only when
    /// [`Client::connect`] is called.
    pub fn new(retry_budget: u64) -> (c: Client)
        ensures
            c.wf(),
            c.connection.state == ConnectionState::Disconnected,
            c.connection.last_error is None,
            c.registry.entries@ =~= Seq::<Subscription>::empty(),
            c.retry_budget == retry_budget,
    {
        Client {
            connection: Connection::new(String::new()),
            registry: Registry::new(),
            retry_budget,
        }
    }

    /// Points the connection at `endpoint` and records the dial outcome the
    /// caller observed. On failure the error is both returned and left in
    /// the connection's last-error slot.
    pub fn connect(&mut self, endpoint: String, outcome: ConnectOutcome) -> (r: Result<
        (),
        ConnectError,
    >)
        requires
            old(self).wf(),
            old(self).connection.state == ConnectionState::Disconnected,
        ensures
            final(self).wf(),
            final(self).registry == old(self).registry,
            final(self).retry_budget == old(self).retry_budget,
            final(self).connection.endpoint@ == endpoint@,
            outcome == ConnectOutcome::Accepted ==> {
                &&& r == Ok::<(), ConnectError>(())
                &&& final(self).connection.state == ConnectionState::Connected
                &&& final(self).connection.last_error is None
            },
            outcome == ConnectOutcome::Unreachable ==> {
                &&& r == Err::<(), ConnectError>(ConnectError::Unreachable)
                &&& final(self).connection.state == ConnectionState::Disconnected
                &&& final(self).connection.last_error == Some(ConnectError::Unreachable)
            },
            outcome == ConnectOutcome::Rejected ==> {
                &&& r == Err::<(), ConnectError>(ConnectError::Rejected)
                &&& final(self).connection.state == ConnectionState::Disconnected
                &&& final(self).connection.last_error == Some(ConnectError::Rejected)
            },
    {
        self.connection = Connection::new(endpoint);
        self.connection.begin_connect();
        self.connection.complete_connect(outcome)
    }

    /// Issues one subscription request for `topic` and resolves it against
    /// the broker replies the caller observed, retrying timeouts within the
    /// budget. A duplicate topic is refused before anything is sent; any
    /// other outcome leaves a terminal registry entry for the topic, and a
    /// lost connection additionally drops the link to `Disconnected` — the
    /// client never resubscribes on its own.
    pub fn subscribe(&mut self, topic: String, replies: &Vec<BrokerReply>) -> (r: Result<
        (),
        SubscribeError,
    >)
        requires
            old(self).wf(),
            old(self).connection.state == ConnectionState::Connected,
        ensures
            final(self).wf(),
            final(self).retry_budget == old(self).retry_budget,
            old(self).registry.contains_topic(topic@) ==> {
                &&& r == Err::<(), SubscribeError>(SubscribeError::DuplicateTopic)
                &&& *final(self) == *old(self)
            },
            !old(self).registry.contains_topic(topic@) ==> {
                &&& r == subscribe_outcome(replies@, old(self).retry_budget as nat)
                &&& final(self).registry.entries@.len() == old(self).registry.entries@.len() + 1
                &&& forall|i: int|
                    0 <= i < old(self).registry.entries@.len() ==> final(self).registry.entries@[i]
                        == old(self).registry.entries@[i]
                &&& final(self).registry.entries@.last().topic@ == topic@
                &&& final(self).registry.entries@.last().state == resolved_state(r)
                &&& (r == Err::<(), SubscribeError>(SubscribeError::ConnectionLost) ==> {
                    &&& final(self).connection.state == ConnectionState::Disconnected
                    &&& final(self).connection.endpoint == old(self).connection.endpoint
                    &&& final(self).connection.last_error == old(self).connection.last_error
                })
                &&& (r != Err::<(), SubscribeError>(SubscribeError::ConnectionLost)
                    ==> final(self).connection == old(self).connection)
            },
    {
        let key = topic.clone();
        if self.registry.register(topic).is_err() {
            return Err(SubscribeError::DuplicateTopic);
        }
        let ghost pre = self.registry.entries@;
        let ghost last = (pre.len() - 1) as int;
        proof {
            assert(pre[last].topic@ == key@);
            assert(self.registry.contains_topic(key@));
            assert forall|i: int|
                0 <= i < pre.len() && pre[i].topic@ == key@ implies pre[i].state
                == SubscriptionState::Pending by {
                if i < last {
                    assert(old(self).registry.entries@[i].topic@ != key@);
                }
            }
            assert(self.registry.state_is(key@, SubscriptionState::Pending));
        }
        let verdict = resolve_replies(replies, self.retry_budget);
        let r: Result<(), SubscribeError> = match verdict {
            Ok(()) => {
                // The solver needs the unit payload named before it equates
                // the branch result with the spec outcome.
                assert(verdict->Ok_0 == ());
                let marked = self.registry.mark_confirmed(&key);
                assert(marked is Ok);
                Ok(())
            },
            Err(SubscribeError::Rejected) => {
                let marked = self.registry.mark_failed(&key, FailReason::Rejected);
                assert(marked is Ok);
                Err(SubscribeError::Rejected)
            },
            Err(SubscribeError::ConnectionLost) => {
                let marked = self.registry.mark_failed(&key, FailReason::ConnectionLost);
                assert(marked is Ok);
                self.connection.state = ConnectionState::Disconnected;
                Err(SubscribeError::ConnectionLost)
            },
            Err(SubscribeError::Timeout) => {
                let marked = self.registry.mark_failed(&key, FailReason::Timeout);
                assert(marked is Ok);
                Err(SubscribeError::Timeout)
            },
            Err(SubscribeError::DuplicateTopic) => {
                proof {
                    lemma_outcome_not_duplicate(replies@, self.retry_budget as nat);
                }
                assert(false);
                Err(SubscribeError::DuplicateTopic)
            },
        };
        r
    }

    /// Publishes `payload` on `topic`. Fails with `NotSubscribed` — whatever
    /// the connection's state — unless the topic's subscription is
    /// `Confirmed`; otherwise forwards the frame on the connection, mapping
    /// any send failure to `Transport`.
    pub fn publish(&mut self, topic: &String, payload: &Vec<u8>, delivered: bool) -> (r: Result<
        (),
        PublishError,
    >)
        requires
            old(self).wf(),
        ensures
            final(self).wf(),
            final(self).registry == old(self).registry,
            final(self).retry_budget == old(self).retry_budget,
            !old(self).registry.has_state(topic@, SubscriptionState::Confirmed) ==> {
                &&& r == Err::<(), PublishError>(PublishError::NotSubscribed)
                &&& *final(self) == *old(self)
            },
            old(self).registry.has_state(topic@, SubscriptionState::Confirmed) ==> {
                &&& (old(self).connection.state != ConnectionState::Connected ==> {
                    &&& r == Err::<(), PublishError>(PublishError::Transport)
                    &&& *final(self) == *old(self)
                })
                &&& (old(self).connection.state == ConnectionState::Connected && delivered ==> {
                    &&& r == Ok::<(), PublishError>(())
                    &&& *final(self) == *old(self)
                })
                &&& (old(self).connection.state == ConnectionState::Connected && !delivered ==> {
                    &&& r == Err::<(), PublishError>(PublishError::Transport)
                    &&& final(self).connection.state == ConnectionState::Disconnected
                    &&& final(self).connection.endpoint == old(self).connection.endpoint
                })
            },
    {
        let confirmed = match self.registry.find(topic) {
            None => false,
            Some(k) => matches!(self.registry.state_at(k), SubscriptionState::Confirmed),
        };
        if !confirmed {
            return Err(PublishError::NotSubscribed);
        }
        match self.connection.send(payload, delivered) {
            Ok(()) => Ok(()),
            Err(_) => Err(PublishError::Transport),
        }
    }

    /// Scoped teardown: closes the connection and discards the registry
    /// entries (they are not persisted). Idempotent — closing a client that
    /// is already closed and empty changes nothing.
    pub fn close(&mut self)
        requires
            old(self).wf(),
        ensures
            final(self).wf(),
            final(self).retry_budget == old(self).retry_budget,
            final(self).connection == Connection::spec_close(old(self).connection),
            final(self).connection.state == ConnectionState::Closed,
            final(self).registry.entries@ =~= Seq::<Subscription>::empty(),
            old(self).connection.state == ConnectionState::Closed && old(
                self,
            ).registry.entries@.len() == 0 ==> {
                &&& final(self).connection == old(self).connection
                &&& final(self).registry.entries@ =~= old(self).registry.entries@
            },
    {
        self.connection.close();
        self.registry = Registry::new();
    }
}

/// Resolves one subscription request against the broker replies in order,
/// consuming one unit of `budget` per timeout.
fn resolve_replies(replies: &Vec<BrokerReply>, budget: u64) -> (r: Result<(), SubscribeError>)
    ensures
        r == subscribe_outcome(replies@, budget as nat),
{
    let n = replies.len();
    let mut k: usize = 0;
    let mut left: u64 = budget;
    assert(replies@.skip(0) =~= replies@);
    while k < n
        invariant
            k <= n,
            n == replies@.len(),
            left <= budget,
            subscribe_outcome(replies@, budget as nat) == subscribe_outcome(
                replies@.skip(k as int),
                left as nat,
            ),
        decreases n - k,
    {
        assert(replies@.skip(k as int)[0] == replies@[k as int]);
        match replies[k] {
            BrokerReply::Ack => {
                return Ok(());
            },
            BrokerReply::Rejection => {
                return Err(SubscribeError::Rejected);
            },
            BrokerReply::ConnectionLost => {
                return Err(SubscribeError::ConnectionLost);
            },
            BrokerReply::Timeout => {
                if left == 0 {
                    return Err(SubscribeError::Timeout);
                }
                assert(replies@.skip(k as int).drop_first() =~= replies@.skip(k as int + 1));
                left -= 1;
            },
        }
        k += 1;
    }
    Err(SubscribeError::Timeout)
}

/// A subscription outcome is decided by the broker replies alone, and a
/// duplicate topic is refused before anything is sent: resolving replies
/// never reports `DuplicateTopic`.
proof fn lemma_outcome_not_duplicate(replies: Seq<BrokerReply>, budget: nat)
    ensures
        subscribe_outcome(replies, budget) != Err::<(), SubscribeError>(
            SubscribeError::DuplicateTopic,
        ),
    decreases replies.len(),
{
    if replies.len() > 0 && replies[0] == BrokerReply::Timeout && budget > 0 {
        lemma_outcome_not_duplicate(replies.drop_first(), (budget - 1) as nat);
    }
}

/// A transient timeout, or any run of at most `budget` timeouts, followed by
/// a successful retry reaches a successful outcome: `k` timed-out attempts
/// within the budget and then an acknowledgment resolve the subscription.
pub proof fn lemma_retry_within_budget(replies: Seq<BrokerReply>, k: nat, budget: nat)
    requires
        k <= budget,
        k < replies.len(),
        forall|i: int| 0 <= i < k ==> replies[i] == BrokerReply::Timeout,
        replies[k as int] == BrokerReply::Ack,
    ensures
        subscribe_outcome(replies, budget) == Ok::<(), SubscribeError>(()),
    decreases k,
{
    if k > 0 {
        assert(replies[0] == BrokerReply::Timeout);
        assert(forall|i: int|
            0 <= i < k - 1 ==> replies.drop_first()[i] == replies[i + 1]
                && replies[i + 1] == BrokerReply::Timeout);
        lemma_retry_within_budget(replies.drop_first(), (k - 1) as nat, (budget - 1) as nat);
    }
}

/// Exceeding the retry budget fails the subscription with a timeout: if the
/// first `budget + 1` replies are all timeouts, the outcome is `Timeout`,
/// whatever follows.
pub proof fn lemma_retry_budget_exhausted(replies: Seq<BrokerReply>, budget: nat)
    requires
        budget < replies.len(),
        forall|i: int| 0 <= i <= budget ==> replies[i] == BrokerReply::Timeout,
    ensures
        subscribe_outcome(replies, budget) == Err::<(), SubscribeError>(SubscribeError::Timeout),
    decreases budget,
{
    if budget > 0 {
        assert(forall|i: int|
            0 <= i <= budget - 1 ==> replies.drop_first()[i] == replies[i + 1]
                && replies[i + 1] == BrokerReply::Timeout);
        lemma_retry_budget_exhausted(replies.drop_first(), (budget - 1) as nat);
    }
}

} // verus!
