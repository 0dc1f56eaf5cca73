//! The producer: a client bound to a fixed topic set at construction time.
//!
//! Construction follows the all-or-nothing policy: duplicate topics are
//! rejected before any network activity, then the client connects and
//! subscribes to every topic in input order, and the first failure aborts
//! construction, closes the connection, and leaves the producer `Failed`
//! with an error naming the failed topic and reason. The constructor is the
//! only place subscriptions are established for the lifetime of a producer.

use crate::client::{resolved_state, subscribe_outcome, BrokerReply, Client};
use crate::connection::{ConnectOutcome, Connection, ConnectionState};
use crate::errors::{ConnectError, PublishError, StateError, SubscribeError};
use crate::registry::SubscriptionState;
use vstd::prelude::*;

verus! {

/// Lifecycle state of a producer.
#[derive(Clone, Copy, Debug, PartialEq, Eq, Structural)]
pub enum ProducerState {
    /// Construction in progress: connecting and subscribing.
    Initializing,
    /// Every subscription is confirmed; `start` may be called.
    Ready,
    /// Publish requests are accepted.
    Running,
    /// Stopped and torn down; terminal.
    Stopped,
    /// Construction failed; terminal — the producer must be reconstructed,
    /// not repaired.
    Failed,
}

/// Why construction failed, naming the topic where one is at fault.
#[derive(Debug)]
pub enum BuildError {
    /// The topic set contains `topic` twice; rejected before any network
    /// call.
    DuplicateTopic { topic: String },
    /// The connection to the broker could not be established.
    Connect(ConnectError),
    /// Subscribing to `topic` failed; under the all-or-nothing policy this
    /// aborts the whole construction.
    Subscribe { topic: String, error: SubscribeError },
}

/// Whether no topic name appears twice in the input sequence.
pub open spec fn no_duplicate_topics(topics: Seq<String>) -> bool {
    forall|i: int, j: int| 0 <= i < j < topics.len() ==> topics[i]@ != topics[j]@
}

/// Whether the reply sequences of the first `k` topics all resolve
/// successfully under the retry budget `budget`.
pub open spec fn all_ok_before(replies: Seq<Vec<BrokerReply>>, k: int, budget: nat) -> bool {
    forall|i: int| 0 <= i < k ==> subscribe_outcome((#[trigger] replies[i])@, budget) is Ok
}

/// A message producer over one exclusively-owned client.
pub struct Producer {
    /// The client carrying the connection and the subscription registry.
    pub client: Client,
    /// Current lifecycle state.
    pub state: ProducerState,
    /// The error that aborted construction, exactly when `state` is
    /// `Failed`.
    pub failure: Option<BuildError>,
}

impl Producer {
    /// Whether every registry entry is `Confirmed`.
    pub open spec fn all_confirmed(self) -> bool {
        forall|i: int|
            0 <= i < self.client.registry.entries@.len()
                ==> (#[trigger] self.client.registry.entries@[i]).state
                == SubscriptionState::Confirmed
    }

    /// Well-formedness: the client is well-formed; a producer is never
    /// `Ready` or `Running` unless every requested subscription is
    /// `Confirmed` (so none is still `Pending`); and it is `Failed` exactly
    /// when a construction error is recorded.
    pub open spec fn wf(self) -> bool {
        &&& self.client.wf()
        &&& (self.state == ProducerState::Ready || self.state == ProducerState::Running)
            ==> self.all_confirmed()
        &&& (self.state == ProducerState::Failed <==> self.failure is Some)
    }

    /// Builds a producer for `topics` against the broker at `endpoint`,
    /// under the all-or-nothing policy.
    ///
    /// The caller performs the network exchanges and reports what it
    /// observed: `dial` is the outcome of the connect handshake, and
    /// `replies[k]` are the broker's per-attempt answers for topic `k`, in
    /// order. Duplicates are rejected before any network call; otherwise the
    /// client connects and subscribes to each topic in input order, and the
    /// first failure aborts construction, closes the connection (nothing is
    /// leaked), and records the failed topic and reason. On success every
    /// topic has one `Confirmed` entry, in input order.
    pub fn new(
        topics: Vec<String>,
        endpoint: String,
        retry_budget: u64,
        dial: ConnectOutcome,
        replies: &Vec<Vec<BrokerReply>>,
    ) -> (p: Producer)
        requires
            replies@.len() == topics@.len(),
            forall|i: int| 0 <= i < topics@.len() ==> (#[trigger] topics@[i])@.len() > 0,
        ensures
            p.wf(),
            p.client.retry_budget == retry_budget,
            p.state == ProducerState::Ready || p.state == ProducerState::Failed,
            !no_duplicate_topics(topics@) ==> {
                &&& p.state == ProducerState::Failed
                &&& p.failure matches Some(BuildError::DuplicateTopic { topic }) && (exists|
                    i: int,
                    j: int,
                |
                    0 <= i < j < topics@.len() && topics@[i]@ == topic@ && topics@[j]@ == topic@)
                &&& p.client.connection.state == ConnectionState::Disconnected
                &&& p.client.connection.last_error is None
                &&& p.client.registry.entries@.len() == 0
            },
            no_duplicate_topics(topics@) && dial != ConnectOutcome::Accepted ==> {
                &&& p.state == ProducerState::Failed
                &&& p.failure matches Some(BuildError::Connect(error)) && {
                    &&& (dial == ConnectOutcome::Unreachable ==> error == ConnectError::Unreachable)
                    &&& (dial == ConnectOutcome::Rejected ==> error == ConnectError::Rejected)
                    &&& p.client.connection.last_error == Some(error)
                }
                &&& p.client.connection.state == ConnectionState::Disconnected
                &&& p.client.registry.entries@.len() == 0
            },
            no_duplicate_topics(topics@) && dial == ConnectOutcome::Accepted && all_ok_before(
                replies@,
                topics@.len() as int,
                retry_budget as nat,
            ) ==> {
                &&& p.state == ProducerState::Ready
                &&& p.failure is None
                &&& p.client.connection.state == ConnectionState::Connected
                &&& p.client.registry.entries@.len() == topics@.len()
                &&& forall|i: int|
                    0 <= i < topics@.len() ==> {
                        &&& (#[trigger] p.client.registry.entries@[i]).topic@ == topics@[i]@
                        &&& p.client.registry.entries@[i].state == SubscriptionState::Confirmed
                    }
            },
            forall|k: int|
                no_duplicate_topics(topics@) && dial == ConnectOutcome::Accepted && 0 <= k
                    < topics@.len() && #[trigger] all_ok_before(replies@, k, retry_budget as nat)
                    && !(subscribe_outcome(replies@[k]@, retry_budget as nat) is Ok) ==> {
                    &&& p.state == ProducerState::Failed
                    &&& p.client.connection.state == ConnectionState::Closed
                    &&& p.client.registry.entries@.len() == k + 1
                    &&& forall|i: int|
                        0 <= i < k ==> {
                            &&& (#[trigger] p.client.registry.entries@[i]).topic@ == topics@[i]@
                            &&& p.client.registry.entries@[i].state == SubscriptionState::Confirmed
                        }
                    &&& p.client.registry.entries@[k].topic@ == topics@[k]@
                    &&& p.client.registry.entries@[k].state == resolved_state(
                        subscribe_outcome(replies@[k]@, retry_budget as nat),
                    )
                    &&& p.failure matches Some(BuildError::Subscribe { topic, error }) && topic@
                        == topics@[k]@ && Err::<(), SubscribeError>(error) == subscribe_outcome(
                        replies@[k]@,
                        retry_budget as nat,
                    )
                },
    {
        let mut client = Client::new(retry_budget);
        // Fail fast on duplicates: no network call has happened yet.
        if let Some(topic) = first_duplicate(&topics) {
            return Producer {
                client,
                state: ProducerState::Failed,
                failure: Some(BuildError::DuplicateTopic { topic }),
            };
        }
        if let Err(error) = client.connect(endpoint, dial) {
            return Producer {
                client,
                state: ProducerState::Failed,
                failure: Some(BuildError::Connect(error)),
            };
        }
        let n = topics.len();
        let mut k: usize = 0;
        while k < n
            invariant
                k <= n,
                n == topics@.len(),
                replies@.len() == n,
                dial == ConnectOutcome::Accepted,
                no_duplicate_topics(topics@),
                client.wf(),
                client.retry_budget == retry_budget,
                client.connection.state == ConnectionState::Connected,
                client.registry.entries@.len() == k,
                forall|i: int|
                    0 <= i < k ==> {
                        &&& (#[trigger] client.registry.entries@[i]).topic@ == topics@[i]@
                        &&& client.registry.entries@[i].state == SubscriptionState::Confirmed
                    },
                forall|i: int|
                    0 <= i < k ==> subscribe_outcome(
                        (#[trigger] replies@[i])@,
                        retry_budget as nat,
                    ) is Ok,
            decreases n - k,
        {
            proof {
                assert forall|i: int|
                    0 <= i < client.registry.entries@.len() implies client.registry.entries@[
                    i
                ].topic@ != topics@[k as int]@ by {
                    assert(topics@[i]@ != topics@[k as int]@);
                }
            }
            let topic = topics[k].clone();
            match client.subscribe(topic, &replies[k]) {
                Ok(()) => {},
                Err(error) => {
                    // All-or-nothing: abort, release the connection, report
                    // the topic at fault.
                    client.connection.close();
                    return Producer {
                        client,
                        state: ProducerState::Failed,
                        failure: Some(
                            BuildError::Subscribe { topic: topics[k].clone(), error },
                        ),
                    };
                },
            }
            k += 1;
        }
        Producer { client, state: ProducerState::Ready, failure: None }
    }

    /// Begins accepting publish requests: `Ready → Running`. On any other
    /// state this is a programming error: it reports `NotReady` and changes
    /// nothing — in particular it never transitions a `Failed` producer.
    pub fn start(&mut self) -> (r: Result<(), StateError>)
        requires
            old(self).wf(),
        ensures
            final(self).wf(),
            old(self).state == ProducerState::Ready ==> {
                &&& r == Ok::<(), StateError>(())
                &&& final(self).state == ProducerState::Running
                &&& final(self).client == old(self).client
                &&& final(self).failure == old(self).failure
            },
            old(self).state != ProducerState::Ready ==> {
                &&& r == Err::<(), StateError>(StateError::NotReady)
                &&& *final(self) == *old(self)
            },
    {
        if matches!(self.state, ProducerState::Ready) {
            self.state = ProducerState::Running;
            Ok(())
        } else {
            Err(StateError::NotReady)
        }
    }

    /// Stops a running producer: `Running → Stopped`, closing the client.
    /// On any other state this reports `NotRunning` and changes nothing.
    pub fn stop(&mut self) -> (r: Result<(), StateError>)
        requires
            old(self).wf(),
        ensures
            final(self).wf(),
            old(self).state == ProducerState::Running ==> {
                &&& r == Ok::<(), StateError>(())
                &&& final(self).state == ProducerState::Stopped
                &&& final(self).client.connection == Connection::spec_close(
                    old(self).client.connection,
                )
                &&& final(self).client.registry.entries@.len() == 0
                &&& final(self).failure is None
            },
            old(self).state != ProducerState::Running ==> {
                &&& r == Err::<(), StateError>(StateError::NotRunning)
                &&& *final(self) == *old(self)
            },
    {
        if matches!(self.state, ProducerState::Running) {
            self.client.close();
            self.state = ProducerState::Stopped;
            Ok(())
        } else {
            Err(StateError::NotRunning)
        }
    }

    /// Publishes `payload` on `topic` through the client. Fails with
    /// `NotSubscribed` — whatever the connection's state — for any topic
    /// whose subscription is not `Confirmed`, so in particular for every
    /// topic outside the original topic set.
    pub fn publish(&mut self, topic: &String, payload: &Vec<u8>, delivered: bool) -> (r: Result<
        (),
        PublishError,
    >)
        requires
            old(self).wf(),
            old(self).state == ProducerState::Running,
        ensures
            final(self).wf(),
            final(self).state == old(self).state,
            final(self).failure == old(self).failure,
            final(self).client.registry == old(self).client.registry,
            !old(self).client.registry.has_state(topic@, SubscriptionState::Confirmed) ==> {
                &&& r == Err::<(), PublishError>(PublishError::NotSubscribed)
                &&& *final(self) == *old(self)
            },
            old(self).client.registry.has_state(topic@, SubscriptionState::Confirmed) ==> {
                &&& (old(self).client.connection.state != ConnectionState::Connected ==> {
                    &&& r == Err::<(), PublishError>(PublishError::Transport)
                    &&& *final(self) == *old(self)
                })
                &&& (old(self).client.connection.state == ConnectionState::Connected && delivered
                    ==> {
                    &&& r == Ok::<(), PublishError>(())
                    &&& *final(self) == *old(self)
                })
                &&& (old(self).client.connection.state == ConnectionState::Connected && !delivered
                    ==> {
                    &&& r == Err::<(), PublishError>(PublishError::Transport)
                    &&& final(self).client.connection.state == ConnectionState::Disconnected
                })
            },
    {
        self.client.publish(topic, payload, delivered)
    }
}

/// A well-formed producer never rests in `Ready` or `Running` while any
/// requested topic's subscription is still `Pending`: every entry is
/// `Confirmed`, so none is unresolved.
pub proof fn lemma_ready_implies_resolved(p: Producer)
    requires
        p.wf(),
        p.state == ProducerState::Ready || p.state == ProducerState::Running,
    ensures
        p.all_confirmed(),
        p.client.registry.spec_all_resolved(),
{
    assert forall|i: int| 0 <= i < p.client.registry.entries@.len() implies p.client.registry.entries@[
        i
    ].state != SubscriptionState::Pending by {
        assert(p.client.registry.entries@[i].state == SubscriptionState::Confirmed);
    }
}

/// Finds a topic name that appears twice, if any: the witness that
/// construction must be rejected before any network call.
fn first_duplicate(topics: &Vec<String>) -> (r: Option<String>)
    ensures
        match r {
            None => no_duplicate_topics(topics@),
            Some(t) => exists|i: int, j: int|
                0 <= i < j < topics@.len() && topics@[i]@ == t@ && topics@[j]@ == t@,
        },
{
    let n = topics.len();
    let mut j: usize = 1;
    while j < n
        invariant
            1 <= j || n == 0,
            j <= n || (n == 0 && j == 1),
            n == topics@.len(),
            forall|a: int, b: int| 0 <= a < b < j ==> topics@[a]@ != topics@[b]@,
        decreases n - j,
    {
        let mut i: usize = 0;
        while i < j
            invariant
                i <= j,
                j < n,
                n == topics@.len(),
                forall|a: int| 0 <= a < i ==> topics@[a]@ != topics@[j as int]@,
            decreases j - i,
        {
            if topics[i].eq(&topics[j]) {
                return Some(topics[j].clone());
            }
            i += 1;
        }
        j += 1;
    }
    None
}

} // verus!
