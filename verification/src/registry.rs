//! The subscription registry: per-topic registration state for one client.
//!
//! One entry per topic, kept in registration (insertion) order for
//! deterministic reporting. Each entry moves `Pending → Confirmed` or
//! `Pending → Failed{reason}`; both right-hand states are terminal, and the
//! registry refuses to register the same topic twice.

use crate::errors::RegistryError;
use vstd::prelude::*;

verus! {

/// Why a subscription ended in the `Failed` state.
#[derive(Clone, Copy, Debug, PartialEq, Eq, Structural)]
pub enum FailReason {
    /// The broker refused the subscription.
    Rejected,
    /// The bounded wait for an acknowledgment elapsed too often.
    Timeout,
    /// The connection dropped while the request was in flight.
    ConnectionLost,
}

/// Registration state of one topic.
#[derive(Clone, Copy, Debug, PartialEq, Eq, Structural)]
pub enum SubscriptionState {
    /// The request was sent; no outcome has been recorded yet.
    Pending,
    /// The broker acknowledged the subscription; terminal.
    Confirmed,
    /// The subscription failed for the recorded reason; terminal.
    Failed(FailReason),
}

/// The registered interest of a client in one topic.
pub struct Subscription {
    /// The topic name; immutable once registered.
    pub topic: String,
    /// Current registration state.
    pub state: SubscriptionState,
}

/// All subscriptions of one client, in registration order.
pub struct Registry {
    /// The entries, ordered by registration; topics are unique.
    pub entries: Vec<Subscription>,
}

impl Registry {
    /// Well-formedness: no topic appears twice.
    pub open spec fn wf(self) -> bool {
        forall|i: int, j: int|
            0 <= i < j < self.entries@.len() ==> self.entries@[i].topic@ != self.entries@[j].topic@
    }

    /// Whether `topic` has an entry.
    pub open spec fn contains_topic(self, topic: Seq<char>) -> bool {
        exists|i: int| 0 <= i < self.entries@.len() && self.entries@[i].topic@ == topic
    }

    /// Whether `topic` has an entry in state `state`.
    pub open spec fn has_state(self, topic: Seq<char>, state: SubscriptionState) -> bool {
        exists|i: int|
            0 <= i < self.entries@.len() && self.entries@[i].topic@ == topic
                && self.entries@[i].state == state
    }

    /// Whether every entry with this topic is in state `state` — with `wf`,
    /// the state of the unique entry, vacuously true for an absent topic.
    pub open spec fn state_is(self, topic: Seq<char>, state: SubscriptionState) -> bool {
        forall|i: int|
            0 <= i < self.entries@.len() && self.entries@[i].topic@ == topic
                ==> self.entries@[i].state == state
    }

    /// Whether no entry is still `Pending`.
    pub open spec fn spec_all_resolved(self) -> bool {
        forall|i: int|
            0 <= i < self.entries@.len() ==> self.entries@[i].state != SubscriptionState::Pending
    }

    /// Creates an empty registry.
    pub fn new() -> (r: Registry)
        ensures
            r.entries@ =~= Seq::<Subscription>::empty(),
            r.wf(),
    {
        Registry { entries: Vec::new() }
    }

    /// The number of registered topics.
    pub fn len(&self) -> (n: usize)
        ensures
            n == self.entries@.len(),
    {
        self.entries.len()
    }

    /// Looks up `topic`, reporting its position if present.
    pub fn find(&self, topic: &String) -> (r: Option<usize>)
        ensures
            match r {
                Some(i) => i < self.entries@.len() && self.entries@[i as int].topic@ == topic@,
                None => !self.contains_topic(topic@),
            },
    {
        let n = self.entries.len();
        let mut k: usize = 0;
        while k < n
            invariant
                k <= n,
                n == self.entries@.len(),
                forall|i: int| 0 <= i < k ==> self.entries@[i].topic@ != topic@,
            decreases n - k,
        {
            if self.entries[k].topic.eq(topic) {
                return Some(k);
            }
            k += 1;
        }
        None
    }

    /// Inserts a `Pending` entry for `topic` at the end of the registration
    /// order; refuses a topic that is already present, leaving the registry
    /// unchanged.
    pub fn register(&mut self, topic: String) -> (r: Result<(), RegistryError>)
        ensures
            old(self).contains_topic(topic@) ==> {
                &&& r == Err::<(), RegistryError>(RegistryError::DuplicateTopic)
                &&& *final(self) == *old(self)
            },
            !old(self).contains_topic(topic@) ==> {
                &&& r == Ok::<(), RegistryError>(())
                &&& final(self).entries@ == old(self).entries@.push(
                    (Subscription { topic, state: SubscriptionState::Pending }),
                )
            },
            old(self).wf() ==> final(self).wf(),
    {
        if self.find(&topic).is_some() {
            return Err(RegistryError::DuplicateTopic);
        }
        self.entries.push(Subscription { topic, state: SubscriptionState::Pending });
        Ok(())
    }

    /// Moves the entry for `topic` from `Pending` into `to`. Fails with
    /// `UnknownTopic` if the topic was never registered; the caller must not
    /// transition an entry out of a terminal state.
    fn transition(&mut self, topic: &String, to: SubscriptionState) -> (r: Result<
        (),
        RegistryError,
    >)
        requires
            old(self).wf(),
            old(self).state_is(topic@, SubscriptionState::Pending),
            to != SubscriptionState::Pending,
        ensures
            final(self).wf(),
            final(self).entries@.len() == old(self).entries@.len(),
            old(self).contains_topic(topic@) ==> r == Ok::<(), RegistryError>(()),
            !old(self).contains_topic(topic@) ==> {
                &&& r == Err::<(), RegistryError>(RegistryError::UnknownTopic)
                &&& *final(self) == *old(self)
            },
            forall|i: int|
                0 <= i < old(self).entries@.len() && old(self).entries@[i].topic@ != topic@
                    ==> final(self).entries@[i] == old(self).entries@[i],
            forall|i: int|
                0 <= i < old(self).entries@.len() && old(self).entries@[i].topic@ == topic@ ==> {
                    &&& final(self).entries@[i].topic == old(self).entries@[i].topic
                    &&& final(self).entries@[i].state == to
                },
    {
        let found = self.find(topic);
        match found {
            None => Err(RegistryError::UnknownTopic),
            Some(k) => {
                self.entries[k].state = to;
                assert forall|i: int|
                    0 <= i < old(self).entries@.len() && old(self).entries@[i].topic@
                        == topic@ implies self.entries@[i].state == to by {
                    if i != k as int {
                        assert(old(self).entries@[i].topic@ != old(self).entries@[
                            k as int
                        ].topic@);
                    }
                }
                Ok(())
            },
        }
    }

    /// Records the broker's acknowledgment for `topic`: `Pending →
    /// Confirmed`. Fails with `UnknownTopic` if the topic was never
    /// registered.
    pub fn mark_confirmed(&mut self, topic: &String) -> (r: Result<(), RegistryError>)
        requires
            old(self).wf(),
            old(self).state_is(topic@, SubscriptionState::Pending),
        ensures
            final(self).wf(),
            final(self).entries@.len() == old(self).entries@.len(),
            old(self).contains_topic(topic@) ==> r == Ok::<(), RegistryError>(()),
            !old(self).contains_topic(topic@) ==> {
                &&& r == Err::<(), RegistryError>(RegistryError::UnknownTopic)
                &&& *final(self) == *old(self)
            },
            forall|i: int|
                0 <= i < old(self).entries@.len() && old(self).entries@[i].topic@ != topic@
                    ==> final(self).entries@[i] == old(self).entries@[i],
            forall|i: int|
                0 <= i < old(self).entries@.len() && old(self).entries@[i].topic@ == topic@ ==> {
                    &&& final(self).entries@[i].topic == old(self).entries@[i].topic
                    &&& final(self).entries@[i].state == SubscriptionState::Confirmed
                },
    {
        self.transition(topic, SubscriptionState::Confirmed)
    }

    /// Records a failure for `topic`: `Pending → Failed{reason}`. Fails with
    /// `UnknownTopic` if the topic was never registered.
    pub fn mark_failed(&mut self, topic: &String, reason: FailReason) -> (r: Result<
        (),
        RegistryError,
    >)
        requires
            old(self).wf(),
            old(self).state_is(topic@, SubscriptionState::Pending),
        ensures
            final(self).wf(),
            final(self).entries@.len() == old(self).entries@.len(),
            old(self).contains_topic(topic@) ==> r == Ok::<(), RegistryError>(()),
            !old(self).contains_topic(topic@) ==> {
                &&& r == Err::<(), RegistryError>(RegistryError::UnknownTopic)
                &&& *final(self) == *old(self)
            },
            forall|i: int|
                0 <= i < old(self).entries@.len() && old(self).entries@[i].topic@ != topic@
                    ==> final(self).entries@[i] == old(self).entries@[i],
            forall|i: int|
                0 <= i < old(self).entries@.len() && old(self).entries@[i].topic@ == topic@ ==> {
                    &&& final(self).entries@[i].topic == old(self).entries@[i].topic
                    &&& final(self).entries@[i].state == SubscriptionState::Failed(reason)
                },
    {
        self.transition(topic, SubscriptionState::Failed(reason))
    }

    /// Whether no entry remains `Pending`.
    pub fn all_resolved(&self) -> (r: bool)
        ensures
            r == self.spec_all_resolved(),
    {
        let n = self.entries.len();
        let mut k: usize = 0;
        while k < n
            invariant
                k <= n,
                n == self.entries@.len(),
                forall|i: int|
                    0 <= i < k ==> self.entries@[i].state != SubscriptionState::Pending,
            decreases n - k,
        {
            if matches!(self.entries[k].state, SubscriptionState::Pending) {
                return false;
            }
            k += 1;
        }
        true
    }

    /// The per-topic outcomes, ordered by registration order, for
    /// deterministic reporting.
    pub fn outcomes(&self) -> (r: &Vec<Subscription>)
        ensures
            r@ == self.entries@,
    {
        &self.entries
    }

    /// The state recorded at position `i` of the registration order.
    pub fn state_at(&self, i: usize) -> (s: SubscriptionState)
        requires
            i < self.entries@.len(),
        ensures
            s == self.entries@[i as int].state,
    {
        self.entries[i].state
    }

    /// The topic registered at position `i` of the registration order.
    pub fn topic_at(&self, i: usize) -> (t: &String)
        requires
            i < self.entries@.len(),
        ensures
            t == self.entries@[i as int].topic,
    {
        &self.entries[i].topic
    }
}

} // verus!
