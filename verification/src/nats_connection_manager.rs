//! Shared subscriptions to the subjects of a message bus.
//!
//! Many local consumers of one subject share a single subscription with the
//! bus. Its messages are pumped into a broadcast channel by a bridge task,
//! which holds the channel's sender; the registry holds a weak sender only
//! and has no share in the channel's life. A channel is live while it has a
//! receiver. Once the last receiver is gone the channel is stale, whether or
//! not its bridge has ended yet, and the next subscription to the subject
//! opens a new channel in its place. The bridge ends when the last receiver
//! is gone or the bus closes the subscription.
//!
//! The bus itself is not called from here. Its owner looks a subject up with
//! [`NatsConnectionManager::subscribe`]; where that finds no live channel it
//! subscribes with the bus and, if that succeeds, has a channel opened by
//! [`NatsConnectionManager::new_backhaul_connection_subscribe`]. Where the
//! bus refuses, nothing was changed.

use crate::broadcast::{
    channel, downgrade, receiver_count, send, subscribe, upgrade, BoundedSender,
};
use crate::registry::{counter_after, has_receiver, Handles};
use tokio::sync::broadcast::{Receiver, Sender, WeakSender};
use vstd::prelude::*;

verus! {

/// What a subscription with the bus is made for: a subject, and for a queue
/// subscription the queue group as well.
pub struct SubjectKey {
    pub subject: Seq<char>,
    pub queue_group: Option<Seq<char>>,
}

/// The key that a subject and, for a queue subscription, a queue group make.
pub open spec fn subject_key(subject: String, queue_group: Option<String>) -> SubjectKey {
    SubjectKey {
        subject: subject@,
        queue_group: match queue_group {
            Some(group) => Some(group@),
            None => None,
        },
    }
}

/// The number of receivers in what was seen of a channel: the sender, if one
/// could still be had, and the number of receivers counted on it.
pub open spec fn seen_count<T>(seen: Option<(Sender<T>, usize)>) -> Option<usize> {
    match seen {
        Some(pair) => Some(pair.1),
        None => None,
    }
}

/// The key of a plain subscription.
pub open spec fn plain(subject: Seq<char>) -> SubjectKey {
    SubjectKey { subject, queue_group: None }
}

/// The key of a queue subscription.
pub open spec fn queued(subject: Seq<char>, queue_group: Seq<char>) -> SubjectKey {
    SubjectKey { subject, queue_group: Some(queue_group) }
}

/// What the opening of a channel gave.
#[verifier::reject_recursive_types(T)]
pub enum Backhaul<T> {
    /// A live channel was there already. The receiver has joined it, and the
    /// new subscription with the bus is not needed.
    Joined(Receiver<T>),
    /// A channel was opened. The sender is for the bridge task that pumps the
    /// bus subscription into it; the receiver is the caller's.
    Opened(BoundedSender<T>, Receiver<T>),
}

/// What the bridge task of a channel waits for.
pub enum BridgeEvent<T> {
    /// The channel has lost its last receiver.
    ReceiversGone,
    /// The bus delivered a message.
    Message(T),
    /// The bus closed the subscription.
    UpstreamEnded,
}

/// What the bridge task does next.
#[derive(Debug, Clone, Copy, PartialEq, Eq, Structural)]
pub enum BridgeStep {
    /// The message went to this many receivers; wait for the next event.
    Forwarded(usize),
    /// End the task and let the subscription with the bus close.
    Stop,
}

/// What follows from an attempt to forward a message: the bridge goes on
/// where the message reached a receiver and stops where none was left.
pub fn after_forward(reached: Option<usize>) -> (step: BridgeStep)
    ensures
        step == (match reached {
            Some(n) => BridgeStep::Forwarded(n),
            None => BridgeStep::Stop,
        }),
{
    match reached {
        Some(n) => BridgeStep::Forwarded(n),
        None => BridgeStep::Stop,
    }
}

/// What follows from what was seen of a channel. A channel that was seen
/// with a receiver is live, and a new receiver joins it. One whose last
/// receiver is gone is stale and is not joined, though its sender could still
/// be had; neither is one whose sender is gone.
pub fn join_seen<T>(seen: Option<(Sender<T>, usize)>) -> (receiver: Option<Receiver<T>>)
    ensures
        receiver is Some == has_receiver(seen_count(seen)),
{
    match seen {
        Some((sender, count)) => {
            if count > 0 {
                Some(subscribe(&sender))
            } else {
                None
            }
        },
        None => None,
    }
}

/// One step of the bridge task of a channel.
///
/// A message of the bus is sent into the channel. The bridge stops when the
/// receivers are gone, when the bus has closed the subscription, and when a
/// message finds no receiver; whether it does is known only once it is sent.
pub fn drive_broadcast_channel<T>(sender: &Sender<T>, event: BridgeEvent<T>) -> (step: BridgeStep)
    ensures
        !(event is Message) ==> step is Stop,
        step matches BridgeStep::Forwarded(n) ==> n >= 1,
{
    match event {
        BridgeEvent::ReceiversGone => BridgeStep::Stop,
        BridgeEvent::UpstreamEnded => BridgeStep::Stop,
        BridgeEvent::Message(message) => after_forward(send(sender, message)),
    }
}

#[verifier::reject_recursive_types(T)]
struct Subscription<T> {
    subject: String,
    queue_group: Option<String>,
    serial: u64,
    limit: usize,
    sender: WeakSender<T>,
}

impl<T> Subscription<T> {
    spec fn key(self) -> SubjectKey {
        SubjectKey {
            subject: self.subject@,
            queue_group: match self.queue_group {
                Some(group) => Some(group@),
                None => None,
            },
        }
    }
}

spec fn key_of(subject: &String, queue_group: Option<&String>) -> SubjectKey {
    SubjectKey {
        subject: subject@,
        queue_group: match queue_group {
            Some(group) => Some(group@),
            None => None,
        },
    }
}

/// Centralizes the subscriptions with the bus, so that no subject has more
/// than one backhaul connection. `T` is the type of the bus's messages.
#[verifier::reject_recursive_types(T)]
pub struct NatsConnectionManager<T> {
    subscriptions: Vec<Subscription<T>>,
    opened: u64,
}

impl<T> NatsConnectionManager<T> {
    spec fn slot_holds(self, slot: int, key: SubjectKey) -> bool {
        0 <= slot < self.subscriptions@.len() && self.subscriptions@[slot].key() == key
    }

    spec fn slot_of(self, key: SubjectKey) -> int {
        choose|slot: int| self.slot_holds(slot, key)
    }
}

impl<T> View for NatsConnectionManager<T> {
    type V = Handles<SubjectKey>;

    closed spec fn view(&self) -> Handles<SubjectKey> {
        Handles {
            serial: Map::new(
                |key: SubjectKey| exists|slot: int| self.slot_holds(slot, key),
                |key: SubjectKey| self.subscriptions@[self.slot_of(key)].serial as nat,
            ),
            limit: Map::new(
                |key: SubjectKey| exists|slot: int| self.slot_holds(slot, key),
                |key: SubjectKey| self.subscriptions@[self.slot_of(key)].limit as nat,
            ),
            created: self.opened as nat,
        }
    }
}

impl<T: Clone> NatsConnectionManager<T> {
    /// No two slots hold the same key, and no serial number is ahead of the
    /// counter.
    pub closed spec fn wf(&self) -> bool {
        &&& forall|i: int, j: int|
            0 <= i < j < self.subscriptions@.len() ==> (#[trigger] self.subscriptions@[i]).key()
                != (#[trigger] self.subscriptions@[j]).key()
        &&& forall|i: int|
            0 <= i < self.subscriptions@.len() ==> 1 <= (#[trigger] self.subscriptions@[i]).serial
                <= self.opened
    }

    /// A well-formed registry holds serial numbers that are counted from 1
    /// and not ahead of the counter.
    pub proof fn lemma_view_wf(&self)
        requires
            self.wf(),
        ensures
            self@.wf(),
    {
        assert forall|key: SubjectKey| #[trigger] self@.serial.dom().contains(key) implies 1
            <= self@.serial[key] <= self@.created by {
            assert(self.slot_holds(self.slot_of(key), key));
        }
    }

    /// A registry without subscriptions.
    pub fn new() -> (manager: Self)
        ensures
            manager.wf(),
            manager@ == Handles::<SubjectKey>::empty(),
    {
        let manager = NatsConnectionManager { subscriptions: Vec::new(), opened: 0 };
        assert(manager@.serial =~= Handles::<SubjectKey>::empty().serial);
        assert(manager@.limit =~= Handles::<SubjectKey>::empty().limit);
        manager
    }

    /// How many channels this registry has opened.
    pub fn opened(&self) -> (count: u64)
        ensures
            count == self@.created,
    {
        self.opened
    }

    fn find(&self, subject: &String, queue_group: Option<&String>) -> (at: Option<usize>)
        ensures
            match at {
                Some(slot) => self.slot_holds(slot as int, key_of(subject, queue_group)),
                None => forall|slot: int| !self.slot_holds(slot, key_of(subject, queue_group)),
            },
    {
        let mut i: usize = 0;
        while i < self.subscriptions.len()
            invariant
                i <= self.subscriptions@.len(),
                forall|slot: int|
                    0 <= slot < i ==> !self.slot_holds(slot, key_of(subject, queue_group)),
            decreases self.subscriptions@.len() - i,
        {
            let held = &self.subscriptions[i];
            let same_group = match (&held.queue_group, queue_group) {
                (Some(a), Some(b)) => *a == *b,
                (None, None) => true,
                _ => false,
            };
            if same_group && held.subject == *subject {
                return Some(i);
            }
            i += 1;
        }
        None
    }

    fn serial_at(&self, subject: &String, queue_group: Option<&String>) -> (serial: Option<u64>)
        requires
            self.wf(),
        ensures
            serial is Some == self@.knows(key_of(subject, queue_group)),
            serial matches Some(n) ==> n == self@.serial[key_of(subject, queue_group)],
    {
        let ghost key = key_of(subject, queue_group);
        match self.find(subject, queue_group) {
            Some(slot) => {
                proof {
                    self.lemma_slot(slot as int, key);
                }
                Some(self.subscriptions[slot].serial)
            },
            None => None,
        }
    }

    proof fn lemma_slot(&self, slot: int, key: SubjectKey)
        requires
            self.wf(),
            self.slot_holds(slot, key),
        ensures
            self.slot_of(key) == slot,
            self@.knows(key),
            self@.serial[key] == self.subscriptions@[slot].serial,
            self@.limit.dom().contains(key),
            self@.limit[key] == self.subscriptions@[slot].limit,
    {
        let chosen = self.slot_of(key);
        assert(self.slot_holds(chosen, key));
        if chosen < slot {
            assert(self.subscriptions@[chosen].key() != self.subscriptions@[slot].key());
        } else if slot < chosen {
            assert(self.subscriptions@[slot].key() != self.subscriptions@[chosen].key());
        }
    }

    /// The serial number of the channel held for a plain subscription to
    /// `subject`, if one was opened.
    pub fn serial_of(&self, subject: &String) -> (serial: Option<u64>)
        requires
            self.wf(),
        ensures
            serial is Some == self@.knows(plain(subject@)),
            serial matches Some(n) ==> n == self@.serial[plain(subject@)],
    {
        self.serial_at(subject, None)
    }

    /// The serial number of the channel held for a queue subscription, if
    /// one was opened.
    pub fn queue_serial_of(&self, subject: &String, queue_group: &String) -> (serial: Option<u64>)
        requires
            self.wf(),
        ensures
            serial is Some == self@.knows(queued(subject@, queue_group@)),
            serial matches Some(n) ==> n == self@.serial[queued(subject@, queue_group@)],
    {
        self.serial_at(subject, Some(queue_group))
    }

    /// What is seen of the channel in `slot`: its sender, if one can still be
    /// had, and the number of receivers counted on it.
    fn look(&self, slot: usize) -> (seen: Option<(Sender<T>, usize)>)
        requires
            slot < self.subscriptions@.len(),
    {
        match upgrade(&self.subscriptions[slot].sender) {
            Some(sender) => {
                let count = receiver_count(&sender);
                Some((sender, count))
            },
            None => None,
        }
    }

    fn join(&self, subject: &String, queue_group: Option<&String>) -> (receiver: Option<Receiver<T>>)
        ensures
            receiver is Some ==> exists|slot: int|
                self.slot_holds(slot, key_of(subject, queue_group)),
    {
        match self.find(subject, queue_group) {
            Some(slot) => join_seen(self.look(slot)),
            None => None,
        }
    }

    /// A receiver of the live channel of `subject`.
    ///
    /// The answer is `None` where no channel was opened for the subject, and
    /// where the one that was has lost its last receiver or its bridge: the
    /// caller then subscribes with the bus and opens a channel. The registry
    /// is not changed.
    pub fn subscribe(&self, subject: &String) -> (receiver: Option<Receiver<T>>)
        ensures
            receiver is Some ==> self@.knows(plain(subject@)),
    {
        self.join(subject, None)
    }

    /// A receiver of the live channel of `subject` in `queue_group`; as
    /// [`Self::subscribe`].
    pub fn queue_subscribe(&self, subject: &String, queue_group: &String) -> (receiver: Option<
        Receiver<T>,
    >)
        ensures
            receiver is Some ==> self@.knows(queued(subject@, queue_group@)),
    {
        self.join(subject, Some(queue_group))
    }

    fn next_serial(&self) -> (next: u64)
        ensures
            next == counter_after(self.opened as nat),
            self.opened <= next,
            1 <= next,
    {
        if self.opened < u64::MAX {
            self.opened + 1
        } else {
            self.opened
        }
    }

    proof fn lemma_opened(before: Self, after: Self, key: SubjectKey, slot: int, capacity: usize)
        requires
            before.wf(),
            after.wf(),
            after.opened == counter_after(before.opened as nat),
            after.slot_holds(slot, key),
            after.subscriptions@[slot].serial == after.opened,
            after.subscriptions@[slot].limit == capacity,
            forall|k: SubjectKey, s: int| k != key ==> before.slot_holds(s, k) == after.slot_holds(s, k),
            forall|s: int| before.slot_holds(s, key) ==> s == slot,
            forall|s: int|
                0 <= s < before.subscriptions@.len() && s != slot ==> before.subscriptions@[s]
                    == after.subscriptions@[s],
        ensures
            after@ == before@.open_channel(key, capacity as nat),
    {
        let model = before@.open_channel(key, capacity as nat);
        assert forall|k: SubjectKey| after@.serial.dom().contains(k) == model.serial.dom().contains(
            k,
        ) by {
            if k != key {
                if after@.serial.dom().contains(k) {
                    let s = after.slot_of(k);
                    assert(after.slot_holds(s, k));
                    assert(before.slot_holds(s, k));
                }
                if before@.serial.dom().contains(k) {
                    let s = before.slot_of(k);
                    assert(before.slot_holds(s, k));
                    assert(after.slot_holds(s, k));
                }
            }
        }
        assert forall|k: SubjectKey| after@.serial.dom().contains(k) implies after@.serial[k]
            == model.serial[k] && after@.limit[k] == model.limit[k] by {
            if k == key {
                after.lemma_slot(slot, key);
            } else {
                let s = after.slot_of(k);
                assert(after.slot_holds(s, k));
                assert(before.slot_holds(s, k));
                after.lemma_slot(s, k);
                before.lemma_slot(s, k);
                assert(s != slot);
            }
        }
        assert(after@.serial =~= model.serial);
        assert(after@.limit =~= model.limit);
    }

    /// Opens the channel for a key, given what was seen of the channel that
    /// the registry holds for it.
    ///
    /// A channel that was seen with a receiver is joined and the registry
    /// stays as it is. Otherwise, nothing being held for the key, or a channel
    /// whose last receiver or whose sender is gone, a channel that holds
    /// `capacity` messages is opened in its place.
    pub fn open_seen(
        &mut self,
        subject: String,
        queue_group: Option<String>,
        capacity: usize,
        seen: Option<(Sender<T>, usize)>,
    ) -> (backhaul: Backhaul<T>)
        requires
            old(self).wf(),
            0 < capacity <= usize::MAX / 2,
            seen is Some ==> old(self)@.knows(subject_key(subject, queue_group)),
        ensures
            final(self).wf(),
            backhaul is Joined == has_receiver(seen_count(seen)),
            final(self)@ == old(self)@.subscribe(
                subject_key(subject, queue_group),
                backhaul is Joined,
                capacity as nat,
            ),
            backhaul matches Backhaul::Opened(sender, _) ==> sender.limit() == capacity,
    {
        let ghost before = *self;
        let ghost key = subject_key(subject, queue_group);
        match join_seen(seen) {
            Some(receiver) => {
                return Backhaul::Joined(receiver);
            },
            None => {},
        }
        let group = match &queue_group {
            Some(name) => Some(name),
            None => None,
        };
        let found = self.find(&subject, group);
        assert(key_of(&subject, group) == key);
        let (sender, receiver) = channel::<T>(capacity);
        let serial = self.next_serial();
        self.opened = serial;
        let entry = Subscription {
            subject,
            queue_group,
            serial,
            limit: sender.capacity(),
            sender: downgrade(sender.sender()),
        };
        match found {
            Some(slot) => {
                self.subscriptions.set(slot, entry);
                proof {
                    assert forall|i: int| 0 <= i < self.subscriptions@.len() implies (
                    #[trigger] self.subscriptions@[i]).key() == before.subscriptions@[i].key() by {}
                    assert forall|k: SubjectKey, s: int|
                        self.slot_holds(s, k) == before.slot_holds(s, k) by {}
                    assert forall|s: int| before.slot_holds(s, key) implies s == slot by {
                        before.lemma_slot(slot as int, key);
                        before.lemma_slot(s, key);
                    }
                    Self::lemma_opened(before, *self, key, slot as int, capacity);
                }
            },
            None => {
                self.subscriptions.push(entry);
                proof {
                    let last = before.subscriptions@.len() as int;
                    assert forall|i: int| 0 <= i < last implies (#[trigger] self.subscriptions@[i])
                        == before.subscriptions@[i] by {}
                    assert(self.subscriptions@[last].key() == key);
                    assert forall|i: int| 0 <= i < last implies (#[trigger] self.subscriptions@[i]).key()
                        != key by {
                        assert(!before.slot_holds(i, key));
                    }
                    assert(self.wf());
                    assert forall|k: SubjectKey, s: int| k != key implies before.slot_holds(s, k)
                        == self.slot_holds(s, k) by {}
                    Self::lemma_opened(before, *self, key, last, capacity);
                }
            },
        }
        Backhaul::Opened(sender, receiver)
    }

    fn open(&mut self, subject: String, queue_group: Option<String>, capacity: usize) -> (backhaul:
        Backhaul<T>)
        requires
            old(self).wf(),
            0 < capacity <= usize::MAX / 2,
        ensures
            final(self).wf(),
            final(self)@ == old(self)@.subscribe(
                subject_key(subject, queue_group),
                backhaul is Joined,
                capacity as nat,
            ),
            !old(self)@.knows(subject_key(subject, queue_group)) ==> backhaul is Opened,
            backhaul matches Backhaul::Opened(sender, _) ==> sender.limit() == capacity,
    {
        let ghost key = subject_key(subject, queue_group);
        let group = match &queue_group {
            Some(name) => Some(name),
            None => None,
        };
        let found = self.find(&subject, group);
        assert(key_of(&subject, group) == key);
        let seen = match found {
            Some(slot) => {
                proof {
                    self.lemma_slot(slot as int, key);
                }
                self.look(slot)
            },
            None => {
                assert(!self@.knows(key));
                None
            },
        };
        self.open_seen(subject, queue_group, capacity, seen)
    }

    /// Opens the channel of `subject`, once the bus has accepted the
    /// subscription.
    ///
    /// The registry is looked at again first: where a channel with a receiver
    /// is there by now, the receiver joins it and nothing is opened.
    /// Otherwise a channel that holds `capacity` messages takes the place of
    /// whatever the registry held for the subject. [`Self::open_seen`] says
    /// which of the two follows from what was seen.
    pub fn new_backhaul_connection_subscribe(&mut self, subject: String, capacity: usize) -> (backhaul:
        Backhaul<T>)
        requires
            old(self).wf(),
            0 < capacity <= usize::MAX / 2,
        ensures
            final(self).wf(),
            final(self)@ == old(self)@.subscribe(
                plain(subject@),
                backhaul is Joined,
                capacity as nat,
            ),
            !old(self)@.knows(plain(subject@)) ==> backhaul is Opened,
            backhaul matches Backhaul::Opened(sender, _) ==> sender.limit() == capacity,
    {
        self.open(subject, None, capacity)
    }

    /// Opens the channel of `subject` in `queue_group`; as
    /// [`Self::new_backhaul_connection_subscribe`].
    pub fn new_backhaul_connection_queue_subscribe(
        &mut self,
        subject: String,
        queue_group: String,
        capacity: usize,
    ) -> (backhaul: Backhaul<T>)
        requires
            old(self).wf(),
            0 < capacity <= usize::MAX / 2,
        ensures
            final(self).wf(),
            final(self)@ == old(self)@.subscribe(
                queued(subject@, queue_group@),
                backhaul is Joined,
                capacity as nat,
            ),
            !old(self)@.knows(queued(subject@, queue_group@)) ==> backhaul is Opened,
            backhaul matches Backhaul::Opened(sender, _) ==> sender.limit() == capacity,
    {
        self.open(subject, Some(queue_group), capacity)
    }
}

} // verus!
