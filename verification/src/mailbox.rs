//! The registry of community mailboxes.
//!
//! A mailbox is the broadcast channel of one community. The registry keeps at
//! most one per community and hands out receivers of it. A mailbox whose last
//! receiver is gone is stale; the registry notices that only when the
//! community is next subscribed to, and then opens a new channel in its place.

use crate::aspen_protocol::server_event::ServerEvent;
use crate::broadcast::{
    channel, receiver_count, send, subscribe, try_recv, BoundedSender, Received,
};
use crate::ids::CommunityId;
use crate::registry::{counter_after, has_receiver, Handles};
use dashmap::DashMap;
use std::sync::Arc;
use tokio::sync::broadcast::Receiver;
use vstd::prelude::*;

verus! {

/// How many events a mailbox holds. A receiver that falls further behind than
/// this is told that it lagged.
pub const MAILBOX_SIZE: usize = 512;

/// `dashmap::DashMap`, the concurrent hash map.
#[verifier::external_type_specification]
#[verifier::external_body]
#[verifier::reject_recursive_types(K)]
#[verifier::reject_recursive_types(V)]
#[verifier::reject_recursive_types(S)]
pub struct ExDashMap<K, V, S>(DashMap<K, V, S>);

/// The entries of a map from community numbers to slots. The registry owns its
/// map alone, so the entries change only through the calls below.
pub uninterp spec fn slot_entries(slots: DashMap<u128, usize>) -> Map<u128, usize>;

/// `DashMap::new`: a map without entries.
#[verifier::external_body]
fn slots_new() -> (slots: DashMap<u128, usize>)
    ensures
        slot_entries(slots) == (Map::<u128, usize>::empty()),
{
    DashMap::new()
}

/// `DashMap::get`: the value stored under `key`, copied out of the guard, or
/// `None` where the map has no such key.
#[verifier::external_body]
fn slots_get(slots: &DashMap<u128, usize>, key: u128) -> (slot: Option<usize>)
    ensures
        slot == (if slot_entries(*slots).dom().contains(key) {
            Some(slot_entries(*slots)[key])
        } else {
            None
        }),
{
    slots.get(&key).map(|entry| *entry)
}

/// `DashMap::insert`: afterwards `key` maps to `slot`, and every other key is
/// as before.
#[verifier::external_body]
fn slots_insert(slots: &mut DashMap<u128, usize>, key: u128, slot: usize)
    ensures
        slot_entries(*final(slots)) == slot_entries(*old(slots)).insert(key, slot),
{
    slots.insert(key, slot);
}

/// What a registry of mailboxes holds.
pub type Mailboxes = Handles<CommunityId>;

/// A receiver of one community's mailbox.
pub struct MailboxReceiver {
    /// The community whose events arrive here.
    pub community: CommunityId,
    /// The serial number of the channel that this receiver reads.
    pub serial: u64,
    /// Whether the subscription that made this receiver opened the channel.
    pub fresh: bool,
    /// The channel's receiver, for a caller that waits on it.
    pub receiver: Receiver<Arc<ServerEvent>>,
}

impl MailboxReceiver {
    /// Reads the next event without waiting. Which of the four answers comes
    /// depends on the publishers; the receiver stays bound to its channel.
    pub fn try_recv(&mut self) -> (got: Received<Arc<ServerEvent>>)
        ensures
            final(self).community == old(self).community,
            final(self).serial == old(self).serial,
            final(self).fresh == old(self).fresh,
            got matches Received::Lagged(missed) ==> missed >= 1,
    {
        try_recv(&mut self.receiver)
    }

}

/// Whether a channel with this many receivers is stale.
pub fn is_stale(receivers: usize) -> (stale: bool)
    ensures
        stale == (receivers == 0),
{
    receivers == 0
}

struct Mailbox {
    community: CommunityId,
    serial: u64,
    sender: BoundedSender<Arc<ServerEvent>>,
}

/// Keeps one mailbox per community.
pub struct CommunityMailboxManager {
    slots: DashMap<u128, usize>,
    mailboxes: Vec<Mailbox>,
    created: u64,
}

impl View for CommunityMailboxManager {
    type V = Mailboxes;

    closed spec fn view(&self) -> Mailboxes {
        Mailboxes {
            serial: Map::new(
                |id: CommunityId| slot_entries(self.slots).dom().contains(id.0),
                |id: CommunityId| self.mailboxes@[slot_entries(self.slots)[id.0] as int].serial as nat,
            ),
            limit: Map::new(
                |id: CommunityId| slot_entries(self.slots).dom().contains(id.0),
                |id: CommunityId|
                    self.mailboxes@[slot_entries(self.slots)[id.0] as int].sender.limit() as nat,
            ),
            created: self.created as nat,
        }
    }
}

impl CommunityMailboxManager {
    /// Every community that the registry knows has a slot of its own, which
    /// holds that community's channel, made with `MAILBOX_SIZE`.
    pub closed spec fn wf(&self) -> bool {
        forall|key: u128| #[trigger]
            slot_entries(self.slots).dom().contains(key) ==> {
                let slot = slot_entries(self.slots)[key];
                &&& slot < self.mailboxes@.len()
                &&& self.mailboxes@[slot as int].community.0 == key
                &&& 1 <= self.mailboxes@[slot as int].serial <= self.created
                &&& self.mailboxes@[slot as int].sender.limit() == MAILBOX_SIZE
            }
    }

    /// A well-formed registry holds serial numbers that are counted from 1 and
    /// not ahead of the counter, and every channel in it was made with
    /// `MAILBOX_SIZE`.
    pub proof fn lemma_view_wf(&self)
        requires
            self.wf(),
        ensures
            self@.wf(),
            forall|id: CommunityId| #[trigger] self@.knows(id) ==> self@.limit[id] == MAILBOX_SIZE,
    {
    }

    /// A registry that knows no community.
    pub fn new() -> (manager: Self)
        ensures
            manager.wf(),
            manager@ == Mailboxes::empty(),
    {
        let manager = CommunityMailboxManager { slots: slots_new(), mailboxes: Vec::new(), created: 0 };
        assert(manager@.serial =~= Mailboxes::empty().serial);
        assert(manager@.limit =~= Mailboxes::empty().limit);
        manager
    }

    /// How many channels this registry has opened.
    pub fn created(&self) -> (count: u64)
        ensures
            count == self@.created,
    {
        self.created
    }

    /// The serial number of the channel held for `id`, if the community is
    /// known.
    pub fn serial_of(&self, id: &CommunityId) -> (serial: Option<u64>)
        requires
            self.wf(),
        ensures
            serial is Some == self@.knows(*id),
            serial matches Some(n) ==> n == self@.serial[*id],
    {
        match slots_get(&self.slots, id.0) {
            Some(slot) => Some(self.mailboxes[slot].serial),
            None => None,
        }
    }

    fn next_serial(&self) -> (next: u64)
        ensures
            next == counter_after(self.created as nat),
    {
        if self.created < u64::MAX {
            self.created + 1
        } else {
            self.created
        }
    }

    /// How many receivers the channel held for `id` has at this moment, or
    /// `None` where the community is unknown.
    pub fn receivers_of(&self, id: &CommunityId) -> (seen: Option<usize>)
        requires
            self.wf(),
        ensures
            seen is Some == self@.knows(*id),
    {
        match slots_get(&self.slots, id.0) {
            Some(slot) => Some(receiver_count(self.mailboxes[slot].sender.sender())),
            None => None,
        }
    }

    /// Subscribes to the mailbox of `id`, given the number of receivers that
    /// its channel was seen with.
    ///
    /// A channel that was seen with a receiver is joined, and the registry
    /// stays as it is. Otherwise, the community being unknown or its channel
    /// stale, a channel of `MAILBOX_SIZE` events is opened in its place and
    /// the receiver is its first.
    pub fn subscribe_seen(&mut self, id: &CommunityId, seen: Option<usize>) -> (receiver:
        MailboxReceiver)
        requires
            old(self).wf(),
            seen is Some == old(self)@.knows(*id),
        ensures
            final(self).wf(),
            receiver.community == *id,
            receiver.fresh == !has_receiver(seen),
            final(self)@ == old(self)@.subscribe_seen(*id, seen, MAILBOX_SIZE as nat),
            final(self)@.knows(*id),
            receiver.serial == final(self)@.serial[*id],
    {
        let ghost before = self@;
        let live = match seen {
            Some(receivers) => !is_stale(receivers),
            None => false,
        };
        match slots_get(&self.slots, id.0) {
            Some(slot) => {
                if live {
                    let receiver = subscribe(self.mailboxes[slot].sender.sender());
                    return MailboxReceiver {
                        community: *id,
                        serial: self.mailboxes[slot].serial,
                        fresh: false,
                        receiver,
                    };
                }
                let (sender, receiver) = channel::<Arc<ServerEvent>>(MAILBOX_SIZE);
                let serial = self.next_serial();
                self.created = serial;
                self.mailboxes.set(slot, Mailbox { community: *id, serial, sender });
                assert(self@.serial =~= before.open_channel(*id, MAILBOX_SIZE as nat).serial);
                assert(self@.limit =~= before.open_channel(*id, MAILBOX_SIZE as nat).limit);
                MailboxReceiver { community: *id, serial, fresh: true, receiver }
            },
            None => {
                let (sender, receiver) = channel::<Arc<ServerEvent>>(MAILBOX_SIZE);
                let serial = self.next_serial();
                self.created = serial;
                let slot = self.mailboxes.len();
                self.mailboxes.push(Mailbox { community: *id, serial, sender });
                slots_insert(&mut self.slots, id.0, slot);
                assert(self@.serial =~= before.open_channel(*id, MAILBOX_SIZE as nat).serial);
                assert(self@.limit =~= before.open_channel(*id, MAILBOX_SIZE as nat).limit);
                MailboxReceiver { community: *id, serial, fresh: true, receiver }
            },
        }
    }

    /// Subscribes to the mailbox of `id`.
    ///
    /// The receivers of the channel held for `id` are counted, and
    /// [`Self::subscribe_seen`] does the rest: a channel with a receiver is
    /// joined, and one without is replaced. How many receivers there are is
    /// for the channel to say; `fresh` tells which way it went.
    /// The receiver sees the events published after this call.
    pub fn subscribe_mailbox(&mut self, id: &CommunityId) -> (receiver: MailboxReceiver)
        requires
            old(self).wf(),
        ensures
            final(self).wf(),
            receiver.community == *id,
            !old(self)@.knows(*id) ==> receiver.fresh,
            final(self)@ == old(self)@.subscribe(*id, !receiver.fresh, MAILBOX_SIZE as nat),
            final(self)@.knows(*id),
            receiver.serial == final(self)@.serial[*id],
    {
        let seen = self.receivers_of(id);
        self.subscribe_seen(id, seen)
    }

    /// Publishes `event` to the mailbox of `id` and returns the number of
    /// receivers that it was handed to. Where the community is unknown or its
    /// mailbox has no receiver, nothing happens and the answer is `None`: that
    /// is no failure. A publisher never waits for a slow receiver.
    pub fn publish(&self, id: &CommunityId, event: Arc<ServerEvent>) -> (reached: Option<usize>)
        requires
            self.wf(),
        ensures
            !self@.knows(*id) ==> reached is None,
            reached matches Some(n) ==> n >= 1,
    {
        match slots_get(&self.slots, id.0) {
            Some(slot) => send(self.mailboxes[slot].sender.sender(), event),
            None => None,
        }
    }
}

} // verus!
