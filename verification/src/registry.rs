//! What the registries of broadcast channels have in common.
//!
//! A registry maps keys to channels and keeps at most one channel per key.
//! It holds no share in a channel's life: a channel is live while it has a
//! receiver, and a registry learns that a channel has gone stale only when
//! its key is next subscribed to. It then opens a new channel in its place.
//! Every channel gets a serial number from a counter of the channels opened,
//! so that a new channel is told from the one it replaces.

use vstd::prelude::*;

verus! {

/// The next value of a counter that stops at `u64::MAX`.
pub open spec fn counter_after(count: nat) -> nat {
    if count < u64::MAX {
        count + 1
    } else {
        count
    }
}

/// Whether a channel that was seen with this many receivers is live. `None`
/// stands for a channel that was not there to be seen.
pub open spec fn has_receiver(seen: Option<usize>) -> bool {
    seen matches Some(count) && count > 0
}

/// What a registry holds: for each known key the serial number of its
/// channel and the capacity that the channel was made with, and the number
/// of channels opened so far.
#[verifier::reject_recursive_types(K)]
pub struct Handles<K> {
    pub serial: Map<K, nat>,
    pub limit: Map<K, nat>,
    pub created: nat,
}

impl<K> Handles<K> {
    /// No key is known and no channel was opened.
    pub open spec fn empty() -> Handles<K> {
        Handles { serial: Map::empty(), limit: Map::empty(), created: 0 }
    }

    /// Serial numbers are counted from 1 and none is ahead of the counter.
    pub open spec fn wf(self) -> bool {
        &&& self.created <= u64::MAX
        &&& forall|key: K| #[trigger]
            self.serial.dom().contains(key) ==> 1 <= self.serial[key] <= self.created
    }

    pub open spec fn knows(self, key: K) -> bool {
        self.serial.dom().contains(key)
    }

    /// A new channel of capacity `limit` is opened for `key`: the counter
    /// moves on and gives the channel its serial number.
    pub open spec fn open_channel(self, key: K, limit: nat) -> Handles<K> {
        Handles {
            serial: self.serial.insert(key, counter_after(self.created)),
            limit: self.limit.insert(key, limit),
            created: counter_after(self.created),
        }
    }

    /// One subscription to `key`, where `live` says whether the channel that
    /// the registry holds for `key`, if any, still has a receiver. A live
    /// channel is joined; else one of capacity `limit` is opened.
    pub open spec fn subscribe(self, key: K, live: bool, limit: nat) -> Handles<K> {
        if self.knows(key) && live {
            self
        } else {
            self.open_channel(key, limit)
        }
    }

    /// One subscription to `key` that saw `seen` receivers on the channel
    /// held for it.
    pub open spec fn subscribe_seen(self, key: K, seen: Option<usize>, limit: nat) -> Handles<K> {
        self.subscribe(key, has_receiver(seen), limit)
    }

    /// Subscriptions to `key` in a row, one for each entry of `seen`.
    pub open spec fn subscribe_each(self, key: K, seen: Seq<Option<usize>>, limit: nat) -> Handles<
        K,
    >
        decreases seen.len(),
    {
        if seen.len() == 0 {
            self
        } else {
            self.subscribe_each(key, seen.drop_last(), limit).subscribe_seen(
                key,
                seen.last(),
                limit,
            )
        }
    }
}

/// Subscriptions that find a receiver on their key's channel share it. Of
/// any number of subscriptions to `key` in a row, the first may see anything;
/// where every later one sees a receiver, as it must while none of the
/// receivers made so far is dropped, the registry stays as the first one left
/// it. So at most one channel is opened for them, and all of them read the
/// channel with the same serial number.
pub proof fn lemma_receivers_share_one_channel<K>(
    before: Handles<K>,
    key: K,
    seen: Seq<Option<usize>>,
    limit: nat,
)
    requires
        seen.len() >= 1,
        forall|i: int| 1 <= i < seen.len() ==> has_receiver(#[trigger] seen[i]),
    ensures
        before.subscribe_each(key, seen, limit) == before.subscribe_seen(key, seen[0], limit),
        before.subscribe_each(key, seen, limit).knows(key),
    decreases seen.len(),
{
    let earlier = seen.drop_last();
    if seen.len() == 1 {
        assert(before.subscribe_each(key, earlier, limit) == before);
    } else {
        assert(earlier[0] == seen[0]);
        assert forall|i: int| 1 <= i < earlier.len() implies has_receiver(#[trigger] earlier[i]) by {
            assert(earlier[i] == seen[i]);
        }
        lemma_receivers_share_one_channel(before, key, earlier, limit);
        assert(has_receiver(seen[seen.len() - 1]));
    }
}

/// Subscriptions to an unknown key, of which every one after the first sees
/// a receiver, open exactly one channel, and that of the capacity asked for.
pub proof fn lemma_first_subscription_opens_one_channel<K>(
    before: Handles<K>,
    key: K,
    seen: Seq<Option<usize>>,
    limit: nat,
)
    requires
        !before.knows(key),
        before.created < u64::MAX,
        seen.len() >= 1,
        forall|i: int| 1 <= i < seen.len() ==> has_receiver(#[trigger] seen[i]),
    ensures
        before.subscribe_each(key, seen, limit).created == before.created + 1,
        before.subscribe_each(key, seen, limit).serial[key] == before.created + 1,
        before.subscribe_each(key, seen, limit).limit[key] == limit,
{
    lemma_receivers_share_one_channel(before, key, seen, limit);
}

/// A stale channel is never handed out again: a subscription that sees no
/// receiver on the channel of `key` opens a new one, the counter of opened
/// channels goes up by one, and the new serial number is none that the
/// registry held before.
pub proof fn lemma_stale_channel_is_replaced<K>(before: Handles<K>, key: K, limit: nat)
    requires
        before.wf(),
        before.created < u64::MAX,
    ensures
        before.subscribe_seen(key, Some(0usize), limit).created == before.created + 1,
        before.subscribe_seen(key, Some(0usize), limit).serial[key] == before.created + 1,
        before.subscribe_seen(key, Some(0usize), limit).limit[key] == limit,
        forall|other: K| #[trigger]
            before.knows(other) ==> before.serial[other] != before.created + 1,
        before.subscribe_seen(key, Some(0usize), limit).wf(),
{
}

/// A channel that is seen with a receiver is joined: the registry stays as
/// it was and nothing is opened.
pub proof fn lemma_live_channel_is_joined<K>(before: Handles<K>, key: K, count: usize, limit: nat)
    requires
        before.knows(key),
        count > 0,
    ensures
        before.subscribe_seen(key, Some(count), limit) == before,
{
}

/// A subscription to one key leaves what the registry holds for every
/// other key as it was.
pub proof fn lemma_subscription_leaves_other_keys<K>(
    before: Handles<K>,
    key: K,
    live: bool,
    limit: nat,
    other: K,
)
    requires
        other != key,
    ensures
        before.subscribe(key, live, limit).knows(other) == before.knows(other),
        before.knows(other) ==> before.subscribe(key, live, limit).serial[other]
            == before.serial[other],
        before.subscribe(key, live, limit).limit[other] == before.limit[other],
{
}

} // verus!
