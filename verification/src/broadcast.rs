//! The broadcast channel that carries events from one publisher to many
//! receivers: `tokio::sync::broadcast`.
//!
//! A channel is shared between tasks, and what a call returns depends on what
//! the others have done in the meantime. The contracts below therefore state
//! only what holds of every outcome, and of a new channel the capacity that
//! was handed to the call; none of them is proved.

use tokio::sync::broadcast::error::TryRecvError;
use tokio::sync::broadcast::{Receiver, Sender, WeakSender};
use vstd::prelude::*;

verus! {

/// `tokio::sync::broadcast::Sender`: the sending half. While one is alive the
/// channel is open.
#[verifier::external_type_specification]
#[verifier::external_body]
#[verifier::reject_recursive_types(T)]
pub struct ExSender<T>(Sender<T>);

/// `tokio::sync::broadcast::WeakSender`: a sender that does not keep the
/// channel open.
#[verifier::external_type_specification]
#[verifier::external_body]
#[verifier::reject_recursive_types(T)]
pub struct ExWeakSender<T>(WeakSender<T>);

/// `tokio::sync::broadcast::Receiver`: one consumer's read position in a
/// channel.
#[verifier::external_type_specification]
#[verifier::external_body]
#[verifier::reject_recursive_types(T)]
pub struct ExReceiver<T>(Receiver<T>);

/// What one attempt to read from a receiver gave.
#[derive(Debug, Clone, PartialEq, Eq)]
pub enum Received<T> {
    /// The next value, in the order of sending.
    Event(T),
    /// Nothing is waiting, and the channel is open.
    Empty,
    /// Nothing is waiting, and every sender is gone.
    Closed,
    /// The receiver fell behind the bounded buffer and missed this many
    /// values; its position is now at the oldest value still held.
    Lagged(u64),
}

/// The sender of a channel, together with the capacity that the channel was
/// made with. Only [`channel`] makes one, so the capacity cannot part from
/// its channel.
#[verifier::reject_recursive_types(T)]
pub struct BoundedSender<T> {
    sender: Sender<T>,
    limit: usize,
}

impl<T> BoundedSender<T> {
    /// The capacity that the channel was made with.
    pub closed spec fn limit(&self) -> usize {
        self.limit
    }

    /// The capacity that the channel was made with.
    pub fn capacity(&self) -> (capacity: usize)
        ensures
            capacity == self.limit(),
    {
        self.limit
    }

    /// The channel's sender.
    pub fn sender(&self) -> (sender: &Sender<T>) {
        &self.sender
    }

    /// Gives up the record of the capacity and hands out the sender.
    pub fn into_sender(self) -> (sender: Sender<T>) {
        self.sender
    }
}

/// `tokio::sync::broadcast::channel`: a new channel that holds up to `capacity`
/// values, with its sender and its first receiver. The sender comes back with
/// the capacity that was handed to the call. The call panics on a capacity of
/// zero or above `usize::MAX / 2`, which `requires` leaves out.
#[verifier::external_body]
pub(crate) fn channel<T: Clone>(capacity: usize) -> (made: (BoundedSender<T>, Receiver<T>))
    requires
        0 < capacity <= usize::MAX / 2,
    ensures
        made.0.limit() == capacity,
{
    let (sender, receiver) = tokio::sync::broadcast::channel(capacity);
    (BoundedSender { sender, limit: capacity }, receiver)
}

/// `Sender::subscribe`: a new receiver, which sees the values sent after this
/// call. (It panics once a channel has `usize::MAX / 4` receivers, more than
/// memory can hold.)
#[verifier::external_body]
pub(crate) fn subscribe<T>(sender: &Sender<T>) -> (receiver: Receiver<T>) {
    sender.subscribe()
}

/// `Sender::receiver_count`: how many receivers the channel has at this
/// moment.
#[verifier::external_body]
pub(crate) fn receiver_count<T>(sender: &Sender<T>) -> (count: usize) {
    sender.receiver_count()
}

/// `Sender::send`: hands the value to every receiver and returns their number,
/// which is at least one, or returns `None` when the channel has no receiver.
/// It never waits for a receiver to catch up.
#[verifier::external_body]
pub(crate) fn send<T>(sender: &Sender<T>, value: T) -> (reached: Option<usize>)
    ensures
        reached matches Some(n) ==> n >= 1,
{
    sender.send(value).ok()
}

/// `Sender::downgrade`: a weak sender of the same channel.
#[verifier::external_body]
pub(crate) fn downgrade<T>(sender: &Sender<T>) -> (weak: WeakSender<T>) {
    sender.downgrade()
}

/// `WeakSender::upgrade`: a sender of the same channel, or `None` when every
/// sender has been dropped.
#[verifier::external_body]
pub(crate) fn upgrade<T>(weak: &WeakSender<T>) -> (sender: Option<Sender<T>>) {
    weak.upgrade()
}

/// `Receiver::try_recv`, without waiting. A lag is reported only when at least
/// one value was missed.
#[verifier::external_body]
pub(crate) fn try_recv<T: Clone>(receiver: &mut Receiver<T>) -> (got: Received<T>)
    ensures
        got matches Received::Lagged(missed) ==> missed >= 1,
{
    match receiver.try_recv() {
        Ok(value) => Received::Event(value),
        Err(TryRecvError::Empty) => Received::Empty,
        Err(TryRecvError::Closed) => Received::Closed,
        Err(TryRecvError::Lagged(missed)) => Received::Lagged(missed),
    }
}

} // verus!
