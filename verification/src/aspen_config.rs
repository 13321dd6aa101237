//! The settings of a server.

use vstd::prelude::*;

verus! {

/// The largest capacity that a broadcast channel takes.
pub open spec fn max_queue_size() -> int {
    (usize::MAX / 2) as int
}

#[derive(Clone, Debug)]
pub struct AspenConfig {
    /// How many messages the channel of a bus subscription holds.
    pub event_queue_size: usize,
    pub database_url: String,
    pub nats_url: String,
    pub nats_auth_token: String,
}

impl AspenConfig {
    /// The configured queue size, if a channel can be made with it: it is
    /// then neither zero nor above half of `usize::MAX`.
    pub fn queue_capacity(&self) -> (capacity: Option<usize>)
        ensures
            capacity == (if 0 < self.event_queue_size <= max_queue_size() {
                Some(self.event_queue_size)
            } else {
                None
            }),
    {
        if 0 < self.event_queue_size && self.event_queue_size <= usize::MAX / 2 {
            Some(self.event_queue_size)
        } else {
            None
        }
    }
}

/// The queue size of a configuration that names none.
pub fn default_event_queue_size() -> (size: usize)
    ensures
        size == 256,
        0 < size <= max_queue_size(),
{
    256
}

} // verus!
