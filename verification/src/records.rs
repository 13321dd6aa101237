//! Records as the server keeps them.

use crate::ids::{ChannelId, IconId, MessageId, UserId};
use vstd::prelude::*;

verus! {

/// A file that comes with a message to be stored.
#[derive(Debug, Clone, PartialEq, Eq)]
pub struct AttachmentInput {
    pub mime_type: String,
    pub file_name: String,
    pub content: Vec<u8>,
}

/// What is kept of a stored attachment; `attachment_id` is its UUID as a
/// number.
#[derive(Debug, Clone, PartialEq, Eq)]
pub struct AttachmentData {
    pub mime_type: String,
    pub file_name: String,
    pub attachment_id: u128,
}

#[derive(Debug, Clone, PartialEq, Eq)]
pub struct Icon {
    pub id: IconId,
    pub data: Vec<u8>,
    pub mime_type: String,
}

impl Icon {
    pub fn id(&self) -> (id: IconId)
        ensures
            id == self.id,
    {
        self.id
    }
}

/// Takes in a message of `author` for a channel. A version-7 identifier is
/// drawn for it; nothing is stored and nothing is returned.
pub fn create_message(
    author: UserId,
    channel_id: ChannelId,
    content: String,
    attachment: Vec<AttachmentInput>,
) {
    let id = MessageId::new();
}

} // verus!
