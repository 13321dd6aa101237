//! The values that clients and the server exchange.
//!
//! A time is a count of microseconds since the Unix epoch.

use crate::ids::AttachmentId;
use vstd::prelude::*;

pub mod client_event;
pub mod server_event;

verus! {

/// A file that a client sends along with a message.
#[derive(Debug, Clone, PartialEq, Eq)]
pub struct Attachment {
    pub mime_type: String,
    pub file_name: String,
    pub content: Vec<u8>,
}

/// What the server tells of a stored attachment.
#[derive(Debug, Clone, PartialEq, Eq)]
pub struct AttachmentMeta {
    pub attachment_id: AttachmentId,
    pub mime_type: String,
    pub file_name: String,
    pub preview: Vec<u8>,
}

#[derive(Debug, Clone, Copy, PartialEq, Eq, Structural)]
pub enum ChannelType {
    Text,
    Voice,
}

/// Who may do what in a channel. It holds nothing yet.
#[derive(Debug, Clone, Copy, PartialEq, Eq, Structural)]
pub struct ChannelPermissions {}

} // verus!
