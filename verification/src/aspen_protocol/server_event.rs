//! What the server tells the clients that are subscribed to a community.

use crate::aspen_protocol::{AttachmentMeta, ChannelPermissions, ChannelType};
use crate::ids::{CategoryId, ChannelId, CommunityId, MessageId, UserId};
use vstd::prelude::*;

verus! {

/// Describes events that the server notifies the client of. Events of one
/// community reach a client in the order in which they were published.
#[derive(Debug, Clone, PartialEq, Eq)]
pub enum ServerEvent {
    UserJoinedCommunity(UserJoinedCommunity),
    UserLeftCommunity(UserLeftCommunity),
    UserDeleted(UserDeleted),
    NewMessage(NewMessage),
    MessageDeleted(MessageDeleted),
    NewReact(NewReact),
    ReactDeleted(ReactDeleted),
    NewChannel(NewChannel),
    ChannelDeleted(ChannelDeleted),
    NewCategory(NewCategory),
    CategoryDeleted(CategoryDeleted),
    UserOnlineStatusChange(UserOnlineStatusChange),
}

#[derive(Debug, Clone, PartialEq, Eq)]
pub struct UserJoinedCommunity {
    pub community: CommunityId,
    pub username: String,
    pub id: UserId,
    pub icon: Vec<u8>,
    pub icon_mime_type: String,
}

#[derive(Debug, Clone, Copy, PartialEq, Eq, Structural)]
pub struct UserLeftCommunity {
    pub community: CommunityId,
    pub user: UserId,
}

/// The client should delete all it holds of this user, in memory and on disk.
#[derive(Debug, Clone, Copy, PartialEq, Eq, Structural)]
pub struct UserDeleted {
    pub user: UserId,
}

#[derive(Debug, Clone, PartialEq, Eq)]
pub struct NewMessage {
    pub author_id: UserId,
    pub channel_id: ChannelId,
    pub content: String,
    pub timestamp: i64,
    pub attachments: Vec<AttachmentMeta>,
}

#[derive(Debug, Clone, Copy, PartialEq, Eq, Structural)]
pub struct MessageDeleted {
    pub message: MessageId,
}

#[derive(Debug, Clone, PartialEq, Eq)]
pub struct NewReact {
    pub community: CommunityId,
    pub channel: ChannelId,
    pub author_id: UserId,
    pub message_id: MessageId,
    pub emoji: String,
}

#[derive(Debug, Clone, PartialEq, Eq)]
pub struct ReactDeleted {
    pub community: CommunityId,
    pub channel: ChannelId,
    pub author_id: UserId,
    pub message: MessageId,
    pub emoji: String,
}

#[derive(Debug, Clone, PartialEq, Eq)]
pub struct NewChannel {
    pub community: CommunityId,
    pub parent_category: Option<CategoryId>,
    pub name: String,
    pub permissions: ChannelPermissions,
    pub ty: ChannelType,
}

#[derive(Debug, Clone, Copy, PartialEq, Eq, Structural)]
pub struct ChannelDeleted {
    pub community: CommunityId,
    pub channel: ChannelId,
}

#[derive(Debug, Clone, PartialEq, Eq)]
pub struct NewCategory {
    pub community: CommunityId,
    pub name: String,
    pub permissions: ChannelPermissions,
    pub ty: ChannelType,
}

#[derive(Debug, Clone, Copy, PartialEq, Eq, Structural)]
pub struct CategoryDeleted {
    pub community: CommunityId,
    pub category: CategoryId,
}

#[derive(Debug, Clone, Copy, PartialEq, Eq, Structural)]
pub struct UserOnlineStatusChange {
    pub user_id: UserId,
    pub now_online: bool,
    pub time: i64,
}

} // verus!
