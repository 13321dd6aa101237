//! What a client asks of the server, and what the server answers.

use crate::aspen_protocol::{Attachment, ChannelPermissions, ChannelType};
use crate::ids::{CategoryId, ChannelId, CommunityId, MessageId, UserId};
use vstd::prelude::*;

verus! {

/// Describes events that the client notifies the server of.
#[derive(Debug, Clone, PartialEq, Eq)]
pub enum ClientEvent {
    Login(Login),
    RegisterUser(RegisterUser),
    DeleteUser(DeleteUser),
    ChangePassword(ChangePassword),
    SendMessage(Message),
    DeleteMessage(DeleteMessage),
    SendReact(React),
    DeleteReact(DeleteReact),
    CreateChannel(CreateChannel),
    DeleteChannel(DeleteChannel),
    CreateCategory(CreateCategory),
    DeleteCategory(DeleteCategory),
    CreateCommunity(CreateCommunity),
    DeleteCommunity(DeleteCommunity),
    JoinCommunity(JoinCommunity),
    LeaveCommunity(LeaveCommunity),
}

#[derive(Debug, Clone, PartialEq, Eq)]
pub struct Login {
    pub username: String,
    pub password: String,
}

#[derive(Debug, Clone, PartialEq, Eq)]
pub struct RegisterUser {
    pub username: String,
    pub password: String,
    pub invite_code: String,
}

#[derive(Debug, Clone, Copy, PartialEq, Eq, Structural)]
pub struct DeleteUser {
    pub user_id: UserId,
}

#[derive(Debug, Clone, PartialEq, Eq)]
pub struct ChangePassword {
    pub old_password: String,
    pub new_password: String,
}

#[derive(Debug, Clone, PartialEq, Eq)]
pub struct Message {
    pub channel_id: ChannelId,
    pub content: String,
    pub attachments: Vec<Attachment>,
}

#[derive(Debug, Clone, Copy, PartialEq, Eq, Structural)]
pub struct DeleteMessage {
    pub message_id: MessageId,
}

#[derive(Debug, Clone, PartialEq, Eq)]
pub struct React {
    pub message_id: MessageId,
    pub emoji: String,
}

#[derive(Debug, Clone, PartialEq, Eq)]
pub struct DeleteReact {
    pub message_id: MessageId,
    pub emoji: String,
    pub user_id: UserId,
}

#[derive(Debug, Clone, PartialEq, Eq)]
pub struct CreateChannel {
    pub community: CommunityId,
    pub parent_category: Option<CategoryId>,
    pub name: String,
    pub permissions: ChannelPermissions,
    pub ty: ChannelType,
}

#[derive(Debug, Clone, Copy, PartialEq, Eq, Structural)]
pub struct DeleteChannel {
    pub channel_id: ChannelId,
}

#[derive(Debug, Clone, Copy, PartialEq, Eq, Structural)]
pub struct CreateCategory {
    pub community: CommunityId,
}

#[derive(Debug, Clone, Copy, PartialEq, Eq, Structural)]
pub struct DeleteCategory {
    pub category_id: CategoryId,
}

#[derive(Debug, Clone, PartialEq, Eq)]
pub struct CreateCommunity {
    pub name: String,
}

#[derive(Debug, Clone, Copy, PartialEq, Eq, Structural)]
pub struct DeleteCommunity {
    pub community_id: CommunityId,
}

#[derive(Debug, Clone, PartialEq, Eq)]
pub struct JoinCommunity {
    pub community_name: String,
    pub invite_code: String,
}

#[derive(Debug, Clone, Copy, PartialEq, Eq, Structural)]
pub struct LeaveCommunity {
    pub community: CommunityId,
}

/// Possible responses from the server.
#[derive(Debug, Clone, PartialEq, Eq)]
pub enum ServerResponse {
    CreateOk(CreateOk),
    LoginSuccess(LoginSuccess),
    LoginFailed(LoginFailed),
    NotAllowed(NotAllowed),
    Error(Error),
}

/// A record was created; `new_id` is its UUID as a number.
#[derive(Debug, Clone, Copy, PartialEq, Eq, Structural)]
pub struct CreateOk {
    pub new_id: Option<u128>,
}

#[derive(Debug, Clone, Copy, PartialEq, Eq, Structural)]
pub struct LoginSuccess {
    pub user_id: UserId,
}

#[derive(Debug, Clone, Copy, PartialEq, Eq, Structural)]
pub struct LoginFailed {}

#[derive(Debug, Clone, PartialEq, Eq)]
pub struct NotAllowed {
    pub reason: Option<String>,
}

#[derive(Debug, Clone, PartialEq, Eq)]
pub struct Error {
    pub cause: Option<String>,
}

} // verus!
