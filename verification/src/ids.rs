//! Identifiers of the records that events speak of.
//!
//! Every identifier is a UUID, held as the 128-bit number whose big-endian
//! bytes are the UUID's sixteen bytes. Two identifiers are equal when those
//! numbers are equal.

use vstd::prelude::*;

verus! {

/// The version of a UUID: the high four bits of its seventh byte.
pub open spec fn uuid_version(bits: u128) -> u128 {
    (bits >> 76) & 0xf
}

/// Calls `uuid::Uuid::now_v7` and hands the UUID back as a number, through
/// `Uuid::as_u128`. The value depends on the clock and on random bits; all
/// that is claimed of it is the version field, which `now_v7` sets to 7.
#[verifier::external_body]
fn now_v7() -> (bits: u128)
    ensures
        uuid_version(bits) == 7,
{
    uuid::Uuid::now_v7().as_u128()
}

/// Identifies a community, the topic that events are published and subscribed under.
#[derive(Debug, Clone, Copy, PartialEq, Eq, Hash, Structural)]
pub struct CommunityId(pub u128);

impl CommunityId {
    /// A fresh version-7 identifier, made from the current time.
    pub fn new() -> (id: Self)
        ensures
            uuid_version(id.0) == 7,
    {
        CommunityId(now_v7())
    }
}

/// Identifies a user.
#[derive(Debug, Clone, Copy, PartialEq, Eq, Hash, Structural)]
pub struct UserId(pub u128);

impl UserId {
    /// A fresh version-7 identifier, made from the current time.
    pub fn new() -> (id: Self)
        ensures
            uuid_version(id.0) == 7,
    {
        UserId(now_v7())
    }
}

/// Identifies a channel.
#[derive(Debug, Clone, Copy, PartialEq, Eq, Hash, Structural)]
pub struct ChannelId(pub u128);

impl ChannelId {
    /// A fresh version-7 identifier, made from the current time.
    pub fn new() -> (id: Self)
        ensures
            uuid_version(id.0) == 7,
    {
        ChannelId(now_v7())
    }
}

/// Identifies a message.
#[derive(Debug, Clone, Copy, PartialEq, Eq, Hash, Structural)]
pub struct MessageId(pub u128);

impl MessageId {
    /// A fresh version-7 identifier, made from the current time.
    pub fn new() -> (id: Self)
        ensures
            uuid_version(id.0) == 7,
    {
        MessageId(now_v7())
    }
}

/// Identifies a category.
#[derive(Debug, Clone, Copy, PartialEq, Eq, Hash, Structural)]
pub struct CategoryId(pub u128);

impl CategoryId {
    /// A fresh version-7 identifier, made from the current time.
    pub fn new() -> (id: Self)
        ensures
            uuid_version(id.0) == 7,
    {
        CategoryId(now_v7())
    }
}

/// Identifies an attachment.
#[derive(Debug, Clone, Copy, PartialEq, Eq, Hash, Structural)]
pub struct AttachmentId(pub u128);

impl AttachmentId {
    /// A fresh version-7 identifier, made from the current time.
    pub fn new() -> (id: Self)
        ensures
            uuid_version(id.0) == 7,
    {
        AttachmentId(now_v7())
    }
}

/// Identifies an icon.
#[derive(Debug, Clone, Copy, PartialEq, Eq, Hash, Structural)]
pub struct IconId(pub u128);

impl IconId {
    /// A fresh version-7 identifier, made from the current time.
    pub fn new() -> (id: Self)
        ensures
            uuid_version(id.0) == 7,
    {
        IconId(now_v7())
    }
}

} // verus!
