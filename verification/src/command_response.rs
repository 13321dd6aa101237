//! The answers to commands.

use crate::login::{
    STATUS_BAD_REQUEST, STATUS_INTERNAL_SERVER_ERROR, STATUS_NOT_FOUND,
};
use vstd::prelude::*;
use vstd::string::StringExecFns;

verus! {

#[derive(Debug, Clone, PartialEq, Eq)]
pub enum CommandResponse {
    CreateOk(CreateOk),
    CommandSuccess,
    NotAllowed(NotAllowed),
    Error(Error),
}

/// A record was created; `new_id` is its UUID as a number.
#[derive(Debug, Clone, Copy, PartialEq, Eq, Structural)]
pub struct CreateOk {
    pub new_id: Option<u128>,
}

#[derive(Debug, Clone, PartialEq, Eq)]
pub struct NotAllowed {
    pub reason: Option<String>,
}

#[derive(Debug, Clone, PartialEq, Eq)]
pub struct Error {
    pub cause: Option<String>,
}

/// Why the store refused or failed.
#[derive(Debug, Clone, Copy, PartialEq, Eq, Structural)]
pub enum StoreError {
    /// A value that must be unique is taken.
    UniqueViolation,
    /// No such record.
    NotFound,
    /// Anything else.
    Other,
}

/// The key of the message that tells a user that the name is taken.
pub open spec fn username_taken() -> Seq<char> {
    "usernameAlreadyTaken"@
}

/// The key of the message that asks a user to try again later.
pub open spec fn try_again_later() -> Seq<char> {
    "tryAgainLater"@
}

/// The status and the answer where a user could not be created: a taken name
/// is the caller's fault and is named; anything else is the server's and is
/// not told.
pub fn create_user_failed(error: StoreError) -> (answer: (u16, Error))
    ensures
        error is UniqueViolation ==> answer.0 == STATUS_BAD_REQUEST,
        error is UniqueViolation ==> (answer.1.cause matches Some(cause) && cause@
            == username_taken()),
        !(error is UniqueViolation) ==> answer.0 == STATUS_INTERNAL_SERVER_ERROR
            && answer.1.cause is None,
{
    match error {
        StoreError::UniqueViolation => (
            STATUS_BAD_REQUEST,
            Error { cause: Some(String::from_str("usernameAlreadyTaken")) },
        ),
        _ => (STATUS_INTERNAL_SERVER_ERROR, Error { cause: None }),
    }
}

/// The status and the answer where a user could not be read.
pub fn read_user_failed(error: StoreError) -> (answer: (u16, Error))
    ensures
        answer.0 == (if error is NotFound {
            STATUS_NOT_FOUND
        } else {
            STATUS_INTERNAL_SERVER_ERROR
        }),
        answer.1.cause is None,
{
    match error {
        StoreError::NotFound => (STATUS_NOT_FOUND, Error { cause: None }),
        _ => (STATUS_INTERNAL_SERVER_ERROR, Error { cause: None }),
    }
}

/// The status and the answer where a community could not be created.
pub fn create_community_failed() -> (answer: (u16, Error))
    ensures
        answer.0 == STATUS_INTERNAL_SERVER_ERROR,
        answer.1.cause matches Some(cause) && cause@ == try_again_later(),
{
    (STATUS_INTERNAL_SERVER_ERROR, Error { cause: Some(String::from_str("tryAgainLater")) })
}

} // verus!
