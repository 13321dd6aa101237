//! Login, logout and the tokens in between: the requests, the answers, and
//! the rules that decide between the answers.
//!
//! Passwords are hashed and checked, tokens are drawn and rows are read and
//! written elsewhere; the functions here take what came of that and decide.
//! A time is a count of microseconds since the Unix epoch.

use crate::ids::UserId;
use vstd::prelude::*;

verus! {

/// A refresh token lasts 52 weeks.
pub const REFRESH_TOKEN_LIFETIME: i64 = 31_449_600_000_000;

/// A session token lasts 3 hours.
pub const SESSION_TOKEN_LIFETIME: i64 = 10_800_000_000;

/// A token for another server lasts 10 minutes.
pub const OTHER_SERVER_AUTH_LIFETIME: i64 = 600_000_000;

/// The least number of bytes in a password.
pub const PASSWORD_MIN_LENGTH: usize = 8;

pub const STATUS_OK: u16 = 200;

pub const STATUS_BAD_REQUEST: u16 = 400;

pub const STATUS_UNAUTHORIZED: u16 = 401;

pub const STATUS_NOT_FOUND: u16 = 404;

pub const STATUS_INTERNAL_SERVER_ERROR: u16 = 500;

#[derive(Debug, Clone, PartialEq, Eq)]
pub enum LoginResponse {
    Okay { user_id: UserId, refresh_token: String, session_token: String, session_token_expires: i64 },
    InvalidCredentials,
    ServerError,
}

#[derive(Debug, Clone, PartialEq, Eq)]
pub struct Login {
    pub username: String,
    pub password: String,
}

#[derive(Debug, Clone, PartialEq, Eq)]
pub enum TokenRefreshResponse {
    Okay { new_session_token: String },
    InvalidToken,
    ServerError,
}

#[derive(Debug, Clone, PartialEq, Eq)]
pub struct TokenRefresh {
    pub refresh_token: String,
}

#[derive(Debug, Clone, Copy, PartialEq, Eq, Structural)]
pub enum LogoutResponse {
    Okay,
    InvalidToken,
    ServerError,
}

#[derive(Debug, Clone, PartialEq, Eq)]
pub struct Logout {
    pub refresh_token: String,
}

#[derive(Debug, Clone, Copy, PartialEq, Eq, Structural)]
pub enum ChangePasswordResponse {
    Okay,
    OldPasswordIncorrect,
    NewPasswordDoesntMeetRequirements { cause: PasswordRequirement },
    ServerError,
}

#[derive(Debug, Clone, Copy, PartialEq, Eq, Structural)]
pub enum PasswordRequirement {
    Length,
}

#[derive(Debug, Clone, PartialEq, Eq)]
pub struct ChangePassword {
    pub user_id: UserId,
    pub old_password: String,
    pub new_password: String,
}

#[derive(Debug, Clone, PartialEq, Eq)]
pub struct OtherServerAuth {
    pub session_token: String,
    pub other_server_domain: String,
}

#[derive(Debug, Clone, PartialEq, Eq)]
pub enum OtherServerAuthResponse {
    Okay { other_server_auth_token: String },
    InvalidToken,
    Error,
}

impl LoginResponse {
    /// The HTTP status that goes with the answer.
    pub fn status_code(&self) -> (status: u16)
        ensures
            status == (match *self {
                LoginResponse::Okay { .. } => STATUS_OK,
                LoginResponse::InvalidCredentials => STATUS_UNAUTHORIZED,
                LoginResponse::ServerError => STATUS_INTERNAL_SERVER_ERROR,
            }),
    {
        match self {
            LoginResponse::Okay { .. } => STATUS_OK,
            LoginResponse::InvalidCredentials => STATUS_UNAUTHORIZED,
            LoginResponse::ServerError => STATUS_INTERNAL_SERVER_ERROR,
        }
    }
}

impl TokenRefreshResponse {
    /// The HTTP status that goes with the answer.
    pub fn status_code(&self) -> (status: u16)
        ensures
            status == (match *self {
                TokenRefreshResponse::Okay { .. } => STATUS_OK,
                TokenRefreshResponse::InvalidToken => STATUS_UNAUTHORIZED,
                TokenRefreshResponse::ServerError => STATUS_INTERNAL_SERVER_ERROR,
            }),
    {
        match self {
            TokenRefreshResponse::Okay { .. } => STATUS_OK,
            TokenRefreshResponse::InvalidToken => STATUS_UNAUTHORIZED,
            TokenRefreshResponse::ServerError => STATUS_INTERNAL_SERVER_ERROR,
        }
    }
}

impl LogoutResponse {
    /// The HTTP status that goes with the answer.
    pub fn status_code(&self) -> (status: u16)
        ensures
            status == (match *self {
                LogoutResponse::Okay => STATUS_OK,
                LogoutResponse::InvalidToken => STATUS_UNAUTHORIZED,
                LogoutResponse::ServerError => STATUS_INTERNAL_SERVER_ERROR,
            }),
    {
        match self {
            LogoutResponse::Okay => STATUS_OK,
            LogoutResponse::InvalidToken => STATUS_UNAUTHORIZED,
            LogoutResponse::ServerError => STATUS_INTERNAL_SERVER_ERROR,
        }
    }
}

impl ChangePasswordResponse {
    /// The HTTP status that goes with the answer.
    pub fn status_code(&self) -> (status: u16)
        ensures
            status == (match *self {
                ChangePasswordResponse::Okay => STATUS_OK,
                ChangePasswordResponse::OldPasswordIncorrect => STATUS_UNAUTHORIZED,
                ChangePasswordResponse::NewPasswordDoesntMeetRequirements { .. } => STATUS_BAD_REQUEST,
                ChangePasswordResponse::ServerError => STATUS_INTERNAL_SERVER_ERROR,
            }),
    {
        match self {
            ChangePasswordResponse::Okay => STATUS_OK,
            ChangePasswordResponse::OldPasswordIncorrect => STATUS_UNAUTHORIZED,
            ChangePasswordResponse::NewPasswordDoesntMeetRequirements { .. } => STATUS_BAD_REQUEST,
            ChangePasswordResponse::ServerError => STATUS_INTERNAL_SERVER_ERROR,
        }
    }
}

impl OtherServerAuthResponse {
    /// The HTTP status that goes with the answer.
    pub fn status_code(&self) -> (status: u16)
        ensures
            status == (match *self {
                OtherServerAuthResponse::Okay { .. } => STATUS_OK,
                OtherServerAuthResponse::InvalidToken => STATUS_BAD_REQUEST,
                OtherServerAuthResponse::Error => STATUS_INTERNAL_SERVER_ERROR,
            }),
    {
        match self {
            OtherServerAuthResponse::Okay { .. } => STATUS_OK,
            OtherServerAuthResponse::InvalidToken => STATUS_BAD_REQUEST,
            OtherServerAuthResponse::Error => STATUS_INTERNAL_SERVER_ERROR,
        }
    }
}

/// The moment at which a token that is issued at `now` expires, or `None`
/// where that moment is beyond what a time can hold.
pub fn expires_at(now: i64, lifetime: i64) -> (expires: Option<i64>)
    ensures
        expires == (if i64::MIN <= now + lifetime <= i64::MAX {
            Some((now + lifetime) as i64)
        } else {
            None
        }),
{
    now.checked_add(lifetime)
}

/// Whether a refresh token may be used at `now`, where `expires` is the
/// moment of expiry that is stored with the token, if the token is known.
/// A token may still be used at the moment of its expiry.
pub fn refresh_token_is_valid(expires: Option<i64>, now: i64) -> (valid: bool)
    ensures
        valid == (expires matches Some(moment) && moment >= now),
{
    match expires {
        Some(moment) => !(moment < now),
        None => false,
    }
}

/// The answer to a logout that removed `rows_deleted` refresh tokens.
pub fn logout_response(rows_deleted: usize) -> (response: LogoutResponse)
    ensures
        response == (if rows_deleted > 0 {
            LogoutResponse::Okay
        } else {
            LogoutResponse::InvalidToken
        }),
{
    if rows_deleted > 0 {
        LogoutResponse::Okay
    } else {
        LogoutResponse::InvalidToken
    }
}

/// What a new password lacks, if anything: it must have at least
/// `PASSWORD_MIN_LENGTH` bytes.
pub fn password_requirement(new_password: &str) -> (lacking: Option<PasswordRequirement>)
    ensures
        lacking == (if new_password.len() < PASSWORD_MIN_LENGTH {
            Some(PasswordRequirement::Length)
        } else {
            None
        }),
{
    if new_password.len() < PASSWORD_MIN_LENGTH {
        Some(PasswordRequirement::Length)
    } else {
        None
    }
}

/// Decides on a change of password, where `old_password_matches` says whether
/// the old password was the right one. `Okay` means that the new password is to
/// be stored.
pub fn vet_password_change(old_password_matches: bool, new_password: &str) -> (response:
    ChangePasswordResponse)
    ensures
        response == (if !old_password_matches {
            ChangePasswordResponse::OldPasswordIncorrect
        } else if new_password.len() < PASSWORD_MIN_LENGTH {
            ChangePasswordResponse::NewPasswordDoesntMeetRequirements {
                cause: PasswordRequirement::Length,
            }
        } else {
            ChangePasswordResponse::Okay
        }),
{
    if !old_password_matches {
        return ChangePasswordResponse::OldPasswordIncorrect;
    }
    match password_requirement(new_password) {
        Some(cause) => ChangePasswordResponse::NewPasswordDoesntMeetRequirements { cause },
        None => ChangePasswordResponse::Okay,
    }
}

} // verus!
