//! What a session knows of its user, and how requests are answered.
//!
//! Reading the request, looking the user up and checking the password are
//! done by the caller; the functions here decide what follows from the
//! results.

use crate::aspen_protocol::client_event::{Error, LoginFailed, LoginSuccess, ServerResponse};
use crate::fanout::SubscribeCommand;
use crate::ids::{CommunityId, UserId};
use vstd::prelude::*;
use vstd::string::StringExecFns;

verus! {

/// The most bytes that are read of one request.
pub const REQUEST_SIZE_LIMIT: usize = 65536;

/// What a failed lookup of a user is answered with.
pub open spec fn lookup_failed_cause() -> Seq<char> {
    "the server encountered an error"@
}

/// What comes before the identifier in the answer to a request that failed.
pub open spec fn request_failed_prefix() -> Seq<char> {
    "Error occurred. Error logged for server admin to review. Error ID: "@
}

/// What came of looking a user up by name and checking the password.
#[derive(Debug, Clone, Copy, PartialEq, Eq, Structural)]
pub enum UserLookup {
    /// The user exists; `password_matches` says whether the password was
    /// the right one.
    Found { user_id: UserId, password_matches: bool },
    /// No user has that name.
    NotFound,
    /// The lookup itself failed.
    Failed,
}

/// The state of one client's session.
#[derive(Debug, Clone, Copy, PartialEq, Eq, Structural)]
pub struct SessionContext {
    pub signed_in_user: Option<UserId>,
}

/// The batch that subscribes to each of `communities`, in their order.
pub open spec fn subscriptions_for(communities: Seq<CommunityId>) -> Seq<SubscribeCommand> {
    Seq::new(
        communities.len(),
        |i: int| SubscribeCommand { community: communities[i], desire_subscribed: true },
    )
}

impl SessionContext {
    /// A session that nobody has signed in to.
    pub fn new() -> (session: Self)
        ensures
            session.signed_in_user is None,
    {
        SessionContext { signed_in_user: None }
    }

    /// Signs `user_id` in and returns the batch of commands that subscribes
    /// the connection to the communities that the user belongs to.
    pub fn sign_in(&mut self, user_id: UserId, communities: &Vec<CommunityId>) -> (batch: Vec<
        SubscribeCommand,
    >)
        ensures
            final(self).signed_in_user == Some(user_id),
            batch@ == subscriptions_for(communities@),
    {
        self.signed_in_user = Some(user_id);
        let mut batch: Vec<SubscribeCommand> = Vec::new();
        let mut i: usize = 0;
        while i < communities.len()
            invariant
                i <= communities@.len(),
                batch@ == subscriptions_for(communities@.take(i as int)),
            decreases communities@.len() - i,
        {
            batch.push(SubscribeCommand { community: communities[i], desire_subscribed: true });
            assert(batch@ =~= subscriptions_for(communities@.take(i + 1)));
            i += 1;
        }
        assert(communities@.take(i as int) =~= communities@);
        batch
    }
}

/// Whom a login signs in: the user that was found, where the password
/// matched, and nobody else. Only for such a user is a batch of
/// subscriptions made.
pub fn signs_in(lookup: UserLookup) -> (user: Option<UserId>)
    ensures
        user == (match lookup {
            UserLookup::Found { user_id, password_matches: true } => Some(user_id),
            _ => None,
        }),
{
    match lookup {
        UserLookup::Found { user_id, password_matches } => {
            if password_matches {
                Some(user_id)
            } else {
                None
            }
        },
        _ => None,
    }
}

/// The answer to a login: success for a user whose password matched, failure
/// for a wrong password and for an unknown name alike, and an error where the
/// lookup failed.
pub fn login_response(lookup: UserLookup) -> (response: ServerResponse)
    ensures
        match lookup {
            UserLookup::Found { user_id, password_matches } => response == (if password_matches {
                ServerResponse::LoginSuccess(LoginSuccess { user_id })
            } else {
                ServerResponse::LoginFailed(LoginFailed {  })
            }),
            UserLookup::NotFound => response == ServerResponse::LoginFailed(LoginFailed {  }),
            UserLookup::Failed => response matches ServerResponse::Error(error)
                && error.cause matches Some(cause) && cause@ == lookup_failed_cause(),
        },
{
    match lookup {
        UserLookup::Found { user_id, password_matches } => {
            if password_matches {
                ServerResponse::LoginSuccess(LoginSuccess { user_id })
            } else {
                ServerResponse::LoginFailed(LoginFailed {  })
            }
        },
        UserLookup::NotFound => ServerResponse::LoginFailed(LoginFailed {  }),
        UserLookup::Failed => ServerResponse::Error(
            Error { cause: Some(String::from_str("the server encountered an error")) },
        ),
    }
}

/// The answer to a request whose handling failed. It names the identifier
/// under which the failure was logged, and nothing of the failure itself.
pub fn error_response(error_id: &str) -> (response: ServerResponse)
    ensures
        response matches ServerResponse::Error(error) && error.cause matches Some(cause) && cause@
            == request_failed_prefix() + error_id@,
{
    let cause = String::from_str(
        "Error occurred. Error logged for server admin to review. Error ID: ",
    ).concat(error_id);
    ServerResponse::Error(Error { cause: Some(cause) })
}

} // verus!
