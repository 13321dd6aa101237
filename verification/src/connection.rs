//! The rules by which connections are taken in and closed.

use vstd::prelude::*;
use vstd::string::StringExecFns;

verus! {

/// What is done with an incoming connection.
#[derive(Debug, Clone, Copy, PartialEq, Eq, Structural)]
pub enum Admission {
    /// Refuse it: the limit of open connections is reached.
    RefuseLimit,
    /// Refuse it: the address is blocked.
    RefuseBlocked,
    /// Have the client validate its address first.
    Retry,
    Accept,
}

/// What the server knows of an incoming connection.
#[derive(Debug, Clone, Copy, PartialEq, Eq, Structural)]
pub struct Incoming {
    /// How many connections are open.
    pub open_connections: usize,
    /// Whether the remote address is the blocked one.
    pub blocked: bool,
    /// Whether the remote address has been validated.
    pub validated: bool,
}

/// Decides on an incoming connection. The limit of open connections is
/// looked at first, then the blocked address, then, where stateless retry
/// is on, whether the address is validated.
pub fn admission_for(incoming: Incoming, connection_limit: Option<usize>, stateless_retry: bool) -> (admission:
    Admission)
    ensures
        admission == (if connection_limit matches Some(limit) && incoming.open_connections
            >= limit {
            Admission::RefuseLimit
        } else if incoming.blocked {
            Admission::RefuseBlocked
        } else if stateless_retry && !incoming.validated {
            Admission::Retry
        } else {
            Admission::Accept
        }),
{
    let full = match connection_limit {
        Some(limit) => incoming.open_connections >= limit,
        None => false,
    };
    if full {
        Admission::RefuseLimit
    } else if incoming.blocked {
        Admission::RefuseBlocked
    } else if stateless_retry && !incoming.validated {
        Admission::Retry
    } else {
        Admission::Accept
    }
}

/// How a connection came to its end.
#[derive(Debug, Clone, PartialEq, Eq)]
pub enum ConnectionEnd {
    /// The client closed it.
    ClientClosed,
    /// The client did not keep up with the server's events.
    Lagged,
    /// The transport failed, with its own description.
    Failed(String),
}

/// What is said of a client that fell behind.
pub open spec fn lagged_description() -> Seq<char> {
    "connection not keeping up with server events, disconnecting"@
}

/// What comes before the description of a failure in the reason for closing.
pub open spec fn reason_prefix() -> Seq<char> {
    "QUIC error "@
}

impl ConnectionEnd {
    /// The description of a failure; empty where the client closed.
    pub open spec fn description(self) -> Seq<char> {
        match self {
            ConnectionEnd::ClientClosed => Seq::empty(),
            ConnectionEnd::Lagged => lagged_description(),
            ConnectionEnd::Failed(description) => description@,
        }
    }

    /// The code with which the connection is closed: 0 where the client
    /// closed it, 1 after a failure.
    pub fn close_code(&self) -> (code: u32)
        ensures
            code == (if *self is ClientClosed {
                0u32
            } else {
                1u32
            }),
    {
        match self {
            ConnectionEnd::ClientClosed => 0,
            _ => 1,
        }
    }

    /// The reason that is sent along when the connection is closed: nothing
    /// where the client closed it, else the description of the failure.
    pub fn close_reason(&self) -> (reason: String)
        ensures
            reason@ == (if *self is ClientClosed {
                Seq::<char>::empty()
            } else {
                reason_prefix() + self.description()
            }),
    {
        match self {
            ConnectionEnd::ClientClosed => String::new(),
            ConnectionEnd::Lagged => String::from_str("QUIC error ").concat(
                "connection not keeping up with server events, disconnecting",
            ),
            ConnectionEnd::Failed(description) => String::from_str("QUIC error ").concat(
                description.as_str(),
            ),
        }
    }
}

} // verus!
