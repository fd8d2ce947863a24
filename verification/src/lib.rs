//! Supervision core of a player-count presence bot: one worker per
//! configured game server keeps a chat-platform presence line synchronized
//! with that server's player count and map, and answers an on-demand roster
//! command with a formatted player table.
//!
//! The crate holds the decisions and the text: the configuration model and
//! its loading rules ([`config`]), the duration grammar of the poll-interval
//! field ([`duration`]), the composed presence and roster text ([`presence`],
//! [`roster`], [`textfmt`]), the per-worker lifecycle state machine with its
//! restart policy ([`worker`]), and the supervisor owning the worker set
//! ([`supervisor`]). The application shell around it does the I/O: it reads
//! the config file, runs the sessions and queries, performs each action the
//! state machines ask for, and feeds the outcomes back in.

pub mod config;
pub mod duration;
pub mod presence;
pub mod roster;
pub mod supervisor;
pub mod textfmt;
pub mod worker;

use vstd::prelude::*;

verus! {

/// A fatal, per-worker error: the configured chat-platform credential is
/// syntactically invalid, so the worker for that server can never connect.
/// The payload is the worker's name — never the credential itself, which is
/// a secret and stays out of errors and logs.
#[derive(Debug)]
pub enum Error {
    InvalidCredential(String),
}

impl Error {
    /// Human-readable description of the error, for operator logs. It
    /// identifies the worker by name.
    pub fn message(&self) -> (s: String)
        ensures
            s@ == spec_error_message(self),
    {
        match self {
            Error::InvalidCredential(name) => {
                let mut s = String::from_str("Invalid discord api key for server '");
                s.append(name.as_str());
                s.append("'");
                s
            },
        }
    }
}

/// What `Error::message` returns for each variant.
pub open spec fn spec_error_message(e: &Error) -> Seq<char> {
    match e {
        Error::InvalidCredential(name) => "Invalid discord api key for server '"@ + name@ + "'"@,
    }
}

} // verus!
