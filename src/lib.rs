//! Latest-value cache for the status endpoints of a deployment platform.
//!
//! Pollers turn upstream replies into tagged [`Message`]s, a single aggregator
//! installs them into a [`Snapshot`], and readers take stamped copies of it.
//! The credential used by the authenticated poller is refreshed on demand.
use vstd::prelude::*;

pub mod credential;
pub mod document;
pub mod message;
pub mod poller;
pub mod snapshot;


pub use message::{Category, Message};

pub use credential::{AuthError, Credential, OidcConfig, TOKEN_TTL_SECS};
pub use poller::{PollError, Poller, Reply};
pub use snapshot::Snapshot;

verus! {

/// Liveness answer: status 200 with the body `OK`, whatever the snapshot holds.
pub fn healthz() -> (r: (u16, &'static str))
    ensures
        r.0 == 200,
        r.1@ == "OK"@,
{
    (200, "OK")
}

} // verus!
