//! Client-side logic for the healthchecks.io monitoring service.
//!
//! The crate decides what to send and how often; it performs no network or
//! process I/O itself. Every report of a [`ping::PingClient`] starts a
//! [`delivery::Delivery`]. The caller either hands it a function that sends
//! one request, with [`delivery::Delivery::send_with`], or sends the request
//! of the delivery itself and records each [`delivery::Outcome`] until the
//! delivery has a result.
//!
//! ```ignore
//! let client = healthchecks::ping::get_client("2d0a34bd-854d-490e-be2c-1493f7053460")?;
//! let delivered = client.report_success().send_with(|request| transport.send(request));
//! ```

use vstd::prelude::*;
use vstd::string::StringExecFns;

/// The first, single-attempt interface.
pub mod config;
/// Bounded retrying of one ping.
pub mod delivery;
/// Error types for public API
pub mod errors;
/// Decisions of the account tool.
pub mod hcctl;
/// Check and run identifiers.
pub mod identifier;
/// Functions for interacting with the Healthchecks management API.
pub mod manage;
/// API response models for data returned from the various Healthchecks APIs.
pub mod model;
/// Decisions of the command monitor.
pub mod monitor;
/// Functions for interacting with the Healthchecks pinging API.
pub mod ping;
/// The request that carries a ping.
pub mod request;
/// Decimal numbers, lowercase and substrings.
pub mod text;

verus! {

/// The default User-Agent header value for the library
pub const DEFAULT_USER_AGENT: &'static str = "healthchecks-rs/3.2.0";

/// The default user agent is not empty.
pub proof fn lemma_default_user_agent_is_not_empty()
    ensures
        DEFAULT_USER_AGENT@.len() > 0,
{
    reveal_strlit("healthchecks-rs/3.2.0");
}

/// The User-Agent header value that a client starts out with.
pub fn get_user_agent() -> (user_agent: String)
    ensures
        user_agent@ == DEFAULT_USER_AGENT@,
{
    String::from_str(DEFAULT_USER_AGENT)
}

} // verus!
