//! The first interface of the library: one request for each report, sent
//! once, and counted as delivered only on status `200`.

use vstd::prelude::*;
use vstd::string::StringExecFns;
use crate::delivery::Outcome;
use crate::identifier::is_uuid_text;
use crate::ping::{Signal, HEALTHCHECK_PING_URL};
use crate::request::{Method, PingRequest, PingRequestView};
use crate::{get_user_agent, DEFAULT_USER_AGENT};

verus! {

/// Struct that encapsulates the UUID that uniquely identifies your
/// healthchecks.io endpoint. Instances of this exposes methods to
/// report status to healthchecks.io
#[derive(Debug)]
pub struct HealthcheckConfig {
    uuid: String,
    user_agent: String,
}

/// A [`HealthcheckConfig`] as mathematical values.
pub struct HealthcheckConfigView {
    pub uuid: Seq<char>,
    pub user_agent: Seq<char>,
}

impl HealthcheckConfigView {
    /// The request that reports `signal` to the hosted service.
    pub open spec fn request(self, signal: Signal) -> PingRequestView {
        PingRequestView {
            method: Method::Get,
            url: HEALTHCHECK_PING_URL@ + "/"@ + self.uuid + signal.suffix(),
            user_agent: self.user_agent,
            body: None,
        }
    }
}

impl View for HealthcheckConfig {
    type V = HealthcheckConfigView;

    closed spec fn view(&self) -> HealthcheckConfigView {
        HealthcheckConfigView { uuid: self.uuid@, user_agent: self.user_agent@ }
    }
}

/// Create an instance of [`HealthcheckConfig`] from a String UUID, with the
/// default user agent.
///
/// The UUID must be valid; [`is_uuid`](crate::identifier::is_uuid) tells.
pub fn create_config(uuid: String) -> (config: HealthcheckConfig)
    requires
        is_uuid_text(uuid@),
    ensures
        config@ == (HealthcheckConfigView { uuid: uuid@, user_agent: DEFAULT_USER_AGENT@ }),
{
    HealthcheckConfig { uuid, user_agent: get_user_agent() }
}

/// Create an instance of [`HealthcheckConfig`] from a String UUID
/// and a custom User-Agent header value.
///
/// The UUID must be valid; [`is_uuid`](crate::identifier::is_uuid) tells.
pub fn create_config_with_user_agent(uuid: String, user_agent: String) -> (config:
    HealthcheckConfig)
    requires
        is_uuid_text(uuid@),
    ensures
        config@ == (HealthcheckConfigView { uuid: uuid@, user_agent: user_agent@ }),
{
    HealthcheckConfig { uuid, user_agent }
}

impl HealthcheckConfig {
    #[verifier::type_invariant]
    spec fn inv(&self) -> bool {
        is_uuid_text(self.uuid@)
    }

    /// The request for `signal`, whose URL ends in `suffix`.
    fn request(&self, signal: Signal, suffix: &str) -> (request: PingRequest)
        requires
            suffix@ == signal.suffix(),
        ensures
            request@ == self@.request(signal),
    {
        PingRequest {
            method: Method::Get,
            url: String::from_str(HEALTHCHECK_PING_URL).concat("/").concat(
                self.uuid.as_str(),
            ).concat(suffix),
            user_agent: self.user_agent.clone(),
            body: None,
        }
    }

    /// The identifier of the check that this configuration reports to.
    pub fn uuid(&self) -> (uuid: &str)
        ensures
            uuid@ == self@.uuid,
            is_uuid_text(uuid@),
    {
        proof {
            use_type_invariant(self);
        }
        self.uuid.as_str()
    }

    /// The request that reports success to healthchecks.io.
    pub fn report_success(&self) -> (request: PingRequest)
        ensures
            request@ == self@.request(Signal::Success),
    {
        self.request(Signal::Success, "")
    }

    /// The request that reports failure to healthchecks.io.
    pub fn report_failure(&self) -> (request: PingRequest)
        ensures
            request@ == self@.request(Signal::Failure),
    {
        self.request(Signal::Failure, "/fail")
    }

    /// The request that starts a timer on healthchecks.io, to measure script
    /// run times.
    pub fn start_timer(&self) -> (request: PingRequest)
        ensures
            request@ == self@.request(Signal::Start),
    {
        self.request(Signal::Start, "/start")
    }

    /// Whether the one attempt that this interface makes has succeeded:
    /// only status `200` counts.
    pub fn succeeded(outcome: Outcome) -> (yes: bool)
        ensures
            yes == (outcome == Outcome::Status(200)),
    {
        match outcome {
            Outcome::Status(code) => code == 200,
            Outcome::TransportError => false,
        }
    }
}

} // verus!
