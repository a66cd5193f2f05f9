//! Reporting the life of a job to the ping endpoint of a check.

use vstd::prelude::*;
use vstd::string::StringExecFns;
use crate::delivery::{lemma_run_invariants, Delivery, DeliveryView, Outcome};
use crate::errors::HealthchecksConfigError;
use crate::identifier::{
    hyphenated, is_braced_uuid, is_hyphenated_uuid, is_simple_uuid, is_uuid, is_uuid_text,
    lemma_hyphenated_is_uuid_text, RunId,
};
use crate::request::{Method, PingRequest, PingRequestView};
use crate::{get_user_agent, DEFAULT_USER_AGENT};

verus! {

/// The ping endpoint of the hosted service.
pub const HEALTHCHECK_PING_URL: &'static str = "https://hc-ping.com";

/// What a ping tells the service about a job.
#[derive(Clone, Copy, Debug, PartialEq, Eq, Structural)]
pub enum Signal {
    /// The job has started; the service starts its timer.
    Start,
    /// The job has finished well.
    Success,
    /// The job has failed.
    Failure,
}

impl Signal {
    /// What follows the check identifier in the URL of this signal.
    pub open spec fn suffix(self) -> Seq<char> {
        match self {
            Signal::Start => "/start"@,
            Signal::Success => ""@,
            Signal::Failure => "/fail"@,
        }
    }
}

/// The query that tags a URL with a run identifier; empty without one.
pub open spec fn run_id_query(run_id: Option<RunId>) -> Seq<char> {
    match run_id {
        Some(id) => "?rid="@ + hyphenated(id.value),
        None => Seq::empty(),
    }
}

/// The run identifier behind an optional reference.
pub open spec fn run_id_value(run_id: Option<&RunId>) -> Option<RunId> {
    match run_id {
        Some(id) => Some(*id),
        None => None,
    }
}

/// Helper method to add `run_id` to URL if it's provided
pub fn maybe_add_run_id(url: String, run_id: Option<&RunId>) -> (tagged: String)
    ensures
        tagged@ == url@ + run_id_query(run_id_value(run_id)),
{
    match run_id {
        Some(id) => {
            let text = id.to_text();
            url.concat("?rid=").concat(text.as_str())
        },
        None => url,
    }
}

/// Client type for communication with the healthchecks.io ping API for a
/// single check.
///
/// A client never changes the check it reports to nor its base URL; only the
/// user agent can be replaced, by [`PingClient::set_user_agent`]. Each
/// report starts a [`Delivery`], which the caller carries out.
#[derive(Debug)]
pub struct PingClient {
    uuid: String,
    user_agent: String,
    api_url: String,
}

/// A [`PingClient`] as mathematical values.
pub struct PingClientView {
    pub uuid: Seq<char>,
    pub user_agent: Seq<char>,
    pub api_url: Seq<char>,
}

impl PingClientView {
    /// What holds of every client: its check identifier is a UUID and its
    /// base URL is not empty.
    pub open spec fn wf(self) -> bool {
        is_uuid_text(self.uuid) && self.api_url.len() > 0
    }

    /// The same client with another user agent.
    pub open spec fn with_user_agent(self, user_agent: Seq<char>) -> PingClientView {
        PingClientView { user_agent, ..self }
    }

    /// The URL that `signal` is reported to.
    pub open spec fn url(self, signal: Signal, run_id: Option<RunId>) -> Seq<char> {
        self.api_url + "/"@ + self.uuid + signal.suffix() + run_id_query(run_id)
    }

    /// The request that reports `signal`: a `POST` of `logs` where there
    /// are any, else a `GET` without a body.
    pub open spec fn request(
        self,
        signal: Signal,
        logs: Option<Seq<char>>,
        run_id: Option<RunId>,
    ) -> PingRequestView {
        PingRequestView {
            method: if logs is Some {
                Method::Post
            } else {
                Method::Get
            },
            url: self.url(signal, run_id),
            user_agent: self.user_agent,
            body: logs,
        }
    }
}

impl View for PingClient {
    type V = PingClientView;

    closed spec fn view(&self) -> PingClientView {
        PingClientView { uuid: self.uuid@, user_agent: self.user_agent@, api_url: self.api_url@ }
    }
}

/// Create an instance of [`PingClient`] from the UUID of a check.
///
/// # Errors
/// - Returns [`HealthchecksConfigError::InvalidUuid`] if `uuid` is not
///   a valid UUID
pub fn get_client(uuid: &str) -> (created: Result<PingClient, HealthchecksConfigError>)
    ensures
        match created {
            Ok(client) => is_uuid_text(uuid@) && client@ == (PingClientView {
                uuid: uuid@,
                user_agent: DEFAULT_USER_AGENT@,
                api_url: HEALTHCHECK_PING_URL@,
            }) && client@.wf(),
            Err(HealthchecksConfigError::InvalidUuid(text)) => !is_uuid_text(uuid@) && text@
                == uuid@,
            Err(_) => false,
        },
{
    proof {
        reveal_strlit("https://hc-ping.com");
    }
    get_client_with_url(uuid, HEALTHCHECK_PING_URL)
}

/// Same as [`get_client`], with the ability to use a custom instance of the
/// healthchecks server.
///
/// # Errors
/// - Returns [`HealthchecksConfigError::InvalidUuid`] if `uuid` is not
///   a valid UUID
/// - Returns [`HealthchecksConfigError::EmptyApiUrl`] if `api_url` is empty.
pub fn get_client_with_url(uuid: &str, api_url: &str) -> (created: Result<
    PingClient,
    HealthchecksConfigError,
>)
    ensures
        match created {
            Ok(client) => is_uuid_text(uuid@) && api_url@.len() > 0 && client@ == (PingClientView {
                uuid: uuid@,
                user_agent: DEFAULT_USER_AGENT@,
                api_url: api_url@,
            }) && client@.wf(),
            Err(HealthchecksConfigError::InvalidUuid(text)) => !is_uuid_text(uuid@) && text@
                == uuid@,
            Err(HealthchecksConfigError::EmptyApiUrl) => is_uuid_text(uuid@) && api_url@.len()
                == 0,
            Err(_) => false,
        },
{
    if !is_uuid(uuid) {
        Err(HealthchecksConfigError::InvalidUuid(uuid.to_owned()))
    } else if api_url.is_empty() {
        Err(HealthchecksConfigError::EmptyApiUrl)
    } else {
        Ok(
            PingClient {
                uuid: uuid.to_owned(),
                user_agent: get_user_agent(),
                api_url: api_url.to_owned(),
            },
        )
    }
}

impl PingClient {
    #[verifier::type_invariant]
    spec fn inv(&self) -> bool {
        self@.wf()
    }

    /// The identifier of the check that this client reports to.
    pub fn uuid(&self) -> (uuid: &str)
        ensures
            uuid@ == self@.uuid,
            is_uuid_text(uuid@),
    {
        proof {
            use_type_invariant(self);
        }
        self.uuid.as_str()
    }

    /// The value of the `User-Agent` header of every request.
    pub fn user_agent(&self) -> (user_agent: &str)
        ensures
            user_agent@ == self@.user_agent,
    {
        self.user_agent.as_str()
    }

    /// The base URL of the ping endpoint.
    pub fn api_url(&self) -> (api_url: &str)
        ensures
            api_url@ == self@.api_url,
            api_url@.len() > 0,
    {
        proof {
            use_type_invariant(self);
        }
        self.api_url.as_str()
    }

    /// Set the user agent for the given config
    #[must_use]
    pub fn set_user_agent(self, user_agent: &str) -> (client: PingClient)
        ensures
            client@ == self@.with_user_agent(user_agent@),
            client@.wf(),
    {
        proof {
            use_type_invariant(&self);
        }
        PingClient { uuid: self.uuid, user_agent: user_agent.to_owned(), api_url: self.api_url }
    }

    /// Builds the request for `signal` and starts its delivery.
    fn deliver(
        &self,
        signal: Signal,
        suffix: &str,
        logs: Option<&str>,
        run_id: Option<&RunId>,
    ) -> (delivery: Delivery)
        requires
            suffix@ == signal.suffix(),
        ensures
            delivery@ == DeliveryView::fresh(
                self@.request(
                    signal,
                    match logs {
                        Some(text) => Some(text@),
                        None => None,
                    },
                    run_id_value(run_id),
                ),
            ),
            delivery@.wf(),
    {
        let base = self.api_url.clone().concat("/").concat(self.uuid.as_str()).concat(suffix);
        let url = maybe_add_run_id(base, run_id);
        let request = match logs {
            Some(text) => PingRequest {
                method: Method::Post,
                url,
                user_agent: self.user_agent.clone(),
                body: Some(text.to_owned()),
            },
            None => PingRequest {
                method: Method::Get,
                url,
                user_agent: self.user_agent.clone(),
                body: None,
            },
        };
        Delivery::new(request)
    }

    /// Report success to healthchecks.io.
    ///
    /// This starts the delivery of the report. The caller carries it out
    /// with [`Delivery::send_with`], or sends the request of the delivery
    /// itself and records what comes back until the delivery has a result.
    #[must_use]
    pub fn report_success(&self) -> (delivery: Delivery)
        ensures
            delivery@ == DeliveryView::fresh(self@.request(Signal::Success, None, None)),
            delivery@.wf(),
    {
        self.report_success_with_run_id(None)
    }

    /// Report success to healthchecks.io with a specific run ID to track
    /// concurrent executions.
    ///
    /// The run ID allows healthchecks.io to correctly calculate execution
    /// times when multiple instances of the same job run concurrently.
    #[must_use]
    pub fn report_success_with_run_id(&self, run_id: Option<&RunId>) -> (delivery: Delivery)
        ensures
            delivery@ == DeliveryView::fresh(
                self@.request(Signal::Success, None, run_id_value(run_id)),
            ),
            delivery@.wf(),
    {
        self.deliver(Signal::Success, "", None, run_id)
    }

    /// Report failure to healthchecks.io.
    #[must_use]
    pub fn report_failure(&self) -> (delivery: Delivery)
        ensures
            delivery@ == DeliveryView::fresh(self@.request(Signal::Failure, None, None)),
            delivery@.wf(),
    {
        self.report_failure_with_run_id(None)
    }

    /// Report failure to healthchecks.io with a specific run ID to track
    /// concurrent executions.
    #[must_use]
    pub fn report_failure_with_run_id(&self, run_id: Option<&RunId>) -> (delivery: Delivery)
        ensures
            delivery@ == DeliveryView::fresh(
                self@.request(Signal::Failure, None, run_id_value(run_id)),
            ),
            delivery@.wf(),
    {
        self.deliver(Signal::Failure, "/fail", None, run_id)
    }

    /// Report failure to healthchecks.io with an accompanying log snippet to
    /// help debug the failure.
    #[must_use]
    pub fn report_failure_with_logs(&self, data: &str) -> (delivery: Delivery)
        ensures
            delivery@ == DeliveryView::fresh(self@.request(Signal::Failure, Some(data@), None)),
            delivery@.wf(),
    {
        self.report_failure_with_logs_and_run_id(data, None)
    }

    /// Report failure to healthchecks.io with an accompanying log snippet
    /// and a specific run ID.
    #[must_use]
    pub fn report_failure_with_logs_and_run_id(
        &self,
        data: &str,
        run_id: Option<&RunId>,
    ) -> (delivery: Delivery)
        ensures
            delivery@ == DeliveryView::fresh(
                self@.request(Signal::Failure, Some(data@), run_id_value(run_id)),
            ),
            delivery@.wf(),
    {
        self.deliver(Signal::Failure, "/fail", Some(data), run_id)
    }

    /// Start a timer on healthchecks.io, to measure script run times.
    /// Official documentation for it is available
    /// [here](https://healthchecks.io/docs/measuring_script_run_time/).
    #[must_use]
    pub fn start_timer(&self) -> (delivery: Delivery)
        ensures
            delivery@ == DeliveryView::fresh(self@.request(Signal::Start, None, None)),
            delivery@.wf(),
    {
        self.start_timer_with_run_id(None)
    }

    /// Start a timer on healthchecks.io with a specific run ID, to measure
    /// script run times.
    #[must_use]
    pub fn start_timer_with_run_id(&self, run_id: Option<&RunId>) -> (delivery: Delivery)
        ensures
            delivery@ == DeliveryView::fresh(
                self@.request(Signal::Start, None, run_id_value(run_id)),
            ),
            delivery@.wf(),
    {
        self.deliver(Signal::Start, "/start", None, run_id)
    }
}

/// `text` ends with `tail`.
pub open spec fn ends_with(text: Seq<char>, tail: Seq<char>) -> bool {
    tail.len() <= text.len() && text.subrange(text.len() - tail.len(), text.len() as int) == tail
}

/// No accepted form of a UUID holds a question mark.
pub proof fn lemma_uuid_text_has_no_query(text: Seq<char>)
    requires
        is_uuid_text(text),
    ensures
        !text.contains('?'),
{
    assert forall|i: int| 0 <= i < text.len() implies text[i] != '?' by {
        if is_simple_uuid(text) {
        } else if is_hyphenated_uuid(text) {
        } else if is_braced_uuid(text) {
            if 1 <= i < 37 {
                assert(text[i] == text.subrange(1, 37)[i - 1]);
            }
        } else {
            if i < 9 {
                assert(text[i] == text.subrange(0, 9)[i]);
            } else {
                assert(text[i] == text.subrange(9, 45)[i - 9]);
            }
        }
    }
}

/// When a run identifier is supplied, every attempt goes to a URL that ends
/// with `?rid=` and the text of that identifier, which is a UUID in
/// hyphenated form.
pub proof fn lemma_run_id_is_sent(
    client: PingClientView,
    signal: Signal,
    logs: Option<Seq<char>>,
    run_id: RunId,
    outcomes: Seq<Outcome>,
)
    ensures
        ends_with(
            DeliveryView::fresh(client.request(signal, logs, Some(run_id))).run(
                outcomes,
            ).request.url,
            "?rid="@ + hyphenated(run_id.value),
        ),
        is_hyphenated_uuid(hyphenated(run_id.value)),
{
    lemma_hyphenated_is_uuid_text(run_id.value);
    let request = client.request(signal, logs, Some(run_id));
    lemma_run_invariants(DeliveryView::fresh(request), outcomes);
    let tail = "?rid="@ + hyphenated(run_id.value);
    let head = client.api_url + "/"@ + client.uuid + signal.suffix();
    assert(request.url == head + tail);
    assert((head + tail).subrange((head + tail).len() - tail.len(), (head + tail).len() as int)
        =~= tail);
}

/// Without a run identifier every attempt goes to the bare URL of the
/// signal. Unless the base URL brings a query of its own, that URL holds
/// none, so no `rid` parameter either.
pub proof fn lemma_no_run_id_is_sent(
    client: PingClientView,
    signal: Signal,
    logs: Option<Seq<char>>,
    outcomes: Seq<Outcome>,
)
    requires
        client.wf(),
    ensures
        DeliveryView::fresh(client.request(signal, logs, None)).run(outcomes).request.url
            == client.api_url + "/"@ + client.uuid + signal.suffix(),
        !client.api_url.contains('?') ==> !DeliveryView::fresh(
            client.request(signal, logs, None),
        ).run(outcomes).request.url.contains('?'),
{
    let request = client.request(signal, logs, None);
    lemma_run_invariants(DeliveryView::fresh(request), outcomes);
    let url = client.api_url + "/"@ + client.uuid + signal.suffix();
    assert(request.url =~= url);
    if !client.api_url.contains('?') {
        lemma_uuid_text_has_no_query(client.uuid);
        reveal_strlit("/");
        reveal_strlit("/start");
        reveal_strlit("");
        reveal_strlit("/fail");
        assert forall|i: int| 0 <= i < url.len() implies url[i] != '?' by {
            let a = client.api_url.len() as int;
            let u = client.uuid.len() as int;
            if i < a {
                assert(url[i] == client.api_url[i]);
            } else if i == a {
            } else if i < a + 1 + u {
                assert(url[i] == client.uuid[i - a - 1]);
            } else {
                assert(url[i] == signal.suffix()[i - a - 1 - u]);
            }
        }
    }
}

/// Every attempt, the first and each retry, carries the user agent that the
/// client had when the report was made.
pub proof fn lemma_user_agent_is_sent(
    client: PingClientView,
    signal: Signal,
    logs: Option<Seq<char>>,
    run_id: Option<RunId>,
    outcomes: Seq<Outcome>,
)
    ensures
        DeliveryView::fresh(client.request(signal, logs, run_id)).run(
            outcomes,
        ).request.user_agent == client.user_agent,
{
    lemma_run_invariants(
        DeliveryView::fresh(client.request(signal, logs, run_id)),
        outcomes,
    );
}

/// After the user agent was set, every attempt of every report carries the
/// new value in place of the default, and nothing else about the requests
/// has changed.
pub proof fn lemma_user_agent_override(
    client: PingClientView,
    user_agent: Seq<char>,
    signal: Signal,
    logs: Option<Seq<char>>,
    run_id: Option<RunId>,
    outcomes: Seq<Outcome>,
)
    ensures
        DeliveryView::fresh(client.with_user_agent(user_agent).request(signal, logs, run_id)).run(
            outcomes,
        ).request == (PingRequestView { user_agent, ..client.request(signal, logs, run_id) }),
{
    lemma_run_invariants(
        DeliveryView::fresh(client.with_user_agent(user_agent).request(signal, logs, run_id)),
        outcomes,
    );
}

} // verus!
