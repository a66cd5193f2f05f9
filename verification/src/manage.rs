//! Shaping the requests of the management API and judging its answers.
//!
//! A [`ManageClient`] holds the credentials of an account. Each of its
//! methods describes the HTTP request of one operation. Sending the request,
//! encoding its body and decoding the answer is left to the caller;
//! [`rejection`], [`transport_failure`] and [`upsert_result`] say what a
//! status code or a missing answer means.

use vstd::prelude::*;
use vstd::string::StringExecFns;
use crate::errors::{ApiErrorView, ConfigErrorView, HealthchecksApiError, HealthchecksConfigError};
use crate::model::{NewCheck, UpdatedCheck};
use crate::text::{decimal, decimal_string};
use crate::{get_user_agent, lemma_default_user_agent_is_not_empty, DEFAULT_USER_AGENT};

verus! {

/// The management API of the hosted service.
pub const HEALTHCHECK_API_URL: &'static str = "https://healthchecks.io/api/v1";

/// The operations of the management API.
#[derive(Clone, Copy, Debug, PartialEq, Eq, Structural)]
pub enum Operation {
    GetChecks,
    GetCheck,
    GetChannels,
    Pause,
    ListLoggedPings,
    ListStatusChanges,
    Delete,
    UpsertCheck,
    UpdateCheck,
}

/// The HTTP method of a management request.
#[derive(Clone, Copy, Debug, PartialEq, Eq, Structural)]
pub enum ApiMethod {
    Get,
    Post,
    Delete,
}

impl Operation {
    /// The HTTP method of the operation.
    pub open spec fn method(self) -> ApiMethod {
        match self {
            Operation::GetChecks | Operation::GetCheck | Operation::GetChannels => ApiMethod::Get,
            Operation::Delete => ApiMethod::Delete,
            _ => ApiMethod::Post,
        }
    }

    /// The path of the operation below the base URL, for the check
    /// `check_id` where the operation is about one.
    pub open spec fn path(self, check_id: Seq<char>) -> Seq<char> {
        match self {
            Operation::GetChecks => "/checks"@,
            Operation::GetChannels => "/channels"@,
            Operation::UpsertCheck => "/checks/"@,
            Operation::GetCheck | Operation::Delete | Operation::UpdateCheck => "/checks/"@
                + check_id,
            Operation::Pause => "/checks/"@ + check_id + "/pause"@,
            Operation::ListLoggedPings => "/checks/"@ + check_id + "/pings"@,
            Operation::ListStatusChanges => "/checks/"@ + check_id + "/flips"@,
        }
    }

    /// Whether the request of the operation carries a JSON document.
    pub open spec fn sends_json(self) -> bool {
        self == Operation::UpsertCheck || self == Operation::UpdateCheck
    }
}

/// What goes along with a request to the management API.
#[derive(Clone, Debug, PartialEq, Eq)]
pub enum ApiBody {
    /// The request has no body.
    Nothing,
    /// The request has a body without content.
    Empty,
    /// The check to create, to be sent as a JSON document.
    NewCheck(NewCheck),
    /// The changes to a check, to be sent as a JSON document.
    UpdatedCheck(UpdatedCheck),
}

impl ApiBody {
    /// Whether the body is a JSON document, to be announced as
    /// `application/json`.
    pub open spec fn is_json(self) -> bool {
        self is NewCheck || self is UpdatedCheck
    }

    /// Whether the body is a JSON document.
    pub fn json(&self) -> (yes: bool)
        ensures
            yes == self.is_json(),
    {
        match self {
            ApiBody::NewCheck(_) | ApiBody::UpdatedCheck(_) => true,
            _ => false,
        }
    }
}

/// One request to the management API.
#[derive(Clone, Debug, PartialEq, Eq)]
pub struct ApiRequest {
    /// What the request is for.
    pub operation: Operation,
    /// The check that the operation is about, empty where it is about none.
    pub check_id: String,
    pub method: ApiMethod,
    pub url: String,
    /// The value of the `X-Api-Key` header.
    pub api_key: String,
    /// The value of the `User-Agent` header.
    pub user_agent: String,
    /// What is sent along.
    pub body: ApiBody,
}

/// An [`ApiRequest`] as mathematical values.
pub struct ApiRequestView {
    pub operation: Operation,
    pub check_id: Seq<char>,
    pub method: ApiMethod,
    pub url: Seq<char>,
    pub api_key: Seq<char>,
    pub user_agent: Seq<char>,
    pub body: ApiBody,
}

impl View for ApiRequest {
    type V = ApiRequestView;

    open spec fn view(&self) -> ApiRequestView {
        ApiRequestView {
            operation: self.operation,
            check_id: self.check_id@,
            method: self.method,
            url: self.url@,
            api_key: self.api_key@,
            user_agent: self.user_agent@,
            body: self.body,
        }
    }
}

/// Client type for communication with the healthchecks.io management API.
#[derive(Debug)]
pub struct ManageClient {
    api_key: String,
    user_agent: String,
    api_url: String,
}

/// A [`ManageClient`] as mathematical values.
pub struct ManageClientView {
    pub api_key: Seq<char>,
    pub user_agent: Seq<char>,
    pub api_url: Seq<char>,
}

impl ManageClientView {
    /// What holds of every client: none of its three settings is empty.
    pub open spec fn wf(self) -> bool {
        self.api_key.len() > 0 && self.user_agent.len() > 0 && self.api_url.len() > 0
    }

    /// The request of `operation` with `body`, on the check `check_id`
    /// where the operation is about one.
    pub open spec fn request(self, operation: Operation, check_id: Seq<char>, body: ApiBody)
        -> ApiRequestView {
        ApiRequestView {
            operation,
            check_id,
            method: operation.method(),
            url: self.api_url + operation.path(check_id),
            api_key: self.api_key,
            user_agent: self.user_agent,
            body,
        }
    }
}

impl View for ManageClient {
    type V = ManageClientView;

    closed spec fn view(&self) -> ManageClientView {
        ManageClientView {
            api_key: self.api_key@,
            user_agent: self.user_agent@,
            api_url: self.api_url@,
        }
    }
}

/// The user agent of a client made with `user_agent`.
pub open spec fn chosen_user_agent(user_agent: Option<String>) -> Seq<char> {
    match user_agent {
        Some(value) => value@,
        None => DEFAULT_USER_AGENT@,
    }
}

/// What [`get_client_with_url`] returns: the first of the three checks that
/// fails decides the error.
pub open spec fn client_or_error(
    api_key: Seq<char>,
    user_agent: Option<String>,
    api_url: Seq<char>,
) -> Result<ManageClientView, ConfigErrorView> {
    if api_key.len() == 0 {
        Err(ConfigErrorView::EmptyApiKey)
    } else if user_agent matches Some(value) && value@.len() == 0 {
        Err(ConfigErrorView::EmptyUserAgent)
    } else if api_url.len() == 0 {
        Err(ConfigErrorView::EmptyApiUrl)
    } else {
        Ok(ManageClientView { api_key, user_agent: chosen_user_agent(user_agent), api_url })
    }
}

/// The views of a client or of the error in its place.
pub open spec fn created_view(created: Result<ManageClient, HealthchecksConfigError>) -> Result<
    ManageClientView,
    ConfigErrorView,
> {
    match created {
        Ok(client) => Ok(client@),
        Err(error) => Err(error@),
    }
}

/// Create an instance of [`ManageClient`] from a given API key and an
/// optional custom user agent. Basic validation is performed but an
/// invalid API key will go through this method and only fail when
/// actually interacting with the API.
///
/// # Errors
///
/// - Returns [`HealthchecksConfigError::EmptyApiKey`] if `api_key` is empty.
/// - Returns [`HealthchecksConfigError::EmptyUserAgent`] if `user_agent` is
///   [`Some`] but the underlying [`String`] is empty.
pub fn get_client(api_key: String, user_agent: Option<String>) -> (created: Result<
    ManageClient,
    HealthchecksConfigError,
>)
    ensures
        created_view(created) == client_or_error(api_key@, user_agent, HEALTHCHECK_API_URL@),
        created matches Ok(client) ==> client@.wf(),
{
    get_client_with_url(api_key, user_agent, String::from_str(HEALTHCHECK_API_URL))
}

/// Create an instance of [`ManageClient`] with a custom endpoint for the API.
/// This is identical to [`get_client`] which uses it internally, but doesn't
/// default to the hosted version at [healthchecks.io](https://healthchecks.io).
///
/// # Errors
///
/// - Returns [`HealthchecksConfigError::EmptyApiKey`] if `api_key` is empty.
/// - Returns [`HealthchecksConfigError::EmptyUserAgent`] if `user_agent` is
///   [`Some`] but the underlying [`String`] is empty.
/// - Returns [`HealthchecksConfigError::EmptyApiUrl`] if `api_url` is empty.
pub fn get_client_with_url(
    api_key: String,
    user_agent: Option<String>,
    api_url: String,
) -> (created: Result<ManageClient, HealthchecksConfigError>)
    ensures
        created_view(created) == client_or_error(api_key@, user_agent, api_url@),
        created matches Ok(client) ==> client@.wf(),
{
    if api_key.as_str().is_empty() {
        return Err(HealthchecksConfigError::EmptyApiKey);
    }
    let user_agent = match user_agent {
        Some(value) => {
            if value.as_str().is_empty() {
                return Err(HealthchecksConfigError::EmptyUserAgent);
            }
            value
        },
        None => {
            proof {
                lemma_default_user_agent_is_not_empty();
            }
            get_user_agent()
        },
    };
    if api_url.as_str().is_empty() {
        return Err(HealthchecksConfigError::EmptyApiUrl);
    }
    Ok(ManageClient { api_key, user_agent, api_url })
}

/// When creating a new check, it's possible that the check already existed.
/// This enum conveys that information.
///
/// See [`ManageClient::upsert_check`]
#[derive(Clone, Copy, Debug, PartialEq, Eq, Structural)]
pub enum UpsertResult {
    Created,
    Updated,
}

impl Clone for ManageClient {
    fn clone(&self) -> (copy: ManageClient)
        ensures
            copy@ == self@,
    {
        proof {
            use_type_invariant(self);
        }
        ManageClient {
            api_key: self.api_key.clone(),
            user_agent: self.user_agent.clone(),
            api_url: self.api_url.clone(),
        }
    }
}

impl ManageClient {
    #[verifier::type_invariant]
    spec fn inv(&self) -> bool {
        self@.wf()
    }

    /// The API key of the account.
    pub fn api_key(&self) -> (api_key: &str)
        ensures
            api_key@ == self@.api_key,
            self@.wf(),
    {
        proof {
            use_type_invariant(self);
        }
        self.api_key.as_str()
    }

    /// The value of the `User-Agent` header of every request.
    pub fn user_agent(&self) -> (user_agent: &str)
        ensures
            user_agent@ == self@.user_agent,
            self@.wf(),
    {
        proof {
            use_type_invariant(self);
        }
        self.user_agent.as_str()
    }

    /// The base URL of the management API.
    pub fn api_url(&self) -> (api_url: &str)
        ensures
            api_url@ == self@.api_url,
            self@.wf(),
    {
        proof {
            use_type_invariant(self);
        }
        self.api_url.as_str()
    }

    /// The request of `operation`, which goes to `path` below the base URL.
    fn request(
        &self,
        operation: Operation,
        check_id: &str,
        path: String,
        body: ApiBody,
    ) -> (request: ApiRequest)
        requires
            path@ == operation.path(check_id@),
        ensures
            request@ == self@.request(operation, check_id@, body),
    {
        let method = match operation {
            Operation::GetChecks | Operation::GetCheck | Operation::GetChannels => ApiMethod::Get,
            Operation::Delete => ApiMethod::Delete,
            _ => ApiMethod::Post,
        };
        ApiRequest {
            operation,
            check_id: check_id.to_owned(),
            method,
            url: self.api_url.clone().concat(path.as_str()),
            api_key: self.api_key.clone(),
            user_agent: self.user_agent.clone(),
            body,
        }
    }

    /// Get a list of [`Check`](crate::model::Check)s.
    pub fn get_checks(&self) -> (request: ApiRequest)
        ensures
            request@ == self@.request(Operation::GetChecks, ""@, ApiBody::Nothing),
    {
        self.request(Operation::GetChecks, "", String::from_str("/checks"), ApiBody::Nothing)
    }

    /// Get a [`Check`](crate::model::Check) with the given UUID or unique key.
    pub fn get_check(&self, check_id: &str) -> (request: ApiRequest)
        ensures
            request@ == self@.request(Operation::GetCheck, check_id@, ApiBody::Nothing),
    {
        self.request(
            Operation::GetCheck,
            check_id,
            String::from_str("/checks/").concat(check_id),
            ApiBody::Nothing,
        )
    }

    /// Returns a list of [`Channel`](crate::model::Channel)s belonging to the
    /// project.
    pub fn get_channels(&self) -> (request: ApiRequest)
        ensures
            request@ == self@.request(Operation::GetChannels, ""@, ApiBody::Nothing),
    {
        self.request(Operation::GetChannels, "", String::from_str("/channels"), ApiBody::Nothing)
    }

    /// Pauses the [`Check`](crate::model::Check) with the given UUID or
    /// unique key.
    pub fn pause(&self, check_id: &str) -> (request: ApiRequest)
        ensures
            request@ == self@.request(Operation::Pause, check_id@, ApiBody::Nothing),
    {
        self.request(
            Operation::Pause,
            check_id,
            String::from_str("/checks/").concat(check_id).concat("/pause"),
            ApiBody::Nothing,
        )
    }

    /// Get a list of check's logged pings with the given UUID or unique key.
    pub fn list_logged_pings(&self, check_id: &str) -> (request: ApiRequest)
        ensures
            request@ == self@.request(Operation::ListLoggedPings, check_id@, ApiBody::Empty),
    {
        self.request(
            Operation::ListLoggedPings,
            check_id,
            String::from_str("/checks/").concat(check_id).concat("/pings"),
            ApiBody::Empty,
        )
    }

    /// Get a list of check's status changes with the given UUID or unique
    /// key.
    pub fn list_status_changes(&self, check_id: &str) -> (request: ApiRequest)
        ensures
            request@ == self@.request(Operation::ListStatusChanges, check_id@, ApiBody::Nothing),
    {
        self.request(
            Operation::ListStatusChanges,
            check_id,
            String::from_str("/checks/").concat(check_id).concat("/flips"),
            ApiBody::Nothing,
        )
    }

    /// Deletes the [`Check`](crate::model::Check) with the given UUID or
    /// unique key.
    pub fn delete(&self, check_id: &str) -> (request: ApiRequest)
        ensures
            request@ == self@.request(Operation::Delete, check_id@, ApiBody::Nothing),
    {
        self.request(
            Operation::Delete,
            check_id,
            String::from_str("/checks/").concat(check_id),
            ApiBody::Nothing,
        )
    }

    /// Creates a new check with the given [`NewCheck`] configuration.
    ///
    /// The request is that of [`upsert_check`](Self::upsert_check) and its
    /// answer is read in the same way; [`created_only`] then refuses a check
    /// that existed before.
    pub fn create_check(&self, check: NewCheck) -> (request: ApiRequest)
        ensures
            request@ == self@.request(
                Operation::UpsertCheck,
                ""@,
                ApiBody::NewCheck(check),
            ),
    {
        self.upsert_check(check)
    }

    /// Creates a new check with the given [`NewCheck`] configuration.
    ///
    /// The `unique` field can be used to update existing checks, provided
    /// the checks can be found. Otherwise, it will be created.
    pub fn upsert_check(&self, check: NewCheck) -> (request: ApiRequest)
        ensures
            request@ == self@.request(
                Operation::UpsertCheck,
                ""@,
                ApiBody::NewCheck(check),
            ),
    {
        self.request(
            Operation::UpsertCheck,
            "",
            String::from_str("/checks/"),
            ApiBody::NewCheck(check),
        )
    }

    /// Update the check with the given `check_id` with the data from `check`.
    pub fn update_check(&self, check: UpdatedCheck, check_id: &str) -> (request: ApiRequest)
        ensures
            request@ == self@.request(
                Operation::UpdateCheck,
                check_id@,
                ApiBody::UpdatedCheck(check),
            ),
    {
        self.request(
            Operation::UpdateCheck,
            check_id,
            String::from_str("/checks/").concat(check_id),
            ApiBody::UpdatedCheck(check),
        )
    }
}

/// How the failure of a request is to be reported.
#[derive(Clone, Debug, PartialEq, Eq)]
pub enum Rejection {
    /// The API documents this meaning of the status.
    Known(HealthchecksApiError),
    /// The status is not documented for the operation; the text of the
    /// answer is to be reported as
    /// [`HealthchecksApiError::UnexpectedError`].
    Unexpected,
    /// There was no answer; the failure is to be reported as
    /// [`HealthchecksApiError::TransportError`].
    Transport,
    /// The failure is to be reported as [`HealthchecksApiError::Io`].
    Io,
}

/// A [`Rejection`] as mathematical values.
pub enum RejectionView {
    Known(ApiErrorView),
    Unexpected,
    Transport,
    Io,
}

impl View for Rejection {
    type V = RejectionView;

    open spec fn view(&self) -> RejectionView {
        match self {
            Rejection::Known(error) => RejectionView::Known(error@),
            Rejection::Unexpected => RejectionView::Unexpected,
            Rejection::Transport => RejectionView::Transport,
            Rejection::Io => RejectionView::Io,
        }
    }
}

impl Operation {
    /// Whether failures that the API does not document are told apart, an
    /// undocumented status from no answer at all, rather than reported as
    /// IO errors alike.
    pub open spec fn reports_answer(self) -> bool {
        self == Operation::GetChannels || self == Operation::UpsertCheck
    }

    /// Whether the operation is about one check that the caller names.
    pub open spec fn names_check(self) -> bool {
        self != Operation::GetChecks && self != Operation::GetChannels && self
            != Operation::UpsertCheck
    }
}

/// What `status` means in the answer to `operation`.
///
/// `400` answers a malformed JSON document. `401` answers a bad API key,
/// where channels are listed or a check is paused presumably a read-only
/// one. `403` answers an upsert over the limit of the account, and otherwise
/// a check that the key may not touch; `404` a check that does not exist.
pub open spec fn rejection_of(operation: Operation, status: u16, check_id: Seq<char>)
    -> RejectionView {
    if status == 400 && operation.sends_json() {
        RejectionView::Known(ApiErrorView::NotWellFormed)
    } else if status == 401 && (operation == Operation::GetChannels || operation
        == Operation::Pause) {
        RejectionView::Known(ApiErrorView::PossibleReadOnlyKey)
    } else if status == 401 {
        RejectionView::Known(ApiErrorView::InvalidApiKey)
    } else if status == 403 && operation == Operation::UpsertCheck {
        RejectionView::Known(ApiErrorView::CheckLimitReached)
    } else if status == 403 && operation.names_check() {
        RejectionView::Known(ApiErrorView::AccessDenied)
    } else if status == 404 && operation.names_check() {
        RejectionView::Known(ApiErrorView::NoCheckFound(check_id))
    } else if operation.reports_answer() {
        RejectionView::Unexpected
    } else {
        RejectionView::Io
    }
}

/// Says what the status code of a refused request means for `operation`,
/// asked about the check `check_id` where it is about one.
pub fn rejection(operation: Operation, status: u16, check_id: &str) -> (verdict: Rejection)
    ensures
        verdict@ == rejection_of(operation, status, check_id@),
{
    let sends_json = match operation {
        Operation::UpsertCheck | Operation::UpdateCheck => true,
        _ => false,
    };
    let names_check = match operation {
        Operation::GetChecks | Operation::GetChannels | Operation::UpsertCheck => false,
        _ => true,
    };
    if status == 400 && sends_json {
        return Rejection::Known(HealthchecksApiError::NotWellFormed);
    }
    if status == 401 {
        return match operation {
            Operation::GetChannels | Operation::Pause => Rejection::Known(
                HealthchecksApiError::PossibleReadOnlyKey,
            ),
            _ => Rejection::Known(HealthchecksApiError::InvalidApiKey),
        };
    }
    if status == 403 && !names_check {
        if let Operation::UpsertCheck = operation {
            return Rejection::Known(HealthchecksApiError::CheckLimitReached);
        }
    }
    if status == 403 && names_check {
        return Rejection::Known(HealthchecksApiError::AccessDenied);
    }
    if status == 404 && names_check {
        return Rejection::Known(HealthchecksApiError::NoCheckFound(check_id.to_owned()));
    }
    match operation {
        Operation::GetChannels | Operation::UpsertCheck => Rejection::Unexpected,
        _ => Rejection::Io,
    }
}

/// Says how to report that `operation` got no answer at all.
pub fn transport_failure(operation: Operation) -> (verdict: Rejection)
    ensures
        verdict@ == if operation.reports_answer() {
            RejectionView::Transport
        } else {
            RejectionView::Io
        },
{
    match operation {
        Operation::GetChannels | Operation::UpsertCheck => Rejection::Transport,
        _ => Rejection::Io,
    }
}

/// What the status of an accepted upsert says.
pub open spec fn upsert_result_of(status: u16) -> Result<UpsertResult, ApiErrorView> {
    if status == 201 {
        Ok(UpsertResult::Created)
    } else if status == 200 {
        Ok(UpsertResult::Updated)
    } else {
        Err(ApiErrorView::UnexpectedError("Invalid result code: "@ + decimal(status as int)))
    }
}

/// Reads the status of an accepted upsert: `201` says that the check was
/// created, `200` that an existing check was updated.
///
/// # Errors
/// - [`HealthchecksApiError::UnexpectedError`] for any other status
pub fn upsert_result(status: u16) -> (result: Result<UpsertResult, HealthchecksApiError>)
    ensures
        match result {
            Ok(kind) => upsert_result_of(status) == Ok::<UpsertResult, ApiErrorView>(kind),
            Err(error) => upsert_result_of(status) == Err::<UpsertResult, ApiErrorView>(error@),
        },
{
    if status == 201 {
        Ok(UpsertResult::Created)
    } else if status == 200 {
        Ok(UpsertResult::Updated)
    } else {
        Err(
            HealthchecksApiError::UnexpectedError(
                String::from_str("Invalid result code: ").concat(
                    decimal_string(status as i128).as_str(),
                ),
            ),
        )
    }
}

/// Accepts the result of an upsert only where the check was created.
pub fn created_only(result: UpsertResult) -> (accepted: Result<(), HealthchecksApiError>)
    ensures
        result == UpsertResult::Created ==> accepted is Ok,
        result == UpsertResult::Updated ==> accepted matches Err(
            HealthchecksApiError::ExistingCheckMatched,
        ),
{
    match result {
        UpsertResult::Created => Ok(()),
        UpsertResult::Updated => Err(HealthchecksApiError::ExistingCheckMatched),
    }
}

} // verus!
