//! Error types of the public API.

use vstd::prelude::*;
use vstd::string::StringExecFns;

verus! {

/// Errors raised by invalid configuration when creating a
/// [`ManageClient`](crate::manage::ManageClient) or a
/// [`PingClient`](crate::ping::PingClient).
#[derive(Clone, Debug, PartialEq, Eq)]
pub enum HealthchecksConfigError {
    /// Empty API key
    EmptyApiKey,
    /// Empty User Agent
    EmptyUserAgent,
    /// Empty API url
    EmptyApiUrl,
    /// Invalid UUID
    InvalidUuid(String),
}

/// A [`HealthchecksConfigError`] as mathematical values.
pub enum ConfigErrorView {
    EmptyApiKey,
    EmptyUserAgent,
    EmptyApiUrl,
    InvalidUuid(Seq<char>),
}

impl View for HealthchecksConfigError {
    type V = ConfigErrorView;

    open spec fn view(&self) -> ConfigErrorView {
        match self {
            HealthchecksConfigError::EmptyApiKey => ConfigErrorView::EmptyApiKey,
            HealthchecksConfigError::EmptyUserAgent => ConfigErrorView::EmptyUserAgent,
            HealthchecksConfigError::EmptyApiUrl => ConfigErrorView::EmptyApiUrl,
            HealthchecksConfigError::InvalidUuid(uuid) => ConfigErrorView::InvalidUuid(uuid@),
        }
    }
}

impl HealthchecksConfigError {
    /// The text of [`message`](Self::message).
    pub open spec fn message_text(&self) -> Seq<char> {
        match self {
            HealthchecksConfigError::EmptyApiKey => "API key must not be empty"@,
            HealthchecksConfigError::EmptyUserAgent => "User Agent must not be empty"@,
            HealthchecksConfigError::EmptyApiUrl => "API url must not be empty"@,
            HealthchecksConfigError::InvalidUuid(uuid) => "invalid UUID: "@ + uuid@,
        }
    }

    /// A description of the error for people.
    pub fn message(&self) -> (text: String)
        ensures
            text@ == self.message_text(),
    {
        match self {
            HealthchecksConfigError::EmptyApiKey => String::from_str("API key must not be empty"),
            HealthchecksConfigError::EmptyUserAgent => String::from_str(
                "User Agent must not be empty",
            ),
            HealthchecksConfigError::EmptyApiUrl => String::from_str("API url must not be empty"),
            HealthchecksConfigError::InvalidUuid(uuid) => String::from_str(
                "invalid UUID: ",
            ).concat(uuid.as_str()),
        }
    }
}

/// Errors raised by API operations.
#[derive(Clone, Debug, PartialEq, Eq)]
pub enum HealthchecksApiError {
    /// Server rejected this API key
    InvalidApiKey,
    /// The server rejected this API key from a write operation, so it is
    /// possible this is a read-only key
    PossibleReadOnlyKey,
    /// Access denied
    AccessDenied,
    /// No check found for the given check ID
    NoCheckFound(String),
    /// Creating a new check failed because an existing check matched the data
    ExistingCheckMatched,
    /// The request body was invalid
    NotWellFormed,
    /// The check limit for the account was reached
    CheckLimitReached,
    /// Unexpected error in network operation, with its description
    TransportError(String),
    /// Unexpected error from the API, with the text the server sent
    UnexpectedError(String),
    /// Unexpected IO error, with its description
    Io(String),
    /// Unexpected JSON parsing error, with its description
    Json(String),
}

/// A [`HealthchecksApiError`] as mathematical values.
pub enum ApiErrorView {
    InvalidApiKey,
    PossibleReadOnlyKey,
    AccessDenied,
    NoCheckFound(Seq<char>),
    ExistingCheckMatched,
    NotWellFormed,
    CheckLimitReached,
    TransportError(Seq<char>),
    UnexpectedError(Seq<char>),
    Io(Seq<char>),
    Json(Seq<char>),
}

impl View for HealthchecksApiError {
    type V = ApiErrorView;

    open spec fn view(&self) -> ApiErrorView {
        match self {
            HealthchecksApiError::InvalidApiKey => ApiErrorView::InvalidApiKey,
            HealthchecksApiError::PossibleReadOnlyKey => ApiErrorView::PossibleReadOnlyKey,
            HealthchecksApiError::AccessDenied => ApiErrorView::AccessDenied,
            HealthchecksApiError::NoCheckFound(id) => ApiErrorView::NoCheckFound(id@),
            HealthchecksApiError::ExistingCheckMatched => ApiErrorView::ExistingCheckMatched,
            HealthchecksApiError::NotWellFormed => ApiErrorView::NotWellFormed,
            HealthchecksApiError::CheckLimitReached => ApiErrorView::CheckLimitReached,
            HealthchecksApiError::TransportError(cause) => ApiErrorView::TransportError(cause@),
            HealthchecksApiError::UnexpectedError(text) => ApiErrorView::UnexpectedError(text@),
            HealthchecksApiError::Io(cause) => ApiErrorView::Io(cause@),
            HealthchecksApiError::Json(cause) => ApiErrorView::Json(cause@),
        }
    }
}

impl HealthchecksApiError {
    /// The text of [`message`](Self::message).
    pub open spec fn message_text(&self) -> Seq<char> {
        match self {
            HealthchecksApiError::InvalidApiKey => "invalid API key"@,
            HealthchecksApiError::PossibleReadOnlyKey =>
                "invalid API key, make sure you're not using a read-only key"@,
            HealthchecksApiError::AccessDenied => "access denied"@,
            HealthchecksApiError::NoCheckFound(id) => "no check found with id: "@ + id@,
            HealthchecksApiError::ExistingCheckMatched =>
                "an existing check was matched based on the \"unique\" parameter"@,
            HealthchecksApiError::NotWellFormed =>
                "the request is not well-formed, violates schema, or uses invalid field values"@,
            HealthchecksApiError::CheckLimitReached =>
                "the account's check limit has been reached"@,
            HealthchecksApiError::TransportError(cause) => "unexpected transport error: "@
                + cause@,
            HealthchecksApiError::UnexpectedError(text) => "unexpected error: "@ + text@,
            HealthchecksApiError::Io(_) => "unexpected IO error"@,
            HealthchecksApiError::Json(_) =>
                "unexpected error while (de)serializing JSON response"@,
        }
    }

    /// A description of the error for people.
    pub fn message(&self) -> (text: String)
        ensures
            text@ == self.message_text(),
    {
        match self {
            HealthchecksApiError::InvalidApiKey => String::from_str("invalid API key"),
            HealthchecksApiError::PossibleReadOnlyKey => String::from_str(
                "invalid API key, make sure you're not using a read-only key",
            ),
            HealthchecksApiError::AccessDenied => String::from_str("access denied"),
            HealthchecksApiError::NoCheckFound(id) => String::from_str(
                "no check found with id: ",
            ).concat(id.as_str()),
            HealthchecksApiError::ExistingCheckMatched => String::from_str(
                "an existing check was matched based on the \"unique\" parameter",
            ),
            HealthchecksApiError::NotWellFormed => String::from_str(
                "the request is not well-formed, violates schema, or uses invalid field values",
            ),
            HealthchecksApiError::CheckLimitReached => String::from_str(
                "the account's check limit has been reached",
            ),
            HealthchecksApiError::TransportError(cause) => String::from_str(
                "unexpected transport error: ",
            ).concat(cause.as_str()),
            HealthchecksApiError::UnexpectedError(text) => String::from_str(
                "unexpected error: ",
            ).concat(text.as_str()),
            HealthchecksApiError::Io(_) => String::from_str("unexpected IO error"),
            HealthchecksApiError::Json(_) => String::from_str(
                "unexpected error while (de)serializing JSON response",
            ),
        }
    }
}

} // verus!
