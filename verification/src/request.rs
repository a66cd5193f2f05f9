//! The HTTP request that reports one event to the ping endpoint.

use vstd::prelude::*;

verus! {

/// The HTTP method of a ping.
#[derive(Clone, Copy, Debug, PartialEq, Eq, Structural)]
pub enum Method {
    Get,
    Post,
}

/// Everything a transport needs to know to send one ping.
#[derive(Clone, Debug, PartialEq, Eq)]
pub struct PingRequest {
    /// `GET` for a bare signal, `POST` when a body goes along.
    pub method: Method,
    /// The full target URL, run identifier included.
    pub url: String,
    /// The value of the `User-Agent` header.
    pub user_agent: String,
    /// The raw text to send as the request body, if any.
    pub body: Option<String>,
}

/// A [`PingRequest`] as mathematical values.
pub struct PingRequestView {
    pub method: Method,
    pub url: Seq<char>,
    pub user_agent: Seq<char>,
    pub body: Option<Seq<char>>,
}

impl View for PingRequest {
    type V = PingRequestView;

    open spec fn view(&self) -> PingRequestView {
        PingRequestView {
            method: self.method,
            url: self.url@,
            user_agent: self.user_agent@,
            body: match self.body {
                Some(text) => Some(text@),
                None => None,
            },
        }
    }
}

} // verus!
