//! Plain-value descriptions of HTTP requests, and the library's error type.
//!
//! An `HttpRequest` says everything an HTTP transport needs to issue one call:
//! the method, the full URL, and an optional request body. The library builds
//! these values; the calling application sends them.

use vstd::prelude::*;
use vstd::string::*;

use crate::util::dec_digits;
use crate::util::u32_to_dec;

verus! {

/// The HTTP methods the GitHub v3 endpoints of this library use.
#[derive(Clone, Copy, Debug, PartialEq, Eq, Structural)]
pub enum HttpMethod {
    Get,
    Post,
    Put,
    Delete,
}

/// One outbound HTTP call, fully determined: method, URL, optional body.
#[derive(Debug)]
pub struct HttpRequest {
    pub method: HttpMethod,
    pub url: String,
    pub body: Option<String>,
}

/// The errors an operation can surface.
#[derive(Debug)]
pub enum GhubError {
    /// The client could not be constructed: the personal access token is not a
    /// legal header value, or the transport could not be built.
    Construction(String),
    /// A network-level failure while sending a request.
    Transport(String),
    /// A non-2xx response whose body carried a provider error message.
    Api(String),
    /// A non-2xx response whose body did not carry the expected error-message
    /// field; the text embeds the raw decoded body for diagnosis.
    MalformedErrorBody(String),
    /// A response body that was not valid JSON where JSON was expected.
    Decode(String),
    /// A non-2xx status on an endpoint that returns no body.
    UnexpectedStatus(u16),
}

/// A 2xx status signals success; everything else is an error.
pub open spec fn is_success_status(status: u16) -> bool {
    200 <= status < 300
}

/// The human-readable text each error carries.
pub open spec fn error_message_spec(e: GhubError) -> Seq<char> {
    match e {
        GhubError::Construction(s) => s@,
        GhubError::Transport(s) => s@,
        GhubError::Api(s) => s@,
        GhubError::MalformedErrorBody(s) => s@,
        GhubError::Decode(s) => s@,
        GhubError::UnexpectedStatus(code) => "unexpected response status "@ + dec_digits(
            code as int,
        ),
    }
}

impl GhubError {
    /// The error's display text.
    pub fn message(&self) -> (r: String)
        ensures
            r@ == error_message_spec(*self),
    {
        match self {
            GhubError::Construction(s) => s.clone(),
            GhubError::Transport(s) => s.clone(),
            GhubError::Api(s) => s.clone(),
            GhubError::MalformedErrorBody(s) => s.clone(),
            GhubError::Decode(s) => s.clone(),
            GhubError::UnexpectedStatus(code) => {
                let mut text = String::from_str("unexpected response status ");
                let dec = u32_to_dec(*code as u32);
                text.append(dec.as_str());
                text
            },
        }
    }
}

} // verus!
