//! The supplied HTTP transport capability.
//!
//! The client never talks to the network itself: callers hand in a
//! `Transport` implementation that performs one GET request and reports the
//! status and body that came back, or a transport failure. Nothing is
//! assumed of an implementation beyond its signature.

use vstd::prelude::*;
use crate::TransportError;

verus! {

/// One outbound GET request, fully prepared: the absolute URL to fetch and
/// the bearer token to attach as the `X-Auth-Token` header.
pub struct HttpRequest {
    /// The absolute URL, query string included.
    pub url: String,
    /// The value of the `X-Auth-Token` header.
    pub token: String,
}

/// What came back: the HTTP status code and the raw body.
pub struct HttpResponse {
    /// The status code.
    pub status: u16,
    /// The response body, undecoded.
    pub body: Vec<u8>,
}

/// The capability to perform one blocking GET request.
pub trait Transport {
    /// Send the request and hand back status and body, or fail.
    fn send(&self, request: &HttpRequest) -> Result<HttpResponse, TransportError>;
}

} // verus!
