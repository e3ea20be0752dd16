//! A typed client core for a versioned cloud HTTP/JSON API.
//!
//! The crate models the protocol-shaping logic of such a client: an
//! authentication abstraction with token caching and endpoint resolution,
//! an ordered multi-valued query mapping, and a paginated, sortable
//! list-request builder with lazy summary-to-detail expansion. The HTTP
//! transport and the JSON codec are supplied capabilities: callers hand in
//! implementations of the `Transport` and `ServerCodec` traits.

use vstd::prelude::*;

pub mod query;
pub mod sort;
pub mod url;
pub mod auth;
pub mod transport;
pub mod session;
pub mod service;
pub mod servers;

verus! {

/// Failure of a transport implementation, surfaced as-is.
#[derive(Debug)]
pub struct TransportError {
    /// Human-readable description supplied by the transport.
    pub message: String,
}

/// The error taxonomy of the client.
#[derive(Debug)]
pub enum ApiError {
    /// A malformed endpoint URL was supplied at construction time.
    Configuration,
    /// A token or an endpoint could not be obtained.
    Authentication,
    /// The underlying transport failed.
    Transport(TransportError),
    /// The server answered with a non-success HTTP status.
    HttpStatus(u16),
    /// The response body could not be decoded into the expected shape.
    Decode,
}

/// Result type used throughout the client.
pub type ApiResult<T> = Result<T, ApiError>;

} // verus!
