//! An authenticated context: one authentication method, one transport
//! handle, and the token cache whose lifetime is the session's.
//!
//! A new session holds no cached token; the first call that needs one
//! obtains it from the authentication method and caches it. A cached token
//! is reused while it is valid and replaced wholesale once it is not. A
//! session never hands out an expired token: a fresh token that is already
//! expired is an authentication failure.

use vstd::prelude::*;
use crate::ApiError;
use crate::ApiResult;
use crate::TransportError;
use crate::auth::AuthMethod;
use crate::auth::AuthToken;
use crate::auth::should_refresh;
use crate::transport::HttpRequest;
use crate::transport::HttpResponse;
use crate::transport::Transport;
use crate::url::Url;

verus! {

/// Relies on `time::OffsetDateTime::now_utc` and `unix_timestamp`: the
/// current wall-clock time as seconds since the Unix epoch. Nothing is
/// assumed of the value.
#[verifier::external_body]
fn now_unix() -> i64 {
    time::OffsetDateTime::now_utc().unix_timestamp()
}

/// A single authenticated context shared by the resource managers created
/// against it. Owns its authentication method exclusively; the transport
/// handle may itself be a shared reference type.
pub struct Session<A: AuthMethod, T: Transport> {
    auth: A,
    transport: T,
    cache: Option<AuthToken>,
}

impl<A: AuthMethod, T: Transport> Session<A, T> {
    /// The cached token, if any.
    pub closed spec fn spec_cache(&self) -> Option<AuthToken> {
        self.cache
    }

    /// The owned authentication method.
    pub closed spec fn spec_auth(&self) -> A {
        self.auth
    }

    /// A new session. No network call happens here; the token cache starts
    /// empty and fills lazily on first use.
    pub fn new(auth: A, transport: T) -> (r: Self)
        ensures
            r.spec_cache() is None,
            r.spec_auth() == auth,
    {
        Session { auth, transport, cache: None }
    }

    /// A session whose token cache starts out holding `token`.
    pub fn new_with_token(auth: A, transport: T, token: AuthToken) -> (r: Self)
        ensures
            r.spec_cache() == Some(token),
            r.spec_auth() == auth,
    {
        Session { auth, transport, cache: Some(token) }
    }

    /// A token valid at the instant `now`: the cached one while it lasts,
    /// else a fresh one from the authentication method, which is cached.
    /// Never returns an expired token.
    pub fn token_at(&mut self, now: i64) -> (r: ApiResult<AuthToken>)
        ensures
            old(self).spec_cache() matches Some(t) ==> t.spec_valid_at(now) ==> (
                *final(self) == *old(self)
                && (r matches Ok(t2) && t2.token@ == t.token@ && t2.expires_at == t.expires_at)
            ),
            r matches Ok(t2) ==> t2.spec_valid_at(now)
                && (final(self).spec_cache() matches Some(c)
                    && c.token@ == t2.token@ && c.expires_at == t2.expires_at),
            r is Err ==> final(self).spec_cache() == old(self).spec_cache(),
    {
        let refresh = should_refresh(&self.cache, now);
        if !refresh {
            match &self.cache {
                Some(t) => {
                    return Ok(t.clone());
                },
                None => {
                    proof {
                        assert(false);
                    }
                    return Err(ApiError::Authentication);
                },
            }
        }
        match self.auth.get_token() {
            Ok(t) => {
                if t.valid_at(now) {
                    self.cache = Some(t.clone());
                    Ok(t)
                } else {
                    Err(ApiError::Authentication)
                }
            },
            Err(e) => Err(e),
        }
    }

    /// A token valid now. The current time comes from the wall clock; a
    /// cached token without an expiration is reused whatever the clock
    /// says, and nothing changes.
    pub fn token(&mut self) -> (r: ApiResult<AuthToken>)
        ensures
            old(self).spec_cache() matches Some(t) ==> t.expires_at is None ==> (
                *final(self) == *old(self)
                && (r matches Ok(t2) && t2.token@ == t.token@ && t2.expires_at == t.expires_at)
            ),
            r matches Ok(t2) ==> final(self).spec_cache() matches Some(c)
                && c.token@ == t2.token@ && c.expires_at == t2.expires_at,
            r is Err ==> final(self).spec_cache() == old(self).spec_cache(),
    {
        let now = now_unix();
        self.token_at(now)
    }

    /// Resolve the base URL for a service type through the owned method.
    /// Endpoint resolution never touches the token cache.
    pub fn get_endpoint(&mut self, service_type: &str) -> (r: ApiResult<Url>)
        ensures
            final(self).spec_cache() == old(self).spec_cache(),
    {
        self.auth.get_endpoint(service_type)
    }

    /// Dispatch one prepared request through the transport handle.
    pub fn send(&self, request: &HttpRequest) -> Result<HttpResponse, TransportError> {
        self.transport.send(request)
    }
}

} // verus!
