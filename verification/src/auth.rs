//! The authentication abstraction: tokens, methods, and the no-auth method.
//!
//! An authentication method can produce a bearer token and resolve the base
//! URL of a named service type. The `NoAuth` method authenticates nothing:
//! it hands out a fixed sentinel token and one pre-validated endpoint for
//! every service type.

use vstd::prelude::*;
use crate::ApiError;
use crate::ApiResult;
use crate::url::Url;
use crate::url::is_absolute_url;

verus! {

/// A bearer token: its contents and, optionally, when it stops being valid
/// (as seconds since the Unix epoch). A token without an expiration never
/// expires. Tokens are immutable; a refresh replaces them wholesale.
pub struct AuthToken {
    /// Token contents.
    pub token: String,
    /// Expiration instant, if any.
    pub expires_at: Option<i64>,
}

impl AuthToken {
    /// Whether the token is still valid at the instant `now`.
    pub open spec fn spec_valid_at(&self, now: i64) -> bool {
        match self.expires_at {
            Some(e) => now < e,
            None => true,
        }
    }

    /// Decide validity at the instant `now`.
    pub fn valid_at(&self, now: i64) -> (r: bool)
        ensures
            r == self.spec_valid_at(now),
    {
        match self.expires_at {
            Some(e) => now < e,
            None => true,
        }
    }
}

impl Clone for AuthToken {
    /// A clone carries the same contents and the same expiration.
    fn clone(&self) -> (r: Self)
        ensures
            r.token@ == self.token@,
            r.expires_at == self.expires_at,
    {
        AuthToken { token: self.token.clone(), expires_at: self.expires_at }
    }
}

/// The cached-versus-refresh decision: a token must be fetched anew when
/// none is cached or the cached one is no longer valid at `now`.
pub fn should_refresh(cached: &Option<AuthToken>, now: i64) -> (r: bool)
    ensures
        r == match cached {
            Some(t) => !t.spec_valid_at(now),
            None => true,
        },
{
    match cached {
        Some(t) => !t.valid_at(now),
        None => true,
    }
}

/// An authentication method: the capability to obtain a current token and
/// to resolve the base URL of a named service type. Either call may fail;
/// either call may mutate internal state, so two calls need not agree.
pub trait AuthMethod: Sized {
    /// Verify authentication and produce a token.
    fn get_token(&mut self) -> ApiResult<AuthToken>;

    /// Resolve the base URL for the named service type.
    fn get_endpoint(&mut self, service_type: &str) -> ApiResult<Url>;
}

/// An authentication method that provides no authentication: a fixed
/// endpoint, validated at construction, and a fake token.
pub struct NoAuth {
    endpoint: Url,
}

impl NoAuth {
    /// The fixed endpoint supplied at construction.
    pub closed spec fn spec_endpoint(&self) -> Url {
        self.endpoint
    }

    /// Create a no-auth method from an endpoint string. Succeeds exactly
    /// when the string is a well-formed absolute URL, keeping it unchanged;
    /// a malformed string fails here, before any request traffic.
    pub fn new(endpoint: &str) -> (r: ApiResult<NoAuth>)
        ensures
            r is Ok <==> is_absolute_url(endpoint@),
            r matches Ok(a) ==> a.spec_endpoint().is_parse_of(endpoint@),
            r matches Err(e) ==> e is Configuration,
    {
        match Url::parse(endpoint) {
            Ok(url) => Ok(NoAuth { endpoint: url }),
            Err(e) => Err(e),
        }
    }

    /// The validated endpoint.
    pub fn endpoint(&self) -> (r: &Url)
        ensures
            *r == self.spec_endpoint(),
    {
        &self.endpoint
    }
}

impl AuthMethod for NoAuth {
    /// Always succeeds with the sentinel token `"no-auth"`, which never
    /// expires; every call returns the same token and changes nothing.
    fn get_token(&mut self) -> (r: ApiResult<AuthToken>)
        ensures
            *final(self) == *old(self),
            r matches Ok(t) && t.token@ == "no-auth"@ && t.expires_at is None,
    {
        Ok(AuthToken { token: String::from_str("no-auth"), expires_at: None })
    }

    /// Always succeeds with the fixed endpoint, whatever the service type,
    /// and changes nothing.
    fn get_endpoint(&mut self, service_type: &str) -> (r: ApiResult<Url>)
        ensures
            *final(self) == *old(self),
            r matches Ok(u) && u.spec_text() == old(self).spec_endpoint().spec_text()
                && u.spec_scheme() == old(self).spec_endpoint().spec_scheme()
                && u.spec_host() == old(self).spec_endpoint().spec_host()
                && u.spec_port() == old(self).spec_endpoint().spec_port()
                && u.spec_path() == old(self).spec_endpoint().spec_path(),
    {
        Ok(self.endpoint.clone())
    }
}

} // verus!
