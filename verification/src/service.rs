//! Binding a session to one API service type: building concrete request
//! URLs from path segments and a query, and checking responses.
//!
//! A request URL is the resolved endpoint text, followed by each path
//! segment escaped and prefixed with `/`, followed by `?` and the encoded
//! query when the query is non-empty.

use vstd::prelude::*;
use crate::ApiError;
use crate::ApiResult;
use crate::auth::AuthMethod;
use crate::query::Query;
use crate::query::escape;
use crate::query::spec_encode_query;
use crate::query::spec_escape;
use crate::session::Session;
use crate::transport::HttpRequest;
use crate::transport::HttpResponse;
use crate::transport::Transport;
use crate::url::Url;

verus! {

/// What the escaped path segments contribute to a request URL: each
/// segment escaped, each prefixed with `/`.
pub open spec fn spec_segments_part(segments: Seq<Seq<char>>) -> Seq<char>
    decreases segments.len(),
{
    if segments.len() == 0 {
        Seq::empty()
    } else {
        spec_segments_part(segments.drop_last()) + seq!['/'] + spec_escape(segments.last())
    }
}

/// The full request URL built from an endpoint, path segments and a query.
pub open spec fn spec_request_url(base: Seq<char>, segments: Seq<Seq<char>>, q: Seq<(Seq<char>, Seq<char>)>) -> Seq<char> {
    base + spec_segments_part(segments) + if q.len() == 0 {
        Seq::<char>::empty()
    } else {
        seq!['?'] + spec_encode_query(q)
    }
}

/// A cheap-to-clone handle binding requests to one service type and API
/// version. The session is not owned: callers thread it through each
/// operation, so a wrapper never outlives the context it is used with.
pub struct ServiceWrapper {
    service_type: String,
    version: String,
}

impl View for ServiceWrapper {
    type V = (Seq<char>, Seq<char>);

    closed spec fn view(&self) -> (Seq<char>, Seq<char>) {
        (self.service_type@, self.version@)
    }
}

impl Clone for ServiceWrapper {
    /// A clone is bound to the same service type and the same version.
    fn clone(&self) -> (r: Self)
        ensures
            r@ == self@,
    {
        ServiceWrapper {
            service_type: self.service_type.clone(),
            version: self.version.clone(),
        }
    }
}

impl ServiceWrapper {
    /// A wrapper for the named service type at the named API version.
    pub fn new(service_type: &str, version: &str) -> (r: Self)
        ensures
            r@ == (service_type@, version@),
    {
        ServiceWrapper {
            service_type: service_type.to_owned(),
            version: version.to_owned(),
        }
    }

    /// The service type this wrapper is bound to.
    pub fn service_type(&self) -> (r: &String)
        ensures
            r@ == self@.0,
    {
        &self.service_type
    }

    /// The API version this wrapper is bound to.
    pub fn version(&self) -> (r: &String)
        ensures
            r@ == self@.1,
    {
        &self.version
    }

    /// Build the concrete URL for a request against `endpoint`.
    pub fn request_url(endpoint: &Url, segments: &Vec<String>, query: &Query) -> (r: String)
        ensures
            r@ == spec_request_url(endpoint.spec_text(), segments.deep_view(), query@),
    {
        let mut out = endpoint.text().clone();
        let mut i: usize = 0;
        let n = segments.len();
        while i < n
            invariant
                n == segments@.len(),
                i <= n,
                out@ == endpoint.spec_text() + spec_segments_part(segments.deep_view().take(i as int)),
            decreases n - i,
        {
            out.append("/");
            let e = escape(segments[i].as_str());
            out.append(e.as_str());
            proof {
                reveal_strlit("/");
                assert(segments.deep_view().take(i + 1 as int).drop_last()
                    =~= segments.deep_view().take(i as int));
                assert(segments.deep_view().take(i + 1 as int).last() == segments@[i as int]@);
                assert(out@ =~= endpoint.spec_text()
                    + spec_segments_part(segments.deep_view().take(i + 1 as int)));
            }
            i = i + 1;
        }
        proof {
            assert(segments.deep_view().take(n as int) =~= segments.deep_view());
        }
        if query.len() > 0 {
            out.append("?");
            let qs = query.encode();
            out.append(qs.as_str());
            proof {
                reveal_strlit("?");
            }
        }
        out
    }

    /// Decide a response: a success status yields the body unchanged, any
    /// other status is a protocol failure carrying that status.
    pub fn check_response(response: HttpResponse) -> (r: ApiResult<Vec<u8>>)
        ensures
            (200 <= response.status && response.status < 300) ==> r == Ok::<Vec<u8>, ApiError>(response.body),
            !(200 <= response.status && response.status < 300) ==> r == Err::<Vec<u8>, ApiError>(
                ApiError::HttpStatus(response.status),
            ),
    {
        if 200 <= response.status && response.status < 300 {
            Ok(response.body)
        } else {
            Err(ApiError::HttpStatus(response.status))
        }
    }

    /// One GET against the session's resolved endpoint: obtain a current
    /// token, resolve the endpoint for this wrapper's service type, build
    /// the URL, dispatch, and check the status. Fails closed: a token or
    /// endpoint failure surfaces before any request is sent. On success a
    /// token stands in the session's cache; on failure either one does or
    /// the call failed before a token was obtained and the cache is as it
    /// was.
    pub fn http_get<A: AuthMethod, T: Transport>(
        &self,
        session: &mut Session<A, T>,
        segments: &Vec<String>,
        query: &Query,
    ) -> (r: ApiResult<Vec<u8>>)
        ensures
            r is Ok ==> final(session).spec_cache() is Some,
            final(session).spec_cache() is Some
                || final(session).spec_cache() == old(session).spec_cache(),
    {
        let token = match session.token() {
            Ok(t) => t,
            Err(e) => {
                return Err(e);
            },
        };
        let endpoint = match session.get_endpoint(self.service_type.as_str()) {
            Ok(u) => u,
            Err(e) => {
                return Err(e);
            },
        };
        let url = Self::request_url(&endpoint, segments, query);
        let request = HttpRequest { url, token: token.token };
        match session.send(&request) {
            Ok(response) => Self::check_response(response),
            Err(e) => Err(ApiError::Transport(e)),
        }
    }
}

} // verus!
