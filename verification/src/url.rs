//! Validated absolute URLs.
//!
//! An endpoint URL is accepted only if the URI parser can read it and it
//! carries both a scheme and a host: configuration mistakes surface at
//! construction time, before any request traffic. The accepted URL keeps
//! the original text (which later requests are built on) together with the
//! components the parser reported.

use vstd::prelude::*;
use crate::ApiError;
use crate::ApiResult;

verus! {

/// The components the URI parser reports for a string, as plain values.
pub struct UrlParts {
    /// The scheme, if the string carries one.
    pub scheme: Option<String>,
    /// The host, if the string carries one.
    pub host: Option<String>,
    /// The port, if the string spells one out.
    pub port: Option<u16>,
    /// The path component; `/` when the string has none.
    pub path: String,
}

/// The view of reported components: scheme, host, port and path.
pub open spec fn parts_view(p: UrlParts) -> (Option<Seq<char>>, Option<Seq<char>>, Option<u16>, Seq<char>) {
    (
        match p.scheme {
            Some(s) => Some(s@),
            None => None,
        },
        match p.host {
            Some(h) => Some(h@),
            None => None,
        },
        p.port,
        p.path@,
    )
}

/// What the URI parser makes of a string: its components, or nothing when
/// the string is not a well-formed URI. The outcome depends on the string
/// alone.
pub uninterp spec fn spec_parse_url(s: Seq<char>) -> Option<(Option<Seq<char>>, Option<Seq<char>>, Option<u16>, Seq<char>)>;

/// Whether a string is a well-formed absolute URL: the parser accepts it
/// and reports both a scheme and a host.
pub open spec fn is_absolute_url(s: Seq<char>) -> bool {
    match spec_parse_url(s) {
        Some(p) => p.0 is Some && p.1 is Some,
        None => false,
    }
}

/// Relies on `hyper::Uri` (the `http` crate's URI type): `str::parse`
/// accepts exactly the well-formed URI references, and `scheme_str`,
/// `host`, `port_u16` and `path` read the parsed components back. The
/// result is a function of the string alone, named `spec_parse_url`.
#[verifier::external_body]
fn parse_url_raw(s: &str) -> (r: Option<UrlParts>)
    ensures
        r is Some <==> spec_parse_url(s@) is Some,
        r matches Some(p) ==> spec_parse_url(s@) == Some(parts_view(p)),
{
    match s.parse::<hyper::Uri>() {
        Ok(u) => Some(UrlParts {
            scheme: u.scheme_str().map(|x| x.to_string()),
            host: u.host().map(|x| x.to_string()),
            port: u.port_u16(),
            path: u.path().to_string(),
        }),
        Err(_) => None,
    }
}

/// A validated absolute URL: the original text plus its parsed components.
pub struct Url {
    text: String,
    scheme: String,
    host: String,
    port: Option<u16>,
    path: String,
}

impl Url {
    /// The text the URL was parsed from, unchanged.
    pub closed spec fn spec_text(&self) -> Seq<char> {
        self.text@
    }

    /// The scheme component.
    pub closed spec fn spec_scheme(&self) -> Seq<char> {
        self.scheme@
    }

    /// The host component.
    pub closed spec fn spec_host(&self) -> Seq<char> {
        self.host@
    }

    /// The port component, if the text spells one out.
    pub closed spec fn spec_port(&self) -> Option<u16> {
        self.port
    }

    /// The path component.
    pub closed spec fn spec_path(&self) -> Seq<char> {
        self.path@
    }

    /// Whether this URL faithfully holds what the parser reports for `s`.
    pub open spec fn is_parse_of(&self, s: Seq<char>) -> bool {
        &&& self.spec_text() == s
        &&& is_absolute_url(s)
        &&& spec_parse_url(s) == Some::<(Option<Seq<char>>, Option<Seq<char>>, Option<u16>, Seq<char>)>((
            Some(self.spec_scheme()),
            Some(self.spec_host()),
            self.spec_port(),
            self.spec_path(),
        ))
    }

    /// Accept a string as an absolute URL, or fail with a configuration
    /// error. Succeeds exactly on well-formed absolute URLs.
    pub fn parse(s: &str) -> (r: ApiResult<Url>)
        ensures
            r is Ok <==> is_absolute_url(s@),
            r matches Ok(u) ==> u.is_parse_of(s@),
            r matches Err(e) ==> e is Configuration,
    {
        match parse_url_raw(s) {
            Some(p) => {
                let UrlParts { scheme, host, port, path } = p;
                match (scheme, host) {
                    (Some(sc), Some(h)) => Ok(Url {
                        text: s.to_owned(),
                        scheme: sc,
                        host: h,
                        port,
                        path,
                    }),
                    _ => Err(ApiError::Configuration),
                }
            },
            None => Err(ApiError::Configuration),
        }
    }

    /// The original text.
    pub fn text(&self) -> (r: &String)
        ensures
            r@ == self.spec_text(),
    {
        &self.text
    }

    /// The scheme component.
    pub fn scheme(&self) -> (r: &String)
        ensures
            r@ == self.spec_scheme(),
    {
        &self.scheme
    }

    /// The host component.
    pub fn host_str(&self) -> (r: &String)
        ensures
            r@ == self.spec_host(),
    {
        &self.host
    }

    /// The port component, if any.
    pub fn port(&self) -> (r: Option<u16>)
        ensures
            r == self.spec_port(),
    {
        self.port
    }

    /// The path component.
    pub fn path(&self) -> (r: &String)
        ensures
            r@ == self.spec_path(),
    {
        &self.path
    }
}

impl Clone for Url {
    /// A clone carries the same text and the same components.
    fn clone(&self) -> (r: Self)
        ensures
            r.spec_text() == self.spec_text(),
            r.spec_scheme() == self.spec_scheme(),
            r.spec_host() == self.spec_host(),
            r.spec_port() == self.spec_port(),
            r.spec_path() == self.spec_path(),
    {
        Url {
            text: self.text.clone(),
            scheme: self.scheme.clone(),
            host: self.host.clone(),
            port: self.port,
            path: self.path.clone(),
        }
    }
}

} // verus!
