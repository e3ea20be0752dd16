//! Server management: the paginated, sortable list-request builder and the
//! summary-to-detail expansion.
//!
//! `ServerListRequest` accumulates a marker, a limit and an ordered list of
//! sort specifications, and `fetch` performs exactly one page fetch: the
//! query it emits holds `marker`, then `limit`, then one
//! `sort_key`/`sort_dir` pair per sort specification, in the order the
//! specifications were added. `fetch` consumes the builder, so a builder
//! value cannot be reused. Decoding of response bodies is a supplied
//! capability: the `ServerCodec` trait.

use vstd::prelude::*;
use crate::ApiError;
use crate::ApiResult;
use crate::auth::AuthMethod;
use crate::query::Query;
use crate::query::format_usize;
use crate::query::spec_decimal;
use crate::service::ServiceWrapper;
use crate::session::Session;
use crate::sort::Sort;
use crate::transport::Transport;

verus! {

/// The fields a list response reports for one server.
pub struct SummaryData {
    /// Unique ID.
    pub id: String,
    /// Human-readable name.
    pub name: String,
}

/// The fields a detail response reports for one server.
pub struct ServerData {
    /// Unique ID.
    pub id: String,
    /// Human-readable name.
    pub name: String,
    /// Current status.
    pub status: String,
    /// IPv4 access address.
    pub access_ipv4: String,
    /// IPv6 access address.
    pub access_ipv6: String,
}

/// The supplied JSON codec: decoding a list body into summaries and a
/// detail body into one server. Unknown fields are the codec's to ignore;
/// a body that lacks a required field decodes to nothing.
pub trait ServerCodec {
    /// Decode a list-response body into its summaries, in body order.
    fn decode_server_list(&self, body: &Vec<u8>) -> Option<Vec<SummaryData>>;

    /// Decode a detail-response body into one server.
    fn decode_server(&self, body: &Vec<u8>) -> Option<ServerData>;
}

/// A single server, as one detail response reported it: an immutable
/// snapshot of server state at fetch time.
pub struct Server {
    service: ServiceWrapper,
    inner: ServerData,
}

impl Server {
    /// The wrapper the detail was fetched through.
    pub closed spec fn spec_service(&self) -> ServiceWrapper {
        self.service
    }

    /// The reported fields.
    pub closed spec fn spec_inner(&self) -> ServerData {
        self.inner
    }

    /// Get a reference to the IPv4 address.
    pub fn access_ipv4(&self) -> (r: &String)
        ensures
            r == self.spec_inner().access_ipv4,
    {
        &self.inner.access_ipv4
    }

    /// Get a reference to the IPv6 address.
    pub fn access_ipv6(&self) -> (r: &String)
        ensures
            r == self.spec_inner().access_ipv6,
    {
        &self.inner.access_ipv6
    }

    /// Get a reference to the server's unique ID.
    pub fn id(&self) -> (r: &String)
        ensures
            r == self.spec_inner().id,
    {
        &self.inner.id
    }

    /// Get a reference to the server's name.
    pub fn name(&self) -> (r: &String)
        ensures
            r == self.spec_inner().name,
    {
        &self.inner.name
    }

    /// Get the server's status.
    pub fn status(&self) -> (r: &String)
        ensures
            r == self.spec_inner().status,
    {
        &self.inner.status
    }
}

/// A summary of a single server, as one list response reported it. Holds
/// only the listed fields; `details` performs the one additional round
/// trip that yields the full server.
pub struct ServerSummary {
    service: ServiceWrapper,
    inner: SummaryData,
}

impl ServerSummary {
    /// The wrapper the summary was fetched through.
    pub closed spec fn spec_service(&self) -> ServiceWrapper {
        self.service
    }

    /// The reported fields.
    pub closed spec fn spec_inner(&self) -> SummaryData {
        self.inner
    }

    /// Get a reference to the server's unique ID.
    pub fn id(&self) -> (r: &String)
        ensures
            r == self.spec_inner().id,
    {
        &self.inner.id
    }

    /// Get a reference to the server's name.
    pub fn name(&self) -> (r: &String)
        ensures
            r == self.spec_inner().name,
    {
        &self.inner.name
    }

    /// Get the full server: one explicit GET for this summary's ID. A new
    /// object is fetched; the summary is consumed, never upgraded in
    /// place. On success the server carries this summary's service
    /// wrapper.
    pub fn details<A: AuthMethod, T: Transport, C: ServerCodec>(
        self,
        session: &mut Session<A, T>,
        codec: &C,
    ) -> (r: ApiResult<Server>)
        ensures
            r matches Ok(s) ==> s.spec_service()@ == self.spec_service()@,
    {
        get_server(self.service, session, codec, self.inner.id.as_str())
    }
}

/// List of servers, in the order one page fetch returned them.
pub type ServerList = Vec<ServerSummary>;

/// Wrap decoded summaries for the caller: one `ServerSummary` per decoded
/// entry, in the order the server returned them, each carrying a clone of
/// the service wrapper.
pub fn wrap_summaries(service: &ServiceWrapper, list: Vec<SummaryData>) -> (r: Vec<ServerSummary>)
    ensures
        r@.len() == list@.len(),
        forall|i: int| 0 <= i < list@.len() ==> {
            &&& (#[trigger] r@[i]).spec_inner().id@ == list@[i].id@
            &&& r@[i].spec_inner().name@ == list@[i].name@
            &&& r@[i].spec_service()@ == service@
        },
{
    let mut out: Vec<ServerSummary> = Vec::new();
    let mut i: usize = 0;
    let n = list.len();
    while i < n
        invariant
            n == list@.len(),
            i <= n,
            out@.len() == i,
            forall|j: int| 0 <= j < i ==> {
                &&& (#[trigger] out@[j]).spec_inner().id@ == list@[j].id@
                &&& out@[j].spec_inner().name@ == list@[j].name@
                &&& out@[j].spec_service()@ == service@
            },
        decreases n - i,
    {
        let entry = SummaryData { id: list[i].id.clone(), name: list[i].name.clone() };
        out.push(ServerSummary { service: service.clone(), inner: entry });
        i = i + 1;
    }
    out
}

/// What the `marker` setting contributes to the list query.
pub open spec fn spec_marker_pairs(marker: Option<String>) -> Seq<(Seq<char>, Seq<char>)> {
    match marker {
        Some(m) => seq![("marker"@, m@)],
        None => Seq::empty(),
    }
}

/// What the `limit` setting contributes to the list query.
pub open spec fn spec_limit_pairs(limit: Option<usize>) -> Seq<(Seq<char>, Seq<char>)> {
    match limit {
        Some(l) => seq![("limit"@, spec_decimal(l as nat))],
        None => Seq::empty(),
    }
}

/// What the sort specifications contribute: a `sort_key` entry followed by
/// a `sort_dir` entry for each specification, in accumulated order.
pub open spec fn spec_sort_pairs(sort: Seq<Sort>) -> Seq<(Seq<char>, Seq<char>)>
    decreases sort.len(),
{
    if sort.len() == 0 {
        Seq::empty()
    } else {
        spec_sort_pairs(sort.drop_last())
            + seq![("sort_key"@, sort.last().spec_field()), ("sort_dir"@, sort.last().spec_dir())]
    }
}

/// The whole list query: `marker`, then `limit`, then the sort pairs.
pub open spec fn spec_list_query(marker: Option<String>, limit: Option<usize>, sort: Seq<Sort>) -> Seq<(Seq<char>, Seq<char>)> {
    spec_marker_pairs(marker) + spec_limit_pairs(limit) + spec_sort_pairs(sort)
}

/// Law: a request with a marker, a limit, and an ascending sort on one
/// field followed by a descending sort on another emits, in this order,
/// `marker`, `limit`, and the two `sort_key`/`sort_dir` pairs, whatever
/// the marker, the limit and the fields are.
pub proof fn lemma_list_query_emission(marker: String, limit: usize, first: String, second: String)
    ensures
        spec_list_query(Some(marker), Some(limit), seq![Sort::Asc(first), Sort::Desc(second)])
            =~= seq![
            ("marker"@, marker@),
            ("limit"@, spec_decimal(limit as nat)),
            ("sort_key"@, first@),
            ("sort_dir"@, "asc"@),
            ("sort_key"@, second@),
            ("sort_dir"@, "desc"@),
        ],
{
    let both = seq![Sort::Asc(first), Sort::Desc(second)];
    let one = seq![Sort::Asc(first)];
    assert(both.drop_last() =~= one);
    assert(one.drop_last() =~= Seq::<Sort>::empty());
    assert(spec_sort_pairs(Seq::<Sort>::empty()) =~= Seq::<(Seq<char>, Seq<char>)>::empty());
    assert(one.last() == Sort::Asc(first));
    assert(both.last() == Sort::Desc(second));
    assert(spec_sort_pairs(one) =~= seq![("sort_key"@, first@), ("sort_dir"@, "asc"@)]);
    assert(spec_sort_pairs(both) =~= seq![
        ("sort_key"@, first@),
        ("sort_dir"@, "asc"@),
        ("sort_key"@, second@),
        ("sort_dir"@, "desc"@),
    ]);
}

/// A request to list servers: a builder accumulating pagination and
/// sorting, consumed by `fetch`.
pub struct ServerListRequest {
    /// The wrapper requests go through.
    pub service: ServiceWrapper,
    /// Marker: ID of the server to start listing after.
    pub marker: Option<String>,
    /// Limit on the number of entries to return. If missing, the server's
    /// own default page size governs the response.
    pub limit: Option<usize>,
    /// Sorting fields and directions, in the order they were added.
    pub sort: Vec<Sort>,
}

impl ServerListRequest {
    fn new(service: ServiceWrapper) -> (r: ServerListRequest)
        ensures
            r.service == service,
            r.marker is None,
            r.limit is None,
            r.sort@ =~= Seq::<Sort>::empty(),
    {
        ServerListRequest { service, marker: None, limit: None, sort: Vec::new() }
    }

    /// Add a marker to the request.
    pub fn with_marker(self, marker: &str) -> (r: Self)
        ensures
            r.marker matches Some(m) && m@ == marker@,
            r.limit == self.limit,
            r.sort == self.sort,
            r.service == self.service,
    {
        ServerListRequest { marker: Some(marker.to_owned()), ..self }
    }

    /// Add a limit to the request.
    pub fn with_limit(self, limit: usize) -> (r: Self)
        ensures
            r.limit == Some(limit),
            r.marker == self.marker,
            r.sort == self.sort,
            r.service == self.service,
    {
        ServerListRequest { limit: Some(limit), ..self }
    }

    /// Add one sort specification to the request, after those added before.
    pub fn sort_by(self, sort: Sort) -> (r: Self)
        ensures
            r.sort@ == self.sort@.push(sort),
            r.marker == self.marker,
            r.limit == self.limit,
            r.service == self.service,
    {
        let mut s = self;
        s.sort.push(sort);
        s
    }

    /// The query this request emits: `marker` if set, then `limit` if set,
    /// then a `sort_key`/`sort_dir` pair per sort specification, in order.
    pub fn list_query(&self) -> (q: Query)
        ensures
            q@ == spec_list_query(self.marker, self.limit, self.sort@),
    {
        let mut q = Query::new();
        match &self.marker {
            Some(m) => {
                q.push("marker", m.as_str());
                proof {
                    assert(q@ =~= spec_marker_pairs(self.marker));
                }
            },
            None => {
                proof {
                    assert(q@ =~= spec_marker_pairs(self.marker));
                }
            },
        }
        match self.limit {
            Some(l) => {
                let rendered = format_usize(l);
                q.push("limit", rendered.as_str());
                proof {
                    assert(q@ =~= spec_marker_pairs(self.marker) + spec_limit_pairs(self.limit));
                }
            },
            None => {
                proof {
                    assert(q@ =~= spec_marker_pairs(self.marker) + spec_limit_pairs(self.limit));
                }
            },
        }
        let mut i: usize = 0;
        let n = self.sort.len();
        while i < n
            invariant
                n == self.sort@.len(),
                i <= n,
                q@ == spec_marker_pairs(self.marker) + spec_limit_pairs(self.limit)
                    + spec_sort_pairs(self.sort@.take(i as int)),
            decreases n - i,
        {
            let (field, dir) = self.sort[i].to_pair();
            q.push("sort_key", field.as_str());
            q.push("sort_dir", dir.as_str());
            proof {
                assert(self.sort@.take(i + 1 as int).drop_last() =~= self.sort@.take(i as int));
                assert(self.sort@.take(i + 1 as int).last() == self.sort@[i as int]);
                assert(q@ =~= spec_marker_pairs(self.marker) + spec_limit_pairs(self.limit)
                    + spec_sort_pairs(self.sort@.take(i + 1 as int)));
            }
            i = i + 1;
        }
        proof {
            assert(self.sort@.take(n as int) =~= self.sort@);
        }
        q
    }

    /// Execute this request: one page fetch, never more. The builder is
    /// consumed; multi-page retrieval means building a new request whose
    /// marker is the last-seen ID. On success every summary carries this
    /// request's service wrapper and the decoded entries keep the order
    /// the server returned; on any failure no partial result is returned.
    pub fn fetch<A: AuthMethod, T: Transport, C: ServerCodec>(
        self,
        session: &mut Session<A, T>,
        codec: &C,
    ) -> (r: ApiResult<ServerList>)
        ensures
            r matches Ok(list) ==> forall|i: int| 0 <= i < list@.len() ==> (
                #[trigger] list@[i]
            ).spec_service()@ == self.service@,
    {
        let query = self.list_query();
        let mut segments: Vec<String> = Vec::new();
        segments.push(String::from_str("servers"));
        let body = match self.service.http_get(session, &segments, &query) {
            Ok(b) => b,
            Err(e) => {
                return Err(e);
            },
        };
        match codec.decode_server_list(&body) {
            Some(list) => Ok(wrap_summaries(&self.service, list)),
            None => Err(ApiError::Decode),
        }
    }
}

/// One GET for the detail of the server with the given ID, decoded by the
/// supplied codec. On success the server carries the passed wrapper.
fn get_server<A: AuthMethod, T: Transport, C: ServerCodec>(
    service: ServiceWrapper,
    session: &mut Session<A, T>,
    codec: &C,
    id: &str,
) -> (r: ApiResult<Server>)
    ensures
        r matches Ok(s) ==> s.spec_service()@ == service@,
{
    let mut segments: Vec<String> = Vec::new();
    segments.push(String::from_str("servers"));
    segments.push(id.to_owned());
    let query = Query::new();
    let body = match service.http_get(session, &segments, &query) {
        Ok(b) => b,
        Err(e) => {
            return Err(e);
        },
    };
    match codec.decode_server(&body) {
        Some(data) => Ok(Server { service, inner: data }),
        None => Err(ApiError::Decode),
    }
}

/// Server manager: working with virtual servers through a threaded-in
/// session.
pub struct ServerManager {
    service: ServiceWrapper,
}

impl ServerManager {
    /// The wrapper requests go through.
    pub closed spec fn spec_service(&self) -> ServiceWrapper {
        self.service
    }

    /// Constructor for a server manager, bound to the compute service.
    pub fn new() -> (r: ServerManager)
        ensures
            r.spec_service()@ == ("compute"@, "v2"@),
    {
        ServerManager { service: ServiceWrapper::new("compute", "v2") }
    }

    /// List servers. Returns not results but a request builder that can be
    /// further specified with filtering or sorting before it is fetched.
    pub fn list(&self) -> (r: ServerListRequest)
        ensures
            r.service@ == self.spec_service()@,
            r.marker is None,
            r.limit is None,
            r.sort@ =~= Seq::<Sort>::empty(),
    {
        ServerListRequest::new(self.service.clone())
    }

    /// Get one server by ID: a single GET for its detail. On success the
    /// server carries this manager's service wrapper.
    pub fn get<A: AuthMethod, T: Transport, C: ServerCodec>(
        &self,
        session: &mut Session<A, T>,
        codec: &C,
        id: &str,
    ) -> (r: ApiResult<Server>)
        ensures
            r matches Ok(s) ==> s.spec_service()@ == self.spec_service()@,
    {
        get_server(self.service.clone(), session, codec, id)
    }
}

/// Create a server manager.
pub fn servers() -> (r: ServerManager)
    ensures
        r.spec_service()@ == ("compute"@, "v2"@),
{
    ServerManager::new()
}

} // verus!
