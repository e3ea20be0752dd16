use openstack::auth::AuthMethod;
use openstack::auth::AuthToken;
use openstack::auth::NoAuth;
use openstack::query::Query;
use openstack::servers::ServerCodec;
use openstack::servers::ServerData;
use openstack::servers::ServerManager;
use openstack::servers::SummaryData;
use openstack::service::ServiceWrapper;
use openstack::session::Session;
use openstack::sort::Sort;
use openstack::transport::HttpRequest;
use openstack::transport::HttpResponse;
use openstack::transport::Transport;
use openstack::url::Url;
use openstack::ApiError;
use openstack::ApiResult;
use openstack::TransportError;

const SERVERS_RESPONSE: &str = r#"
{
    "servers": [
        {
            "id": "22c91117-08de-4894-9aa9-6ef382400985",
            "links": [
                {
                    "href": "http://openstack.example.com/v2/6f70656e737461636b20342065766572/servers/22c91117-08de-4894-9aa9-6ef382400985",
                    "rel": "self"
                },
                {
                    "href": "http://openstack.example.com/6f70656e737461636b20342065766572/servers/22c91117-08de-4894-9aa9-6ef382400985",
                    "rel": "bookmark"
                }
            ],
            "name": "new-server-test"
        }
    ]
}"#;

/// A transport that always answers with one fixed status and body.
struct MockTransport {
    status: u16,
    body: &'static str,
}

impl Transport for MockTransport {
    fn send(&self, _request: &HttpRequest) -> Result<HttpResponse, TransportError> {
        Ok(HttpResponse { status: self.status, body: self.body.as_bytes().to_vec() })
    }
}

/// A transport that always fails.
struct FailingTransport;

impl Transport for FailingTransport {
    fn send(&self, _request: &HttpRequest) -> Result<HttpResponse, TransportError> {
        Err(TransportError { message: String::from("connection refused") })
    }
}

/// A transport that routes on the request URL: the detail URL of server
/// `X` gets a detail body, everything else gets a one-summary list body.
struct RoutingTransport;

const ONE_SUMMARY_RESPONSE: &str = r#"{"servers": [{"id": "X", "name": "Y"}]}"#;

const DETAIL_RESPONSE: &str = r#"
{
    "server": {
        "id": "X",
        "name": "Y",
        "status": "ACTIVE",
        "accessIPv4": "192.0.2.1",
        "accessIPv6": "2001:db8::1",
        "links": []
    }
}"#;

impl Transport for RoutingTransport {
    fn send(&self, request: &HttpRequest) -> Result<HttpResponse, TransportError> {
        let body = if request.url.ends_with("/servers/X") {
            DETAIL_RESPONSE
        } else {
            ONE_SUMMARY_RESPONSE
        };
        Ok(HttpResponse { status: 200, body: body.as_bytes().to_vec() })
    }
}

/// An authentication method whose fresh tokens are already expired.
struct StaleAuth {
    endpoint: Url,
}

impl AuthMethod for StaleAuth {
    fn get_token(&mut self) -> ApiResult<AuthToken> {
        Ok(AuthToken { token: String::from("stale"), expires_at: Some(i64::MIN) })
    }

    fn get_endpoint(&mut self, _service_type: &str) -> ApiResult<Url> {
        Ok(self.endpoint.clone())
    }
}

/// The supplied JSON codec used by the tests.
struct JsonCodec;

fn summary_from(value: &serde_json::Value) -> Option<SummaryData> {
    let id = value.get("id")?.as_str()?.to_string();
    let name = value.get("name")?.as_str()?.to_string();
    Some(SummaryData { id, name })
}

impl ServerCodec for JsonCodec {
    fn decode_server_list(&self, body: &Vec<u8>) -> Option<Vec<SummaryData>> {
        let root: serde_json::Value = serde_json::from_slice(body.as_slice()).ok()?;
        let entries = root.get("servers")?.as_array()?;
        let mut out = Vec::new();
        for entry in entries {
            out.push(summary_from(entry)?);
        }
        Some(out)
    }

    fn decode_server(&self, body: &Vec<u8>) -> Option<ServerData> {
        let root: serde_json::Value = serde_json::from_slice(body.as_slice()).ok()?;
        let value = root.get("server")?;
        Some(ServerData {
            id: value.get("id")?.as_str()?.to_string(),
            name: value.get("name")?.as_str()?.to_string(),
            status: value.get("status")?.as_str()?.to_string(),
            access_ipv4: value.get("accessIPv4")?.as_str()?.to_string(),
            access_ipv6: value.get("accessIPv6")?.as_str()?.to_string(),
        })
    }
}

#[test]
fn test_servers_list() {
    let auth = NoAuth::new("http://127.0.2.1/v2.1").unwrap();
    let transport = MockTransport { status: 200, body: SERVERS_RESPONSE };
    let token = AuthToken { token: String::from("abcdef"), expires_at: None };
    let mut session = Session::new_with_token(auth, transport, token);

    let mgr = ServerManager::new();
    let srvs = mgr.list().fetch(&mut session, &JsonCodec).unwrap();
    assert_eq!(srvs.len(), 1);
    assert_eq!(srvs[0].id().as_str(), "22c91117-08de-4894-9aa9-6ef382400985");
    assert_eq!(srvs[0].name().as_str(), "new-server-test");
}

#[test]
fn test_list_query_string() {
    let mgr = ServerManager::new();
    let request = mgr
        .list()
        .with_marker("m1")
        .with_limit(5)
        .sort_by(Sort::Asc(String::from("name")))
        .sort_by(Sort::Desc(String::from("created")));
    let encoded = request.list_query().encode();
    assert_eq!(
        encoded.as_str(),
        "marker=m1&limit=5&sort_key=name&sort_dir=asc&sort_key=created&sort_dir=desc"
    );
}

#[test]
fn test_empty_list_request_query_is_empty() {
    let mgr = ServerManager::new();
    let request = mgr.list();
    assert_eq!(request.list_query().encode().as_str(), "");
}

#[test]
fn test_request_url_building() {
    let endpoint = Url::parse("http://127.0.2.1/v2.1").unwrap();
    let segments = vec![String::from("servers"), String::from("an id")];
    let query = Query::new();
    let url = ServiceWrapper::request_url(&endpoint, &segments, &query);
    assert_eq!(url.as_str(), "http://127.0.2.1/v2.1/servers/an%20id");

    let mut query = Query::new();
    query.push("marker", "m1");
    let url = ServiceWrapper::request_url(&endpoint, &segments, &query);
    assert_eq!(url.as_str(), "http://127.0.2.1/v2.1/servers/an%20id?marker=m1");
}

#[test]
fn test_summary_details_round_trip() {
    let auth = NoAuth::new("http://127.0.2.1/v2.1").unwrap();
    let mut session = Session::new(auth, RoutingTransport);

    let mgr = ServerManager::new();
    let srvs = mgr.list().fetch(&mut session, &JsonCodec).unwrap();
    assert_eq!(srvs.len(), 1);
    assert_eq!(srvs[0].id().as_str(), "X");
    assert_eq!(srvs[0].name().as_str(), "Y");

    let summary = srvs.into_iter().next().unwrap();
    let detail = summary.details(&mut session, &JsonCodec).unwrap();
    assert_eq!(detail.id().as_str(), "X");
    assert_eq!(detail.name().as_str(), "Y");
    assert_eq!(detail.status().as_str(), "ACTIVE");
    assert_eq!(detail.access_ipv4().as_str(), "192.0.2.1");
    assert_eq!(detail.access_ipv6().as_str(), "2001:db8::1");
}

#[test]
fn test_list_preserves_server_order() {
    let body: &'static str =
        r#"{"servers": [{"id": "1", "name": "c"}, {"id": "2", "name": "a"}, {"id": "3", "name": "b"}]}"#;
    let auth = NoAuth::new("http://127.0.2.1/v2.1").unwrap();
    let mut session = Session::new(auth, MockTransport { status: 200, body });
    let mgr = ServerManager::new();
    let srvs = mgr.list().fetch(&mut session, &JsonCodec).unwrap();
    assert_eq!(srvs.len(), 3);
    assert_eq!(srvs[0].id().as_str(), "1");
    assert_eq!(srvs[0].name().as_str(), "c");
    assert_eq!(srvs[1].id().as_str(), "2");
    assert_eq!(srvs[1].name().as_str(), "a");
    assert_eq!(srvs[2].id().as_str(), "3");
    assert_eq!(srvs[2].name().as_str(), "b");
}

#[test]
fn test_http_error_status_surfaces() {
    let auth = NoAuth::new("http://127.0.2.1/v2.1").unwrap();
    let mut session = Session::new(auth, MockTransport { status: 404, body: "" });
    let mgr = ServerManager::new();
    match mgr.list().fetch(&mut session, &JsonCodec) {
        Err(ApiError::HttpStatus(404)) => {},
        _ => panic!("a non-success status must surface as a protocol failure"),
    }
}

#[test]
fn test_undecodable_body_is_decode_error() {
    let auth = NoAuth::new("http://127.0.2.1/v2.1").unwrap();
    let mut session = Session::new(auth, MockTransport { status: 200, body: "{\"unexpected\": 1}" });
    let mgr = ServerManager::new();
    match mgr.list().fetch(&mut session, &JsonCodec) {
        Err(ApiError::Decode) => {},
        _ => panic!("a body without the expected shape must fail decoding"),
    }
}

#[test]
fn test_transport_failure_surfaces() {
    let auth = NoAuth::new("http://127.0.2.1/v2.1").unwrap();
    let mut session = Session::new(auth, FailingTransport);
    let mgr = ServerManager::new();
    match mgr.list().fetch(&mut session, &JsonCodec) {
        Err(ApiError::Transport(e)) => assert_eq!(e.message.as_str(), "connection refused"),
        _ => panic!("a transport failure must surface as-is"),
    }
}

#[test]
fn test_expired_fresh_token_is_authentication_error() {
    let endpoint = Url::parse("http://127.0.2.1/v2.1").unwrap();
    let auth = StaleAuth { endpoint };
    let mut session = Session::new(auth, MockTransport { status: 200, body: SERVERS_RESPONSE });
    let mgr = ServerManager::new();
    match mgr.list().fetch(&mut session, &JsonCodec) {
        Err(ApiError::Authentication) => {},
        _ => panic!("an already-expired fresh token must fail authentication"),
    }
}

#[test]
fn test_session_token_cache() {
    let auth = NoAuth::new("http://127.0.2.1/v2.1").unwrap();
    let cached = AuthToken { token: String::from("abcdef"), expires_at: None };
    let mut session = Session::new_with_token(auth, RoutingTransport, cached);
    // The cached token never expires, so it is reused.
    let tok = session.token().unwrap();
    assert_eq!(tok.token.as_str(), "abcdef");

    let auth = NoAuth::new("http://127.0.2.1/v2.1").unwrap();
    let expired = AuthToken { token: String::from("abcdef"), expires_at: Some(0) };
    let mut session = Session::new_with_token(auth, RoutingTransport, expired);
    // The cached token has expired: the method is asked for a fresh one.
    let tok = session.token_at(100).unwrap();
    assert_eq!(tok.token.as_str(), "no-auth");
    assert!(tok.expires_at.is_none());
}
