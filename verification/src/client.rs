//! Client configuration, URL and header construction, query parameters,
//! and the description of the HTTP requests that the resources make.
use vstd::prelude::*;

use crate::error::SdkError;
use crate::text::{decimal, trim_leading_slashes, trim_start_slashes, u32_to_decimal, IntoText};
use crate::types::PaginationParams;

verus! {

/// The API host used unless configured otherwise.
const DEFAULT_BASE_URL: &'static str = "https://api.openagentmail.com";

/// The request timeout used unless configured otherwise, in seconds.
const DEFAULT_TIMEOUT_SECS: u64 = 30;

/// The default API host, as characters.
pub open spec fn default_base_url() -> Seq<char> {
    "https://api.openagentmail.com"@
}

/// Settings of a client.
#[derive(Debug, Clone)]
pub struct ClientConfig {
    /// API key for authentication.
    pub api_key: String,
    /// Base URL of the API, without the version segment.
    pub base_url: String,
    /// Request timeout in seconds.
    pub timeout_secs: u64,
}

impl ClientConfig {
    /// The default settings for the given API key: the default host and a
    /// timeout of 30 seconds.
    pub fn new(api_key: impl IntoText) -> (c: Self)
        ensures
            c.api_key@ == api_key.text(),
            c.base_url@ == default_base_url(),
            c.timeout_secs == 30,
    {
        ClientConfig {
            api_key: api_key.into_text(),
            base_url: DEFAULT_BASE_URL.to_owned(),
            timeout_secs: DEFAULT_TIMEOUT_SECS,
        }
    }

    /// Sets the base URL.
    pub fn base_url(self, url: impl IntoText) -> (c: Self)
        ensures
            c.base_url@ == url.text(),
            c.api_key == self.api_key,
            c.timeout_secs == self.timeout_secs,
    {
        let mut c = self;
        c.base_url = url.into_text();
        c
    }

    /// Sets the request timeout in seconds.
    pub fn timeout(self, secs: u64) -> (c: Self)
        ensures
            c == (Self { timeout_secs: secs, ..self }),
    {
        let mut c = self;
        c.timeout_secs = secs;
        c
    }
}

// ---------------------------------------------------------------------------
// The HTTP client
// ---------------------------------------------------------------------------

/// `reqwest::Client`, the HTTP connection pool; opaque here.
#[verifier::external_type_specification]
#[verifier::external_body]
pub struct ExReqwestClient(reqwest::Client);

/// `reqwest::ClientBuilder`, settings of a client to build; opaque here.
#[verifier::external_type_specification]
#[verifier::external_body]
pub struct ExReqwestClientBuilder(reqwest::ClientBuilder);

/// The total request timeout, in whole seconds, that a client builder is
/// set to (`None`: no timeout).
pub uninterp spec fn builder_timeout(b: reqwest::ClientBuilder) -> Option<u64>;

/// The total request timeout, in whole seconds, of a client (`None`: no
/// timeout).
pub uninterp spec fn client_timeout(c: reqwest::Client) -> Option<u64>;

/// `reqwest::Client::clone`: another handle on the same connection pool,
/// hence with the same settings, the request timeout among them. Nothing
/// else is stated of the handle: the client is opaque here.
pub assume_specification[ <reqwest::Client as Clone>::clone ](c: &reqwest::Client) -> (r: reqwest::Client)
    ensures
        client_timeout(r) == client_timeout(*c),
;

/// Calls `reqwest::Client::builder`: a builder with reqwest's defaults,
/// which set no total request timeout. Nothing else is stated of the
/// builder: it is opaque here.
#[verifier::external_body]
fn http_client_builder() -> (r: reqwest::ClientBuilder)
    ensures
        builder_timeout(r) == None::<u64>,
{
    reqwest::Client::builder()
}

/// Calls `reqwest::ClientBuilder::timeout` with `secs` seconds: the built
/// client gives up on a request after that long. Nothing else is stated of
/// the builder: it is opaque here.
#[verifier::external_body]
fn http_builder_timeout(b: reqwest::ClientBuilder, secs: u64) -> (r: reqwest::ClientBuilder)
    ensures
        builder_timeout(r) == Some(secs),
{
    b.timeout(std::time::Duration::from_secs(secs))
}

/// Calls `reqwest::ClientBuilder::build`. Whether it succeeds depends on
/// the machine (the TLS backend and resolver must initialize), so success
/// is not stated; a built client has the builder's request timeout.
#[verifier::external_body]
fn http_builder_build(b: reqwest::ClientBuilder) -> (r: std::result::Result<reqwest::Client, reqwest::Error>)
    ensures
        r matches Ok(c) ==> client_timeout(c) == builder_timeout(b),
{
    b.build()
}

/// The full URL of an API path: the base URL, the version segment, and the
/// path without its leading slashes.
pub open spec fn full_url(base_url: Seq<char>, path: Seq<char>) -> Seq<char> {
    base_url + seq!['/', 'v', '0', '/'] + trim_leading_slashes(path)
}

/// A path with or without leading slashes names the same URL.
pub proof fn lemma_url_ignores_leading_slash(base_url: Seq<char>, path: Seq<char>)
    ensures
        full_url(base_url, seq!['/'] + path) == full_url(base_url, path),
{
    let p = seq!['/'] + path;
    assert(p.drop_first() =~= path);
}

/// One query parameter as characters.
pub open spec fn query_pair_view(p: (&str, String)) -> (Seq<char>, Seq<char>) {
    (p.0@, p.1@)
}

/// Query parameters as characters, in order.
pub open spec fn query_view(q: Seq<(&str, String)>) -> Seq<(Seq<char>, Seq<char>)> {
    q.map_values(|p: (&str, String)| query_pair_view(p))
}

/// The parameter `name=value` if the value is present, else nothing.
pub open spec fn optional_param(name: Seq<char>, value: Option<Seq<char>>) -> Seq<(Seq<char>, Seq<char>)> {
    match value {
        Some(v) => seq![(name, v)],
        None => Seq::empty(),
    }
}

/// The query of a page request: `limit` (in decimal) if set, then
/// `page_token` if set.
pub open spec fn pagination_query(limit: Option<u32>, page_token: Option<Seq<char>>) -> Seq<(Seq<char>, Seq<char>)> {
    optional_param(
        "limit"@,
        match limit {
            Some(l) => Some(decimal(l as nat)),
            None => None,
        },
    ) + optional_param("page_token"@, page_token)
}

/// The query of a page request is `limit` (in decimal) when a page size is
/// set, followed by `page_token` when a cursor is set, and nothing else;
/// each is present exactly when its parameter is.
pub proof fn lemma_pagination_query_rule(limit: Option<u32>, page_token: Option<Seq<char>>)
    ensures
        pagination_query(limit, page_token) == (match limit {
            Some(l) => seq![("limit"@, decimal(l as nat))],
            None => Seq::<(Seq<char>, Seq<char>)>::empty(),
        }) + (match page_token {
            Some(t) => seq![("page_token"@, t)],
            None => Seq::<(Seq<char>, Seq<char>)>::empty(),
        }),
        forall|i: int|
            0 <= i < pagination_query(limit, page_token).len() ==> (#[trigger] pagination_query(
                limit,
                page_token,
            )[i]).0 == "limit"@ || pagination_query(limit, page_token)[i].0 == "page_token"@,
        limit matches Some(l) ==> pagination_query(limit, page_token).contains(("limit"@, decimal(l as nat))),
        page_token matches Some(t) ==> pagination_query(limit, page_token).contains(("page_token"@, t)),
        pagination_query(limit, page_token).len() == (if limit is Some { 1int } else { 0int }) + (if page_token is Some { 1int } else { 0int }),
{
    let q = pagination_query(limit, page_token);
    if let Some(l) = limit {
        assert(q[0] == ("limit"@, decimal(l as nat)));
    }
    if let Some(t) = page_token {
        assert(q[q.len() - 1] == ("page_token"@, t));
    }
}

/// Appends `name=value` to the query when the value is present.
pub fn push_optional_param(query: &mut Vec<(&'static str, String)>, name: &'static str, value: &Option<String>)
    ensures
        query_view(final(query)@) == query_view(old(query)@) + optional_param(
            name@,
            crate::types::opt_text(*value),
        ),
{
    let ghost before = query@;
    match value {
        Some(v) => {
            query.push((name, v.clone()));
            assert(query_view(query@) =~= query_view(before) + seq![(name@, v@)]);
        },
        None => {
            assert(query_view(query@) =~= query_view(before) + Seq::empty());
        },
    }
}

/// An HTTP method used by the API.
#[derive(Debug, Clone, Copy, PartialEq, Eq, Structural)]
pub enum Method {
    Get,
    Post,
    Put,
    Delete,
}

/// What the response of a request carries on success.
#[derive(Debug, Clone, Copy, PartialEq, Eq, Structural)]
pub enum Expect {
    /// A JSON document of the operation's result type.
    Json,
    /// Nothing: any success status completes the operation.
    Empty,
}

/// A request to make: method, path below the version segment, query
/// parameters, whether the request carries the operation's JSON body, and
/// what the response carries.
#[derive(Debug, Clone)]
pub struct Endpoint {
    pub method: Method,
    pub path: String,
    pub query: Vec<(&'static str, String)>,
    pub with_body: bool,
    pub expect: Expect,
}

/// Whether `e` is the request with the given method, path, query, body
/// presence and expected response.
pub open spec fn describes(
    e: Endpoint,
    method: Method,
    path: Seq<char>,
    query: Seq<(Seq<char>, Seq<char>)>,
    with_body: bool,
    expect: Expect,
) -> bool {
    &&& e.method == method
    &&& e.path@ == path
    &&& query_view(e.query@) == query
    &&& e.with_body == with_body
    &&& e.expect == expect
}

/// A described request has exactly the described method, path, query
/// parameters (name and value, in order), body presence and answer.
pub proof fn lemma_describes_rule(
    e: Endpoint,
    method: Method,
    path: Seq<char>,
    query: Seq<(Seq<char>, Seq<char>)>,
    with_body: bool,
    expect: Expect,
)
    requires
        describes(e, method, path, query, with_body, expect),
    ensures
        e.method == method,
        e.path@ == path,
        e.query@.len() == query.len(),
        forall|i: int| 0 <= i < query.len() ==> (#[trigger] e.query@[i]).0@ == query[i].0 && e.query@[i].1@ == query[i].1,
        e.with_body == with_body,
        e.expect == expect,
{
    assert forall|i: int| 0 <= i < query.len() implies (#[trigger] e.query@[i]).0@ == query[i].0 && e.query@[i].1@ == query[i].1 by {
        assert(query_view(e.query@)[i] == query_pair_view(e.query@[i]));
    }
}

impl Endpoint {
    /// A request without query parameters.
    pub fn plain(method: Method, path: String, with_body: bool, expect: Expect) -> (e: Self)
        ensures
            describes(e, method, path@, Seq::empty(), with_body, expect),
    {
        let e = Endpoint { method, path, query: Vec::new(), with_body, expect };
        assert(query_view(e.query@) =~= Seq::empty());
        e
    }
}

/// `a` followed by `b`.
pub fn concat2(a: &str, b: &str) -> (r: String)
    ensures
        r@ == a@ + b@,
{
    let mut r = a.to_owned();
    r.append(b);
    r
}

/// `a`, `b`, `c` and `d` one after the other.
pub fn concat4(a: &str, b: &str, c: &str, d: &str) -> (r: String)
    ensures
        r@ == a@ + b@ + c@ + d@,
{
    let mut r = a.to_owned();
    r.append(b);
    r.append(c);
    r.append(d);
    r
}

/// `a`, `b`, `c`, `d` and `e` one after the other.
pub fn concat5(a: &str, b: &str, c: &str, d: &str, e: &str) -> (r: String)
    ensures
        r@ == a@ + b@ + c@ + d@ + e@,
{
    let mut r = concat4(a, b, c, d);
    r.append(e);
    r
}

/// Clients make requests to the API with these settings.
#[derive(Debug, Clone)]
pub struct ApiClient {
    http: reqwest::Client,
    config: ClientConfig,
}

impl ApiClient {
    /// The settings the client was made with.
    pub closed spec fn spec_config(&self) -> ClientConfig {
        self.config
    }

    /// A client with the given settings, whose HTTP layer gives up on a
    /// request after `config.timeout_secs` seconds; building the HTTP layer
    /// may fail, and then the error is `Http`.
    pub fn new(config: ClientConfig) -> (r: crate::error::Result<Self>)
        ensures
            r matches Ok(c) ==> c.spec_config() == config,
            r matches Ok(c) ==> client_timeout(c.spec_http()) == Some(config.timeout_secs),
            r matches Err(e) ==> e is Http,
    {
        let builder = http_client_builder();
        let builder = http_builder_timeout(builder, config.timeout_secs);
        match http_builder_build(builder) {
            Ok(http) => Ok(ApiClient { http, config }),
            Err(e) => Err(SdkError::Http(e)),
        }
    }

    /// The settings the client was made with.
    pub fn config(&self) -> (c: &ClientConfig)
        ensures
            *c == self.spec_config(),
    {
        &self.config
    }

    /// The HTTP connection pool that requests go through.
    pub closed spec fn spec_http(&self) -> reqwest::Client {
        self.http
    }

    /// The HTTP connection pool that requests go through.
    pub fn http(&self) -> (h: &reqwest::Client)
        ensures
            *h == self.spec_http(),
    {
        &self.http
    }

    /// The full URL of an API path: base URL, `/v0/`, and the path without
    /// its leading slashes.
    pub fn url(&self, path: &str) -> (u: String)
        ensures
            u@ == full_url(self.spec_config().base_url@, path@),
    {
        let mut u = self.config.base_url.clone();
        u.append("/v0/");
        u.append(trim_start_slashes(path));
        proof {
            reveal_strlit("/v0/");
        }
        u
    }

    /// The authentication header: `Authorization: Bearer <api key>`.
    pub fn authorization_header(&self) -> (h: (&'static str, String))
        ensures
            h.0@ == "Authorization"@,
            h.1@ == "Bearer "@ + self.spec_config().api_key@,
    {
        let mut v = "Bearer ".to_owned();
        v.append(self.config.api_key.as_str());
        ("Authorization", v)
    }

    /// The query parameters of a page request: `limit` in decimal if set,
    /// then `page_token` if set.
    pub fn build_pagination_query(&self, params: &PaginationParams) -> (q: Vec<(&'static str, String)>)
        ensures
            query_view(q@) == pagination_query(
                params.limit,
                crate::types::opt_text(params.page_token),
            ),
    {
        pagination_query_of(params)
    }
}

/// The query parameters of a page request (see
/// `ApiClient::build_pagination_query`).
pub fn pagination_query_of(params: &PaginationParams) -> (q: Vec<(&'static str, String)>)
    ensures
        query_view(q@) == pagination_query(params.limit, crate::types::opt_text(params.page_token)),
{
    let mut q: Vec<(&'static str, String)> = Vec::new();
    let limit = match params.limit {
        Some(l) => Some(u32_to_decimal(l)),
        None => None,
    };
    assert(query_view(q@) =~= Seq::empty());
    push_optional_param(&mut q, "limit", &limit);
    push_optional_param(&mut q, "page_token", &params.page_token);
    assert(query_view(q@) =~= pagination_query(params.limit, crate::types::opt_text(params.page_token)));
    q
}

/// Whether a response status means success (2xx).
pub fn is_success_status(status: u16) -> (r: bool)
    ensures
        r == (200 <= status <= 299),
{
    200 <= status && status <= 299
}

} // verus!
