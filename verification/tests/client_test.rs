use openagentmail::client::{is_success_status, pagination_query_of};
use openagentmail::text::{str_eq, trim_start_slashes, u32_to_decimal};
use openagentmail::{
    ApiClient, ClientConfig, Expect, ListInboxesParams, ListMessagesParams, Method, OpenAgentMail,
    PaginationParams, SdkError,
};

fn pairs(q: &[(&'static str, String)]) -> Vec<(String, String)> {
    q.iter().map(|(k, v)| (k.to_string(), v.clone())).collect()
}

fn p(k: &str, v: &str) -> (String, String) {
    (k.to_string(), v.to_string())
}

#[test]
fn client_config_defaults() {
    let c = ClientConfig::new("your-api-key");
    assert_eq!(c.api_key, "your-api-key");
    assert_eq!(c.base_url, "https://api.openagentmail.com");
    assert_eq!(c.timeout_secs, 30);
}

#[test]
fn client_config_builder() {
    let c = ClientConfig::new("k").base_url("https://custom.api.com").timeout(60);
    assert_eq!(c.base_url, "https://custom.api.com");
    assert_eq!(c.timeout_secs, 60);
    assert_eq!(c.api_key, "k");
}

#[test]
fn url_joins_base_version_and_path() {
    let client = ApiClient::new(ClientConfig::new("k")).expect("client builds");
    assert_eq!(client.url("pods"), "https://api.openagentmail.com/v0/pods");
    assert_eq!(client.url("/domains"), "https://api.openagentmail.com/v0/domains");
    assert_eq!(client.url("///webhooks/w1"), "https://api.openagentmail.com/v0/webhooks/w1");
    assert_eq!(client.url(""), "https://api.openagentmail.com/v0/");
    let custom = ApiClient::new(ClientConfig::new("k").base_url("http://localhost:8080")).unwrap();
    assert_eq!(custom.url("inboxes/inb_1"), "http://localhost:8080/v0/inboxes/inb_1");
}

#[test]
fn url_ignores_leading_slash() {
    let client = ApiClient::new(ClientConfig::new("k")).unwrap();
    for path in ["pods", "inboxes/a/messages", ""] {
        assert_eq!(client.url(path), client.url(&format!("/{}", path)));
    }
}

#[test]
fn authorization_header_is_bearer() {
    let client = ApiClient::new(ClientConfig::new("secret-key")).unwrap();
    let (name, value) = client.authorization_header();
    assert_eq!(name, "Authorization");
    assert_eq!(value, "Bearer secret-key");
}

#[test]
fn pagination_query_pairs() {
    let client = ApiClient::new(ClientConfig::new("k")).unwrap();
    assert!(client.build_pagination_query(&PaginationParams::new()).is_empty());
    let q = client.build_pagination_query(&PaginationParams::new().limit(10));
    assert_eq!(pairs(&q), vec![p("limit", "10")]);
    let q = client.build_pagination_query(&PaginationParams::new().limit(0).page_token("abc"));
    assert_eq!(pairs(&q), vec![p("limit", "0"), p("page_token", "abc")]);
    let q = pagination_query_of(&PaginationParams::new().page_token("eyJsYXN0X2lkIjoiYWJjMTIzIn0"));
    assert_eq!(pairs(&q), vec![p("page_token", "eyJsYXN0X2lkIjoiYWJjMTIzIn0")]);
    let q = pagination_query_of(&PaginationParams::new().limit(u32::MAX));
    assert_eq!(pairs(&q), vec![p("limit", "4294967295")]);
}

#[test]
fn decimal_matches_to_string() {
    for n in [0u32, 1, 9, 10, 11, 99, 100, 101, 12345, 1000000, u32::MAX] {
        assert_eq!(u32_to_decimal(n), n.to_string());
    }
}

#[test]
fn text_helpers() {
    assert!(str_eq("abc", "abc"));
    assert!(!str_eq("abc", "abd"));
    assert!(!str_eq("abc", "ab"));
    assert!(str_eq("", ""));
    assert_eq!(trim_start_slashes("//a/b"), "a/b");
    assert_eq!(trim_start_slashes("a/"), "a/");
    assert_eq!(trim_start_slashes("///"), "");
    assert_eq!(trim_start_slashes("/é/x"), "é/x");
}

#[test]
fn success_statuses() {
    assert!(is_success_status(200));
    assert!(is_success_status(201));
    assert!(is_success_status(204));
    assert!(is_success_status(299));
    assert!(!is_success_status(199));
    assert!(!is_success_status(300));
    assert!(!is_success_status(404));
}

#[test]
fn open_agent_mail_client_construction() {
    let c = OpenAgentMail::new("your-api-key").expect("client builds");
    assert_eq!(c.client().config().api_key, "your-api-key");
    assert_eq!(c.client().config().timeout_secs, 30);
    let c = OpenAgentMail::with_config(ClientConfig::new("k").base_url("https://custom.api.com").timeout(60))
        .unwrap();
    assert_eq!(c.client().config().base_url, "https://custom.api.com");
    assert_eq!(c.pods().client().config().timeout_secs, 60);
    let r: Result<OpenAgentMail, SdkError> = OpenAgentMail::new(String::from("x"));
    assert!(r.is_ok());
}

#[test]
fn organization_and_pod_endpoints() {
    let c = OpenAgentMail::new("k").unwrap();
    let e = c.organization().get_endpoint();
    assert_eq!((e.method, e.path.as_str(), e.with_body, e.expect), (Method::Get, "organization", false, Expect::Json));
    let pods = c.pods();
    let e = pods.create_endpoint();
    assert_eq!((e.method, e.path.as_str(), e.with_body), (Method::Post, "pods", true));
    let e = pods.list_endpoint(&PaginationParams::new().limit(10));
    assert_eq!((e.method, e.path.as_str()), (Method::Get, "pods"));
    assert_eq!(pairs(&e.query), vec![p("limit", "10")]);
    let e = pods.get_endpoint("pod_xyz789");
    assert_eq!((e.method, e.path.as_str()), (Method::Get, "pods/pod_xyz789"));
    let e = pods.update_endpoint("pod_xyz789");
    assert_eq!((e.method, e.path.as_str(), e.with_body), (Method::Put, "pods/pod_xyz789", true));
    let e = pods.delete_endpoint("pod_xyz789");
    assert_eq!((e.method, e.path.as_str(), e.expect), (Method::Delete, "pods/pod_xyz789", Expect::Empty));
}

#[test]
fn inbox_endpoints() {
    let c = OpenAgentMail::new("k").unwrap();
    let inboxes = c.inboxes();
    let e = inboxes.create_endpoint("pod_xyz789");
    assert_eq!((e.method, e.path.as_str(), e.with_body), (Method::Post, "pods/pod_xyz789/inboxes", true));
    let e = inboxes.list_endpoint(&ListInboxesParams::new().limit(1).pod_id("pod_1"));
    assert_eq!((e.method, e.path.as_str()), (Method::Get, "pods/pod_1/inboxes"));
    assert_eq!(pairs(&e.query), vec![p("limit", "1")]);
    let e = inboxes.list_endpoint(&ListInboxesParams::new().page_token("t"));
    assert_eq!((e.method, e.path.as_str()), (Method::Get, "inboxes"));
    assert_eq!(pairs(&e.query), vec![p("page_token", "t")]);
    let e = inboxes.list_endpoint(&ListInboxesParams::new());
    assert!(e.query.is_empty());
    assert_eq!(inboxes.get_endpoint("inb_abc123").path, "inboxes/inb_abc123");
    assert_eq!(inboxes.update_endpoint("inb_abc123").method, Method::Put);
    let e = inboxes.delete_endpoint("inb_abc123");
    assert_eq!((e.method, e.path.as_str(), e.expect), (Method::Delete, "inboxes/inb_abc123", Expect::Empty));
}

#[test]
fn message_endpoints() {
    let c = OpenAgentMail::new("k").unwrap();
    let m = c.messages();
    let e = m.send_endpoint("inb_abc123");
    assert_eq!((e.method, e.path.as_str(), e.with_body), (Method::Post, "inboxes/inb_abc123/messages", true));
    let e = m.list_endpoint(
        "inb_abc123",
        &ListMessagesParams::new().limit(20).label("important").thread_id("thr_xyz789"),
    );
    assert_eq!(e.path, "inboxes/inb_abc123/messages");
    assert_eq!(
        pairs(&e.query),
        vec![p("limit", "20"), p("thread_id", "thr_xyz789"), p("label", "important")]
    );
    let e = m.get_endpoint("inb_abc123", "msg_def456");
    assert_eq!((e.method, e.path.as_str()), (Method::Get, "inboxes/inb_abc123/messages/msg_def456"));
    let e = m.delete_endpoint("inb_abc123", "msg_def456");
    assert_eq!((e.method, e.expect), (Method::Delete, Expect::Empty));
    let e = m.reply_endpoint("inb_abc123", "msg_def456");
    assert_eq!((e.method, e.path.as_str(), e.with_body), (Method::Post, "inboxes/inb_abc123/messages/msg_def456/reply", true));
    let e = m.reply_all_endpoint("inb_abc123", "msg_def456");
    assert_eq!(e.path, "inboxes/inb_abc123/messages/msg_def456/reply-all");
}

#[test]
fn draft_endpoints() {
    let c = OpenAgentMail::new("k").unwrap();
    let d = c.drafts();
    let e = d.create_endpoint("inb_abc123");
    assert_eq!((e.method, e.path.as_str(), e.with_body), (Method::Post, "inboxes/inb_abc123/drafts", true));
    let e = d.list_endpoint("inb_abc123", &PaginationParams::new().limit(10));
    assert_eq!((e.method, e.path.as_str()), (Method::Get, "inboxes/inb_abc123/drafts"));
    assert_eq!(pairs(&e.query), vec![p("limit", "10")]);
    assert_eq!(d.get_endpoint("inb_abc123", "drf_mno345").path, "inboxes/inb_abc123/drafts/drf_mno345");
    assert_eq!(d.update_endpoint("inb_abc123", "drf_mno345").method, Method::Put);
    assert_eq!(d.delete_endpoint("inb_abc123", "drf_mno345").expect, Expect::Empty);
    let e = d.send_endpoint("inb_abc123", "drf_mno345");
    assert_eq!((e.method, e.path.as_str(), e.with_body, e.expect), (Method::Post, "inboxes/inb_abc123/drafts/drf_mno345/send", false, Expect::Json));
}

#[test]
fn webhook_and_domain_endpoints() {
    let c = OpenAgentMail::new("k").unwrap();
    let w = c.webhooks();
    assert_eq!(w.create_endpoint().path, "/webhooks");
    let e = w.list_endpoint(&PaginationParams::new().page_token("t"));
    assert_eq!(pairs(&e.query), vec![p("page_token", "t")]);
    assert_eq!(w.get_endpoint("whk_1").path, "/webhooks/whk_1");
    let e = w.update_endpoint("whk_1");
    assert_eq!((e.method, e.with_body), (Method::Put, true));
    assert_eq!(w.delete_endpoint("whk_1").method, Method::Delete);
    let e = w.rotate_secret_endpoint("whk_1");
    assert_eq!((e.method, e.path.as_str(), e.with_body), (Method::Post, "/webhooks/whk_1/rotate-secret", false));
    let d = c.domains();
    let e = d.add_endpoint();
    assert_eq!((e.method, e.path.as_str(), e.with_body), (Method::Post, "/domains", true));
    assert_eq!(d.list_endpoint(&PaginationParams::new()).path, "/domains");
    assert_eq!(d.get_endpoint("dom_vwx234").path, "/domains/dom_vwx234");
    let e = d.verify_endpoint("dom_vwx234");
    assert_eq!((e.method, e.path.as_str(), e.with_body), (Method::Post, "/domains/dom_vwx234/verify", false));
    assert_eq!(d.delete_endpoint("dom_vwx234").expect, Expect::Empty);
    assert_eq!(c.client().url(&e.path), "https://api.openagentmail.com/v0/domains/dom_vwx234/verify");
}
