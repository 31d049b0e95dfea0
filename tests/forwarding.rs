use luciuz::forward::{
    plan_request, relay_response, rewrite_path, target_url, upstream_unreachable, InboundBody, Plan,
};
use luciuz::headers::{client_headers, is_hop_by_hop, upstream_headers, Header};
use luciuz::route::Route;

fn route(prefix: &str, upstream: &str) -> Route {
    Route { prefix: prefix.to_string(), upstream: upstream.to_string() }
}

fn names(hs: &[Header]) -> Vec<String> {
    hs.iter().map(|h| h.name.clone()).collect()
}

#[test]
fn rewrites_prefixed_paths() {
    assert_eq!(rewrite_path("/api", "/api/v1/x"), "/v1/x");
    assert_eq!(rewrite_path("/api", "/api"), "/");
    assert_eq!(rewrite_path("/", "/other"), "/other");
    assert_eq!(rewrite_path("/api", "/elsewhere"), "/elsewhere");
}

#[test]
fn target_keeps_query_verbatim() {
    assert_eq!(target_url("http://u2/", "/api", "/api/v1/x", Some("a=1&b=%20")), "http://u2/v1/x?a=1&b=%20");
    assert_eq!(target_url("http://u1//", "/", "/other", None), "http://u1/other");
    assert_eq!(target_url("http://u2", "/api", "/api", Some("")), "http://u2/?");
}

#[test]
fn hop_by_hop_names_ignore_case() {
    assert!(is_hop_by_hop("Connection"));
    assert!(is_hop_by_hop("TRANSFER-ENCODING"));
    assert!(is_hop_by_hop("te"));
    assert!(!is_hop_by_hop("content-type"));
}

#[test]
fn request_headers_are_cleaned() {
    let inbound = vec![
        Header::new("Host", "example.com"),
        Header::new("Connection", "keep-alive"),
        Header::new("accept", "*/*"),
        Header::new("upgrade", "websocket"),
        Header::new("x-forwarded-host", "spoofed"),
        Header::new("Proxy-Authorization", "secret"),
        Header::new("accept", "text/html"),
    ];
    let out = upstream_headers(&inbound);
    assert_eq!(names(&out), vec!["accept", "accept", "x-forwarded-host", "x-forwarded-proto"]);
    assert_eq!(out[2].value, "example.com");
    assert_eq!(out[3].value, "https");
}

#[test]
fn no_host_means_no_forwarded_host() {
    let inbound = vec![Header::new("x-forwarded-proto", "http"), Header::new("x-forwarded-host", "kept")];
    let out = upstream_headers(&inbound);
    assert_eq!(names(&out), vec!["x-forwarded-host", "x-forwarded-proto"]);
    assert_eq!(out[0].value, "kept");
    assert_eq!(out[1].value, "https");
}

#[test]
fn unreadable_host_is_not_forwarded() {
    let inbound = vec![Header::new("host", "bad\u{7f}host")];
    let out = upstream_headers(&inbound);
    assert_eq!(names(&out), vec!["x-forwarded-proto"]);
}

#[test]
fn response_headers_are_cleaned() {
    let upstream = vec![
        Header::new("content-type", "text/plain"),
        Header::new("Transfer-Encoding", "chunked"),
        Header::new("host", "internal"),
        Header::new("Trailer", "x"),
        Header::new("set-cookie", "a=b"),
    ];
    let out = client_headers(&upstream);
    assert_eq!(names(&out), vec!["content-type", "set-cookie"]);
}

#[test]
fn oversized_body_is_refused() {
    let r = route("/api", "http://u2");
    let plan = plan_request(&r, "POST", "/api/x", None, &vec![], InboundBody::Bytes(vec![0u8; 11]), 10);
    match plan {
        Plan::Answer(a) => {
            assert_eq!(a.status, 413);
            assert_eq!(a.body, b"payload too large".to_vec());
        }
        Plan::Send(_) => panic!("an oversized body must not be sent"),
    }
    let plan = plan_request(&r, "POST", "/api/x", None, &vec![], InboundBody::OverLimit, 10);
    assert!(matches!(plan, Plan::Answer(ref a) if a.status == 413));
}

#[test]
fn body_at_limit_is_sent() {
    let r = route("/api", "http://u2/");
    let hs = vec![Header::new("host", "edge.example"), Header::new("accept", "*/*")];
    let plan = plan_request(&r, "PUT", "/api/items/7", Some("x=1"), &hs, InboundBody::Bytes(vec![1u8; 10]), 10);
    match plan {
        Plan::Send(o) => {
            assert_eq!(o.method, "PUT");
            assert_eq!(o.url, "http://u2/items/7?x=1");
            assert_eq!(o.body, vec![1u8; 10]);
            assert_eq!(names(&o.headers), vec!["accept", "x-forwarded-host", "x-forwarded-proto"]);
        }
        Plan::Answer(_) => panic!("a body within the limit must be sent"),
    }
}

#[test]
fn empty_body_with_zero_limit_is_sent() {
    let r = route("/", "http://u1");
    let plan = plan_request(&r, "GET", "/", None, &vec![], InboundBody::Bytes(vec![]), 0);
    assert!(matches!(plan, Plan::Send(ref o) if o.url == "http://u1/"));
}

#[test]
fn unreachable_upstream_is_bad_gateway() {
    let a = upstream_unreachable();
    assert_eq!(a.status, 502);
    assert_eq!(a.body, b"bad gateway".to_vec());
    assert!(a.headers.is_empty());
}

#[test]
fn failed_body_read_is_bad_gateway() {
    let a = relay_response(200, &vec![Header::new("content-type", "text/plain")], None);
    assert_eq!(a.status, 502);
    assert_eq!(a.body, b"bad gateway".to_vec());
}

#[test]
fn response_is_relayed() {
    let hs = vec![Header::new("content-type", "text/plain"), Header::new("connection", "close")];
    let a = relay_response(201, &hs, Some(b"made".to_vec()));
    assert_eq!(a.status, 201);
    assert_eq!(a.body, b"made".to_vec());
    assert_eq!(names(&a.headers), vec!["content-type"]);
}

#[test]
fn unrepresentable_status_becomes_bad_gateway() {
    assert_eq!(relay_response(1000, &vec![], Some(vec![])).status, 502);
    assert_eq!(relay_response(99, &vec![], Some(vec![])).status, 502);
    assert_eq!(relay_response(999, &vec![], Some(vec![])).status, 999);
    assert_eq!(relay_response(100, &vec![], Some(vec![])).status, 100);
}

#[test]
fn repeated_get_gives_same_result() {
    let r = route("/api", "http://u2");
    let hs = vec![Header::new("host", "edge.example")];
    let mut urls = Vec::new();
    let mut replies = Vec::new();
    for _ in 0..2 {
        match plan_request(&r, "GET", "/api/v1/x", Some("q=1"), &hs, InboundBody::Bytes(vec![]), 1024) {
            Plan::Send(o) => urls.push(o.url),
            Plan::Answer(_) => panic!("a GET with no body must be sent"),
        }
        let a = relay_response(200, &vec![Header::new("etag", "1")], Some(b"same".to_vec()));
        replies.push((a.status, a.body));
    }
    assert_eq!(urls[0], urls[1]);
    assert_eq!(replies[0], replies[1]);
}
