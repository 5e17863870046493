use hello_server::model::Body;
use hello_server::model::ContentKind;
use hello_server::model::Method;
use hello_server::model::Outcome;
use hello_server::model::PostPayload;
use hello_server::model::Request;
use hello_server::model::Response;
use hello_server::server::handle_request;

fn get_request(path: &str, query_name: Option<&str>) -> Request {
    Request {
        method: Method::Get,
        path: path.to_string(),
        query_name: query_name.map(|s| s.to_string()),
        body: Body::Missing,
    }
}

fn post_request(path: &str, body: Body) -> Request {
    Request { method: Method::Post, path: path.to_string(), query_name: None, body }
}

fn expect_reply(out: Outcome) -> Response {
    match out {
        Outcome::Reply(r) => r,
        Outcome::Fallback => panic!("expected a reply, got the static fallback"),
    }
}

#[test]
fn hello_query_with_name() {
    let reply = expect_reply(handle_request(&get_request("/hello", Some("Alice"))));
    assert_eq!(reply.status, 200);
    assert_eq!(reply.content, ContentKind::Html);
    assert_eq!(reply.body, "<b>Hello Alice</b>");
}

#[test]
fn hello_query_without_name() {
    let reply = expect_reply(handle_request(&get_request("/hello", None)));
    assert_eq!(reply.status, 200);
    assert_eq!(reply.content, ContentKind::Html);
    assert_eq!(reply.body, "<b>Hello World</b>");
}

#[test]
fn hello_query_with_empty_name() {
    let reply = expect_reply(handle_request(&get_request("/hello", Some(""))));
    assert_eq!(reply.body, "<b>Hello World</b>");
}

#[test]
fn hello_path_with_segment() {
    let reply = expect_reply(handle_request(&get_request("/hello/Jen", None)));
    assert_eq!(reply.status, 200);
    assert_eq!(reply.content, ContentKind::Html);
    assert_eq!(reply.body, "<b>Hello Jen</b>");
}

#[test]
fn hello_path_with_unicode_segment() {
    let reply = expect_reply(handle_request(&get_request("/hello/Zoë", None)));
    assert_eq!(reply.body, "<b>Hello Zoë</b>");
}

#[test]
fn hello_path_with_empty_segment_falls_back() {
    let out = handle_request(&get_request("/hello/", None));
    assert!(matches!(out, Outcome::Fallback));
}

#[test]
fn hello_path_with_nested_segment_falls_back() {
    let out = handle_request(&get_request("/hello/a/b", None));
    assert!(matches!(out, Outcome::Fallback));
}

#[test]
fn api_json_fixed_document() {
    let reply = expect_reply(handle_request(&get_request("/api/hello/json", None)));
    assert_eq!(reply.status, 200);
    assert_eq!(reply.content, ContentKind::Json);
    assert_eq!(reply.body, "{\"Message\":\"Hello Wyrld JSON\",\"Data\":{\"number\":69}}");
}

#[test]
fn api_json_ignores_query() {
    let reply = expect_reply(handle_request(&get_request("/api/hello/json", Some("ignored"))));
    assert_eq!(reply.body, "{\"Message\":\"Hello Wyrld JSON\",\"Data\":{\"number\":69}}");
}

#[test]
fn api_post_with_full_payload() {
    let body = Body::Valid(PostPayload { word: Some("x".to_string()), number: Some(5) });
    let reply = expect_reply(handle_request(&post_request("/api/hello/post", body)));
    assert_eq!(reply.status, 200);
    assert_eq!(reply.content, ContentKind::Json);
    assert_eq!(reply.body, "{\"message\":\"Success\"}");
}

#[test]
fn api_post_with_empty_object() {
    let body = Body::Valid(PostPayload { word: None, number: None });
    let reply = expect_reply(handle_request(&post_request("/api/hello/post", body)));
    assert_eq!(reply.status, 200);
    assert_eq!(reply.body, "{\"message\":\"Success\"}");
}

#[test]
fn api_post_with_malformed_body() {
    // Text such as this does not parse as JSON, so the JSON layer in
    // front of the service hands such a request over as malformed.
    assert!(serde_json::from_str::<serde_json::Value>("not-json").is_err());
    let reply = expect_reply(handle_request(&post_request("/api/hello/post", Body::Malformed)));
    assert_ne!(reply.status, 200);
    assert_eq!(reply.status, 400);
    assert_eq!(reply.body, "");
}

#[test]
fn api_post_with_missing_body() {
    let reply = expect_reply(handle_request(&post_request("/api/hello/post", Body::Missing)));
    assert_eq!(reply.status, 400);
}

#[test]
fn unmatched_path_falls_back() {
    let out = handle_request(&get_request("/no/such/route", None));
    assert!(matches!(out, Outcome::Fallback));
}

#[test]
fn wrong_method_falls_back() {
    let out = handle_request(&post_request("/hello", Body::Missing));
    assert!(matches!(out, Outcome::Fallback));
    let out = handle_request(&get_request("/api/hello/post", None));
    assert!(matches!(out, Outcome::Fallback));
}
