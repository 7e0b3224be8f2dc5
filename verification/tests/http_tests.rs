use loganalyzer::respond::collect;
use loganalyzer::respond::content_type_is_json;
use loganalyzer::respond::handle_request;
use loganalyzer::respond::root;
use loganalyzer::respond::internal_error_response;
use loganalyzer::respond::RequestBody;
use loganalyzer::router::route;
use loganalyzer::router::Method;
use loganalyzer::router::RouteMatch;

fn get(target: &str) -> loganalyzer::respond::Outcome {
    handle_request(Method::Get, &target.as_bytes().to_vec(), RequestBody::Missing)
}

fn post(target: &str, body: &str) -> loganalyzer::respond::Outcome {
    handle_request(
        Method::Post,
        &target.as_bytes().to_vec(),
        RequestBody::Bytes(body.as_bytes().to_vec()),
    )
}

#[test]
fn get_root_is_200_root_html() {
    let out = get("/");
    assert_eq!(out.response.status, 200);
    assert_eq!(out.response.body, b"root".to_vec());
    assert!(out.response.content_type.starts_with(b"text/html"));
    assert!(out.ingest_line.is_none());
}

#[test]
fn get_root_is_pure() {
    let a = get("/");
    let b = get("/");
    assert_eq!(a.response, b.response);
}

#[test]
fn collect_accepts_json_and_logs_it() {
    let out = post("/collect", "{\"a\":1,\"b\":[true,null]}");
    assert_eq!(out.response.status, 200);
    assert_eq!(out.response.body, b"collect".to_vec());
    assert!(out.response.content_type.starts_with(b"text/html"));
    let line = out.ingest_line.expect("accepted body must be logged");
    let text = String::from_utf8(line).unwrap();
    assert!(text.contains("\"a\": 1"), "pretty JSON, got {text}");
}

#[test]
fn collect_is_pure_apart_from_logging() {
    let a = post("/collect", "{\"a\":1}");
    let b = post("/collect", "{\"a\":1}");
    assert_eq!(a.response, b.response);
    assert_eq!(a.ingest_line, b.ingest_line);
}

#[test]
fn collect_pretty_print_is_not_the_raw_body() {
    let body = "{\"a\":1,\"b\":[true,null]}";
    let out = post("/collect", body);
    let line = out.ingest_line.expect("accepted body must be logged");
    assert_ne!(line, body.as_bytes().to_vec());
}

#[test]
fn collect_rejects_non_json_with_400() {
    let out = post("/collect", "not json");
    assert_eq!(out.response.status, 400);
    assert!(out.ingest_line.is_none());
}

#[test]
fn collect_rejects_missing_body() {
    let out = handle_request(
        Method::Post,
        &b"/collect".to_vec(),
        RequestBody::Missing,
    );
    assert_eq!(out.response.status, 400);
    let out = handle_request(
        Method::Post,
        &b"/collect".to_vec(),
        RequestBody::TooLarge,
    );
    assert_eq!(out.response.status, 400);
}

#[test]
fn collect_rejects_wrong_content_type() {
    let out = handle_request(
        Method::Post,
        &b"/collect".to_vec(),
        RequestBody::WrongContentType,
    );
    assert_eq!(out.response.status, 400);
    assert!(out.ingest_line.is_none());
}

#[test]
fn content_type_recognition() {
    let ct = |s: &str| content_type_is_json(&s.as_bytes().to_vec());
    assert!(ct("application/json"));
    assert!(ct("Application/JSON"));
    assert!(ct("application/json; charset=utf-8"));
    assert!(!ct("application/jsonx"));
    assert!(!ct("text/plain"));
    assert!(!ct(""));
}

#[test]
fn collect_body_timeout_is_408() {
    let out = handle_request(
        Method::Post,
        &b"/collect".to_vec(),
        RequestBody::TimedOut,
    );
    assert_eq!(out.response.status, 408);
}

#[test]
fn put_root_is_405() {
    let out = handle_request(Method::Put, &b"/".to_vec(), RequestBody::Missing);
    assert_eq!(out.response.status, 405);
}

#[test]
fn get_collect_is_405() {
    let out = get("/collect");
    assert_eq!(out.response.status, 405);
}

#[test]
fn get_unknown_is_404() {
    let out = get("/unknown");
    assert_eq!(out.response.status, 404);
}

#[test]
fn query_string_is_ignored() {
    let out = get("/?probe=1");
    assert_eq!(out.response.status, 200);
    assert_eq!(out.response.body, b"root".to_vec());
}

#[test]
fn trailing_slash_is_not_significant() {
    let out = post("/collect/", "[1,2]");
    assert_eq!(out.response.status, 200);
}

#[test]
fn paths_are_case_sensitive() {
    let out = post("/Collect", "[1]");
    assert_eq!(out.response.status, 404);
}

#[test]
fn routing_table() {
    let t = |s: &str| s.as_bytes().to_vec();
    assert_eq!(route(Method::Get, &t("/")), RouteMatch::Root);
    assert_eq!(route(Method::Post, &t("/collect")), RouteMatch::Collect);
    assert_eq!(route(Method::Head, &t("/")), RouteMatch::MethodNotAllowed);
    assert_eq!(route(Method::Put, &t("/collect")), RouteMatch::MethodNotAllowed);
    assert_eq!(route(Method::Get, &t("")), RouteMatch::NotFound);
    assert_eq!(route(Method::Get, &t("/collect/x")), RouteMatch::NotFound);
}

#[test]
fn root_handler_directly() {
    let r = root();
    assert_eq!(r.status, 200);
    assert_eq!(r.body, b"root".to_vec());
    assert!(r.content_type.starts_with(b"text/html"));
}

#[test]
fn collect_handler_directly() {
    let (resp, line) = collect(&b"[1,2,3]".to_vec());
    assert_eq!(resp.status, 200);
    assert_eq!(resp.body, b"collect".to_vec());
    assert!(line.is_some());
    let (resp, line) = collect(&b"oops".to_vec());
    assert_eq!(resp.status, 400);
    assert!(line.is_none());
}

#[test]
fn internal_error_is_500() {
    let r = internal_error_response();
    assert_eq!(r.status, 500);
    assert_eq!(r.body, b"Internal Server Error".to_vec());
}

#[test]
fn statuses_stay_canonical() {
    let cases = [
        get("/").response.status,
        get("/unknown").response.status,
        post("/collect", "{}").response.status,
        post("/collect", "nope").response.status,
        handle_request(Method::Put, &b"/".to_vec(), RequestBody::Missing).response.status,
        handle_request(Method::Post, &b"/collect".to_vec(), RequestBody::TimedOut)
            .response
            .status,
        internal_error_response().status,
    ];
    for s in cases {
        assert!(matches!(s, 200 | 400 | 404 | 405 | 408 | 500));
    }
}

#[test]
fn json_values_of_every_kind_are_accepted() {
    for body in ["{}", "[]", "\"s\"", "12.5", "true", "null", "{\"n\":{\"m\":[1]}}"] {
        let out = post("/collect", body);
        assert_eq!(out.response.status, 200, "body {body}");
        assert!(out.ingest_line.is_some());
    }
    for body in ["", "{", "1 2", "{\"a\":}"] {
        let out = post("/collect", body);
        assert_eq!(out.response.status, 400, "body {body}");
        assert!(out.ingest_line.is_none());
    }
}
