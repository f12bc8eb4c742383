use scout::http::{
    build_request, collect_headers, error_response, request_steps, response_from_parts,
    status_text, BuilderStep,
};
use scout::request::{Auth, HttpMethod, Request};

fn pairs(v: &[(&str, &str)]) -> Vec<(String, String)> {
    v.iter().map(|(k, x)| (k.to_string(), x.to_string())).collect()
}

#[test]
fn steps_are_headers_then_body_then_auth() {
    let request = Request {
        name: "login".to_string(),
        method: HttpMethod::Post,
        url: "https://api.example.com/login".to_string(),
        headers: pairs(&[("Accept", "application/json"), ("X-Trace", "1")]),
        body: Some("{}".to_string()),
        auth: Auth::Bearer("abc".to_string()),
    };
    assert_eq!(
        request_steps(&request),
        vec![
            BuilderStep::Header("Accept".to_string(), "application/json".to_string()),
            BuilderStep::Header("X-Trace".to_string(), "1".to_string()),
            BuilderStep::Body("{}".to_string()),
            BuilderStep::BearerAuth("abc".to_string()),
        ]
    );
}

#[test]
fn api_key_becomes_a_header_and_no_auth_adds_nothing() {
    let mut request = Request::default();
    request.auth = Auth::ApiKey { header: "X-Key".to_string(), value: "k".to_string() };
    assert_eq!(
        request_steps(&request),
        vec![BuilderStep::Header("X-Key".to_string(), "k".to_string())]
    );
    request.auth = Auth::Basic { username: "u".to_string(), password: "p".to_string() };
    assert_eq!(
        request_steps(&request),
        vec![BuilderStep::BasicAuth("u".to_string(), "p".to_string())]
    );
    assert!(request_steps(&Request::default()).is_empty());
}

#[test]
fn built_request_carries_method_url_headers_body_and_auth() {
    let request = Request {
        name: String::new(),
        method: HttpMethod::Post,
        url: "http://localhost:8080/items".to_string(),
        headers: pairs(&[("x-one", "1")]),
        body: Some("payload".to_string()),
        auth: Auth::Bearer("tok".to_string()),
    };
    let built = build_request(&request).unwrap().build().unwrap();
    assert_eq!(built.method(), reqwest::Method::POST);
    assert_eq!(built.url().as_str(), "http://localhost:8080/items");
    assert_eq!(built.headers().get("x-one").unwrap(), "1");
    assert_eq!(built.headers().get("authorization").unwrap(), "Bearer tok");
    assert_eq!(built.body().unwrap().as_bytes().unwrap(), b"payload");
}

#[test]
fn built_get_request_with_basic_auth() {
    let mut request = Request::default();
    request.url = "http://localhost/".to_string();
    request.auth = Auth::Basic { username: "admin".to_string(), password: "pw".to_string() };
    let built = build_request(&request).unwrap().build().unwrap();
    assert_eq!(built.method(), reqwest::Method::GET);
    assert_eq!(built.headers().get("authorization").unwrap(), "Basic YWRtaW46cHc=");
    assert!(built.body().is_none());
}

#[test]
fn status_text_is_the_reason_phrase() {
    assert_eq!(status_text(200), "OK");
    assert_eq!(status_text(404), "Not Found");
    assert_eq!(status_text(418), "I'm a teapot");
    assert_eq!(status_text(599), "");
    assert_eq!(status_text(0), "");
    assert_eq!(status_text(1000), "");
}

#[test]
fn repeated_response_headers_keep_the_last_value() {
    let collected = collect_headers(&pairs(&[
        ("set-cookie", "a=1"),
        ("content-type", "text/plain"),
        ("set-cookie", "b=2"),
    ]));
    assert_eq!(collected, pairs(&[("content-type", "text/plain"), ("set-cookie", "b=2")]));
}

#[test]
fn response_from_parts_fills_every_field() {
    let r = response_from_parts(
        201,
        pairs(&[("a", "1"), ("a", "2")]),
        "made".to_string(),
        142,
    );
    assert_eq!(r.status, 201);
    assert_eq!(r.status_text, "Created");
    assert_eq!(r.headers, pairs(&[("a", "2")]));
    assert_eq!(r.body, "made");
    assert_eq!(r.duration_ms, 142);
}

#[test]
fn error_response_describes_the_failure() {
    let r = error_response("connection refused");
    assert_eq!(r.status, 0);
    assert_eq!(r.status_text, "Error");
    assert!(r.headers.is_empty());
    assert_eq!(r.body, "Error: connection refused");
    assert_eq!(r.duration_ms, 0);
}

#[test]
fn every_response_header_name_appears_once() {
    let r = response_from_parts(
        200,
        pairs(&[("a", "1"), ("b", "2"), ("a", "3"), ("b", "4"), ("c", "5")]),
        String::new(),
        0,
    );
    assert_eq!(r.headers, pairs(&[("a", "3"), ("b", "4"), ("c", "5")]));
}

#[test]
fn credentials_in_the_url_become_basic_authentication() {
    let mut request = Request::default();
    request.url = "http://admin:pw@localhost/".to_string();
    let built = build_request(&request).unwrap().build().unwrap();
    assert_eq!(built.url().as_str(), "http://localhost/");
    assert_eq!(built.headers().get("authorization").unwrap(), "Basic YWRtaW46cHc=");
}
