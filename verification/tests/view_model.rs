use scout::app::{App, InputMode, RequestTab};
use scout::event::{AppEvent, KeyCode, KeyEvent};
use scout::http::response_from_parts;
use scout::request::{Collection, HttpMethod, Request, Response};
use scout::text::{contains_str, decimal_string};
use scout::ui::{
    body_display, border_color, build_response_text, builder_content, compose_response_text,
    error_to_show, find_header, headers_table, method_label, mode_badge, mode_hints,
    no_headers_hint, pretty_or_text, response_pane, sidebar, status_color, tab_index, url_display, BuilderContent, Color,
    ResponsePane, Sidebar,
};
use scout::widgets::TableState;

fn pairs(v: &[(&str, &str)]) -> Vec<(String, String)> {
    v.iter().map(|(k, x)| (k.to_string(), x.to_string())).collect()
}

fn response(headers: &[(&str, &str)], body: &str) -> Response {
    Response {
        status: 200,
        status_text: "OK".to_string(),
        headers: pairs(headers),
        body: body.to_string(),
        duration_ms: 142,
    }
}

fn quiet_app() -> App {
    let mut app = App::new(TableState::new());
    app.debug = false;
    app
}

#[test]
fn plain_response_text() {
    let app = quiet_app();
    let r = response(&[("content-type", "text/plain")], "hello");
    assert_eq!(build_response_text(&app, &r), "200 OK   142ms\n\nhello");
}

#[test]
fn empty_body_is_marked() {
    let app = quiet_app();
    let r = response(&[], "");
    assert_eq!(build_response_text(&app, &r), "200 OK   142ms\n\n(empty)");
}

#[test]
fn json_body_is_pretty_printed() {
    let app = App::new(TableState::new());
    let r = response(
        &[("content-type", "application/json; charset=utf-8")],
        "{\"token\":\"abc123\",\"expires_in\":3600}",
    );
    assert_eq!(
        build_response_text(&app, &r),
        "200 OK   142ms\n\n{\n  \"expires_in\": 3600,\n  \"token\": \"abc123\"\n}"
    );
}

#[test]
fn invalid_json_falls_back_to_the_body() {
    let app = quiet_app();
    let r = response(&[("content-type", "application/json")], "not json");
    assert_eq!(build_response_text(&app, &r), "200 OK   142ms\n\nnot json");
}

#[test]
fn json_without_json_content_type_is_not_reformatted() {
    let app = quiet_app();
    let r = response(&[("content-type", "text/plain")], "{\"a\":1}");
    assert_eq!(build_response_text(&app, &r), "200 OK   142ms\n\n{\"a\":1}");
}

#[test]
fn debug_mode_lists_headers() {
    let app = App::new(TableState::new());
    let r = response(&[("server", "x"), ("content-length", "5")], "hello");
    assert_eq!(
        build_response_text(&app, &r),
        "200 OK   142ms\n\nhello\n\nHeaders:\nserver: x\ncontent-length: 5"
    );
}

#[test]
fn composed_text_uses_the_given_pretty_body() {
    let r = response(&[], "{}");
    assert_eq!(
        compose_response_text(false, &r, Some("PRETTY".to_string())),
        "200 OK   142ms\n\nPRETTY"
    );
    assert_eq!(compose_response_text(true, &r, None), "200 OK   142ms\n\n{}\n\nHeaders:\n");
}

#[test]
fn header_lookup_is_by_exact_name() {
    let h = pairs(&[("content-type", "a"), ("Content-Type", "b"), ("content-type", "c")]);
    assert_eq!(find_header(&h, "content-type"), Some("a".to_string()));
    assert_eq!(find_header(&h, "Content-Type"), Some("b".to_string()));
    assert_eq!(find_header(&h, "accept"), None);
}

#[test]
fn status_colours() {
    assert_eq!(status_color(200), Color::Green);
    assert_eq!(status_color(299), Color::Green);
    assert_eq!(status_color(301), Color::Yellow);
    assert_eq!(status_color(404), Color::Red);
    assert_eq!(status_color(0), Color::Red);
    assert_eq!(status_color(199), Color::Red);
}

#[test]
fn labels_and_badges() {
    assert_eq!(method_label(HttpMethod::Get), " GET");
    assert_eq!(method_label(HttpMethod::Post), "POST");
    assert_eq!(mode_badge(InputMode::Normal), (" NORMAL ", Color::White, Color::Blue));
    assert_eq!(mode_badge(InputMode::Insert), (" INSERT ", Color::Black, Color::Green));
    assert_eq!(mode_hints(InputMode::Insert), "  [esc] back to normal");
    assert!(mode_hints(InputMode::Normal).contains("[q] quit"));
    assert_eq!(border_color(true), Color::Yellow);
    assert_eq!(border_color(false), Color::DarkGray);
}

#[test]
fn url_field_shows_a_hint_when_empty() {
    assert_eq!(url_display(&String::new()), ("https://...".to_string(), Color::DarkGray));
    assert_eq!(url_display(&"http://a".to_string()), ("http://a".to_string(), Color::White));
}

#[test]
fn tabs_and_their_contents() {
    assert_eq!(tab_index(RequestTab::Url), 0);
    assert_eq!(tab_index(RequestTab::Auth), 3);
    assert!(matches!(builder_content(RequestTab::Url), BuilderContent::UrlField));
    assert!(matches!(builder_content(RequestTab::Headers), BuilderContent::HeadersTable));
    assert!(matches!(builder_content(RequestTab::Body), BuilderContent::BodyField));
    assert!(matches!(
        builder_content(RequestTab::Auth),
        BuilderContent::Placeholder("Auth \u{2014} issue #8")
    ));
    assert_eq!(no_headers_hint(), "(no headers)");
}

#[test]
fn sidebar_lists_collection_names() {
    let mut app = quiet_app();
    assert!(sidebar(&app).is_none());
    app.collections.push(Collection { name: "Billing API".to_string(), requests: Vec::new() });
    app.collection_list_state.select(Some(0));
    assert_eq!(
        sidebar(&app),
        Some(Sidebar { lines: vec![" Billing API".to_string()], selected_line: Some(0) })
    );
}

#[test]
fn expanded_collections_list_their_requests() {
    let mut app = quiet_app();
    let mut login = Request::default();
    login.name = "login".to_string();
    let mut unnamed = Request::default();
    unnamed.url = "http://x/charges".to_string();
    app.collections.push(Collection { name: "Auth API".to_string(), requests: vec![login] });
    app.collections.push(Collection { name: "Billing API".to_string(), requests: vec![unnamed] });
    app.collection_list_state.select(Some(1));
    app.expanded_collections.push(0);
    assert_eq!(
        sidebar(&app),
        Some(Sidebar {
            lines: vec![
                " Auth API".to_string(),
                "    login".to_string(),
                " Billing API".to_string(),
            ],
            selected_line: Some(2),
        })
    );
    app.expanded_collections.push(1);
    assert_eq!(sidebar(&app).unwrap().lines[3], "    http://x/charges");
}

#[test]
fn body_area_shows_a_hint_without_body() {
    assert_eq!(body_display(&None), ("(no body)".to_string(), Color::DarkGray));
    assert_eq!(body_display(&Some("{}".to_string())), ("{}".to_string(), Color::White));
}

#[test]
fn headers_table_is_empty_until_a_row_exists() {
    let mut app = quiet_app();
    assert!(headers_table(&app).is_none());
    app.active_request.headers.push(("k".to_string(), "v".to_string()));
    assert_eq!(headers_table(&app), Some(pairs(&[("k", "v")])));
}

#[test]
fn errors_are_shown_only_when_not_empty() {
    let mut app = quiet_app();
    assert_eq!(error_to_show(&app), None);
    app.error_message = Some(String::new());
    assert_eq!(error_to_show(&app), None);
    app.error_message = Some("boom".to_string());
    assert_eq!(error_to_show(&app), Some("boom".to_string()));
}

#[test]
fn response_pane_states() {
    let mut app = quiet_app();
    assert!(matches!(response_pane(&app), ResponsePane::NoResponse));
    app.update(AppEvent::Key(KeyEvent { code: KeyCode::Char('s'), control: false }));
    assert!(matches!(response_pane(&app), ResponsePane::Loading));
    app.update(AppEvent::HttpResponse(response_from_parts(404, Vec::new(), String::new(), 7)));
    match response_pane(&app) {
        ResponsePane::Ready { text, color } => {
            assert_eq!(text, "404 Not Found   7ms\n\n(empty)");
            assert_eq!(color, Color::Red);
        }
        _ => panic!("response not shown"),
    }
}

#[test]
fn decimal_rendering() {
    assert_eq!(decimal_string(0), "0");
    assert_eq!(decimal_string(7), "7");
    assert_eq!(decimal_string(3600), "3600");
    assert_eq!(decimal_string(u128::MAX), u128::MAX.to_string());
}

#[test]
fn substring_search() {
    assert!(contains_str("application/json; charset=utf-8", "application/json"));
    assert!(contains_str("abc", ""));
    assert!(!contains_str("application/xml", "application/json"));
    assert!(!contains_str("ab", "abc"));
    assert!(contains_str("héllo wörld", "wö"));
}

#[test]
fn failed_re_serialisation_shows_the_text_itself() {
    let err = serde_json::from_str::<serde_json::Value>("{").unwrap_err();
    assert_eq!(pretty_or_text(Some(Err(err)), "{\"a\":1}"), Some("{\"a\":1}".to_string()));
    assert_eq!(pretty_or_text(Some(Ok("P".to_string())), "t"), Some("P".to_string()));
    assert_eq!(pretty_or_text(None, "t"), None);
}
