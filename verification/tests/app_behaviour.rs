use scout::app::{App, Command, Focus, HeaderField, InputMode, RequestTab};
use scout::event::{AppEvent, KeyCode, KeyEvent};
use scout::http::response_from_parts;
use scout::request::HttpMethod;
use scout::widgets::TableState;

fn key(app: &mut App, code: KeyCode) -> Command {
    app.update(AppEvent::Key(KeyEvent { code, control: false }))
}

fn typed(app: &mut App, text: &str) {
    for c in text.chars() {
        key(app, KeyCode::Char(c));
    }
}

fn fresh() -> App {
    App::new(TableState::new())
}

#[test]
fn new_app_starts_in_normal_mode_on_collections() {
    let app = fresh();
    assert!(app.debug);
    assert!(!app.should_quit);
    assert_eq!(app.input_mode, InputMode::Normal);
    assert_eq!(app.focus, Focus::Collections);
    assert_eq!(app.active_tab, RequestTab::Url);
    assert!(app.collections.is_empty());
    assert_eq!(app.active_request.method, HttpMethod::Get);
    assert!(app.active_request.url.is_empty());
    assert!(app.response.is_none());
    assert!(!app.is_loading);
}

#[test]
fn tab_cycles_focus_through_three_panels() {
    let mut app = fresh();
    key(&mut app, KeyCode::Tab);
    assert_eq!(app.focus, Focus::RequestBuilder);
    key(&mut app, KeyCode::Tab);
    assert_eq!(app.focus, Focus::Response);
    key(&mut app, KeyCode::Tab);
    assert_eq!(app.focus, Focus::Collections);
}

#[test]
fn q_quits_in_normal_mode() {
    let mut app = fresh();
    key(&mut app, KeyCode::Char('q'));
    assert!(app.should_quit);
}

#[test]
fn ctrl_c_quits_but_plain_c_does_not() {
    let mut app = fresh();
    key(&mut app, KeyCode::Char('c'));
    assert!(!app.should_quit);
    app.update(AppEvent::Key(KeyEvent { code: KeyCode::Char('c'), control: true }));
    assert!(app.should_quit);
}

#[test]
fn q_typed_in_insert_mode_goes_into_the_url() {
    let mut app = fresh();
    key(&mut app, KeyCode::Tab);
    key(&mut app, KeyCode::Char('i'));
    assert_eq!(app.input_mode, InputMode::Insert);
    typed(&mut app, "q");
    assert!(!app.should_quit);
    assert_eq!(app.active_request.url, "q");
}

#[test]
fn url_editing_and_backspace() {
    let mut app = fresh();
    key(&mut app, KeyCode::Tab);
    key(&mut app, KeyCode::Char('i'));
    typed(&mut app, "https://api.example.com");
    assert_eq!(app.active_request.url, "https://api.example.com");
    key(&mut app, KeyCode::Backspace);
    assert_eq!(app.active_request.url, "https://api.example.co");
    key(&mut app, KeyCode::Enter);
    assert_eq!(app.input_mode, InputMode::Normal);
    key(&mut app, KeyCode::Backspace);
    assert_eq!(app.active_request.url, "https://api.example.co");
}

#[test]
fn backspace_on_empty_url_keeps_it_empty() {
    let mut app = fresh();
    key(&mut app, KeyCode::Tab);
    key(&mut app, KeyCode::Char('i'));
    key(&mut app, KeyCode::Backspace);
    assert_eq!(app.active_request.url, "");
}

#[test]
fn esc_leaves_insert_mode() {
    let mut app = fresh();
    key(&mut app, KeyCode::Tab);
    key(&mut app, KeyCode::Char('i'));
    typed(&mut app, "ab");
    key(&mut app, KeyCode::Esc);
    assert_eq!(app.input_mode, InputMode::Normal);
    assert_eq!(app.active_request.url, "ab");
}

#[test]
fn m_toggles_method_on_the_request_builder_only() {
    let mut app = fresh();
    key(&mut app, KeyCode::Char('m'));
    assert_eq!(app.active_request.method, HttpMethod::Get);
    key(&mut app, KeyCode::Tab);
    key(&mut app, KeyCode::Char('m'));
    assert_eq!(app.active_request.method, HttpMethod::Post);
    key(&mut app, KeyCode::Char('m'));
    assert_eq!(app.active_request.method, HttpMethod::Get);
}

#[test]
fn h_and_l_switch_tabs() {
    let mut app = fresh();
    key(&mut app, KeyCode::Tab);
    key(&mut app, KeyCode::Char('h'));
    assert_eq!(app.active_tab, RequestTab::Url);
    key(&mut app, KeyCode::Char('l'));
    assert_eq!(app.active_tab, RequestTab::Headers);
    key(&mut app, KeyCode::Char('l'));
    key(&mut app, KeyCode::Char('l'));
    assert_eq!(app.active_tab, RequestTab::Auth);
    key(&mut app, KeyCode::Char('l'));
    assert_eq!(app.active_tab, RequestTab::Url);
    key(&mut app, KeyCode::Char('l'));
    key(&mut app, KeyCode::Char('h'));
    assert_eq!(app.active_tab, RequestTab::Url);
}

#[test]
fn l_outside_request_builder_does_nothing() {
    let mut app = fresh();
    key(&mut app, KeyCode::Char('l'));
    assert_eq!(app.active_tab, RequestTab::Url);
}

#[test]
fn n_creates_a_collection_and_names_it() {
    let mut app = fresh();
    key(&mut app, KeyCode::Char('n'));
    assert_eq!(app.collections.len(), 1);
    assert_eq!(app.collections[0].name, "New Collection");
    assert_eq!(app.collection_list_state.selected(), Some(0));
    assert_eq!(app.input_mode, InputMode::Insert);
    for _ in 0.."New Collection".len() {
        key(&mut app, KeyCode::Backspace);
    }
    typed(&mut app, "Auth API");
    assert_eq!(app.collections[0].name, "Auth API");
    key(&mut app, KeyCode::Esc);
    assert_eq!(app.input_mode, InputMode::Normal);
}

#[test]
fn enter_while_naming_saves_the_request_into_the_collection() {
    let mut app = fresh();
    key(&mut app, KeyCode::Char('n'));
    key(&mut app, KeyCode::Enter);
    assert_eq!(app.input_mode, InputMode::Normal);
    assert_eq!(app.collections[0].requests.len(), 1);
    assert_eq!(app.collection_list_state.selected(), Some(0));
}

#[test]
fn a_saves_the_active_request_into_the_selected_collection() {
    let mut app = fresh();
    key(&mut app, KeyCode::Char('a'));
    assert!(app.collections.is_empty());
    key(&mut app, KeyCode::Char('n'));
    key(&mut app, KeyCode::Esc);
    key(&mut app, KeyCode::Tab);
    key(&mut app, KeyCode::Char('i'));
    typed(&mut app, "http://x");
    key(&mut app, KeyCode::Esc);
    key(&mut app, KeyCode::Tab);
    key(&mut app, KeyCode::Tab);
    key(&mut app, KeyCode::Char('a'));
    assert_eq!(app.collections[0].requests.len(), 1);
    assert_eq!(app.collections[0].requests[0].url, "http://x");
}

#[test]
fn enter_on_collections_expands_the_selected_one() {
    let mut app = fresh();
    key(&mut app, KeyCode::Enter);
    assert!(app.expanded_collections.is_empty());
    key(&mut app, KeyCode::Char('n'));
    key(&mut app, KeyCode::Esc);
    key(&mut app, KeyCode::Enter);
    assert_eq!(app.expanded_collections, vec![0]);
}

fn on_headers_tab() -> App {
    let mut app = fresh();
    key(&mut app, KeyCode::Tab);
    key(&mut app, KeyCode::Char('l'));
    app
}

#[test]
fn a_on_headers_adds_a_row_and_edits_it() {
    let mut app = on_headers_tab();
    key(&mut app, KeyCode::Char('a'));
    assert_eq!(app.active_request.headers.len(), 1);
    assert_eq!(app.selected_header_row, 0);
    assert_eq!(app.editing_header_field, Some(HeaderField::Key));
    assert_eq!(app.input_mode, InputMode::Insert);
    assert_eq!(app.headers_table_state.selected(), Some(0));
    typed(&mut app, "Accept");
    key(&mut app, KeyCode::Enter);
    assert_eq!(app.editing_header_field, Some(HeaderField::Value));
    assert_eq!(app.headers_table_state.selected_column(), Some(0));
    typed(&mut app, "text/html");
    key(&mut app, KeyCode::Backspace);
    key(&mut app, KeyCode::Enter);
    assert_eq!(app.input_mode, InputMode::Normal);
    assert_eq!(app.editing_header_field, None);
    assert_eq!(
        app.active_request.headers,
        vec![("Accept".to_string(), "text/htm".to_string())]
    );
}

#[test]
fn left_and_right_switch_header_field() {
    let mut app = on_headers_tab();
    key(&mut app, KeyCode::Right);
    assert_eq!(app.headers_table_state.selected_column(), Some(1));
    key(&mut app, KeyCode::Left);
    assert_eq!(app.headers_table_state.selected_column(), Some(0));
    key(&mut app, KeyCode::Char('a'));
    key(&mut app, KeyCode::Right);
    assert_eq!(app.editing_header_field, Some(HeaderField::Value));
    typed(&mut app, "v");
    key(&mut app, KeyCode::Left);
    assert_eq!(app.editing_header_field, Some(HeaderField::Key));
    typed(&mut app, "k");
    assert_eq!(app.active_request.headers, vec![("k".to_string(), "v".to_string())]);
}

#[test]
fn i_on_headers_edits_the_selected_column() {
    let mut app = on_headers_tab();
    key(&mut app, KeyCode::Right);
    key(&mut app, KeyCode::Char('i'));
    assert_eq!(app.editing_header_field, Some(HeaderField::Value));
    key(&mut app, KeyCode::Esc);
    key(&mut app, KeyCode::Left);
    key(&mut app, KeyCode::Char('i'));
    assert_eq!(app.editing_header_field, Some(HeaderField::Key));
}

#[test]
fn up_and_down_move_between_header_rows() {
    let mut app = on_headers_tab();
    for name in ["a", "b", "c"] {
        key(&mut app, KeyCode::Char('a'));
        typed(&mut app, name);
        key(&mut app, KeyCode::Esc);
    }
    assert_eq!(app.selected_header_row, 2);
    key(&mut app, KeyCode::Down);
    assert_eq!(app.selected_header_row, 2);
    key(&mut app, KeyCode::Up);
    assert_eq!(app.selected_header_row, 1);
    assert_eq!(app.headers_table_state.selected(), Some(1));
    key(&mut app, KeyCode::Up);
    key(&mut app, KeyCode::Up);
    assert_eq!(app.selected_header_row, 0);
    key(&mut app, KeyCode::Down);
    assert_eq!(app.selected_header_row, 1);
    assert_eq!(app.headers_table_state.selected(), Some(1));
}

#[test]
fn delete_removes_the_header_row_being_edited() {
    let mut app = on_headers_tab();
    for name in ["a", "b"] {
        key(&mut app, KeyCode::Char('a'));
        typed(&mut app, name);
        key(&mut app, KeyCode::Esc);
    }
    key(&mut app, KeyCode::Char('i'));
    key(&mut app, KeyCode::Delete);
    assert_eq!(app.active_request.headers, vec![("a".to_string(), String::new())]);
    assert_eq!(app.selected_header_row, 0);
    assert_eq!(app.headers_table_state.selected(), Some(0));
    key(&mut app, KeyCode::Delete);
    assert!(app.active_request.headers.is_empty());
    assert_eq!(app.selected_header_row, 0);
    key(&mut app, KeyCode::Delete);
    assert!(app.active_request.headers.is_empty());
}

#[test]
fn s_asks_to_send_the_active_request() {
    let mut app = fresh();
    key(&mut app, KeyCode::Tab);
    key(&mut app, KeyCode::Char('m'));
    match key(&mut app, KeyCode::Char('s')) {
        Command::SendRequest(r) => assert_eq!(r.method, HttpMethod::Post),
        Command::Nothing => panic!("no request sent"),
    }
    assert!(app.is_loading);
}

#[test]
fn other_keys_send_nothing() {
    let mut app = fresh();
    assert!(matches!(key(&mut app, KeyCode::Char('x')), Command::Nothing));
    assert!(matches!(key(&mut app, KeyCode::Other), Command::Nothing));
}

#[test]
fn http_response_event_shows_the_response() {
    let mut app = fresh();
    key(&mut app, KeyCode::Char('s'));
    assert!(app.is_loading);
    let resp = response_from_parts(200, Vec::new(), "ok".to_string(), 12);
    app.update(AppEvent::HttpResponse(resp));
    assert!(!app.is_loading);
    let shown = app.response.as_ref().unwrap();
    assert_eq!(shown.status, 200);
    assert_eq!(shown.body, "ok");
}

#[test]
fn delete_right_after_adding_a_header_row_restores_the_headers() {
    let mut app = on_headers_tab();
    key(&mut app, KeyCode::Char('a'));
    typed(&mut app, "Keep");
    key(&mut app, KeyCode::Esc);
    key(&mut app, KeyCode::Char('a'));
    key(&mut app, KeyCode::Delete);
    assert_eq!(app.active_request.headers, vec![("Keep".to_string(), String::new())]);
    assert_eq!(app.input_mode, InputMode::Insert);
}

#[test]
fn typing_then_backspace_in_a_collection_name_restores_it() {
    let mut app = fresh();
    key(&mut app, KeyCode::Char('n'));
    key(&mut app, KeyCode::Char('z'));
    key(&mut app, KeyCode::Backspace);
    assert_eq!(app.collections[0].name, "New Collection");
}

#[test]
fn enter_twice_collapses_the_collection_again() {
    let mut app = fresh();
    key(&mut app, KeyCode::Char('n'));
    key(&mut app, KeyCode::Esc);
    key(&mut app, KeyCode::Enter);
    assert_eq!(app.expanded_collections, vec![0]);
    key(&mut app, KeyCode::Enter);
    assert!(app.expanded_collections.is_empty());
}

#[test]
fn enter_on_the_request_builder_enters_insert_mode() {
    let mut app = on_headers_tab();
    key(&mut app, KeyCode::Right);
    key(&mut app, KeyCode::Enter);
    assert_eq!(app.input_mode, InputMode::Insert);
    assert_eq!(app.editing_header_field, Some(HeaderField::Value));
    let mut app = fresh();
    key(&mut app, KeyCode::Tab);
    key(&mut app, KeyCode::Enter);
    assert_eq!(app.input_mode, InputMode::Insert);
    typed(&mut app, "h");
    assert_eq!(app.active_request.url, "h");
}

#[test]
fn j_and_k_move_between_header_rows() {
    let mut app = on_headers_tab();
    key(&mut app, KeyCode::Char('j'));
    assert_eq!(app.selected_header_row, 0);
    for name in ["a", "b"] {
        key(&mut app, KeyCode::Char('a'));
        typed(&mut app, name);
        key(&mut app, KeyCode::Esc);
    }
    assert_eq!(app.selected_header_row, 1);
    key(&mut app, KeyCode::Char('j'));
    assert_eq!(app.selected_header_row, 1);
    key(&mut app, KeyCode::Char('k'));
    assert_eq!(app.selected_header_row, 0);
    key(&mut app, KeyCode::Char('k'));
    assert_eq!(app.selected_header_row, 0);
    key(&mut app, KeyCode::Char('j'));
    assert_eq!(app.selected_header_row, 1);
}

#[test]
fn d_deletes_the_selected_header_row() {
    let mut app = on_headers_tab();
    key(&mut app, KeyCode::Char('d'));
    assert!(app.active_request.headers.is_empty());
    for name in ["a", "b", "c"] {
        key(&mut app, KeyCode::Char('a'));
        typed(&mut app, name);
        key(&mut app, KeyCode::Esc);
    }
    key(&mut app, KeyCode::Char('k'));
    key(&mut app, KeyCode::Char('d'));
    assert_eq!(
        app.active_request.headers,
        vec![("a".to_string(), String::new()), ("c".to_string(), String::new())]
    );
    assert_eq!(app.selected_header_row, 0);
    assert_eq!(app.input_mode, InputMode::Normal);
}

#[test]
fn the_body_tab_is_edited_in_insert_mode() {
    let mut app = fresh();
    key(&mut app, KeyCode::Tab);
    key(&mut app, KeyCode::Char('l'));
    key(&mut app, KeyCode::Char('l'));
    assert_eq!(app.active_tab, RequestTab::Body);
    key(&mut app, KeyCode::Char('i'));
    key(&mut app, KeyCode::Backspace);
    assert_eq!(app.active_request.body, None);
    typed(&mut app, "{}");
    key(&mut app, KeyCode::Enter);
    typed(&mut app, "x");
    key(&mut app, KeyCode::Backspace);
    assert_eq!(app.active_request.body, Some("{}\n".to_string()));
    assert_eq!(app.input_mode, InputMode::Insert);
}

#[test]
fn j_and_k_move_through_the_sidebar() {
    let mut app = fresh();
    key(&mut app, KeyCode::Char('j'));
    assert_eq!(app.collection_list_state.selected(), None);
    for _ in 0..3 {
        key(&mut app, KeyCode::Char('n'));
        key(&mut app, KeyCode::Esc);
    }
    assert_eq!(app.collection_list_state.selected(), Some(2));
    key(&mut app, KeyCode::Char('j'));
    assert_eq!(app.collection_list_state.selected(), Some(2));
    key(&mut app, KeyCode::Char('k'));
    key(&mut app, KeyCode::Char('k'));
    assert_eq!(app.collection_list_state.selected(), Some(0));
    key(&mut app, KeyCode::Char('k'));
    assert_eq!(app.collection_list_state.selected(), Some(0));
    key(&mut app, KeyCode::Char('j'));
    assert_eq!(app.collection_list_state.selected(), Some(1));
}

#[test]
fn quitting_stays_quitting() {
    let mut app = fresh();
    key(&mut app, KeyCode::Char('q'));
    key(&mut app, KeyCode::Char('i'));
    typed(&mut app, "abc");
    key(&mut app, KeyCode::Esc);
    assert!(app.should_quit);
}

#[test]
fn saved_requests_only_grow() {
    let mut app = fresh();
    key(&mut app, KeyCode::Char('n'));
    key(&mut app, KeyCode::Enter);
    key(&mut app, KeyCode::Char('a'));
    key(&mut app, KeyCode::Char('d'));
    key(&mut app, KeyCode::Enter);
    assert_eq!(app.collections.len(), 1);
    assert_eq!(app.collections[0].requests.len(), 2);
}
