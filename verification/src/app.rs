//! All application state, and how it reacts to each event.
//!
//! `App::update` is the whole decision logic of the program: it takes the
//! current state and one event, moves to the next state and says what outside
//! work, if any, the program has to do next (see [`Command`]).

use vstd::prelude::*;
use crate::event::{AppEvent, AppEventView, KeyCode, KeyEvent};
use crate::request::{
    Collection, CollectionView, HttpMethod, Request, RequestView, Response, ResponseView,
    empty_request, opt_view, pairs_view, requests_view,
};
use crate::text::string_of;
use crate::widgets::{ListState, TableState, next_index, previous_index};

verus! {

/// Whether keys act as commands (Normal) or are typed into a field (Insert).
#[derive(Debug, Clone, Copy, PartialEq, Eq, Structural, Default)]
pub enum InputMode {
    #[default]
    Normal,
    Insert,
}

/// Which panel currently has keyboard focus.
#[derive(Debug, Clone, Copy, PartialEq, Eq, Structural, Default)]
pub enum Focus {
    #[default]
    Collections,
    RequestBuilder,
    Response,
}

/// Which tab is active in the request builder.
#[derive(Debug, Clone, Copy, PartialEq, Eq, Structural, Default)]
pub enum RequestTab {
    #[default]
    Url,
    Headers,
    Body,
    Auth,
}

/// Which half of a header row is being edited.
#[derive(Debug, Clone, Copy, PartialEq, Eq, Structural, Default)]
pub enum HeaderField {
    #[default]
    Key,
    Value,
}

/// The panel that `Tab` moves the focus to.
pub open spec fn next_focus(f: Focus) -> Focus {
    match f {
        Focus::Collections => Focus::RequestBuilder,
        Focus::RequestBuilder => Focus::Response,
        Focus::Response => Focus::Collections,
    }
}

/// The request-builder tab to the right (wrapping around).
pub open spec fn next_tab_of(t: RequestTab) -> RequestTab {
    match t {
        RequestTab::Url => RequestTab::Headers,
        RequestTab::Headers => RequestTab::Body,
        RequestTab::Body => RequestTab::Auth,
        RequestTab::Auth => RequestTab::Url,
    }
}

/// The request-builder tab to the left (wrapping around).
pub open spec fn prev_tab_of(t: RequestTab) -> RequestTab {
    match t {
        RequestTab::Url => RequestTab::Auth,
        RequestTab::Headers => RequestTab::Url,
        RequestTab::Body => RequestTab::Headers,
        RequestTab::Auth => RequestTab::Body,
    }
}

/// The other HTTP method.
pub open spec fn toggled_method(m: HttpMethod) -> HttpMethod {
    match m {
        HttpMethod::Get => HttpMethod::Post,
        HttpMethod::Post => HttpMethod::Get,
    }
}

/// A text with its last character deleted (an empty text stays empty).
pub open spec fn pop_text(s: Seq<char>) -> Seq<char> {
    if s.len() > 0 { s.drop_last() } else { s }
}

/// A text after typing `c` into it, or after Backspace (`None`).
pub open spec fn edit_text(t: Seq<char>, c: Option<char>) -> Seq<char> {
    match c {
        Some(c) => t.push(c),
        None => pop_text(t),
    }
}

/// A header row after editing its name (`in_name`) or its value.
pub open spec fn edited_pair(
    pair: (Seq<char>, Seq<char>),
    in_name: bool,
    c: Option<char>,
) -> (Seq<char>, Seq<char>) {
    if in_name { (edit_text(pair.0, c), pair.1) } else { (pair.0, edit_text(pair.1, c)) }
}

/// What the program has to do after an event, outside the state.
#[derive(Debug)]
pub enum Command {
    /// Nothing.
    Nothing,
    /// Send this request and report the response back as an event.
    SendRequest(Request),
}

/// The mathematical value of a [`Command`].
pub enum CommandView {
    Nothing,
    SendRequest(RequestView),
}

impl View for Command {
    type V = CommandView;

    open spec fn view(&self) -> CommandView {
        match self {
            Command::Nothing => CommandView::Nothing,
            Command::SendRequest(r) => CommandView::SendRequest(r@),
        }
    }
}

/// All state of the application.
pub struct App {
    pub debug: bool,
    pub should_quit: bool,
    pub input_mode: InputMode,
    pub focus: Focus,
    pub active_tab: RequestTab,
    pub collections: Vec<Collection>,
    pub selected_collection: Option<usize>,
    pub selected_request: Option<usize>,
    pub active_request: Request,
    pub response: Option<Response>,
    pub is_loading: bool,
    pub error_message: Option<String>,
    pub selected_header_row: usize,
    pub editing_header_field: Option<HeaderField>,
    pub headers_table_state: TableState,
    pub active_collection: Option<usize>,
    pub collection_list_state: ListState,
    pub expanded_collections: Vec<usize>,
}

/// The mathematical value of an [`App`].
#[verifier::ext_equal]
pub struct AppView {
    pub debug: bool,
    pub should_quit: bool,
    pub input_mode: InputMode,
    pub focus: Focus,
    pub active_tab: RequestTab,
    pub collections: Seq<CollectionView>,
    pub selected_collection: Option<usize>,
    pub selected_request: Option<usize>,
    pub active_request: RequestView,
    pub response: Option<ResponseView>,
    pub is_loading: bool,
    pub error_message: Option<Seq<char>>,
    pub selected_header_row: usize,
    pub editing_header_field: Option<HeaderField>,
    pub headers_table_state: TableState,
    pub active_collection: Option<usize>,
    pub collection_list_state: ListState,
    pub expanded_collections: Seq<usize>,
}

/// The mathematical value of a list of collections.
pub open spec fn collections_view(s: Seq<Collection>) -> Seq<CollectionView> {
    s.map_values(|c: Collection| c@)
}

/// The mathematical value of an optional response.
pub open spec fn opt_response_view(r: Option<Response>) -> Option<ResponseView> {
    match r {
        Some(r) => Some(r@),
        None => None,
    }
}

impl View for App {
    type V = AppView;

    open spec fn view(&self) -> AppView {
        AppView {
            debug: self.debug,
            should_quit: self.should_quit,
            input_mode: self.input_mode,
            focus: self.focus,
            active_tab: self.active_tab,
            collections: collections_view(self.collections@),
            selected_collection: self.selected_collection,
            selected_request: self.selected_request,
            active_request: self.active_request@,
            response: opt_response_view(self.response),
            is_loading: self.is_loading,
            error_message: opt_view(self.error_message),
            selected_header_row: self.selected_header_row,
            editing_header_field: self.editing_header_field,
            headers_table_state: self.headers_table_state,
            active_collection: self.active_collection,
            collection_list_state: self.collection_list_state,
            expanded_collections: self.expanded_collections@,
        }
    }
}

impl AppView {
    /// The invariant that every reachable state keeps: the selected
    /// collection exists, every expanded collection exists, and the selected
    /// header row exists (or is 0 when there are no headers).
    pub open spec fn wf(self) -> bool {
        &&& (self.collection_list_state.selected matches Some(i) ==> i < self.collections.len())
        &&& (forall|j: int|
            0 <= j < self.expanded_collections.len() ==> #[trigger] self.expanded_collections[j]
                < self.collections.len())
        &&& (self.selected_header_row == 0 || self.selected_header_row
            < self.active_request.headers.len())
    }

    /// The headers tab of the request builder has focus.
    pub open spec fn on_headers_tab(self) -> bool {
        self.focus == Focus::RequestBuilder && self.active_tab == RequestTab::Headers
    }
}

/// The state `App::new` starts in.
pub open spec fn initial_state(headers_table_state: TableState) -> AppView {
    AppView {
        debug: true,
        should_quit: false,
        input_mode: InputMode::Normal,
        focus: Focus::Collections,
        active_tab: RequestTab::Url,
        collections: Seq::empty(),
        selected_collection: None,
        selected_request: None,
        active_request: empty_request(),
        response: None,
        is_loading: false,
        error_message: None,
        selected_header_row: 0,
        editing_header_field: None,
        headers_table_state,
        active_collection: None,
        collection_list_state: ListState { selected: None },
        expanded_collections: Seq::empty(),
    }
}

/// The name a new collection gets.
pub open spec fn new_collection_name() -> Seq<char> {
    "New Collection"@
}

/// A new, empty collection.
pub open spec fn new_collection() -> CollectionView {
    CollectionView { name: new_collection_name(), requests: Seq::empty() }
}

/// `s` with the active request appended to collection `i`.
pub open spec fn save_active_into(s: AppView, i: int) -> Seq<CollectionView> {
    s.collections.update(
        i,
        CollectionView {
            name: s.collections[i].name,
            requests: s.collections[i].requests.push(s.active_request),
        },
    )
}

/// `s` with header row `row` replaced by `pair`.
pub open spec fn with_header(s: AppView, row: int, pair: (Seq<char>, Seq<char>)) -> AppView {
    AppView {
        active_request: RequestView { headers: s.active_request.headers.update(row, pair), ..s.active_request },
        ..s
    }
}

/// `s` with the URL replaced.
pub open spec fn with_url(s: AppView, url: Seq<char>) -> AppView {
    AppView { active_request: RequestView { url, ..s.active_request }, ..s }
}

/// `s` with the name of collection `i` replaced.
pub open spec fn with_collection_name(s: AppView, i: int, name: Seq<char>) -> AppView {
    AppView {
        collections: s.collections.update(
            i,
            CollectionView { name, requests: s.collections[i].requests },
        ),
        ..s
    }
}

/// Normal mode to Insert mode (`i`, or Enter on the request builder): on
/// the headers tab, editing starts in the selected column (the name unless
/// the value column is selected).
pub open spec fn enter_insert(s: AppView) -> AppView {
    let editing = if s.on_headers_tab() {
        Some(
            if s.headers_table_state.selected_column == Some(1usize) {
                HeaderField::Value
            } else {
                HeaderField::Key
            },
        )
    } else {
        s.editing_header_field
    };
    AppView { input_mode: InputMode::Insert, editing_header_field: editing, ..s }
}

/// The collection selected after `j` on the sidebar: the next one (the
/// first when none is selected), staying on the last.
pub open spec fn collection_below(sel: Option<usize>, len: nat) -> Option<usize> {
    match sel {
        Some(i) => if i + 1 < len { Some((i + 1) as usize) } else { sel },
        None => if len > 0 { Some(0usize) } else { None },
    }
}

/// The collection selected after `k` on the sidebar: the previous one,
/// staying on the first.
pub open spec fn collection_above(sel: Option<usize>) -> Option<usize> {
    match sel {
        Some(i) => if i > 0 { Some((i - 1) as usize) } else { sel },
        None => None,
    }
}

/// The header row below becomes the selected one.
pub open spec fn select_row_below(s: AppView) -> AppView {
    AppView {
        selected_header_row: (s.selected_header_row + 1) as usize,
        headers_table_state: TableState {
            selected: Some(next_index(s.headers_table_state.selected)),
            ..s.headers_table_state
        },
        ..s
    }
}

/// The header row above becomes the selected one.
pub open spec fn select_row_above(s: AppView) -> AppView {
    AppView {
        selected_header_row: (s.selected_header_row - 1) as usize,
        headers_table_state: TableState {
            selected: Some(previous_index(s.headers_table_state.selected)),
            ..s.headers_table_state
        },
        ..s
    }
}

/// The selected header row is removed and the row above it (or the first
/// row) becomes the selected one.
pub open spec fn delete_header_row(s: AppView) -> AppView {
    let row = s.selected_header_row as int;
    let new_row: usize = if row > 0 { (row - 1) as usize } else { 0 };
    AppView {
        active_request: RequestView {
            headers: s.active_request.headers.remove(row),
            ..s.active_request
        },
        selected_header_row: new_row,
        headers_table_state: TableState { selected: Some(new_row), ..s.headers_table_state },
        ..s
    }
}

/// `s` without any occurrence of `x`, the rest in order.
pub open spec fn without(s: Seq<usize>, x: usize) -> Seq<usize>
    decreases s.len(),
{
    if s.len() == 0 {
        s
    } else {
        let w = without(s.drop_last(), x);
        if s.last() == x { w } else { w.push(s.last()) }
    }
}

/// The expanded collections after Enter on collection `i`: collapsed when
/// it was expanded, expanded otherwise.
pub open spec fn toggled(expanded: Seq<usize>, i: usize) -> Seq<usize> {
    if expanded.contains(i) { without(expanded, i) } else { expanded.push(i) }
}

/// The body after typing `c` into it (an absent body becomes one).
pub open spec fn body_typed(body: Option<Seq<char>>, c: char) -> Option<Seq<char>> {
    match body {
        Some(b) => Some(b.push(c)),
        None => Some(seq![c]),
    }
}

/// The body after Backspace.
pub open spec fn body_erased(body: Option<Seq<char>>) -> Option<Seq<char>> {
    match body {
        Some(b) => Some(pop_text(b)),
        None => None,
    }
}

/// `s` with the body replaced.
pub open spec fn with_body(s: AppView, body: Option<Seq<char>>) -> AppView {
    AppView { active_request: RequestView { body, ..s.active_request }, ..s }
}

/// What a key press does in Normal mode.
pub open spec fn normal_key_step(s: AppView, key: KeyEvent) -> (AppView, CommandView) {
    let unchanged = (s, CommandView::Nothing);
    match key.code {
        KeyCode::Char(c) => {
            if c == 'q' || (c == 'c' && key.control) {
                (AppView { should_quit: true, ..s }, CommandView::Nothing)
            } else if c == 'i' {
                (enter_insert(s), CommandView::Nothing)
            } else if c == 'j' {
                if s.on_headers_tab() && s.selected_header_row + 1 < s.active_request.headers.len() {
                    (select_row_below(s), CommandView::Nothing)
                } else if s.focus == Focus::Collections {
                    (
                        AppView {
                            collection_list_state: ListState {
                                selected: collection_below(s.collection_list_state.selected, s.collections.len()),
                            },
                            ..s
                        },
                        CommandView::Nothing,
                    )
                } else {
                    unchanged
                }
            } else if c == 'k' {
                if s.on_headers_tab() && s.selected_header_row > 0 {
                    (select_row_above(s), CommandView::Nothing)
                } else if s.focus == Focus::Collections {
                    (
                        AppView {
                            collection_list_state: ListState {
                                selected: collection_above(s.collection_list_state.selected),
                            },
                            ..s
                        },
                        CommandView::Nothing,
                    )
                } else {
                    unchanged
                }
            } else if c == 'd' {
                if s.on_headers_tab() && s.selected_header_row < s.active_request.headers.len() {
                    (delete_header_row(s), CommandView::Nothing)
                } else {
                    unchanged
                }
            } else if c == 's' {
                (
                    AppView { is_loading: true, ..s },
                    CommandView::SendRequest(s.active_request),
                )
            } else if c == 'h' {
                if s.focus == Focus::RequestBuilder && s.active_tab != RequestTab::Url {
                    (AppView { active_tab: prev_tab_of(s.active_tab), ..s }, CommandView::Nothing)
                } else {
                    unchanged
                }
            } else if c == 'l' {
                if s.focus == Focus::RequestBuilder {
                    (AppView { active_tab: next_tab_of(s.active_tab), ..s }, CommandView::Nothing)
                } else {
                    unchanged
                }
            } else if c == 'm' {
                if s.focus == Focus::RequestBuilder {
                    (
                        AppView {
                            active_request: RequestView {
                                method: toggled_method(s.active_request.method),
                                ..s.active_request
                            },
                            ..s
                        },
                        CommandView::Nothing,
                    )
                } else {
                    unchanged
                }
            } else if c == 'a' {
                if s.focus == Focus::Collections {
                    match s.collection_list_state.selected {
                        Some(i) => if i < s.collections.len() {
                            (
                                AppView { collections: save_active_into(s, i as int), ..s },
                                CommandView::Nothing,
                            )
                        } else {
                            unchanged
                        },
                        None => unchanged,
                    }
                } else if s.on_headers_tab() {
                    let headers = s.active_request.headers.push((Seq::empty(), Seq::empty()));
                    let row = (headers.len() - 1) as usize;
                    (
                        AppView {
                            active_request: RequestView { headers, ..s.active_request },
                            selected_header_row: row,
                            editing_header_field: Some(HeaderField::Key),
                            input_mode: InputMode::Insert,
                            headers_table_state: TableState {
                                selected: Some(row),
                                ..s.headers_table_state
                            },
                            ..s
                        },
                        CommandView::Nothing,
                    )
                } else {
                    unchanged
                }
            } else if c == 'n' {
                if s.focus == Focus::Collections {
                    let collections = s.collections.push(new_collection());
                    (
                        AppView {
                            collections,
                            input_mode: InputMode::Insert,
                            collection_list_state: ListState {
                                selected: Some((collections.len() - 1) as usize),
                            },
                            ..s
                        },
                        CommandView::Nothing,
                    )
                } else {
                    unchanged
                }
            } else {
                unchanged
            }
        },
        KeyCode::Tab => (AppView { focus: next_focus(s.focus), ..s }, CommandView::Nothing),
        KeyCode::Enter => {
            if s.focus == Focus::Collections && s.collection_list_state.selected is Some {
                (
                    AppView {
                        expanded_collections: toggled(
                            s.expanded_collections,
                            s.collection_list_state.selected->0,
                        ),
                        ..s
                    },
                    CommandView::Nothing,
                )
            } else if s.focus == Focus::RequestBuilder {
                (enter_insert(s), CommandView::Nothing)
            } else {
                unchanged
            }
        },
        KeyCode::Right => {
            if s.on_headers_tab() {
                match s.editing_header_field {
                    Some(HeaderField::Key) => (
                        AppView {
                            editing_header_field: Some(HeaderField::Value),
                            headers_table_state: TableState {
                                selected_column: Some(1usize),
                                ..s.headers_table_state
                            },
                            ..s
                        },
                        CommandView::Nothing,
                    ),
                    None => (
                        AppView {
                            headers_table_state: TableState {
                                selected_column: Some(1usize),
                                ..s.headers_table_state
                            },
                            ..s
                        },
                        CommandView::Nothing,
                    ),
                    Some(HeaderField::Value) => unchanged,
                }
            } else {
                unchanged
            }
        },
        KeyCode::Left => {
            if s.on_headers_tab() {
                match s.editing_header_field {
                    Some(HeaderField::Value) => (
                        AppView {
                            editing_header_field: Some(HeaderField::Key),
                            headers_table_state: TableState {
                                selected_column: Some(0usize),
                                ..s.headers_table_state
                            },
                            ..s
                        },
                        CommandView::Nothing,
                    ),
                    None => (
                        AppView {
                            headers_table_state: TableState {
                                selected_column: Some(0usize),
                                ..s.headers_table_state
                            },
                            ..s
                        },
                        CommandView::Nothing,
                    ),
                    Some(HeaderField::Key) => unchanged,
                }
            } else {
                unchanged
            }
        },
        KeyCode::Up => {
            if s.on_headers_tab() && s.selected_header_row > 0 {
                (select_row_above(s), CommandView::Nothing)
            } else {
                unchanged
            }
        },
        KeyCode::Down => {
            if s.on_headers_tab() && s.selected_header_row + 1 < s.active_request.headers.len() {
                (select_row_below(s), CommandView::Nothing)
            } else {
                unchanged
            }
        },
        _ => unchanged,
    }
}

/// What a key press does while a header row is being edited.
pub open spec fn header_key_step(s: AppView, key: KeyEvent) -> AppView {
    let row = s.selected_header_row as int;
    match s.editing_header_field {
        None => s,
        Some(field) => if row >= s.active_request.headers.len() {
            s
        } else {
            let (k, v) = s.active_request.headers[row];
            match (field, key.code) {
                (HeaderField::Key, KeyCode::Backspace) => with_header(s, row, (pop_text(k), v)),
                (HeaderField::Key, KeyCode::Delete) => delete_header_row(s),
                (HeaderField::Key, KeyCode::Enter) => AppView {
                    editing_header_field: Some(HeaderField::Value),
                    headers_table_state: TableState {
                        selected_column: Some(next_index(s.headers_table_state.selected_column)),
                        ..s.headers_table_state
                    },
                    ..s
                },
                (HeaderField::Key, KeyCode::Char(c)) => with_header(s, row, (k.push(c), v)),
                (HeaderField::Value, KeyCode::Backspace) => with_header(s, row, (k, pop_text(v))),
                (HeaderField::Value, KeyCode::Enter) => AppView {
                    editing_header_field: None,
                    input_mode: InputMode::Normal,
                    ..s
                },
                (HeaderField::Value, KeyCode::Char(c)) => with_header(s, row, (k, v.push(c))),
                (_, KeyCode::Left) => AppView {
                    editing_header_field: Some(HeaderField::Key),
                    headers_table_state: TableState {
                        selected_column: Some(0usize),
                        ..s.headers_table_state
                    },
                    ..s
                },
                (_, KeyCode::Right) => AppView {
                    editing_header_field: Some(HeaderField::Value),
                    headers_table_state: TableState {
                        selected_column: Some(1usize),
                        ..s.headers_table_state
                    },
                    ..s
                },
                _ => s,
            }
        },
    }
}

/// What a key press does in Insert mode.
pub open spec fn insert_key_step(s: AppView, key: KeyEvent) -> AppView {
    if key.code == KeyCode::Esc {
        AppView { input_mode: InputMode::Normal, ..s }
    } else {
        match s.focus {
            Focus::Collections => match (key.code, s.collection_list_state.selected) {
                (KeyCode::Enter, Some(i)) => {
                    let collections = save_active_into(s, i as int);
                    AppView {
                        input_mode: InputMode::Normal,
                        collections,
                        collection_list_state: ListState {
                            selected: Some((collections.len() - 1) as usize),
                        },
                        ..s
                    }
                },
                (KeyCode::Char(c), Some(i)) => with_collection_name(
                    s,
                    i as int,
                    s.collections[i as int].name.push(c),
                ),
                (KeyCode::Backspace, Some(i)) => with_collection_name(
                    s,
                    i as int,
                    pop_text(s.collections[i as int].name),
                ),
                _ => s,
            },
            Focus::RequestBuilder => match s.active_tab {
                RequestTab::Url => match key.code {
                    KeyCode::Char(c) => with_url(s, s.active_request.url.push(c)),
                    KeyCode::Enter => AppView { input_mode: InputMode::Normal, ..s },
                    KeyCode::Backspace => with_url(s, pop_text(s.active_request.url)),
                    _ => s,
                },
                RequestTab::Headers => header_key_step(s, key),
                RequestTab::Body => match key.code {
                    KeyCode::Char(c) => with_body(s, body_typed(s.active_request.body, c)),
                    KeyCode::Enter => with_body(s, body_typed(s.active_request.body, '\n')),
                    KeyCode::Backspace => with_body(s, body_erased(s.active_request.body)),
                    _ => s,
                },
                RequestTab::Auth => s,
            },
            Focus::Response => s,
        }
    }
}

/// The inputs on which the application would crash: Down on an empty
/// headers table (the bound computation underflows); Enter while naming a
/// collection with no collection selected; and Enter, a character or
/// Backspace while naming a collection whose selected index is past the last
/// collection.
pub open spec fn update_panics(s: AppView, event: AppEventView) -> bool {
    match event {
        AppEventView::Key(key) => match s.input_mode {
            InputMode::Normal => key.code == KeyCode::Down && s.on_headers_tab()
                && s.active_request.headers.len() == 0,
            InputMode::Insert => s.focus == Focus::Collections && key.code != KeyCode::Esc && (
            match s.collection_list_state.selected {
                None => key.code == KeyCode::Enter,
                Some(i) => i >= s.collections.len() && (key.code == KeyCode::Enter
                    || key.code == KeyCode::Backspace || key.code is Char),
            }),
        },
        AppEventView::HttpResponse(_) => false,
    }
}

/// The next state, and the work to do, after one event.
pub open spec fn step(s: AppView, event: AppEventView) -> (AppView, CommandView) {
    match event {
        AppEventView::Key(key) => match s.input_mode {
            InputMode::Normal => normal_key_step(s, key),
            InputMode::Insert => (insert_key_step(s, key), CommandView::Nothing),
        },
        AppEventView::HttpResponse(r) => (
            AppView { response: Some(r), is_loading: false, ..s },
            CommandView::Nothing,
        ),
    }
}

impl App {
    /// A fresh application: Normal mode, the collections panel focused, the
    /// URL tab active, no collections, an empty request and no response.
    pub fn new(headers_table_state: TableState) -> (app: App)
        ensures
            app@ == initial_state(headers_table_state),
            app@.wf(),
    {
        let app = App {
            debug: true,
            should_quit: false,
            input_mode: InputMode::Normal,
            focus: Focus::Collections,
            active_tab: RequestTab::Url,
            collections: Vec::new(),
            selected_collection: None,
            selected_request: None,
            active_request: Request::default(),
            response: None,
            is_loading: false,
            error_message: None,
            selected_header_row: 0,
            editing_header_field: None,
            headers_table_state,
            active_collection: None,
            collection_list_state: ListState::new(),
            expanded_collections: Vec::new(),
        };
        proof {
            assert(app@.collections =~= Seq::<CollectionView>::empty());
            assert(app@ =~= initial_state(headers_table_state));
        }
        app
    }

    /// Reacts to one event: moves to the next state and returns the outside
    /// work that the event calls for.
    pub fn update(&mut self, event: AppEvent) -> (cmd: Command)
        requires
            !update_panics(old(self)@, event@),
        ensures
            (final(self)@, cmd@) == step(old(self)@, event@),
            old(self)@.wf() ==> final(self)@.wf(),
    {
        match event {
            AppEvent::Key(key) => self.handle_key(key),
            AppEvent::HttpResponse(response) => {
                self.response = Some(response);
                self.is_loading = false;
                Command::Nothing
            },
        }
    }

    fn handle_key(&mut self, key: KeyEvent) -> (cmd: Command)
        requires
            !update_panics(old(self)@, AppEventView::Key(key)),
        ensures
            (final(self)@, cmd@) == step(old(self)@, AppEventView::Key(key)),
            old(self)@.wf() ==> final(self)@.wf(),
    {
        match self.input_mode {
            InputMode::Normal => self.handle_normal_key(key),
            InputMode::Insert => {
                self.handle_insert_key(key);
                Command::Nothing
            },
        }
    }

    fn handle_normal_key(&mut self, key: KeyEvent) -> (cmd: Command)
        requires
            !(key.code == KeyCode::Down && old(self)@.on_headers_tab()
                && old(self)@.active_request.headers.len() == 0),
        ensures
            (final(self)@, cmd@) == normal_key_step(old(self)@, key),
            old(self)@.wf() ==> final(self)@.wf(),
    {
        match key.code {
            KeyCode::Char(c) => {
                if c == 'q' || (c == 'c' && key.control) {
                    self.should_quit = true;
                } else if c == 'i' {
                    self.enter_insert_mode();
                } else if c == 'j' {
                    if self.focus == Focus::RequestBuilder && self.active_tab == RequestTab::Headers
                        && self.active_request.headers.len() > 0
                        && self.selected_header_row < self.active_request.headers.len() - 1 {
                        self.selected_header_row += 1;
                        self.headers_table_state.select_next();
                    } else if self.focus == Focus::Collections {
                        let below = match self.collection_list_state.selected() {
                            Some(i) => if i < self.collections.len() && self.collections.len() - i > 1 {
                                Some(i + 1)
                            } else {
                                Some(i)
                            },
                            None => if self.collections.len() > 0 {
                                Some(0)
                            } else {
                                None
                            },
                        };
                        self.update_collection_list_state(below);
                    }
                } else if c == 'k' {
                    if self.focus == Focus::RequestBuilder && self.active_tab == RequestTab::Headers
                        && self.selected_header_row > 0 {
                        self.selected_header_row -= 1;
                        self.headers_table_state.select_previous();
                    } else if self.focus == Focus::Collections {
                        let above = match self.collection_list_state.selected() {
                            Some(i) => if i > 0 {
                                Some(i - 1)
                            } else {
                                Some(i)
                            },
                            None => None,
                        };
                        self.update_collection_list_state(above);
                    }
                } else if c == 'd' {
                    if self.focus == Focus::RequestBuilder && self.active_tab == RequestTab::Headers
                        && self.selected_header_row < self.active_request.headers.len() {
                        self.delete_selected_header();
                    }
                } else if c == 's' {
                    return self.handle_send_request();
                } else if c == 'h' {
                    if self.focus == Focus::RequestBuilder && self.active_tab != RequestTab::Url {
                        self.prev_tab();
                    }
                } else if c == 'l' {
                    if self.focus == Focus::RequestBuilder {
                        self.next_tab();
                    }
                } else if c == 'm' {
                    if self.focus == Focus::RequestBuilder {
                        self.active_request.method = match self.active_request.method {
                            HttpMethod::Get => HttpMethod::Post,
                            HttpMethod::Post => HttpMethod::Get,
                        };
                    }
                } else if c == 'a' {
                    if self.focus == Focus::Collections {
                        self.save_active_request();
                    } else if self.focus == Focus::RequestBuilder && self.active_tab
                        == RequestTab::Headers {
                        self.add_header_row();
                    }
                } else if c == 'n' {
                    if self.focus == Focus::Collections {
                        self.add_collection();
                    }
                }
            },
            KeyCode::Tab => {
                self.cycle_focus();
                self.tab_changed_callback();
            },
            KeyCode::Enter => {
                if self.focus == Focus::Collections {
                    if let Some(selected_collection) = self.collection_list_state.selected() {
                        self.toggle_expanded(selected_collection);
                    }
                } else if self.focus == Focus::RequestBuilder {
                    self.enter_insert_mode();
                }
            },
            KeyCode::Right => {
                if self.focus == Focus::RequestBuilder && self.active_tab == RequestTab::Headers {
                    match self.editing_header_field {
                        Some(HeaderField::Key) => {
                            self.editing_header_field = Some(HeaderField::Value);
                            self.headers_table_state.select_column(Some(1));
                        },
                        None => {
                            self.headers_table_state.select_column(Some(1));
                        },
                        _ => {},
                    }
                }
            },
            KeyCode::Left => {
                if self.focus == Focus::RequestBuilder && self.active_tab == RequestTab::Headers {
                    match self.editing_header_field {
                        Some(HeaderField::Value) => {
                            self.editing_header_field = Some(HeaderField::Key);
                            self.headers_table_state.select_column(Some(0));
                        },
                        None => {
                            self.headers_table_state.select_column(Some(0));
                        },
                        _ => {},
                    }
                }
            },
            KeyCode::Up => {
                if self.focus == Focus::RequestBuilder && self.active_tab == RequestTab::Headers {
                    if self.selected_header_row > 0 {
                        self.selected_header_row -= 1;
                        self.headers_table_state.select_previous();
                    }
                }
            },
            KeyCode::Down => {
                if self.focus == Focus::RequestBuilder && self.active_tab == RequestTab::Headers {
                    if self.selected_header_row < self.active_request.headers.len() - 1 {
                        self.selected_header_row += 1;
                        self.headers_table_state.select_next();
                    }
                }
            },
            _ => {},
        }
        Command::Nothing
    }

    /// `a` on the collections panel: appends a copy of the active request
    /// to the selected collection.
    fn save_active_request(&mut self)
        ensures
            final(self)@ == (match old(self)@.collection_list_state.selected {
                Some(i) => if i < old(self)@.collections.len() {
                    AppView { collections: save_active_into(old(self)@, i as int), ..old(self)@ }
                } else {
                    old(self)@
                },
                None => old(self)@,
            }),
            old(self)@.wf() ==> final(self)@.wf(),
    {
        if let Some(selected_collection) = self.collection_list_state.selected() {
            if selected_collection < self.collections.len() {
                let request = self.active_request.clone();
                let ghost before = self.collections@;
                let mut collection = self.collections.remove(selected_collection);
                collection.requests.push(request);
                self.collections.insert(selected_collection, collection);
                proof {
                    let i = selected_collection as int;
                    assert(collections_view(self.collections@) =~= save_active_into(old(self)@, i)) by {
                        assert forall|j: int| 0 <= j < self.collections@.len() implies
                            #[trigger] self.collections@[j]@ == save_active_into(old(self)@, i)[j] by {
                            if j == i {
                                assert(self.collections@[j].requests@ == before[i].requests@.push(request));
                                assert(requests_view(before[i].requests@.push(request))
                                    =~= requests_view(before[i].requests@).push(request@));
                            }
                        }
                    }
                    assert(self@ =~= AppView { collections: save_active_into(old(self)@, i), ..old(self)@ });
                }
            }
        }
    }

    /// `a` on the headers tab: appends an empty header row, selects it and
    /// starts editing its name.
    fn add_header_row(&mut self)
        requires
            old(self)@.on_headers_tab(),
        ensures
            normal_key_step(old(self)@, KeyEvent { code: KeyCode::Char('a'), control: false }).0
                == final(self)@,
            old(self)@.wf() ==> final(self)@.wf(),
    {
        self.active_request.headers.push((String::new(), String::new()));
        self.selected_header_row = self.active_request.headers.len() - 1;
        self.editing_header_field = Some(HeaderField::Key);
        self.input_mode = InputMode::Insert;
        self.headers_table_state.select(Some(self.selected_header_row));
        proof {
            let h = old(self)@.active_request.headers.push((Seq::empty(), Seq::empty()));
            assert(self@.active_request.headers =~= h);
        }
    }

    /// `n` on the collections panel: appends a new empty collection, selects
    /// it and starts typing its name.
    fn add_collection(&mut self)
        requires
            old(self)@.focus == Focus::Collections,
        ensures
            normal_key_step(old(self)@, KeyEvent { code: KeyCode::Char('n'), control: false }).0
                == final(self)@,
            old(self)@.wf() ==> final(self)@.wf(),
    {
        let collection = Collection { name: string_of("New Collection"), requests: Vec::new() };
        proof {
            assert(collection@ =~= new_collection());
        }
        self.collections.push(collection);
        self.input_mode = InputMode::Insert;
        self.update_collection_list_state(Some(self.collections.len() - 1));
        proof {
            assert(collections_view(self.collections@) =~= old(self)@.collections.push(new_collection()));
        }
    }

    /// Marks the request as loading and asks for it to be sent.
    fn handle_send_request(&mut self) -> (cmd: Command)
        ensures
            final(self)@ == (AppView { is_loading: true, ..old(self)@ }),
            cmd@ == CommandView::SendRequest(old(self)@.active_request),
    {
        self.is_loading = true;
        let request = self.active_request.clone();
        Command::SendRequest(request)
    }

    fn update_collection_list_state(&mut self, collection_index: Option<usize>)
        ensures
            final(self)@ == (AppView {
                collection_list_state: ListState { selected: collection_index },
                ..old(self)@
            }),
    {
        if let Some(index) = collection_index {
            self.collection_list_state.select(Some(index));
        } else {
            self.collection_list_state.select(None);
        }
    }

    fn handle_insert_key(&mut self, key: KeyEvent)
        requires
            !update_panics(
                AppView { input_mode: InputMode::Insert, ..old(self)@ },
                AppEventView::Key(key),
            ),
        ensures
            final(self)@ == insert_key_step(old(self)@, key),
            old(self)@.wf() ==> final(self)@.wf(),
    {
        if key.code == KeyCode::Esc {
            self.input_mode = InputMode::Normal;
            return;
        }
        match self.focus {
            Focus::Collections => match key.code {
                KeyCode::Enter => {
                    self.input_mode = InputMode::Normal;
                    self.save_active_request();
                    let added_collection_index = self.collections.len() - 1;
                    self.update_collection_list_state(Some(added_collection_index));
                },
                KeyCode::Char(c) => {
                    if let Some(active_collection) = self.collection_list_state.selected() {
                        self.edit_collection_name(active_collection, Some(c));
                    }
                },
                KeyCode::Backspace => {
                    if let Some(active_collection) = self.collection_list_state.selected() {
                        self.edit_collection_name(active_collection, None);
                    }
                },
                _ => {},
            },
            Focus::RequestBuilder => match self.active_tab {
                RequestTab::Url => match key.code {
                    KeyCode::Char(c) => self.active_request.url.push(c),
                    KeyCode::Enter => {
                        self.input_mode = InputMode::Normal;
                    },
                    KeyCode::Backspace => {
                        self.active_request.url.pop();
                    },
                    _ => {},
                },
                RequestTab::Headers => self.handle_insert_header(key),
                RequestTab::Body => match key.code {
                    KeyCode::Char(c) => self.edit_body(Some(c)),
                    KeyCode::Enter => self.edit_body(Some('\n')),
                    KeyCode::Backspace => self.edit_body(None),
                    _ => {},
                },
                RequestTab::Auth => {},
            },
            Focus::Response => {},
        }
    }

    /// Types `c` into (or, for `None`, deletes the last character of) the
    /// name of collection `i`.
    fn edit_collection_name(&mut self, i: usize, c: Option<char>)
        requires
            i < old(self)@.collections.len(),
        ensures
            final(self)@ == with_collection_name(
                old(self)@,
                i as int,
                edit_text(old(self)@.collections[i as int].name, c),
            ),
            old(self)@.wf() ==> final(self)@.wf(),
    {
        let ghost before = self.collections@;
        let mut collection = self.collections.remove(i);
        match c {
            Some(c) => collection.name.push(c),
            None => {
                collection.name.pop();
            },
        }
        self.collections.insert(i, collection);
        proof {
            let name = edit_text(old(self)@.collections[i as int].name, c);
            assert(collections_view(self.collections@) =~= with_collection_name(
                old(self)@,
                i as int,
                name,
            ).collections) by {
                assert(before[i as int]@ == old(self)@.collections[i as int]);
            }
            assert(self@ =~= with_collection_name(old(self)@, i as int, name));
        }
    }

    fn handle_insert_header(&mut self, key: KeyEvent)
        ensures
            final(self)@ == header_key_step(old(self)@, key),
            old(self)@.wf() ==> final(self)@.wf(),
    {
        if let Some(field) = self.editing_header_field {
            let row = self.selected_header_row;
            if row < self.active_request.headers.len() {
                match field {
                    HeaderField::Key => match key.code {
                        KeyCode::Backspace => self.edit_header(row, true, None),
                        KeyCode::Delete => self.delete_selected_header(),
                        KeyCode::Left => {
                            self.editing_header_field = Some(HeaderField::Key);
                            self.headers_table_state.select_column(Some(0));
                        },
                        KeyCode::Right => {
                            self.editing_header_field = Some(HeaderField::Value);
                            self.headers_table_state.select_column(Some(1));
                        },
                        KeyCode::Enter => {
                            self.editing_header_field = Some(HeaderField::Value);
                            self.headers_table_state.select_next_column();
                        },
                        KeyCode::Char(c) => self.edit_header(row, true, Some(c)),
                        _ => {},
                    },
                    HeaderField::Value => match key.code {
                        KeyCode::Backspace => self.edit_header(row, false, None),
                        KeyCode::Enter => {
                            self.editing_header_field = None;
                            self.input_mode = InputMode::Normal;
                        },
                        KeyCode::Left => {
                            self.editing_header_field = Some(HeaderField::Key);
                            self.headers_table_state.select_column(Some(0));
                        },
                        KeyCode::Right => {
                            self.editing_header_field = Some(HeaderField::Value);
                            self.headers_table_state.select_column(Some(1));
                        },
                        KeyCode::Char(c) => self.edit_header(row, false, Some(c)),
                        _ => {},
                    },
                }
            }
        }
    }

    /// Types `c` into (or, for `None`, deletes the last character of) the
    /// name (`in_name`) or the value of header row `row`.
    fn edit_header(&mut self, row: usize, in_name: bool, c: Option<char>)
        requires
            row < old(self)@.active_request.headers.len(),
        ensures
            final(self)@ == with_header(
                old(self)@,
                row as int,
                edited_pair(old(self)@.active_request.headers[row as int], in_name, c),
            ),
            old(self)@.wf() ==> final(self)@.wf(),
    {
        let ghost before = self.active_request.headers@;
        let (mut name, mut value) = self.active_request.headers.remove(row);
        if in_name {
            match c {
                Some(c) => name.push(c),
                None => {
                    name.pop();
                },
            }
        } else {
            match c {
                Some(c) => value.push(c),
                None => {
                    value.pop();
                },
            }
        }
        self.active_request.headers.insert(row, (name, value));
        proof {
            let pair = edited_pair(old(self)@.active_request.headers[row as int], in_name, c);
            assert(self@.active_request.headers =~= old(self)@.active_request.headers.update(
                row as int,
                pair,
            ));
            assert(self@ =~= with_header(old(self)@, row as int, pair));
        }
    }

    /// Enters Insert mode (`i`, or Enter on the request builder).
    fn enter_insert_mode(&mut self)
        ensures
            final(self)@ == enter_insert(old(self)@),
    {
        self.input_mode = InputMode::Insert;
        if self.focus == Focus::RequestBuilder && self.active_tab == RequestTab::Headers {
            match self.headers_table_state.selected_column() {
                Some(0) => self.editing_header_field = Some(HeaderField::Key),
                Some(1) => self.editing_header_field = Some(HeaderField::Value),
                _ => self.editing_header_field = Some(HeaderField::Key),
            }
        }
    }

    /// Removes the selected header row and selects the row above it (or the
    /// first row).
    fn delete_selected_header(&mut self)
        requires
            old(self)@.selected_header_row < old(self)@.active_request.headers.len(),
        ensures
            final(self)@ == delete_header_row(old(self)@),
            old(self)@.wf() ==> final(self)@.wf(),
    {
        let ghost before = self.active_request.headers@;
        self.active_request.headers.remove(self.selected_header_row);
        if self.selected_header_row > 0 {
            self.selected_header_row -= 1;
        }
        self.headers_table_state.select(Some(self.selected_header_row));
        proof {
            assert(pairs_view(self.active_request.headers@) =~= pairs_view(before).remove(
                old(self)@.selected_header_row as int,
            ));
            assert(self@ =~= delete_header_row(old(self)@));
        }
    }

    /// Collapses collection `i` when it is expanded, expands it otherwise.
    fn toggle_expanded(&mut self, i: usize)
        requires
            old(self)@.collection_list_state.selected == Some(i),
        ensures
            final(self)@ == (AppView {
                expanded_collections: toggled(old(self)@.expanded_collections, i),
                ..old(self)@
            }),
            old(self)@.wf() ==> final(self)@.wf(),
    {
        let found = contains_index(&self.expanded_collections, i);
        if found {
            let kept = without_value(&self.expanded_collections, i);
            self.expanded_collections = kept;
        } else {
            self.expanded_collections.push(i);
        }
        proof {
            if old(self)@.wf() {
                lemma_without_bounded(old(self)@.expanded_collections, i, old(self)@.collections.len());
            }
        }
    }

    /// Types `c` into the body (or, for `None`, deletes its last character).
    fn edit_body(&mut self, c: Option<char>)
        ensures
            final(self)@ == with_body(
                old(self)@,
                match c {
                    Some(c) => body_typed(old(self)@.active_request.body, c),
                    None => body_erased(old(self)@.active_request.body),
                },
            ),
            old(self)@.wf() ==> final(self)@.wf(),
    {
        match c {
            Some(c) => {
                match &mut self.active_request.body {
                    Some(body) => body.push(c),
                    None => {
                        let mut body = String::new();
                        body.push(c);
                        self.active_request.body = Some(body);
                        proof {
                            assert(self.active_request.body->0@ =~= seq![c]);
                        }
                    },
                }
            },
            None => {
                if let Some(body) = &mut self.active_request.body {
                    body.pop();
                }
            },
        }
    }

    fn tab_changed_callback(&mut self)
        ensures
            final(self)@ == old(self)@,
    {
    }

    /// Advances focus to the next panel (wraps around).
    fn cycle_focus(&mut self)
        ensures
            final(self)@ == (AppView { focus: next_focus(old(self)@.focus), ..old(self)@ }),
    {
        self.focus = match self.focus {
            Focus::Collections => Focus::RequestBuilder,
            Focus::RequestBuilder => Focus::Response,
            Focus::Response => Focus::Collections,
        };
    }

    fn next_tab(&mut self)
        ensures
            final(self)@ == (AppView { active_tab: next_tab_of(old(self)@.active_tab), ..old(self)@ }),
    {
        self.active_tab = match self.active_tab {
            RequestTab::Url => RequestTab::Headers,
            RequestTab::Headers => RequestTab::Body,
            RequestTab::Body => RequestTab::Auth,
            RequestTab::Auth => RequestTab::Url,
        };
    }

    fn prev_tab(&mut self)
        ensures
            final(self)@ == (AppView { active_tab: prev_tab_of(old(self)@.active_tab), ..old(self)@ }),
    {
        self.active_tab = match self.active_tab {
            RequestTab::Url => RequestTab::Auth,
            RequestTab::Headers => RequestTab::Url,
            RequestTab::Body => RequestTab::Headers,
            RequestTab::Auth => RequestTab::Body,
        };
    }
}

/// Whether `x` occurs in `v`.
pub fn contains_index(v: &Vec<usize>, x: usize) -> (r: bool)
    ensures
        r == v@.contains(x),
{
    let mut j: usize = 0;
    while j < v.len()
        invariant
            j <= v@.len(),
            !v@.take(j as int).contains(x),
        decreases v@.len() - j,
    {
        if v[j] == x {
            proof {
                assert(v@[j as int] == x);
            }
            return true;
        }
        proof {
            let t1 = v@.take(j + 1);
            let t0 = v@.take(j as int);
            if t1.contains(x) {
                let k = choose|k: int| #![trigger t1[k]] 0 <= k < t1.len() && t1[k] == x;
                assert(t0[k] == x);
            }
        }
        j = j + 1;
    }
    proof {
        assert(v@.take(j as int) =~= v@);
    }
    false
}

/// `v` without any occurrence of `x`, the rest in order.
fn without_value(v: &Vec<usize>, x: usize) -> (r: Vec<usize>)
    ensures
        r@ == without(v@, x),
{
    let mut r: Vec<usize> = Vec::new();
    let mut i: usize = 0;
    while i < v.len()
        invariant
            i <= v@.len(),
            r@ == without(v@.take(i as int), x),
        decreases v@.len() - i,
    {
        proof {
            assert(v@.take(i + 1).drop_last() =~= v@.take(i as int));
        }
        if v[i] != x {
            r.push(v[i]);
        }
        i = i + 1;
    }
    proof {
        assert(v@.take(i as int) =~= v@);
    }
    r
}

/// Removing a value keeps every remaining value below a bound.
pub proof fn lemma_without_bounded(s: Seq<usize>, x: usize, n: nat)
    requires
        forall|j: int| 0 <= j < s.len() ==> #[trigger] s[j] < n,
    ensures
        forall|j: int| 0 <= j < without(s, x).len() ==> #[trigger] without(s, x)[j] < n,
    decreases s.len(),
{
    if s.len() > 0 {
        let t = s.drop_last();
        assert forall|j: int| 0 <= j < t.len() implies #[trigger] t[j] < n by {
            assert(t[j] == s[j]);
        }
        lemma_without_bounded(t, x, n);
        let w = without(t, x);
        assert(s[s.len() - 1] < n);
        assert forall|j: int| 0 <= j < without(s, x).len() implies #[trigger] without(s, x)[j] < n by {
            if j < w.len() {
                assert(without(s, x)[j] == w[j]);
            }
        }
    }
}

/// A value is in `without(s, x)` exactly when it is in `s` and is not `x`.
pub proof fn lemma_without_contains(s: Seq<usize>, x: usize, y: usize)
    ensures
        without(s, x).contains(y) <==> (s.contains(y) && y != x),
    decreases s.len(),
{
    if s.len() > 0 {
        let t = s.drop_last();
        lemma_without_contains(t, x, y);
        let w = without(t, x);
        if s.contains(y) && y != x {
            let k = choose|k: int| 0 <= k < s.len() && s[k] == y;
            if k < t.len() {
                assert(t[k] == y);
                let m = choose|m: int| 0 <= m < w.len() && w[m] == y;
                if s.last() != x {
                    assert(w.push(s.last())[m] == y);
                }
            } else {
                assert(w.push(s.last())[w.len() as int] == y);
            }
        }
        if without(s, x).contains(y) {
            let m = choose|m: int| 0 <= m < without(s, x).len() && without(s, x)[m] == y;
            if m < w.len() {
                assert(w[m] == y);
                let k = choose|k: int| 0 <= k < t.len() && t[k] == y;
                assert(s[k] == y);
            } else {
                assert(s[s.len() - 1] == y);
            }
        }
    }
}

} // verus!
