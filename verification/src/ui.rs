//! What the screen shows for a given state: the texts of every pane, the
//! colours that depend on the state (focus, status, empty fields), which
//! content each pane shows and which line or tab is highlighted, as plain
//! values. Laying the panes out and drawing them, with their fixed titles
//! and decorations, happens outside the library.

use vstd::prelude::*;
use crate::app::{App, Focus, InputMode, RequestTab};
use crate::request::{
    CollectionView, HttpMethod, RequestView, Response, ResponseView, opt_view, pairs_view,
};
use crate::text::{
    append_str, contains_str, contains_text, copy_string, decimal, push_decimal, string_of,
};

verus! {

/// The colours the interface uses.
#[derive(Debug, Clone, Copy, PartialEq, Eq, Structural)]
pub enum Color {
    Yellow,
    DarkGray,
    Green,
    Red,
    White,
    Black,
    Blue,
}

/// The border colour of a panel: yellow when it has focus, dark grey
/// otherwise.
pub fn border_color(focused: bool) -> (c: Color)
    ensures
        c == (if focused { Color::Yellow } else { Color::DarkGray }),
{
    if focused {
        Color::Yellow
    } else {
        Color::DarkGray
    }
}

/// The colour of a response: green for 2xx, yellow for 3xx, red otherwise.
pub open spec fn status_color_of(status: u16) -> Color {
    if 200 <= status <= 299 {
        Color::Green
    } else if 300 <= status <= 399 {
        Color::Yellow
    } else {
        Color::Red
    }
}

/// The colour of a response with this status code.
pub fn status_color(status: u16) -> (c: Color)
    ensures
        c == status_color_of(status),
{
    if 200 <= status && status <= 299 {
        Color::Green
    } else if 300 <= status && status <= 399 {
        Color::Yellow
    } else {
        Color::Red
    }
}

/// The badge of the method in the URL tab.
pub fn method_label(method: HttpMethod) -> (label: &'static str)
    ensures
        label@ == (match method {
            HttpMethod::Get => " GET"@,
            HttpMethod::Post => "POST"@,
        }),
{
    match method {
        HttpMethod::Get => " GET",
        HttpMethod::Post => "POST",
    }
}

/// The URL field: a grey hint while the URL is empty, the URL in white
/// otherwise.
pub fn url_display(url: &String) -> (r: (String, Color))
    ensures
        url@.len() == 0 ==> r.0@ == "https://..."@ && r.1 == Color::DarkGray,
        url@.len() > 0 ==> r.0@ == url@ && r.1 == Color::White,
{
    if url.as_str().is_empty() {
        (string_of("https://..."), Color::DarkGray)
    } else {
        (copy_string(url), Color::White)
    }
}

/// The body text area: a grey hint while there is no body, the body in
/// white otherwise.
pub fn body_display(body: &Option<String>) -> (r: (String, Color))
    ensures
        body is None ==> r.0@ == "(no body)"@ && r.1 == Color::DarkGray,
        body matches Some(b) ==> r.0@ == b@ && r.1 == Color::White,
{
    match body {
        Some(b) => (copy_string(b), Color::White),
        None => (string_of("(no body)"), Color::DarkGray),
    }
}

/// The position of a tab in the tab bar.
pub fn tab_index(tab: RequestTab) -> (i: usize)
    ensures
        i == (match tab {
            RequestTab::Url => 0usize,
            RequestTab::Headers => 1usize,
            RequestTab::Body => 2usize,
            RequestTab::Auth => 3usize,
        }),
{
    match tab {
        RequestTab::Url => 0,
        RequestTab::Headers => 1,
        RequestTab::Body => 2,
        RequestTab::Auth => 3,
    }
}

/// What the request builder shows below its tab bar.
#[derive(Debug)]
pub enum BuilderContent {
    /// The method badge and the URL field.
    UrlField,
    /// The headers table.
    HeadersTable,
    /// The body text area.
    BodyField,
    /// A grey placeholder text, for a tab that has no editor yet.
    Placeholder(&'static str),
}

/// What the request builder shows for the active tab.
pub fn builder_content(tab: RequestTab) -> (c: BuilderContent)
    ensures
        tab == RequestTab::Url ==> c is UrlField,
        tab == RequestTab::Headers ==> c is HeadersTable,
        tab == RequestTab::Body ==> c is BodyField,
        tab == RequestTab::Auth ==> (c matches BuilderContent::Placeholder(t) && t@
            == "Auth \u{2014} issue #8"@),
{
    match tab {
        RequestTab::Url => BuilderContent::UrlField,
        RequestTab::Headers => BuilderContent::HeadersTable,
        RequestTab::Body => BuilderContent::BodyField,
        RequestTab::Auth => BuilderContent::Placeholder("Auth \u{2014} issue #8"),
    }
}

/// The placeholder of an empty headers table.
pub fn no_headers_hint() -> (hint: &'static str)
    ensures
        hint@ == "(no headers)"@,
{
    "(no headers)"
}

/// The rows of the headers table, or `None` when there are no headers and
/// the "(no headers)" placeholder shows instead.
pub fn headers_table(app: &App) -> (rows: Option<Vec<(String, String)>>)
    ensures
        app@.active_request.headers.len() == 0 <==> rows is None,
        rows matches Some(v) ==> pairs_view(v@) == app@.active_request.headers,
{
    if app.active_request.headers.len() == 0 {
        None
    } else {
        Some(crate::request::copy_pairs(&app.active_request.headers))
    }
}

/// The badge of the input mode: its label, text colour and background.
pub fn mode_badge(mode: InputMode) -> (r: (&'static str, Color, Color))
    ensures
        mode == InputMode::Normal ==> r.0@ == " NORMAL "@ && r.1 == Color::White && r.2
            == Color::Blue,
        mode == InputMode::Insert ==> r.0@ == " INSERT "@ && r.1 == Color::Black && r.2
            == Color::Green,
{
    match mode {
        InputMode::Normal => (" NORMAL ", Color::White, Color::Blue),
        InputMode::Insert => (" INSERT ", Color::Black, Color::Green),
    }
}

/// The key hints of the status bar.
pub fn mode_hints(mode: InputMode) -> (hints: &'static str)
    ensures
        mode == InputMode::Normal ==> hints@
            == "  [tab] cycle focus   [h/l] switch tab   [i] insert   [m] method   [s] send   [q] quit"@,
        mode == InputMode::Insert ==> hints@ == "  [esc] back to normal"@,
{
    match mode {
        InputMode::Normal => "  [tab] cycle focus   [h/l] switch tab   [i] insert   [m] method   [s] send   [q] quit",
        InputMode::Insert => "  [esc] back to normal",
    }
}

/// The line of a collection in the sidebar.
pub open spec fn collection_line(c: CollectionView) -> Seq<char> {
    " "@ + c.name
}

/// The line of a saved request under an expanded collection: indented, its
/// name, or its URL when it has no name.
pub open spec fn request_line(r: RequestView) -> Seq<char> {
    "    "@ + (if r.name.len() > 0 { r.name } else { r.url })
}

/// The lines of one collection: its own line, then, when it is expanded, one
/// line per saved request.
pub open spec fn collection_block(c: CollectionView, expanded: bool) -> Seq<Seq<char>> {
    seq![collection_line(c)] + (if expanded {
        c.requests.map_values(|r: RequestView| request_line(r))
    } else {
        Seq::empty()
    })
}

/// The sidebar lines of the first `n` collections.
pub open spec fn sidebar_lines(cols: Seq<CollectionView>, expanded: Seq<usize>, n: nat) -> Seq<
    Seq<char>,
>
    decreases n,
{
    if n == 0 {
        Seq::empty()
    } else {
        sidebar_lines(cols, expanded, (n - 1) as nat) + collection_block(
            cols[n - 1],
            expanded.contains((n - 1) as usize),
        )
    }
}

/// The mathematical value of a list of texts.
pub open spec fn strings_view(v: Seq<String>) -> Seq<Seq<char>> {
    v.map_values(|t: String| t@)
}

/// The sidebar: its lines, and which of them is the selected collection's.
#[derive(Debug, PartialEq)]
pub struct Sidebar {
    pub lines: Vec<String>,
    pub selected_line: Option<usize>,
}

/// The sidebar, or `None` when there are no collections and the "(empty)"
/// hint shows instead. A selected collection's line is the highlighted one.
pub fn sidebar(app: &App) -> (r: Option<Sidebar>)
    ensures
        app@.collections.len() == 0 <==> r is None,
        r matches Some(sb) ==> strings_view(sb.lines@) == sidebar_lines(
            app@.collections,
            app@.expanded_collections,
            app@.collections.len(),
        ) && sb.selected_line == (match app@.collection_list_state.selected {
            Some(i) => if i < app@.collections.len() {
                Some(
                    sidebar_lines(app@.collections, app@.expanded_collections, i as nat).len() as usize,
                )
            } else {
                None
            },
            None => None,
        }),
{
    if app.collections.len() == 0 {
        return None;
    }
    let ghost cols = app@.collections;
    let ghost exp = app@.expanded_collections;
    let mut lines: Vec<String> = Vec::new();
    let mut selected_line: Option<usize> = None;
    let mut i: usize = 0;
    while i < app.collections.len()
        invariant
            cols == app@.collections,
            exp == app@.expanded_collections,
            i <= cols.len(),
            strings_view(lines@) == sidebar_lines(cols, exp, i as nat),
            selected_line == (match app@.collection_list_state.selected {
                Some(j) => if j < i {
                    Some(sidebar_lines(cols, exp, j as nat).len() as usize)
                } else {
                    None
                },
                None => None,
            }),
        decreases cols.len() - i,
    {
        let ghost before = lines@;
        if app.collection_list_state.selected() == Some(i) {
            selected_line = Some(lines.len());
        }
        let collection = &app.collections[i];
        let mut line = string_of(" ");
        append_str(&mut line, collection.name.as_str());
        lines.push(line);
        let expanded = crate::app::contains_index(&app.expanded_collections, i);
        let ghost after_own = lines@;
        if expanded {
            let mut k: usize = 0;
            while k < collection.requests.len()
                invariant
                    k <= collection.requests@.len(),
                    lines@.len() == after_own.len() + k,
                    forall|m: int| 0 <= m < after_own.len() ==> #[trigger] lines@[m] == after_own[m],
                    forall|m: int|
                        0 <= m < k ==> #[trigger] lines@[after_own.len() + m]@ == request_line(
                            collection.requests@[m]@,
                        ),
                decreases collection.requests@.len() - k,
            {
                let request = &collection.requests[k];
                let mut rline = string_of("    ");
                if request.name.as_str().is_empty() {
                    append_str(&mut rline, request.url.as_str());
                } else {
                    append_str(&mut rline, request.name.as_str());
                }
                lines.push(rline);
                k = k + 1;
            }
        }
        proof {
            let block = collection_block(cols[i as int], exp.contains(i));
            assert(collection@ == cols[i as int]);
            let n0 = before.len() as int;
            assert(after_own[n0]@ == collection_line(cols[i as int]));
            if expanded {
                assert(block.len() == 1 + collection.requests@.len());
                assert forall|m: int| 0 <= m < block.len() implies #[trigger] block[m]
                    == lines@[n0 + m]@ by {
                    if m > 0 {
                        assert(cols[i as int].requests[m - 1] == collection.requests@[m - 1]@);
                        assert(lines@[after_own.len() + (m - 1)]@ == request_line(
                            collection.requests@[m - 1]@,
                        ));
                    } else {
                        assert(lines@[n0] == after_own[n0]);
                    }
                }
            }
            assert forall|m: int| 0 <= m < lines@.len() implies #[trigger] strings_view(lines@)[m]
                == (strings_view(before) + block)[m] by {
                if m < n0 {
                    assert(lines@[m] == before[m]);
                } else {
                    assert(block[m - n0] == lines@[n0 + (m - n0)]@);
                }
            }
            assert(strings_view(lines@) =~= strings_view(before) + block);
        }
        i = i + 1;
    }
    Some(Sidebar { lines, selected_line })
}

/// The text of the empty sidebar.
pub fn empty_collections_hint() -> (hint: &'static str)
    ensures
        hint@ == "(empty)\n\nPress [n] to create\na new request."@,
{
    "(empty)\n\nPress [n] to create\na new request."
}

/// The error to show over the whole screen: the error message, when there is
/// a non-empty one.
pub fn error_to_show(app: &App) -> (r: Option<String>)
    ensures
        r is Some <==> (app@.error_message matches Some(m) && m.len() > 0),
        r matches Some(m) ==> app@.error_message == Some(m@),
{
    match &app.error_message {
        Some(message) => if message.as_str().is_empty() {
            None
        } else {
            Some(copy_string(message))
        },
        None => None,
    }
}

/// The value of the first header with this name.
pub open spec fn header_value(h: Seq<(Seq<char>, Seq<char>)>, name: Seq<char>) -> Option<Seq<char>>
    decreases h.len(),
{
    if h.len() == 0 {
        None
    } else if h[0].0 == name {
        Some(h[0].1)
    } else {
        header_value(h.drop_first(), name)
    }
}

/// The value of the first header named `name`.
pub fn find_header(headers: &Vec<(String, String)>, name: &str) -> (r: Option<String>)
    ensures
        opt_view(r) == header_value(pairs_view(headers@), name@),
{
    let wanted = string_of(name);
    let ghost h = pairs_view(headers@);
    proof {
        assert(h.subrange(0, h.len() as int) =~= h);
    }
    let mut i: usize = 0;
    while i < headers.len()
        invariant
            h == pairs_view(headers@),
            wanted@ == name@,
            i <= headers@.len(),
            header_value(h, name@) == header_value(h.subrange(i as int, h.len() as int), name@),
        decreases headers@.len() - i,
    {
        proof {
            assert(h.subrange(i as int, h.len() as int).drop_first() =~= h.subrange(
                i + 1,
                h.len() as int,
            ));
        }
        if headers[i].0 == wanted {
            return Some(copy_string(&headers[i].1));
        }
        i = i + 1;
    }
    proof {
        assert(h.subrange(i as int, h.len() as int) =~= Seq::<(Seq<char>, Seq<char>)>::empty());
    }
    None
}

/// The first line of the response text: status, reason and duration.
pub open spec fn status_line(r: ResponseView) -> Seq<char> {
    decimal(r.status as nat) + " "@ + r.status_text + "   "@ + decimal(r.duration_ms as nat)
        + "ms"@
}

/// The body as shown: "(empty)" for an empty body.
pub open spec fn shown_body(r: ResponseView) -> Seq<char> {
    if r.body.len() == 0 { "(empty)"@ } else { r.body }
}

/// One header as shown: "name: value".
pub open spec fn header_line(p: (Seq<char>, Seq<char>)) -> Seq<char> {
    p.0 + ": "@ + p.1
}

/// The headers as shown, one per line.
pub open spec fn header_lines(h: Seq<(Seq<char>, Seq<char>)>) -> Seq<char>
    decreases h.len(),
{
    if h.len() == 0 {
        Seq::empty()
    } else if h.len() == 1 {
        header_line(h[0])
    } else {
        header_lines(h.drop_last()) + "\n"@ + header_line(h.last())
    }
}

/// The response says its body is JSON.
pub open spec fn declares_json(r: ResponseView) -> bool {
    match header_value(r.headers, "content-type"@) {
        Some(v) => contains_text(v, "application/json"@),
        None => false,
    }
}

/// The response text, given the pretty-printed JSON body when there is one:
/// the status line, a blank line, then the pretty JSON, or else the body
/// (followed, in debug mode, by the headers).
pub open spec fn response_text_with(
    debug: bool,
    r: ResponseView,
    pretty: Option<Seq<char>>,
) -> Seq<char> {
    let head = status_line(r) + "\n\n"@;
    match pretty {
        Some(p) => head + p,
        None => if debug {
            head + shown_body(r) + "\n\nHeaders:\n"@ + header_lines(r.headers)
        } else {
            head + shown_body(r)
        },
    }
}

/// The response text shown in the response pane.
pub open spec fn response_text(debug: bool, r: ResponseView) -> Seq<char> {
    response_text_with(
        debug,
        r,
        if declares_json(r) {
            pretty_form(json_pretty_text(shown_body(r)), shown_body(r))
        } else {
            None
        },
    )
}

/// What `serde_json` makes of a text: `None` when it does not parse as
/// JSON; otherwise the parsed value re-serialised with indentation, or
/// `None` inside when re-serialising fails.
pub uninterp spec fn json_pretty_text(text: Seq<char>) -> Option<Option<Seq<char>>>;

/// The text shown for a JSON body: the pretty form, or the text itself when
/// re-serialising failed; `None` when the text is not JSON.
pub open spec fn pretty_form(outcome: Option<Option<Seq<char>>>, text: Seq<char>) -> Option<
    Seq<char>,
> {
    match outcome {
        None => None,
        Some(Some(p)) => Some(p),
        Some(None) => Some(text),
    }
}

#[verifier::external_type_specification]
#[verifier::external_body]
pub struct ExJsonError(serde_json::Error);

/// `serde_json::from_str::<serde_json::Value>` followed by
/// `serde_json::to_string_pretty` on the value: `None` when `text` is not
/// JSON, otherwise what re-serialising gave (the indented text, or its
/// error). Named by `json_pretty_text`, not stated.
#[verifier::external_body]
fn pretty_json(text: &str) -> (r: Option<Result<String, serde_json::Error>>)
    ensures
        r is None <==> json_pretty_text(text@) is None,
        r matches Some(Ok(p)) ==> json_pretty_text(text@) == Some(Some(p@)),
        r matches Some(Err(_)) ==> json_pretty_text(text@) == Some(None::<Seq<char>>),
{
    match serde_json::from_str::<serde_json::Value>(text) {
        Ok(value) => Some(serde_json::to_string_pretty(&value)),
        Err(_) => None,
    }
}

/// The text shown for a JSON body, given what re-serialising it gave.
pub fn pretty_or_text(outcome: Option<Result<String, serde_json::Error>>, text: &str) -> (r: Option<
    String,
>)
    ensures
        outcome is None ==> r is None,
        outcome matches Some(Ok(p)) ==> r matches Some(t) && t@ == p@,
        outcome matches Some(Err(_)) ==> r matches Some(t) && t@ == text@,
{
    match outcome {
        None => None,
        Some(Ok(p)) => Some(p),
        Some(Err(_)) => Some(string_of(text)),
    }
}

/// Appends the headers, one "name: value" per line.
fn push_header_lines(out: &mut String, headers: &Vec<(String, String)>)
    ensures
        final(out)@ == old(out)@ + header_lines(pairs_view(headers@)),
{
    let ghost h = pairs_view(headers@);
    let ghost start = out@;
    let mut i: usize = 0;
    while i < headers.len()
        invariant
            h == pairs_view(headers@),
            i <= h.len(),
            out@ == start + header_lines(h.subrange(0, i as int)),
        decreases h.len() - i,
    {
        if i > 0 {
            append_str(out, "\n");
        }
        append_str(out, headers[i].0.as_str());
        append_str(out, ": ");
        append_str(out, headers[i].1.as_str());
        i = i + 1;
        proof {
            let t = h.subrange(0, i as int);
            assert(t.drop_last() =~= h.subrange(0, i - 1));
            assert(t.last() == h[i - 1]);
            if i == 1 {
                assert(h.subrange(0, 0) =~= Seq::<(Seq<char>, Seq<char>)>::empty());
            }
            assert(out@ =~= start + header_lines(t));
        }
    }
    proof {
        assert(h.subrange(0, h.len() as int) =~= h);
    }
}

/// The response text for `resp` once the pretty-printed JSON body, if any,
/// is known.
pub fn compose_response_text(debug: bool, resp: &Response, pretty: Option<String>) -> (text: String)
    ensures
        text@ == response_text_with(debug, resp@, opt_view(pretty)),
{
    let mut text = String::new();
    push_decimal(&mut text, resp.status as u128);
    append_str(&mut text, " ");
    append_str(&mut text, resp.status_text.as_str());
    append_str(&mut text, "   ");
    push_decimal(&mut text, resp.duration_ms);
    append_str(&mut text, "ms");
    append_str(&mut text, "\n\n");
    proof {
        assert(text@ =~= status_line(resp@) + "\n\n"@);
    }
    let ghost head = text@;
    match pretty {
        Some(p) => {
            append_str(&mut text, p.as_str());
        },
        None => {
            if resp.body.as_str().is_empty() {
                append_str(&mut text, "(empty)");
            } else {
                append_str(&mut text, resp.body.as_str());
            }
            if debug {
                append_str(&mut text, "\n\nHeaders:\n");
                push_header_lines(&mut text, &resp.headers);
            }
            proof {
                if debug {
                    assert(text@ =~= head + shown_body(resp@) + "\n\nHeaders:\n"@ + header_lines(
                        resp@.headers,
                    ));
                } else {
                    assert(text@ =~= head + shown_body(resp@));
                }
            }
        },
    }
    text
}

/// The text of the response pane for `resp`; debug mode adds the headers.
pub fn build_response_text(app: &App, resp: &Response) -> (text: String)
    ensures
        text@ == response_text(app@.debug, resp@),
{
    let body = if resp.body.as_str().is_empty() {
        string_of("(empty)")
    } else {
        copy_string(&resp.body)
    };
    let json = match find_header(&resp.headers, "content-type") {
        Some(value) => contains_str(value.as_str(), "application/json"),
        None => false,
    };
    let pretty = if json {
        pretty_or_text(pretty_json(body.as_str()), body.as_str())
    } else {
        None
    };
    compose_response_text(app.debug, resp, pretty)
}

/// What the response pane shows.
#[derive(Debug)]
pub enum ResponsePane {
    /// "Sending…" while a request is in flight.
    Loading,
    /// The hint to send a request, before any response arrived.
    NoResponse,
    /// The response text, in the colour of its status.
    Ready { text: String, color: Color },
}

/// What the response pane shows for a state.
pub fn response_pane(app: &App) -> (pane: ResponsePane)
    ensures
        app@.is_loading ==> pane is Loading,
        !app@.is_loading && app@.response is None ==> pane is NoResponse,
        !app@.is_loading && app@.response is Some ==> (pane matches ResponsePane::Ready {
            text,
            color,
        } && text@ == response_text(app@.debug, app@.response->0) && color == status_color_of(
            app@.response->0.status,
        )),
{
    if app.is_loading {
        return ResponsePane::Loading;
    }
    match &app.response {
        None => ResponsePane::NoResponse,
        Some(resp) => {
            let color = status_color(resp.status);
            let text = build_response_text(app, resp);
            ResponsePane::Ready { text, color }
        },
    }
}

/// The hint shown before any response arrived.
pub fn no_response_hint() -> (hint: &'static str)
    ensures
        hint@ == "No response yet.\n\nPress [s] to send the request."@,
{
    "No response yet.\n\nPress [s] to send the request."
}

/// The text shown while a request is in flight.
pub fn loading_text() -> (t: &'static str)
    ensures
        t@ == "Sending\u{2026}"@,
{
    "Sending\u{2026}"
}

/// Which panels have focus: (collections, request builder, response).
pub fn focused_panels(app: &App) -> (r: (bool, bool, bool))
    ensures
        r.0 == (app@.focus == Focus::Collections),
        r.1 == (app@.focus == Focus::RequestBuilder),
        r.2 == (app@.focus == Focus::Response),
{
    (
        app.focus == Focus::Collections,
        app.focus == Focus::RequestBuilder,
        app.focus == Focus::Response,
    )
}

} // verus!
