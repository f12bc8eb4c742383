//! Properties of the application as a whole, over the state machine of
//! `app::step`.

use vstd::prelude::*;
use crate::app::{
    AppView, CommandView, Focus, InputMode, RequestTab, next_focus, next_tab_of,
    lemma_without_bounded, lemma_without_contains, prev_tab_of, step, update_panics,
};
use crate::event::{AppEventView, KeyCode, KeyEvent};
use crate::http::{
    collected_headers, is_last_of_name, lemma_kept_covers, lemma_kept_distinct, lemma_kept_members,
    names_distinct,
};
use crate::http::{BuilderStepView, request_steps_of, status_text_of, canonical_reason_of};
use crate::request::{AuthView, CollectionView, RequestView};
use crate::ui::{Color, header_value, sidebar_lines, status_color_of};

verus! {

/// Pressing `Tab` three times in Normal mode brings the focus, and the whole
/// state, back to where it was: the three panels form one cycle.
pub proof fn tab_cycles_through_three_panels(s: AppView, k: KeyEvent)
    requires
        s.input_mode == InputMode::Normal,
        k.code == KeyCode::Tab,
    ensures
        next_focus(next_focus(next_focus(s.focus))) == s.focus,
        step(step(step(s, AppEventView::Key(k)).0, AppEventView::Key(k)).0, AppEventView::Key(k)).0
            == s,
{
    let s1 = step(s, AppEventView::Key(k)).0;
    let s2 = step(s1, AppEventView::Key(k)).0;
    let s3 = step(s2, AppEventView::Key(k)).0;
    assert(s3 =~= s);
}

/// The request-builder tabs form one cycle of four, and moving left undoes
/// moving right (and the other way round).
pub proof fn tabs_cycle_and_undo(t: RequestTab)
    ensures
        next_tab_of(next_tab_of(next_tab_of(next_tab_of(t)))) == t,
        prev_tab_of(next_tab_of(t)) == t,
        next_tab_of(prev_tab_of(t)) == t,
{
}

/// `Esc` in Insert mode returns to Normal mode and changes nothing else.
pub proof fn esc_returns_to_normal(s: AppView, k: KeyEvent)
    requires
        s.input_mode == InputMode::Insert,
        k.code == KeyCode::Esc,
    ensures
        step(s, AppEventView::Key(k)) == (AppView { input_mode: InputMode::Normal, ..s }, CommandView::Nothing),
{
}

/// `q` in Normal mode quits and changes nothing else.
pub proof fn q_quits(s: AppView, k: KeyEvent)
    requires
        s.input_mode == InputMode::Normal,
        k.code == KeyCode::Char('q'),
    ensures
        step(s, AppEventView::Key(k)) == (AppView { should_quit: true, ..s }, CommandView::Nothing),
{
}

/// Ctrl-C in Normal mode quits and changes nothing else.
pub proof fn ctrl_c_quits(s: AppView, k: KeyEvent)
    requires
        s.input_mode == InputMode::Normal,
        k.code == KeyCode::Char('c'),
        k.control,
    ensures
        step(s, AppEventView::Key(k)) == (AppView { should_quit: true, ..s }, CommandView::Nothing),
{
}

/// In Insert mode every key goes to the focused field: none quits and none
/// asks for outside work.
pub proof fn insert_mode_keys_only_edit(s: AppView, k: KeyEvent)
    requires
        s.input_mode == InputMode::Insert,
    ensures
        step(s, AppEventView::Key(k)).0.should_quit == s.should_quit,
        step(s, AppEventView::Key(k)).1 == CommandView::Nothing,
{
}

/// A request is sent only when `s` is pressed in Normal mode; then the state
/// only changes to "loading", and the request sent is the one in the builder.
pub proof fn only_s_sends(s: AppView, e: AppEventView)
    ensures
        step(s, e).1 is SendRequest <==> (e matches AppEventView::Key(k) && s.input_mode
            == InputMode::Normal && k.code == KeyCode::Char('s')),
        step(s, e).1 is SendRequest ==> step(s, e) == (
            AppView { is_loading: true, ..s },
            CommandView::SendRequest(s.active_request),
        ),
{
}

/// A response arriving is shown and ends loading, and nothing else changes;
/// key presses never change the response shown.
pub proof fn responses_come_only_from_the_network(s: AppView, e: AppEventView)
    ensures
        e matches AppEventView::HttpResponse(r) ==> step(s, e) == (
            AppView { response: Some(r), is_loading: false, ..s },
            CommandView::Nothing,
        ),
        e is Key ==> step(s, e).0.response == s.response,
{
}

/// In Normal mode no key edits any text: the request's name, URL, body and
/// authentication and the collection names stay as they were; only `a`
/// (add a row) and `d` (delete the selected row) change the headers, and
/// only `n` and `a` add collections or saved requests.
pub proof fn normal_mode_edits_no_text(s: AppView, k: KeyEvent)
    requires
        s.input_mode == InputMode::Normal,
    ensures
        step(s, AppEventView::Key(k)).0.active_request.name == s.active_request.name,
        step(s, AppEventView::Key(k)).0.active_request.url == s.active_request.url,
        step(s, AppEventView::Key(k)).0.active_request.body == s.active_request.body,
        step(s, AppEventView::Key(k)).0.active_request.auth == s.active_request.auth,
        k.code != KeyCode::Char('a') && k.code != KeyCode::Char('d') ==> step(
            s,
            AppEventView::Key(k),
        ).0.active_request.headers == s.active_request.headers,
        forall|i: int|
            0 <= i < s.collections.len() ==> #[trigger] step(s, AppEventView::Key(k)).0.collections[i].name
                == s.collections[i].name,
        s.collections.len() <= step(s, AppEventView::Key(k)).0.collections.len(),
{
}

/// Pressing `m` twice on the request builder gives the same state back.
pub proof fn method_toggle_is_an_involution(s: AppView, k: KeyEvent)
    requires
        s.input_mode == InputMode::Normal,
        s.focus == Focus::RequestBuilder,
        k.code == KeyCode::Char('m'),
    ensures
        step(step(s, AppEventView::Key(k)).0, AppEventView::Key(k)).0 == s,
{
    let s2 = step(step(s, AppEventView::Key(k)).0, AppEventView::Key(k)).0;
    assert(s2.active_request =~= s.active_request);
    assert(s2 =~= s);
}

/// Typing a character into the URL and then pressing Backspace gives the
/// same state back.
pub proof fn backspace_undoes_typing_in_url(s: AppView, c: KeyEvent, b: KeyEvent)
    requires
        s.input_mode == InputMode::Insert,
        s.focus == Focus::RequestBuilder,
        s.active_tab == RequestTab::Url,
        c.code is Char,
        b.code == KeyCode::Backspace,
    ensures
        step(step(s, AppEventView::Key(c)).0, AppEventView::Key(b)).0 == s,
{
    let s2 = step(step(s, AppEventView::Key(c)).0, AppEventView::Key(b)).0;
    assert(s2.active_request.url =~= s.active_request.url);
    assert(s2.active_request =~= s.active_request);
    assert(s2 =~= s);
}

/// Typing a character into the name of the selected collection and then
/// pressing Backspace gives the same state back.
pub proof fn backspace_undoes_typing_in_collection_name(s: AppView, c: KeyEvent, b: KeyEvent)
    requires
        s.input_mode == InputMode::Insert,
        s.focus == Focus::Collections,
        s.collection_list_state.selected matches Some(i) && i < s.collections.len(),
        c.code is Char,
        b.code == KeyCode::Backspace,
    ensures
        step(step(s, AppEventView::Key(c)).0, AppEventView::Key(b)).0 == s,
{
    let i = s.collection_list_state.selected->0 as int;
    let s2 = step(step(s, AppEventView::Key(c)).0, AppEventView::Key(b)).0;
    assert(s2.collections[i].name =~= s.collections[i].name);
    assert(s2.collections =~= s.collections);
    assert(s2 =~= s);
}

/// Typing a character into the header being edited and then pressing
/// Backspace gives the same state back.
pub proof fn backspace_undoes_typing_in_header(s: AppView, c: KeyEvent, b: KeyEvent)
    requires
        s.input_mode == InputMode::Insert,
        s.on_headers_tab(),
        s.editing_header_field is Some,
        s.selected_header_row < s.active_request.headers.len(),
        c.code is Char,
        b.code == KeyCode::Backspace,
    ensures
        step(step(s, AppEventView::Key(c)).0, AppEventView::Key(b)).0 == s,
{
    let r = s.selected_header_row as int;
    let s2 = step(step(s, AppEventView::Key(c)).0, AppEventView::Key(b)).0;
    assert(s2.active_request.headers[r].0 =~= s.active_request.headers[r].0);
    assert(s2.active_request.headers[r].1 =~= s.active_request.headers[r].1);
    assert(s2.active_request.headers =~= s.active_request.headers);
    assert(s2.active_request =~= s.active_request);
    assert(s2 =~= s);
}

/// Enter on the selected collection collapses it when it is expanded and
/// expands it otherwise; no other collection changes, nor anything else.
pub proof fn enter_toggles_expansion(s: AppView, k: KeyEvent, y: usize)
    requires
        s.input_mode == InputMode::Normal,
        s.focus == Focus::Collections,
        s.collection_list_state.selected is Some,
        k.code == KeyCode::Enter,
    ensures
        step(s, AppEventView::Key(k)).0.expanded_collections.contains(y) == (if y
            == s.collection_list_state.selected->0 {
            !s.expanded_collections.contains(y)
        } else {
            s.expanded_collections.contains(y)
        }),
        step(s, AppEventView::Key(k)) == (
            AppView {
                expanded_collections: step(s, AppEventView::Key(k)).0.expanded_collections,
                ..s
            },
            CommandView::Nothing,
        ),
{
    let i = s.collection_list_state.selected->0;
    let e = s.expanded_collections;
    lemma_without_contains(e, i, y);
    if !e.contains(i) {
        if y == i {
            assert(e.push(i)[e.len() as int] == y);
        } else if e.push(i).contains(y) {
            let m = choose|m: int| 0 <= m < e.push(i).len() && e.push(i)[m] == y;
            assert(e[m] == y);
        } else if e.contains(y) {
            let m = choose|m: int| 0 <= m < e.len() && e[m] == y;
            assert(e.push(i)[m] == y);
        }
    }
}

/// Typing a character into the body and then pressing Backspace gives the
/// same state back, once the request has a body.
pub proof fn backspace_undoes_typing_in_body(s: AppView, c: KeyEvent, b: KeyEvent)
    requires
        s.input_mode == InputMode::Insert,
        s.focus == Focus::RequestBuilder,
        s.active_tab == RequestTab::Body,
        s.active_request.body is Some,
        c.code is Char,
        b.code == KeyCode::Backspace,
    ensures
        step(step(s, AppEventView::Key(c)).0, AppEventView::Key(b)).0 == s,
{
    let s2 = step(step(s, AppEventView::Key(c)).0, AppEventView::Key(b)).0;
    assert(s2.active_request.body->0 =~= s.active_request.body->0);
    assert(s2.active_request =~= s.active_request);
    assert(s2 =~= s);
}

/// Once the application is quitting, no event takes that back.
pub proof fn quitting_is_never_undone(s: AppView, e: AppEventView)
    requires
        s.should_quit,
    ensures
        step(s, e).0.should_quit,
{
}

/// Collections are never removed and saved requests are never removed or
/// reordered: every event keeps each collection's saved requests as a prefix
/// of what it has afterwards, and a selected collection stays one that
/// exists.
pub proof fn collections_only_grow(s: AppView, e: AppEventView)
    requires
        s.collection_list_state.selected matches Some(i) ==> i < s.collections.len(),
        !update_panics(s, e),
    ensures
        step(s, e).0.collections.len() >= s.collections.len(),
        forall|i: int|
            0 <= i < s.collections.len() ==> s.collections[i].requests.is_prefix_of(
                #[trigger] step(s, e).0.collections[i].requests,
            ),
        step(s, e).0.collection_list_state.selected matches Some(i) ==> i < step(
            s,
            e,
        ).0.collections.len(),
{
    let t = step(s, e).0;
    assert forall|i: int| 0 <= i < s.collections.len() implies s.collections[i].requests.is_prefix_of(
        #[trigger] t.collections[i].requests,
    ) by {
        let a = s.collections[i].requests;
        let b = t.collections[i].requests;
        assert forall|k: int| 0 <= k < a.len() implies a[k] == b[k] by {
            if b != a {
                assert(b == a.push(s.active_request));
            }
        }
    }
}

/// Saving the active request (`a` on the collections panel, or Enter after
/// naming a collection) appends it to the selected collection, at the end of
/// its saved requests, and leaves every other collection as it was.
pub proof fn saving_appends_to_the_selected_collection(s: AppView, k: KeyEvent, i: usize, j: int)
    requires
        s.focus == Focus::Collections,
        s.collection_list_state.selected == Some(i),
        i < s.collections.len(),
        (s.input_mode == InputMode::Normal && k.code == KeyCode::Char('a')) || (s.input_mode
            == InputMode::Insert && k.code == KeyCode::Enter),
        0 <= j < s.collections.len(),
    ensures
        step(s, AppEventView::Key(k)).0.collections.len() == s.collections.len(),
        step(s, AppEventView::Key(k)).0.collections[i as int].name == s.collections[i as int].name,
        step(s, AppEventView::Key(k)).0.collections[i as int].requests
            == s.collections[i as int].requests.push(s.active_request),
        j != i ==> step(s, AppEventView::Key(k)).0.collections[j] == s.collections[j],
        step(s, AppEventView::Key(k)).0.active_request == s.active_request,
{
}

/// The outgoing request carries, in this order: one header per header row of
/// the request, as typed; then the body, exactly once, when there is one; then
/// exactly one authentication step matching the authentication (none for no
/// authentication). Nothing else.
pub proof fn request_steps_carry_everything_once(r: RequestView)
    ensures
        request_steps_of(r).len() == r.headers.len() + (if r.body is Some { 1int } else { 0int })
            + (if r.auth is NoAuth { 0int } else { 1int }),
        forall|i: int|
            0 <= i < r.headers.len() ==> #[trigger] request_steps_of(r)[i]
                == BuilderStepView::Header(r.headers[i].0, r.headers[i].1),
        r.body matches Some(b) ==> request_steps_of(r)[r.headers.len() as int]
            == BuilderStepView::Body(b),
        forall|k: int|
            0 <= k < request_steps_of(r).len() && (#[trigger] request_steps_of(r)[k]) is Body
                ==> k == r.headers.len() && r.body == Some(request_steps_of(r)[k]->Body_0),
        r.auth matches AuthView::Bearer(t) ==> request_steps_of(r).last()
            == BuilderStepView::BearerAuth(t),
        r.auth matches AuthView::Basic { username, password } ==> request_steps_of(r).last()
            == BuilderStepView::BasicAuth(username, password),
        r.auth matches AuthView::ApiKey { header, value } ==> request_steps_of(r).last()
            == BuilderStepView::Header(header, value),
        r.auth is NoAuth ==> forall|k: int|
            0 <= k < request_steps_of(r).len() ==> !((#[trigger] request_steps_of(r)[k]) is BearerAuth)
                && !(request_steps_of(r)[k] is BasicAuth),
{
    let hs = r.headers.map_values(|p: (Seq<char>, Seq<char>)| BuilderStepView::Header(p.0, p.1));
    let steps = request_steps_of(r);
    assert forall|k: int|
        0 <= k < steps.len() && (#[trigger] steps[k]) is Body implies k == r.headers.len()
            && r.body == Some(steps[k]->Body_0) by {
        if k < hs.len() {
            assert(steps[k] == hs[k]);
        }
    }
    assert forall|k: int| 0 <= k < steps.len() && r.auth is NoAuth implies !((#[trigger] steps[k]) is BearerAuth)
        && !(steps[k] is BasicAuth) by {
        if k < hs.len() {
            assert(steps[k] == hs[k]);
        }
    }
}

/// The status text of a response is the standard reason phrase of its code
/// whenever the code has one, and empty otherwise.
pub proof fn status_text_is_the_reason_phrase(code: u16)
    ensures
        canonical_reason_of(code) matches Some(t) ==> status_text_of(code) == t,
        canonical_reason_of(code) is None ==> status_text_of(code).len() == 0,
{
}

/// A response is green exactly for 2xx codes, yellow exactly for 3xx codes,
/// and red for every other code (informational, 4xx, 5xx and invalid ones).
pub proof fn status_colours_by_class(status: u16)
    ensures
        (status_color_of(status) == Color::Green) <==> (200 <= status <= 299),
        (status_color_of(status) == Color::Yellow) <==> (300 <= status <= 399),
        (status_color_of(status) == Color::Red) <==> !(200 <= status <= 399),
{
}

proof fn lemma_sidebar_prefix(cols: Seq<CollectionView>, exp: Seq<usize>, n: nat, m: nat)
    requires
        n <= m <= cols.len(),
    ensures
        sidebar_lines(cols, exp, n).is_prefix_of(sidebar_lines(cols, exp, m)),
    decreases m - n,
{
    if n < m {
        lemma_sidebar_prefix(cols, exp, n, (m - 1) as nat);
        let a = sidebar_lines(cols, exp, n);
        let b = sidebar_lines(cols, exp, (m - 1) as nat);
        let c = sidebar_lines(cols, exp, m);
        assert forall|k: int| 0 <= k < a.len() implies a[k] == c[k] by {
            assert(b[k] == c[k]);
        }
    }
}

/// In the sidebar, each collection has its own line (" " and its name),
/// followed, when it is expanded, by exactly one line per saved request in
/// order (indented, the request's name, or its URL when it has no name),
/// and by nothing else before the next collection's line.
pub proof fn sidebar_lists_every_saved_request_of_expanded_collections(
    cols: Seq<CollectionView>,
    exp: Seq<usize>,
    i: int,
)
    requires
        0 <= i < cols.len(),
        i <= usize::MAX,
    ensures
        ({
            let all = sidebar_lines(cols, exp, cols.len());
            let o = sidebar_lines(cols, exp, i as nat).len() as int;
            let rs = cols[i].requests;
            let shown = if exp.contains(i as usize) { rs.len() as int } else { 0int };
            &&& sidebar_lines(cols, exp, (i + 1) as nat).len() == o + 1 + shown
            &&& all[o] == " "@ + cols[i].name
            &&& exp.contains(i as usize) ==> forall|k: int|
                0 <= k < rs.len() ==> #[trigger] all[o + 1 + k] == "    "@ + (if rs[k].name.len()
                    > 0 {
                    rs[k].name
                } else {
                    rs[k].url
                })
        }),
{
    let all = sidebar_lines(cols, exp, cols.len());
    let here = sidebar_lines(cols, exp, (i + 1) as nat);
    let o = sidebar_lines(cols, exp, i as nat).len() as int;
    let rs = cols[i].requests;
    lemma_sidebar_prefix(cols, exp, (i + 1) as nat, cols.len());
    assert(here[o] == " "@ + cols[i].name);
    assert(all[o] == here[o]);
    if exp.contains(i as usize) {
        assert forall|k: int| 0 <= k < rs.len() implies #[trigger] all[o + 1 + k] == "    "@ + (if rs[k].name.len() > 0 {
            rs[k].name
        } else {
            rs[k].url
        }) by {
            assert(here[o + 1 + k] == all[o + 1 + k]);
        }
    }
}

/// Every event keeps the invariant: the selected collection, every expanded
/// collection and the selected header row keep existing.
#[verifier::rlimit(40)]
pub proof fn every_step_keeps_the_invariant(s: AppView, e: AppEventView)
    requires
        s.wf(),
        !update_panics(s, e),
    ensures
        step(s, e).0.wf(),
{
    let t = step(s, e).0;
    if let Some(i) = s.collection_list_state.selected {
        lemma_without_bounded(s.expanded_collections, i, s.collections.len());
    }
    assert forall|j: int| 0 <= j < t.expanded_collections.len() implies
        #[trigger] t.expanded_collections[j] < t.collections.len() by {
        if j < s.expanded_collections.len() {
            assert(s.expanded_collections[j] < s.collections.len());
        }
    }
}

/// Adding a header row with `a` and deleting it straight away with `Delete`
/// leaves the request as it was.
pub proof fn delete_undoes_adding_a_header_row(s: AppView, a: KeyEvent, d: KeyEvent)
    requires
        s.input_mode == InputMode::Normal,
        s.on_headers_tab(),
        a.code == KeyCode::Char('a'),
        d.code == KeyCode::Delete,
        s.active_request.headers.len() < usize::MAX,
    ensures
        step(step(s, AppEventView::Key(a)).0, AppEventView::Key(d)).0.active_request
            == s.active_request,
        step(step(s, AppEventView::Key(a)).0, AppEventView::Key(d)).0.input_mode
            == InputMode::Insert,
{
    let s1 = step(s, AppEventView::Key(a)).0;
    let s2 = step(s1, AppEventView::Key(d)).0;
    assert(s1.selected_header_row == s.active_request.headers.len());
    assert(s1.active_request.headers.remove(s1.selected_header_row as int)
        =~= s.active_request.headers);
    assert(s2.active_request =~= s.active_request);
}

proof fn lemma_header_value_distinct(h: Seq<(Seq<char>, Seq<char>)>, i: int)
    requires
        names_distinct(h),
        0 <= i < h.len(),
    ensures
        header_value(h, h[i].0) == Some(h[i].1),
    decreases i,
{
    if i > 0 {
        assert(h[0].0 != h[i].0);
        let t = h.drop_first();
        assert(names_distinct(t)) by {
            assert forall|a: int, b: int| 0 <= a < b < t.len() implies #[trigger] t[a].0
                != #[trigger] t[b].0 by {
                assert(h[a + 1].0 != h[b + 1].0);
            }
        }
        lemma_header_value_distinct(t, i - 1);
    }
}

proof fn lemma_header_value_absent(h: Seq<(Seq<char>, Seq<char>)>, name: Seq<char>)
    requires
        forall|i: int| 0 <= i < h.len() ==> #[trigger] h[i].0 != name,
    ensures
        header_value(h, name) is None,
    decreases h.len(),
{
    if h.len() > 0 {
        let t = h.drop_first();
        assert forall|i: int| 0 <= i < t.len() implies #[trigger] t[i].0 != name by {
            assert(h[i + 1].0 != name);
        }
        lemma_header_value_absent(t, name);
    }
}

/// Response headers keep one entry per name.
pub proof fn collected_headers_have_one_entry_per_name(p: Seq<(Seq<char>, Seq<char>)>)
    ensures
        names_distinct(collected_headers(p)),
{
    lemma_kept_distinct(p, p.len());
}

/// Looking a header up in a response gives the last value received under
/// that name, and nothing for a name that was not received.
pub proof fn header_lookup_gives_the_last_value(p: Seq<(Seq<char>, Seq<char>)>, name: Seq<char>)
    ensures
        forall|j: int|
            0 <= j < p.len() && p[j].0 == name && is_last_of_name(p, j) ==> header_value(
                collected_headers(p),
                name,
            ) == Some(#[trigger] p[j].1),
        (forall|j: int| 0 <= j < p.len() ==> #[trigger] p[j].0 != name) ==> header_value(
            collected_headers(p),
            name,
        ) is None,
{
    let r = collected_headers(p);
    lemma_kept_distinct(p, p.len());
    lemma_kept_members(p, p.len());
    assert forall|j: int|
        0 <= j < p.len() && p[j].0 == name && is_last_of_name(p, j) implies header_value(r, name)
            == Some(#[trigger] p[j].1) by {
        lemma_kept_covers(p, p.len(), j);
        let i = choose|i: int| 0 <= i < r.len() && #[trigger] r[i] == p[j];
        lemma_header_value_distinct(r, i);
    }
    if forall|j: int| 0 <= j < p.len() ==> #[trigger] p[j].0 != name {
        assert forall|i: int| 0 <= i < r.len() implies #[trigger] r[i].0 != name by {
            let j = choose|j: int| #![trigger p[j]] 0 <= j < p.len() && r[i] == p[j] && is_last_of_name(p, j);
            assert(p[j].0 != name);
        }
        lemma_header_value_absent(r, name);
    }
}

} // verus!
