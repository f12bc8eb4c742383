//! Turning a [`Request`] into an HTTP request, and the answer back into a
//! [`Response`]. The network round trip itself happens outside the library.

use vstd::prelude::*;
use crate::request::{Auth, AuthView, HttpMethod, Request, RequestView, Response, ResponseView, pairs_view};
use crate::text::{append_str, copy_string, string_of};

verus! {

#[verifier::external_type_specification]
#[verifier::external_body]
pub struct ExClient(reqwest::Client);

#[verifier::external_type_specification]
#[verifier::external_body]
pub struct ExRequestBuilder(reqwest::RequestBuilder);

/// One thing done to a request builder after choosing the method and URL.
#[derive(Debug, PartialEq)]
pub enum BuilderStep {
    /// Add a header.
    Header(String, String),
    /// Set the body.
    Body(String),
    /// `Authorization: Bearer <token>`.
    BearerAuth(String),
    /// HTTP basic authentication with a user name and a password.
    BasicAuth(String, String),
}

/// The mathematical value of a [`BuilderStep`].
pub enum BuilderStepView {
    Header(Seq<char>, Seq<char>),
    Body(Seq<char>),
    BearerAuth(Seq<char>),
    BasicAuth(Seq<char>, Seq<char>),
    /// The basic authentication that a builder takes from user information
    /// written in its URL: a user name and, if given, a password.
    UrlCredentials(Seq<char>, Option<Seq<char>>),
}

impl View for BuilderStep {
    type V = BuilderStepView;

    open spec fn view(&self) -> BuilderStepView {
        match self {
            BuilderStep::Header(k, v) => BuilderStepView::Header(k@, v@),
            BuilderStep::Body(b) => BuilderStepView::Body(b@),
            BuilderStep::BearerAuth(t) => BuilderStepView::BearerAuth(t@),
            BuilderStep::BasicAuth(u, p) => BuilderStepView::BasicAuth(u@, p@),
        }
    }
}

/// The mathematical value of a list of builder steps.
pub open spec fn steps_view(s: Seq<BuilderStep>) -> Seq<BuilderStepView> {
    s.map_values(|x: BuilderStep| x@)
}

/// The step that applies an authentication, if any.
pub open spec fn auth_steps(auth: AuthView) -> Seq<BuilderStepView> {
    match auth {
        AuthView::NoAuth => Seq::empty(),
        AuthView::Bearer(t) => seq![BuilderStepView::BearerAuth(t)],
        AuthView::Basic { username, password } => seq![BuilderStepView::BasicAuth(username, password)],
        AuthView::ApiKey { header, value } => seq![BuilderStepView::Header(header, value)],
    }
}

/// What is done to the builder for a request, in order: every header as
/// typed, then the body if there is one, then the authentication.
pub open spec fn request_steps_of(r: RequestView) -> Seq<BuilderStepView> {
    r.headers.map_values(|p: (Seq<char>, Seq<char>)| BuilderStepView::Header(p.0, p.1))
        + (match r.body {
        Some(b) => seq![BuilderStepView::Body(b)],
        None => Seq::empty(),
    }) + auth_steps(r.auth)
}

/// The steps that turn `request` into an outgoing HTTP request.
pub fn request_steps(request: &Request) -> (steps: Vec<BuilderStep>)
    ensures
        steps_view(steps@) == request_steps_of(request@),
{
    let mut steps: Vec<BuilderStep> = Vec::new();
    let mut i: usize = 0;
    while i < request.headers.len()
        invariant
            i <= request.headers@.len(),
            steps_view(steps@) == request@.headers.subrange(0, i as int).map_values(
                |p: (Seq<char>, Seq<char>)| BuilderStepView::Header(p.0, p.1),
            ),
        decreases request.headers@.len() - i,
    {
        let step = BuilderStep::Header(copy_string(&request.headers[i].0), copy_string(&request.headers[i].1));
        let ghost before = steps@;
        steps.push(step);
        i = i + 1;
        proof {
            assert(steps_view(steps@) =~= steps_view(before).push(step@));
            assert(request@.headers.subrange(0, i as int) =~= request@.headers.subrange(
                0,
                i - 1,
            ).push(request@.headers[i - 1]));
            assert(steps_view(steps@) =~= request@.headers.subrange(0, i as int).map_values(
                |p: (Seq<char>, Seq<char>)| BuilderStepView::Header(p.0, p.1),
            ));
        }
    }
    proof {
        assert(request@.headers.subrange(0, request@.headers.len() as int) =~= request@.headers);
    }
    let ghost after_headers = steps@;
    if let Some(body) = &request.body {
        steps.push(BuilderStep::Body(copy_string(body)));
    }
    let ghost after_body = steps@;
    match &request.auth {
        Auth::Bearer(token) => steps.push(BuilderStep::BearerAuth(copy_string(token))),
        Auth::Basic { username, password } => steps.push(
            BuilderStep::BasicAuth(copy_string(username), copy_string(password)),
        ),
        Auth::ApiKey { header, value } => steps.push(
            BuilderStep::Header(copy_string(header), copy_string(value)),
        ),
        Auth::NoAuth => {},
    }
    proof {
        let hs = request@.headers.map_values(
            |p: (Seq<char>, Seq<char>)| BuilderStepView::Header(p.0, p.1),
        );
        let bs = match request@.body {
            Some(b) => seq![BuilderStepView::Body(b)],
            None => Seq::empty(),
        };
        assert(steps_view(after_body) =~= hs + bs);
        assert(steps_view(steps@) =~= steps_view(after_body) + auth_steps(request@.auth));
        assert(steps_view(steps@) =~= hs + bs + auth_steps(request@.auth));
    }
    steps
}

#[verifier::external_type_specification]
#[verifier::external_body]
pub struct ExReqwestError(reqwest::Error);

/// Why no outgoing request could be prepared.
#[derive(Debug)]
pub enum BuildError {
    /// The HTTP client could not be set up (no TLS backend, or the system
    /// resolver configuration could not be read).
    ClientSetup(reqwest::Error),
}

/// At most this many header, body and authentication calls are made on one
/// builder. With that many header entries at most, `http::HeaderMap` never
/// needs to grow past its limit of 2^15 slots, where `append` panics.
pub const MAX_BUILDER_STEPS: usize = 6553;

/// The user name and (optional) password that reqwest takes out of a URL
/// text when starting a request builder: present when the text parses as a
/// URL whose user information holds a non-empty user name or a password,
/// both percent-decoded.
pub uninterp spec fn url_credentials(url: Seq<char>) -> Option<(Seq<char>, Option<Seq<char>>)>;

/// The calls a request builder starts with: basic authentication with the
/// credentials written in the URL, if there are any.
pub open spec fn url_credential_steps(url: Seq<char>) -> Seq<BuilderStepView> {
    match url_credentials(url) {
        Some((username, password)) => seq![BuilderStepView::UrlCredentials(username, password)],
        None => Seq::empty(),
    }
}

/// The method a request builder was started with.
pub uninterp spec fn builder_method_of(builder: reqwest::RequestBuilder) -> HttpMethod;

/// The URL text a request builder was started with.
pub uninterp spec fn builder_url_of(builder: reqwest::RequestBuilder) -> Seq<char>;

/// The header, body and authentication calls made on a request builder since
/// it was started, in order, including the basic authentication that
/// starting it took from credentials in the URL.
pub uninterp spec fn builder_steps_of(builder: reqwest::RequestBuilder) -> Seq<BuilderStepView>;

/// `reqwest::Client::builder().build()`: a client with default settings, or
/// the error that setting it up gave (no TLS backend, or the system resolver
/// configuration could not be loaded). Which of the two comes back depends on
/// the machine; nothing is claimed of it.
#[verifier::external_body]
fn new_client() -> Result<reqwest::Client, reqwest::Error> {
    reqwest::Client::builder().build()
}

/// `reqwest::Client::get`: starts a GET request to `url`. When the URL
/// carries a user name or password, reqwest removes them from the URL and
/// calls `basic_auth` with them; otherwise no call is made yet. An
/// unparsable URL is kept inside the builder as an error for `send` to
/// report.
#[verifier::external_body]
fn client_get(client: &reqwest::Client, url: &str) -> (b: reqwest::RequestBuilder)
    ensures
        builder_method_of(b) == HttpMethod::Get,
        builder_url_of(b) == url@,
        url_credentials(url@) is None ==> builder_steps_of(b) == Seq::<BuilderStepView>::empty(),
        url_credentials(url@) matches Some((u, p)) ==> builder_steps_of(b) == seq![
            BuilderStepView::UrlCredentials(u, p),
        ],
{
    client.get(url)
}

/// `reqwest::Client::post`: starts a POST request to `url`, as `client_get`.
#[verifier::external_body]
fn client_post(client: &reqwest::Client, url: &str) -> (b: reqwest::RequestBuilder)
    ensures
        builder_method_of(b) == HttpMethod::Post,
        builder_url_of(b) == url@,
        url_credentials(url@) is None ==> builder_steps_of(b) == Seq::<BuilderStepView>::empty(),
        url_credentials(url@) matches Some((u, p)) ==> builder_steps_of(b) == seq![
            BuilderStepView::UrlCredentials(u, p),
        ],
{
    client.post(url)
}

/// `reqwest::RequestBuilder::header`: appends the header `key: value` (an
/// invalid name or value is kept as an error for `send`). The method and URL
/// stay.
#[verifier::external_body]
fn builder_header(builder: reqwest::RequestBuilder, key: &str, value: &str) -> (b: reqwest::RequestBuilder)
    requires
        builder_steps_of(builder).len() < MAX_BUILDER_STEPS,
    ensures
        builder_method_of(b) == builder_method_of(builder),
        builder_url_of(b) == builder_url_of(builder),
        builder_steps_of(b) == builder_steps_of(builder).push(BuilderStepView::Header(key@, value@)),
{
    builder.header(key, value)
}

/// `reqwest::RequestBuilder::body`: sets the body. The method and URL stay.
#[verifier::external_body]
fn builder_body(builder: reqwest::RequestBuilder, body: String) -> (b: reqwest::RequestBuilder)
    ensures
        builder_method_of(b) == builder_method_of(builder),
        builder_url_of(b) == builder_url_of(builder),
        builder_steps_of(b) == builder_steps_of(builder).push(BuilderStepView::Body(body@)),
{
    builder.body(body)
}

/// `reqwest::RequestBuilder::bearer_auth`: appends the sensitive header
/// `Authorization: Bearer <token>`. The method and URL stay.
#[verifier::external_body]
fn builder_bearer_auth(builder: reqwest::RequestBuilder, token: &str) -> (b: reqwest::RequestBuilder)
    requires
        builder_steps_of(builder).len() < MAX_BUILDER_STEPS,
    ensures
        builder_method_of(b) == builder_method_of(builder),
        builder_url_of(b) == builder_url_of(builder),
        builder_steps_of(b) == builder_steps_of(builder).push(BuilderStepView::BearerAuth(token@)),
{
    builder.bearer_auth(token)
}

/// `reqwest::RequestBuilder::basic_auth`: appends the sensitive basic
/// `Authorization` header for the user name and (present) password. The
/// method and URL stay.
#[verifier::external_body]
fn builder_basic_auth(
    builder: reqwest::RequestBuilder,
    username: &str,
    password: &str,
) -> (b: reqwest::RequestBuilder)
    requires
        builder_steps_of(builder).len() < MAX_BUILDER_STEPS,
    ensures
        builder_method_of(b) == builder_method_of(builder),
        builder_url_of(b) == builder_url_of(builder),
        builder_steps_of(b) == builder_steps_of(builder).push(
            BuilderStepView::BasicAuth(username@, password@),
        ),
{
    builder.basic_auth(username, Some(password))
}

/// The outgoing HTTP request for `request`: started with its method and URL
/// (which, when the URL carries a user name or password, also sets basic
/// authentication from them), then given the steps of [`request_steps`], in
/// order. It fails only when the HTTP client cannot be set up on this
/// machine.
pub fn build_request(request: &Request) -> (r: Result<reqwest::RequestBuilder, BuildError>)
    requires
        request@.headers.len() + 3 <= MAX_BUILDER_STEPS,
    ensures
        r matches Ok(b) ==> builder_method_of(b) == request@.method && builder_url_of(b)
            == request@.url && builder_steps_of(b) == url_credential_steps(request@.url)
            + request_steps_of(request@),
{
    let client = match new_client() {
        Ok(client) => client,
        Err(e) => return Err(BuildError::ClientSetup(e)),
    };
    let mut builder = match request.method {
        HttpMethod::Get => client_get(&client, request.url.as_str()),
        HttpMethod::Post => client_post(&client, request.url.as_str()),
    };
    let steps = request_steps(request);
    proof {
        lemma_steps_len(request@);
    }
    let mut i: usize = 0;
    while i < steps.len()
        invariant
            i <= steps@.len(),
            steps@.len() + 1 <= MAX_BUILDER_STEPS,
            steps_view(steps@) == request_steps_of(request@),
            builder_method_of(builder) == request@.method,
            builder_url_of(builder) == request@.url,
            builder_steps_of(builder) == url_credential_steps(request@.url) + steps_view(
                steps@,
            ).take(i as int),
            url_credential_steps(request@.url).len() <= 1,
        decreases steps@.len() - i,
    {
        let ghost before = builder_steps_of(builder);
        builder = match &steps[i] {
            BuilderStep::Header(k, v) => builder_header(builder, k.as_str(), v.as_str()),
            BuilderStep::Body(b) => builder_body(builder, copy_string(b)),
            BuilderStep::BearerAuth(t) => builder_bearer_auth(builder, t.as_str()),
            BuilderStep::BasicAuth(u, p) => builder_basic_auth(builder, u.as_str(), p.as_str()),
        };
        proof {
            let c = url_credential_steps(request@.url);
            assert(c + steps_view(steps@).take(i + 1) =~= (c + steps_view(steps@).take(
                i as int,
            )).push(steps@[i as int]@));
        }
        i = i + 1;
    }
    proof {
        assert(steps_view(steps@).take(i as int) =~= steps_view(steps@));
    }
    Ok(builder)
}

proof fn lemma_steps_len(r: RequestView)
    ensures
        request_steps_of(r).len() <= r.headers.len() + 2,
{
}

/// The reason phrase that `http::StatusCode::canonical_reason` gives a status
/// code, if it has one.
pub uninterp spec fn canonical_reason_of(code: u16) -> Option<Seq<char>>;

/// `http::StatusCode::canonical_reason` (reqwest re-exports the type) of the
/// status `code`: the standard reason phrase, as named by
/// `canonical_reason_of`. `StatusCode::from_u16` refuses codes outside
/// 100..=999, and those get no phrase.
#[verifier::external_body]
fn canonical_reason(code: u16) -> (r: Option<&'static str>)
    ensures
        r matches Some(s) ==> canonical_reason_of(code) == Some(s@),
        r is None ==> canonical_reason_of(code) is None,
        !(100 <= code <= 999) ==> r is None,
{
    match reqwest::StatusCode::from_u16(code) {
        Ok(status) => status.canonical_reason(),
        Err(_) => None,
    }
}

/// The status text shown for a status code: its reason phrase, or nothing.
pub open spec fn status_text_of(code: u16) -> Seq<char> {
    match canonical_reason_of(code) {
        Some(t) => t,
        None => Seq::empty(),
    }
}

/// The status text shown for `code`.
pub fn status_text(code: u16) -> (r: String)
    ensures
        r@ == status_text_of(code),
{
    match canonical_reason(code) {
        Some(reason) => string_of(reason),
        None => String::new(),
    }
}

/// Pair `i` is the last one in `pairs` with its name.
pub open spec fn is_last_of_name(pairs: Seq<(Seq<char>, Seq<char>)>, i: int) -> bool {
    forall|j: int| i < j < pairs.len() ==> #[trigger] pairs[j].0 != pairs[i].0
}

/// The pairs among the first `n` of `pairs` that are the last of their
/// name, in order.
pub open spec fn last_of_each_name(pairs: Seq<(Seq<char>, Seq<char>)>, n: nat) -> Seq<(Seq<char>, Seq<char>)>
    decreases n,
{
    if n == 0 {
        Seq::empty()
    } else {
        let before = last_of_each_name(pairs, (n - 1) as nat);
        if is_last_of_name(pairs, n - 1) {
            before.push(pairs[n - 1])
        } else {
            before
        }
    }
}

/// Names of distinct entries differ.
pub open spec fn names_distinct(h: Seq<(Seq<char>, Seq<char>)>) -> bool {
    forall|a: int, b: int| 0 <= a < b < h.len() ==> #[trigger] h[a].0 != #[trigger] h[b].0
}

/// Every kept header pair is a pair of the input that is the last of its
/// name.
pub proof fn lemma_kept_members(p: Seq<(Seq<char>, Seq<char>)>, n: nat)
    requires
        n <= p.len(),
    ensures
        forall|i: int| #![trigger last_of_each_name(p, n)[i]]
            0 <= i < last_of_each_name(p, n).len() ==> exists|j: int| #![trigger p[j]]
                0 <= j < n && last_of_each_name(p, n)[i] == p[j] && is_last_of_name(p, j),
    decreases n,
{
    if n > 0 {
        let m = (n - 1) as nat;
        lemma_kept_members(p, m);
        let before = last_of_each_name(p, m);
        let after = last_of_each_name(p, n);
        if is_last_of_name(p, m as int) {
            assert(after == before.push(p[m as int]));
        } else {
            assert(after == before);
        }
        assert forall|i: int| #![trigger after[i]] 0 <= i < after.len() implies exists|j: int| #![trigger p[j]]
            0 <= j < n && after[i] == p[j] && is_last_of_name(p, j) by {
            if i < before.len() {
                let j = choose|j: int| #![trigger p[j]] 0 <= j < m && before[i] == p[j] && is_last_of_name(p, j);
                assert(after[i] == before[i]);
                assert(after[i] == p[j]);
            } else {
                assert(after[i] == p[m as int]);
            }
        }
    }
}

/// Every pair of the input that is the last of its name is kept.
pub proof fn lemma_kept_covers(p: Seq<(Seq<char>, Seq<char>)>, n: nat, j: int)
    requires
        n <= p.len(),
        0 <= j < n,
        is_last_of_name(p, j),
    ensures
        exists|i: int| 0 <= i < last_of_each_name(p, n).len() && #[trigger] last_of_each_name(p, n)[i] == p[j],
    decreases n,
{
    let m = (n - 1) as nat;
    let before = last_of_each_name(p, m);
    let after = last_of_each_name(p, n);
    if j < m {
        lemma_kept_covers(p, m, j);
        let i = choose|i: int| 0 <= i < before.len() && #[trigger] before[i] == p[j];
        if is_last_of_name(p, m as int) {
            assert(after[i] == before[i]);
        }
    } else {
        assert(after[before.len() as int] == p[j]);
    }
}

/// The kept header pairs have distinct names.
pub proof fn lemma_kept_distinct(p: Seq<(Seq<char>, Seq<char>)>, n: nat)
    requires
        n <= p.len(),
    ensures
        names_distinct(last_of_each_name(p, n)),
    decreases n,
{
    if n > 0 {
        let m = (n - 1) as nat;
        lemma_kept_distinct(p, m);
        lemma_kept_members(p, m);
        let before = last_of_each_name(p, m);
        let after = last_of_each_name(p, n);
        if is_last_of_name(p, m as int) {
            assert forall|a: int, b: int| 0 <= a < b < after.len() implies #[trigger] after[a].0
                != #[trigger] after[b].0 by {
                assert(after[a] == before[a]);
                if b < before.len() {
                    assert(after[b] == before[b]);
                } else {
                    let j = choose|j: int| #![trigger p[j]] 0 <= j < m && before[a] == p[j] && is_last_of_name(p, j);
                    assert(p[m as int].0 != p[j].0);
                }
            }
        }
    }
}

/// Response headers as received, one entry per name: when a name comes more
/// than once the last value counts.
pub open spec fn collected_headers(pairs: Seq<(Seq<char>, Seq<char>)>) -> Seq<(Seq<char>, Seq<char>)> {
    last_of_each_name(pairs, pairs.len())
}

fn is_last_name(pairs: &Vec<(String, String)>, i: usize) -> (r: bool)
    requires
        i < pairs@.len(),
    ensures
        r == is_last_of_name(pairs_view(pairs@), i as int),
{
    let n = pairs.len();
    let mut j: usize = i + 1;
    while j < n
        invariant
            i < j <= pairs@.len(),
            n == pairs@.len(),
            forall|k: int| i < k < j ==> #[trigger] pairs_view(pairs@)[k].0 != pairs_view(pairs@)[i as int].0,
        decreases pairs@.len() - j,
    {
        if pairs[j].0 == pairs[i].0 {
            proof {
                assert(pairs_view(pairs@)[j as int].0 == pairs_view(pairs@)[i as int].0);
            }
            return false;
        }
        j = j + 1;
    }
    true
}

/// Response headers with one entry per name, the last value of each.
pub fn collect_headers(pairs: &Vec<(String, String)>) -> (r: Vec<(String, String)>)
    ensures
        pairs_view(r@) == collected_headers(pairs_view(pairs@)),
{
    let mut r: Vec<(String, String)> = Vec::new();
    let mut i: usize = 0;
    while i < pairs.len()
        invariant
            i <= pairs@.len(),
            pairs_view(r@) == last_of_each_name(pairs_view(pairs@), i as nat),
        decreases pairs@.len() - i,
    {
        let ghost before = r@;
        if is_last_name(pairs, i) {
            r.push((copy_string(&pairs[i].0), copy_string(&pairs[i].1)));
            proof {
                assert(pairs_view(r@) =~= pairs_view(before).push(pairs_view(pairs@)[i as int]));
            }
        }
        i = i + 1;
    }
    r
}

/// The response to show for an answer with this status, these headers (as
/// received), this body and this round-trip time.
pub fn response_from_parts(
    status: u16,
    headers: Vec<(String, String)>,
    body: String,
    duration_ms: u128,
) -> (r: Response)
    ensures
        r@ == (ResponseView {
            status,
            status_text: status_text_of(status),
            headers: collected_headers(pairs_view(headers@)),
            body: body@,
            duration_ms,
        }),
        names_distinct(r@.headers),
{
    proof {
        lemma_kept_distinct(pairs_view(headers@), pairs_view(headers@).len());
    }
    Response {
        status,
        status_text: status_text(status),
        headers: collect_headers(&headers),
        body,
        duration_ms,
    }
}

/// The response shown when a request could not be sent: status 0,
/// "Error", no headers, and the message after "Error: ".
pub fn error_response(message: &str) -> (r: Response)
    ensures
        r@ == (ResponseView {
            status: 0,
            status_text: "Error"@,
            headers: Seq::empty(),
            body: "Error: "@ + message@,
            duration_ms: 0,
        }),
{
    let mut body = string_of("Error: ");
    append_str(&mut body, message);
    let r = Response {
        status: 0,
        status_text: string_of("Error"),
        headers: Vec::new(),
        body,
        duration_ms: 0,
    };
    proof {
        assert(r@.headers =~= Seq::<(Seq<char>, Seq<char>)>::empty());
    }
    r
}

} // verus!
