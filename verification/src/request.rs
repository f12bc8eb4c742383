//! The requests the user builds, the collections they are saved in, and the
//! responses that come back.

use vstd::prelude::*;
use crate::text::copy_string;

verus! {

/// The HTTP method of a request.
#[derive(Debug, Clone, Copy, PartialEq, Eq, Structural, Default)]
pub enum HttpMethod {
    #[default]
    Get,
    Post,
}

/// How a request authenticates itself.
#[derive(Debug, PartialEq)]
pub enum Auth {
    NoAuth,
    Bearer(String),
    Basic { username: String, password: String },
    ApiKey { header: String, value: String },
}

/// The mathematical value of an [`Auth`].
#[verifier::ext_equal]
pub enum AuthView {
    NoAuth,
    Bearer(Seq<char>),
    Basic { username: Seq<char>, password: Seq<char> },
    ApiKey { header: Seq<char>, value: Seq<char> },
}

impl View for Auth {
    type V = AuthView;

    open spec fn view(&self) -> AuthView {
        match self {
            Auth::NoAuth => AuthView::NoAuth,
            Auth::Bearer(t) => AuthView::Bearer(t@),
            Auth::Basic { username, password } => AuthView::Basic {
                username: username@,
                password: password@,
            },
            Auth::ApiKey { header, value } => AuthView::ApiKey { header: header@, value: value@ },
        }
    }
}

impl Clone for Auth {
    fn clone(&self) -> (r: Self)
        ensures
            r@ == self@,
    {
        match self {
            Auth::NoAuth => Auth::NoAuth,
            Auth::Bearer(t) => Auth::Bearer(copy_string(t)),
            Auth::Basic { username, password } => Auth::Basic {
                username: copy_string(username),
                password: copy_string(password),
            },
            Auth::ApiKey { header, value } => Auth::ApiKey {
                header: copy_string(header),
                value: copy_string(value),
            },
        }
    }
}

impl Default for Auth {
    fn default() -> (r: Self)
        ensures
            r@ == AuthView::NoAuth,
    {
        Auth::NoAuth
    }
}

/// A list of name/value pairs, as the user typed them.
pub open spec fn pairs_view(s: Seq<(String, String)>) -> Seq<(Seq<char>, Seq<char>)> {
    s.map_values(|p: (String, String)| (p.0@, p.1@))
}

/// A copy of a list of name/value pairs.
pub fn copy_pairs(v: &Vec<(String, String)>) -> (r: Vec<(String, String)>)
    ensures
        pairs_view(r@) == pairs_view(v@),
{
    let mut r: Vec<(String, String)> = Vec::new();
    let mut i: usize = 0;
    while i < v.len()
        invariant
            i <= v@.len(),
            r@.len() == i,
            forall|k: int| 0 <= k < i ==> #[trigger] r@[k].0@ == v@[k].0@ && r@[k].1@ == v@[k].1@,
        decreases v@.len() - i,
    {
        let k = copy_string(&v[i].0);
        let x = copy_string(&v[i].1);
        r.push((k, x));
        i = i + 1;
    }
    proof {
        assert(pairs_view(r@) =~= pairs_view(v@));
    }
    r
}

/// A copy of an optional string.
pub fn copy_opt_string(s: &Option<String>) -> (r: Option<String>)
    ensures
        opt_view(r) == opt_view(*s),
{
    match s {
        Some(t) => Some(copy_string(t)),
        None => None,
    }
}

/// The mathematical value of an optional string.
pub open spec fn opt_view(s: Option<String>) -> Option<Seq<char>> {
    match s {
        Some(t) => Some(t@),
        None => None,
    }
}

/// A request as the user builds it in the request builder.
#[derive(Debug)]
pub struct Request {
    pub name: String,
    pub method: HttpMethod,
    pub url: String,
    pub headers: Vec<(String, String)>,
    pub body: Option<String>,
    pub auth: Auth,
}

/// The mathematical value of a [`Request`].
#[verifier::ext_equal]
pub struct RequestView {
    pub name: Seq<char>,
    pub method: HttpMethod,
    pub url: Seq<char>,
    pub headers: Seq<(Seq<char>, Seq<char>)>,
    pub body: Option<Seq<char>>,
    pub auth: AuthView,
}

impl View for Request {
    type V = RequestView;

    open spec fn view(&self) -> RequestView {
        RequestView {
            name: self.name@,
            method: self.method,
            url: self.url@,
            headers: pairs_view(self.headers@),
            body: opt_view(self.body),
            auth: self.auth@,
        }
    }
}

/// The request that the builder starts with: unnamed, GET, no URL, no
/// headers, no body, no authentication.
pub open spec fn empty_request() -> RequestView {
    RequestView {
        name: Seq::empty(),
        method: HttpMethod::Get,
        url: Seq::empty(),
        headers: Seq::empty(),
        body: None,
        auth: AuthView::NoAuth,
    }
}

impl Default for Request {
    fn default() -> (r: Self)
        ensures
            r@ == empty_request(),
    {
        let r = Request {
            name: String::new(),
            method: HttpMethod::Get,
            url: String::new(),
            headers: Vec::new(),
            body: None,
            auth: Auth::NoAuth,
        };
        proof {
            assert(r@.headers =~= Seq::<(Seq<char>, Seq<char>)>::empty());
        }
        r
    }
}

impl Clone for Request {
    fn clone(&self) -> (r: Self)
        ensures
            r@ == self@,
    {
        Request {
            name: copy_string(&self.name),
            method: self.method,
            url: copy_string(&self.url),
            headers: copy_pairs(&self.headers),
            body: copy_opt_string(&self.body),
            auth: self.auth.clone(),
        }
    }
}

/// A named group of saved requests.
#[derive(Debug)]
pub struct Collection {
    pub name: String,
    pub requests: Vec<Request>,
}

/// The mathematical value of a [`Collection`].
#[verifier::ext_equal]
pub struct CollectionView {
    pub name: Seq<char>,
    pub requests: Seq<RequestView>,
}

/// The mathematical value of a list of requests.
pub open spec fn requests_view(s: Seq<Request>) -> Seq<RequestView> {
    s.map_values(|r: Request| r@)
}

impl View for Collection {
    type V = CollectionView;

    open spec fn view(&self) -> CollectionView {
        CollectionView { name: self.name@, requests: requests_view(self.requests@) }
    }
}

impl Clone for Collection {
    fn clone(&self) -> (r: Self)
        ensures
            r@ == self@,
    {
        let mut requests: Vec<Request> = Vec::new();
        let mut i: usize = 0;
        while i < self.requests.len()
            invariant
                i <= self.requests@.len(),
                requests@.len() == i,
                forall|k: int| 0 <= k < i ==> #[trigger] requests@[k]@ == self.requests@[k]@,
            decreases self.requests@.len() - i,
        {
            requests.push(self.requests[i].clone());
            i = i + 1;
        }
        proof {
            assert(requests_view(requests@) =~= requests_view(self.requests@));
        }
        Collection { name: copy_string(&self.name), requests }
    }
}

impl Default for Collection {
    fn default() -> (r: Self)
        ensures
            r@.name.len() == 0,
            r@.requests.len() == 0,
    {
        Collection { name: String::new(), requests: Vec::new() }
    }
}

/// The result of a completed HTTP request.
#[derive(Debug)]
pub struct Response {
    pub status: u16,
    pub status_text: String,
    pub headers: Vec<(String, String)>,
    pub body: String,
    pub duration_ms: u128,
}

/// The mathematical value of a [`Response`].
#[verifier::ext_equal]
pub struct ResponseView {
    pub status: u16,
    pub status_text: Seq<char>,
    pub headers: Seq<(Seq<char>, Seq<char>)>,
    pub body: Seq<char>,
    pub duration_ms: u128,
}

impl View for Response {
    type V = ResponseView;

    open spec fn view(&self) -> ResponseView {
        ResponseView {
            status: self.status,
            status_text: self.status_text@,
            headers: pairs_view(self.headers@),
            body: self.body@,
            duration_ms: self.duration_ms,
        }
    }
}

impl Default for Response {
    fn default() -> (r: Self)
        ensures
            r@.status == 0,
            r@.status_text.len() == 0,
            r@.headers.len() == 0,
            r@.body.len() == 0,
            r@.duration_ms == 0,
    {
        Response {
            status: 0,
            status_text: String::new(),
            headers: Vec::new(),
            body: String::new(),
            duration_ms: 0,
        }
    }
}

impl Clone for Response {
    fn clone(&self) -> (r: Self)
        ensures
            r@ == self@,
    {
        Response {
            status: self.status,
            status_text: copy_string(&self.status_text),
            headers: copy_pairs(&self.headers),
            body: copy_string(&self.body),
            duration_ms: self.duration_ms,
        }
    }
}

} // verus!
