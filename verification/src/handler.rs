//! The route table and the handler: which requests the server answers, and
//! with exactly what.

use vstd::prelude::*;

use crate::http::{Method, Request, Response};

verus! {

/// The two flavours of the backend. They serve the same single route and
/// differ only in the greeting text of the body.
#[derive(Clone, Copy, PartialEq, Eq, Structural, Debug)]
pub enum Flavour {
    Actix,
    Axum,
}

/// The greeting text a flavour answers with.
pub open spec fn greeting_spec(f: Flavour) -> Seq<char> {
    match f {
        Flavour::Actix => "Hello world!"@,
        Flavour::Axum => "Hello, World!"@,
    }
}

/// The one registered route: a GET of the root path. Nothing else matches.
pub open spec fn is_root_get(m: Method, path: Seq<char>) -> bool {
    m == Method::Get && path == "/"@
}

/// The greeting as an owned string.
pub fn greeting(f: Flavour) -> (s: String)
    ensures
        s@ == greeting_spec(f),
{
    match f {
        Flavour::Actix => "Hello world!".to_owned(),
        Flavour::Axum => "Hello, World!".to_owned(),
    }
}

/// Whether the request hits the one registered route.
pub fn matches_route(req: &Request) -> (b: bool)
    ensures
        b == is_root_get(req.method, req.path@),
{
    let root: String = "/".to_owned();
    req.method == Method::Get && req.path == root
}

/// What the server answers, as status and body text: the fixed greeting for
/// the one route, and nothing for every other request, which is left to the
/// framework's own no-match answer.
pub open spec fn response_spec(f: Flavour, m: Method, path: Seq<char>) -> Option<(u16, Seq<char>)> {
    if is_root_get(m, path) {
        Some((200u16, greeting_spec(f)))
    } else {
        None
    }
}

/// The observable part of a handler result: its status and its body text.
pub open spec fn response_view(r: Option<Response>) -> Option<(u16, Seq<char>)> {
    match r {
        Some(resp) => Some((resp.status, resp.body@)),
        None => None,
    }
}

/// Answer one request. A GET of the root path gets `Some` response, status
/// 200 with the flavour's greeting; every other request gets `None`. The
/// answer is a function of the method and the path alone: the query string
/// and the headers play no part.
pub fn handle(f: Flavour, req: &Request) -> (r: Option<Response>)
    ensures
        response_view(r) == response_spec(f, req.method, req.path@),
{
    if matches_route(req) {
        Some(Response { status: 200, body: greeting(f) })
    } else {
        None
    }
}

/// Law: a GET of the root path is always answered, with status 200 and the
/// flavour's exact greeting, whatever else the request carries and however
/// often it is repeated.
pub proof fn lemma_root_get_answered(f: Flavour, req: Request)
    requires
        req.method == Method::Get,
        req.path@ == "/"@,
    ensures
        response_spec(f, req.method, req.path@) == Some((200u16, greeting_spec(f))),
{
}

/// Law: no route besides the root GET exists: every other method or path is
/// handed back unanswered, for the framework's default no-match response.
pub proof fn lemma_no_other_route(f: Flavour, m: Method, path: Seq<char>)
    requires
        !is_root_get(m, path),
    ensures
        response_spec(f, m, path) is None,
{
}

/// Law: two requests that agree on method and path get identical answers,
/// however they differ in query strings or headers. The answer reads no
/// state, so concurrent clients cannot influence one another's response.
pub proof fn lemma_answers_identical(f: Flavour, a: Request, b: Request)
    requires
        a.method == b.method,
        a.path@ == b.path@,
    ensures
        response_spec(f, a.method, a.path@) == response_spec(f, b.method, b.path@),
{
}

} // verus!
