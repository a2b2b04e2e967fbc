//! Plain-value models of the HTTP requests and responses that cross the
//! boundary between the web framework and this library's routing logic.

use vstd::prelude::*;

verus! {

/// The request methods of HTTP. The route table below answers `Get` alone;
/// every other method is carried so that contracts can speak about it.
#[derive(Clone, Copy, PartialEq, Eq, Structural, Debug)]
pub enum Method {
    Get,
    Head,
    Post,
    Put,
    Delete,
    Connect,
    Options,
    Trace,
    Patch,
}

/// One request header, reduced to its name and its text.
pub struct Header {
    pub name: String,
    pub text: String,
}

/// An incoming request, reduced to the parts a router can see: the method,
/// the path of the request target, the query string (empty when the target
/// carries none), and the headers.
pub struct Request {
    pub method: Method,
    pub path: String,
    pub query: String,
    pub headers: Vec<Header>,
}

/// An outgoing response: a status code and a text body.
pub struct Response {
    pub status: u16,
    pub body: String,
}

} // verus!
