//! The responses that the handlers build themselves.

use vstd::prelude::*;

verus! {

/// The method of a request.
#[derive(Clone, Copy, Debug, PartialEq, Eq, Structural)]
pub enum Method {
    Get,
    Head,
    Post,
    Put,
    Delete,
    Connect,
    Options,
    Trace,
    Patch,
    /// Any method that has no name above.
    Other,
}

impl Method {
    /// Whether the method only reads: `GET` or `HEAD`.
    pub open spec fn reads(self) -> bool {
        self == Method::Get || self == Method::Head
    }

    /// Whether the method only reads: `GET` or `HEAD`.
    pub fn is_read(&self) -> (reads: bool)
        ensures
            reads == self.reads(),
    {
        match self {
            Method::Get => true,
            Method::Head => true,
            _ => false,
        }
    }
}

pub const OK: u16 = 200;

pub const MOVED_PERMANENTLY: u16 = 301;

pub const FOUND: u16 = 302;

pub const TEMPORARY_REDIRECT: u16 = 307;

pub const BAD_REQUEST: u16 = 400;

pub const NOT_FOUND: u16 = 404;

pub const METHOD_NOT_ALLOWED: u16 = 405;

pub const INTERNAL_SERVER_ERROR: u16 = 500;

/// A response that is complete as it stands: a status, headers in order, and a body.
#[derive(Debug)]
pub struct Response {
    pub status: u16,
    pub headers: Vec<(String, String)>,
    pub body: Vec<u8>,
}

/// What a [`Response`] holds.
pub struct ResponseView {
    pub status: u16,
    pub headers: Seq<(Seq<char>, Seq<char>)>,
    pub body: Seq<u8>,
}

impl View for Response {
    type V = ResponseView;

    open spec fn view(&self) -> ResponseView {
        ResponseView {
            status: self.status,
            headers: Seq::new(
                self.headers@.len(),
                |i: int| (self.headers@[i].0@, self.headers@[i].1@),
            ),
            body: self.body@,
        }
    }
}

/// The name of the header that holds the target of a redirect.
pub open spec fn location() -> Seq<char> {
    "location"@
}

/// The name of the header that holds the type of a body.
pub open spec fn content_type() -> Seq<char> {
    "content-type"@
}

/// The name of the header that lists the methods a resource accepts.
pub open spec fn allow() -> Seq<char> {
    "allow"@
}

/// A response with one header.
pub open spec fn with_header(status: u16, name: Seq<char>, value: Seq<char>, body: Seq<u8>)
    -> ResponseView {
    ResponseView { status, headers: seq![(name, value)], body }
}

/// A redirect to `target`, without a body.
pub open spec fn redirect(status: u16, target: Seq<char>) -> ResponseView {
    with_header(status, location(), target, Seq::empty())
}

/// The refusal of a method that only `GET` and `HEAD` may replace.
pub open spec fn method_not_allowed() -> ResponseView {
    with_header(METHOD_NOT_ALLOWED, allow(), "GET,HEAD"@, Seq::empty())
}

/// The refusal of a request that names no host.
pub open spec fn bad_request() -> ResponseView {
    ResponseView { status: BAD_REQUEST, headers: Seq::empty(), body: Seq::empty() }
}

impl Response {
    /// A response with one header.
    pub fn with_header(status: u16, name: &str, value: String, body: Vec<u8>) -> (response:
        Response)
        ensures
            response@ == with_header(status, name@, value@, body@),
    {
        let mut headers: Vec<(String, String)> = Vec::new();
        headers.push((name.to_owned(), value));
        let response = Response { status, headers, body };
        assert(response@.headers =~= seq![(name@, value@)]);
        response
    }

    /// A redirect to `target`, without a body.
    pub fn redirect(status: u16, target: String) -> (response: Response)
        ensures
            response@ == redirect(status, target@),
    {
        Response::with_header(status, "location", target, Vec::new())
    }

    /// The refusal of a method that only `GET` and `HEAD` may replace.
    pub fn method_not_allowed() -> (response: Response)
        ensures
            response@ == method_not_allowed(),
    {
        Response::with_header(METHOD_NOT_ALLOWED, "allow", "GET,HEAD".to_owned(), Vec::new())
    }

    /// The refusal of a request that names no host.
    pub fn bad_request() -> (response: Response)
        ensures
            response@ == bad_request(),
    {
        let response = Response { status: BAD_REQUEST, headers: Vec::new(), body: Vec::new() };
        assert(response@.headers =~= Seq::empty());
        response
    }
}

} // verus!
