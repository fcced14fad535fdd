//! A request as the handlers see it.

use crate::headers::header_fields;
use crate::response::Method;
use hyper::HeaderMap;
use vstd::prelude::*;

verus! {

/// What a handler reads of a request, put together once when the request comes in.
pub struct Request {
    pub method: Method,
    /// The host that the request is meant for, where it names one.
    pub host: Option<String>,
    /// The path of the request target. It begins with `/`.
    pub path: String,
    /// What follows the `?` of the request target, where there is one.
    pub query: Option<String>,
    pub headers: HeaderMap,
    /// The address of the peer that is connected, where it is known.
    pub peer: Option<String>,
}

/// What a [`Request`] holds.
pub struct RequestView {
    pub method: Method,
    pub host: Option<Seq<char>>,
    pub path: Seq<char>,
    pub query: Option<Seq<char>>,
    pub fields: Map<Seq<char>, Seq<Seq<u8>>>,
    pub peer: Option<Seq<char>>,
}

/// The text that an optional string holds.
pub open spec fn text_of(text: Option<String>) -> Option<Seq<char>> {
    match text {
        Some(t) => Some(t@),
        None => None,
    }
}

impl View for Request {
    type V = RequestView;

    open spec fn view(&self) -> RequestView {
        RequestView {
            method: self.method,
            host: text_of(self.host),
            path: self.path@,
            query: text_of(self.query),
            fields: header_fields(self.headers),
            peer: text_of(self.peer),
        }
    }
}

/// The path with its query behind a `?`, where there is a query.
pub open spec fn path_and_query(path: Seq<char>, query: Option<Seq<char>>) -> Seq<char> {
    match query {
        Some(q) => path + "?"@ + q,
        None => path,
    }
}

/// Appends to `text` the path with its query behind a `?`, where there is a query.
pub fn push_path_and_query(text: &mut String, path: &str, query: Option<&str>)
    ensures
        final(text)@ == old(text)@ + path_and_query(path@, match query {
            Some(q) => Some(q@),
            None => None,
        }),
{
    text.append(path);
    match query {
        Some(q) => {
            text.append("?");
            text.append(q);
        },
        None => {},
    }
}

} // verus!
