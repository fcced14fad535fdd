//! The small sites: the liveness probe, the short links, the music link, and the redirect
//! from the second domains.

use crate::error::{Failure, FailureView};
use crate::request::{path_and_query, push_path_and_query};
use crate::response::{method_not_allowed, redirect, Method, Response, ResponseView};
use crate::response::{FOUND, METHOD_NOT_ALLOWED, MOVED_PERMANENTLY, OK};
use crate::shortlinks::ShortlinkTable;
use crate::text::{starts_with, str_eq};
use vstd::prelude::*;

verus! {

/// What a handler gives back, as values: a response or an error.
pub open spec fn answer_view(answer: Result<Response, Failure>) -> Result<
    ResponseView,
    FailureView,
> {
    match answer {
        Ok(response) => Ok(response@),
        Err(error) => Err(error@),
    }
}

/// The path of the liveness probe.
pub open spec fn health_path() -> Seq<char> {
    "/healthz"@
}

/// The answer of the liveness probe: 200 with the plain text `ok`.
pub open spec fn health_ok() -> ResponseView {
    ResponseView {
        status: OK,
        headers: seq![("content-type"@, "text/plain; charset=utf-8"@)],
        body: seq![0x6fu8, 0x6bu8],
    }
}

/// What the probe's host answers: `ok` on the probe's path, whatever the method, and
/// nothing elsewhere.
pub open spec fn health_check_answer(path: Seq<char>) -> Result<ResponseView, FailureView> {
    if path == health_path() {
        Ok(health_ok())
    } else {
        Err(FailureView::NotFound)
    }
}

/// The liveness probe. It reads nothing but the path.
pub fn health_check_router(path: &str) -> (answer: Result<Response, Failure>)
    ensures
        answer_view(answer) == health_check_answer(path@),
{
    if str_eq(path, "/healthz") {
        let mut body: Vec<u8> = Vec::new();
        body.push(0x6fu8);
        body.push(0x6bu8);
        let response = Response::with_header(
            OK,
            "content-type",
            "text/plain; charset=utf-8".to_owned(),
            body,
        );
        assert(response@.body =~= seq![0x6fu8, 0x6bu8]);
        Ok(response)
    } else {
        Err(Failure::NotFound)
    }
}

/// The root path.
pub open spec fn root() -> Seq<char> {
    "/"@
}

/// What the host of the short links answers. A path that does not begin with `/` names
/// nothing. Only `GET` and `HEAD` are served. The root redirects to the site; any other path
/// is a key, the path without its first `/`, and redirects to the address stored under it.
pub open spec fn shortlinks_answer(
    table: Map<Seq<char>, Seq<char>>,
    site_url: Seq<char>,
    method: Method,
    path: Seq<char>,
) -> Result<ResponseView, FailureView> {
    if !root().is_prefix_of(path) {
        Err(FailureView::NotFound)
    } else if !method.reads() {
        Ok(method_not_allowed())
    } else if path == root() {
        Ok(redirect(FOUND, site_url))
    } else if table.contains_key(path.skip(1)) {
        Ok(redirect(FOUND, table[path.skip(1)]))
    } else {
        Err(FailureView::NotFound)
    }
}

/// The short links.
pub fn shortlinks_router(table: &ShortlinkTable, site_url: &str, method: Method, path: &str)
    -> (answer: Result<Response, Failure>)
    ensures
        answer_view(answer) == shortlinks_answer(table@, site_url@, method, path@),
{
    proof {
        reveal_strlit("/");
    }
    if !starts_with(path, "/") {
        return Err(Failure::NotFound);
    }
    if !method.is_read() {
        return Ok(Response::method_not_allowed());
    }
    if str_eq(path, "/") {
        return Ok(Response::redirect(FOUND, site_url.to_owned()));
    }
    let key = path.substring_char(1, path.unicode_len());
    match table.get(key) {
        Some(url) => Ok(Response::redirect(FOUND, url.clone())),
        None => Err(Failure::NotFound),
    }
}

/// A short link leads to the address stored under it and nowhere else: for `GET` and
/// `HEAD`, the path made of a slash and a key redirects to that address where the table
/// holds the key, and is not found where it does not.
pub proof fn lemma_shortlink_round_trip(
    table: Map<Seq<char>, Seq<char>>,
    site_url: Seq<char>,
    method: Method,
    key: Seq<char>,
)
    requires
        method.reads(),
        key.len() > 0,
    ensures
        shortlinks_answer(table, site_url, method, root() + key) == if table.contains_key(key) {
            Ok::<ResponseView, FailureView>(redirect(FOUND, table[key]))
        } else {
            Err::<ResponseView, FailureView>(FailureView::NotFound)
        },
{
    reveal_strlit("/");
    let path = root() + key;
    assert(path.skip(1) =~= key);
}

/// A link that was stored is the link that is served, whatever the table held before.
pub proof fn lemma_stored_link_is_served(
    table: Map<Seq<char>, Seq<char>>,
    site_url: Seq<char>,
    method: Method,
    key: Seq<char>,
    url: Seq<char>,
)
    requires
        method.reads(),
        key.len() > 0,
    ensures
        shortlinks_answer(table.insert(key, url), site_url, method, root() + key) == Ok::<
            ResponseView,
            FailureView,
        >(redirect(FOUND, url)),
{
    lemma_shortlink_round_trip(table.insert(key, url), site_url, method, key);
}

/// The host of the short links never answers with success: it redirects, refuses the
/// method, or finds nothing.
pub proof fn lemma_shortlinks_never_succeed(
    table: Map<Seq<char>, Seq<char>>,
    site_url: Seq<char>,
    method: Method,
    path: Seq<char>,
)
    ensures
        match shortlinks_answer(table, site_url, method, path) {
            Ok(response) => response.status == FOUND || response.status == METHOD_NOT_ALLOWED,
            Err(error) => error == FailureView::NotFound,
        },
{
}

/// The key of the music link.
pub open spec fn music_key() -> Seq<char> {
    "music"@
}

/// What the host of the music link answers: at the root, to `GET` and `HEAD`, a redirect to
/// the address stored under `music`, or nothing where none is stored; nothing elsewhere.
pub open spec fn music_shortlink_answer(
    table: Map<Seq<char>, Seq<char>>,
    method: Method,
    path: Seq<char>,
) -> Result<ResponseView, FailureView> {
    if path != root() {
        Err(FailureView::NotFound)
    } else if !method.reads() {
        Ok(method_not_allowed())
    } else if table.contains_key(music_key()) {
        Ok(redirect(FOUND, table[music_key()]))
    } else {
        Err(FailureView::NotFound)
    }
}

/// The music link.
pub fn music_shortlink_router(table: &ShortlinkTable, method: Method, path: &str) -> (answer:
    Result<Response, Failure>)
    ensures
        answer_view(answer) == music_shortlink_answer(table@, method, path@),
{
    if !str_eq(path, "/") {
        return Err(Failure::NotFound);
    }
    if !method.is_read() {
        return Ok(Response::method_not_allowed());
    }
    match table.get("music") {
        Some(url) => Ok(Response::redirect(FOUND, url.clone())),
        None => Err(Failure::NotFound),
    }
}

/// What a second domain answers: a permanent redirect to the same path and query on the
/// canonical site.
pub open spec fn redirect_to_primary_site(
    site_url: Seq<char>,
    path: Seq<char>,
    query: Option<Seq<char>>,
) -> ResponseView {
    redirect(MOVED_PERMANENTLY, site_url + path_and_query(path, query))
}

/// The redirect from a second domain to the canonical site.
pub fn redirect_to_primary_site_router(site_url: &str, path: &str, query: Option<&str>)
    -> (response: Response)
    ensures
        response@ == redirect_to_primary_site(site_url@, path@, match query {
            Some(q) => Some(q@),
            None => None,
        }),
{
    let mut target = site_url.to_owned();
    push_path_and_query(&mut target, path, query);
    Response::redirect(MOVED_PERMANENTLY, target)
}

} // verus!
