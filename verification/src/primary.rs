//! The primary site: files below a content root, with the proxy for the visit counter
//! beside them.
//!
//! Serving a file takes two decisions with the lookup between them. Before the lookup the
//! path is settled: a trailing slash is redirected away, and a path without an extension
//! stands for the `index.html` below it. After the lookup the response of a script, a style
//! sheet or a font is marked as cacheable for a year.

use crate::error::{report_of, Report};
use crate::headers::{full_count, get_header, header_count, header_fields, header_text};
use crate::headers::{header_try_insert, lemma_plain_name_is_lowered, value_from_str};
use crate::proxy::{full_message, goatcounter_proxy, inserted, is_proxy_path, proxied};
use crate::proxy::{proxy_prefix, proxy_target, Forward, ForwardView, Upstream, UpstreamView};
use crate::request::{path_and_query, push_path_and_query, text_of, Request, RequestView};
use crate::response::{content_type, method_not_allowed, redirect, Response, ResponseView};
use crate::response::TEMPORARY_REDIRECT;
use crate::handlers::root;
use crate::text::{ends_with, final_segment_has_dot, has_extension, starts_with, str_eq};
use crate::uri::{is_uri, parse_uri};
use hyper::HeaderMap;
use vstd::pervasive::unreached;
use vstd::prelude::*;
use vstd::utf8::{encode_utf8, is_ascii_chars_encode_utf8};

verus! {

/// What is to be done for a request.
pub enum Action {
    /// Send this response.
    Respond(Response),
    /// Look the path up below the content root and send the file, or the page for what is
    /// not found; then let [`add_cache_control`] see the headers of the response.
    ServeFile { path: String, query: Option<String> },
    /// Send the request on to the visit counter and hand its answer back as it comes.
    Forward(Forward),
}

/// What an [`Action`] holds.
pub enum ActionView {
    Respond(ResponseView),
    ServeFile { path: Seq<char>, query: Option<Seq<char>> },
    Forward(ForwardView),
}

impl View for Action {
    type V = ActionView;

    open spec fn view(&self) -> ActionView {
        match self {
            Action::Respond(response) => ActionView::Respond(response@),
            Action::ServeFile { path, query } => ActionView::ServeFile {
                path: path@,
                query: text_of(*query),
            },
            Action::Forward(forward) => ActionView::Forward(forward@),
        }
    }
}

/// A path that ends in a slash it should not have: any but the root, the paths that begin
/// with the proxy's prefix left aside.
pub open spec fn has_trailing_slash(path: Seq<char>) -> bool {
    root().is_suffix_of(path) && path != root() && !proxy_prefix().is_prefix_of(path)
}

/// The scheme under which the client reached the site: what the platform says, else `http`.
pub open spec fn forwarded_proto(fields: Map<Seq<char>, Seq<Seq<u8>>>) -> Seq<char> {
    match header_text(fields, "x-forwarded-proto"@) {
        Some(proto) => proto,
        None => "http"@,
    }
}

/// The host that the client asked for: the `Host` header, else nothing.
pub open spec fn requested_host(fields: Map<Seq<char>, Seq<Seq<u8>>>) -> Seq<char> {
    match header_text(fields, "host"@) {
        Some(host) => host,
        None => Seq::empty(),
    }
}

/// Where a path with a trailing slash is sent: to the same scheme, host and query, and the
/// path without its last slash.
pub open spec fn slash_target(
    fields: Map<Seq<char>, Seq<Seq<u8>>>,
    path: Seq<char>,
    query: Option<Seq<char>>,
) -> Seq<char> {
    forwarded_proto(fields) + "://"@ + requested_host(fields) + path_and_query(
        path.drop_last(),
        query,
    )
}

/// The index document below `path`.
pub open spec fn index_of(path: Seq<char>) -> Seq<char> {
    path + "/index.html"@
}

/// The path that is looked up for `path`, given whether the target with the index document
/// in it is a URI: the index document below a path whose final segment has no `.`, where
/// that target is one; the path itself otherwise.
pub open spec fn lookup_path(path: Seq<char>, index_is_uri: bool) -> Seq<char> {
    if !has_extension(path) && index_is_uri {
        index_of(path)
    } else {
        path
    }
}

/// The path that is looked up for a request target.
pub open spec fn static_lookup(path: Seq<char>, query: Option<Seq<char>>) -> Seq<char> {
    lookup_path(path, is_uri(path_and_query(index_of(path), query)))
}

/// What the file server does for a request: it redirects a trailing slash away, for the
/// time being and whatever the method; it refuses every method but `GET` and `HEAD`; and it
/// serves the file that the path stands for.
pub open spec fn static_plan(request: RequestView) -> ActionView {
    if has_trailing_slash(request.path) {
        ActionView::Respond(
            redirect(
                TEMPORARY_REDIRECT,
                slash_target(request.fields, request.path, request.query),
            ),
        )
    } else if !request.method.reads() {
        ActionView::Respond(method_not_allowed())
    } else {
        ActionView::ServeFile {
            path: static_lookup(request.path, request.query),
            query: request.query,
        }
    }
}

/// What the primary site owes for a request: below the proxy's prefix what the proxy owes,
/// everywhere else what the file server does.
pub open spec fn primary_answer(
    upstream: UpstreamView,
    request: RequestView,
    answer: Result<Action, Report>,
) -> bool {
    if is_proxy_path(request.path) {
        match answer {
            Ok(Action::Forward(forward)) => proxied(
                upstream,
                request.path,
                request.query,
                request.fields,
                request.peer,
                Ok(forward),
            ),
            Ok(_) => false,
            Err(report) => proxied(
                upstream,
                request.path,
                request.query,
                request.fields,
                request.peer,
                Err(report),
            ),
        }
    } else {
        answer matches Ok(action) && action@ == static_plan(request)
    }
}

/// The path that is looked up for `path`, given whether the target with the index document
/// in it is a URI.
pub fn lookup_for(path: &str, index_is_uri: bool) -> (file: String)
    ensures
        file@ == lookup_path(path@, index_is_uri),
{
    let mut file = path.to_owned();
    if !final_segment_has_dot(path) && index_is_uri {
        file.append("/index.html");
    }
    file
}

/// The path that is looked up for a request target.
pub fn static_file(path: &str, query: Option<&str>) -> (file: String)
    ensures
        file@ == static_lookup(path@, match query {
            Some(q) => Some(q@),
            None => None,
        }),
{
    if final_segment_has_dot(path) {
        return path.to_owned();
    }
    let mut target = path.to_owned();
    target.append("/index.html");
    let mut rewritten = String::new();
    push_path_and_query(&mut rewritten, target.as_str(), query);
    let parsed = parse_uri(rewritten.as_str());
    lookup_for(path, parsed.is_ok())
}

/// Whether `path` ends in a slash it should not have.
pub fn is_trailing_slash(path: &str) -> (found: bool)
    ensures
        found == has_trailing_slash(path@),
{
    ends_with(path, "/") && !str_eq(path, "/") && !starts_with(path, "/count")
}

/// The redirect that takes the trailing slash off the path of `request`, where it has one
/// that it should not have.
pub fn trailing_slash_redirect(request: &Request) -> (response: Option<Response>)
    ensures
        match response {
            Some(r) => has_trailing_slash(request@.path) && r@ == redirect(
                TEMPORARY_REDIRECT,
                slash_target(request@.fields, request@.path, request@.query),
            ),
            None => !has_trailing_slash(request@.path),
        },
{
    if !is_trailing_slash(request.path.as_str()) {
        return None;
    }
    proof {
        reveal_strlit("x-forwarded-proto");
        reveal_strlit("host");
        reveal_strlit("/");
        lemma_plain_name_is_lowered("x-forwarded-proto"@);
        lemma_plain_name_is_lowered("host"@);
    }
    let proto = match get_header(&request.headers, "x-forwarded-proto") {
        Some(proto) => proto,
        None => "http",
    };
    let host = match get_header(&request.headers, "host") {
        Some(host) => host,
        None => "",
    };
    proof {
        reveal_strlit("");
    }
    let path = request.path.as_str();
    let length = path.unicode_len();
    let stripped = path.substring_char(0, length - 1);
    let mut target = proto.to_owned();
    target.append("://");
    target.append(host);
    push_path_and_query(
        &mut target,
        stripped,
        match &request.query {
            Some(q) => Some(q.as_str()),
            None => None,
        },
    );
    Some(Response::redirect(TEMPORARY_REDIRECT, target))
}

/// What the file server does for a request.
pub fn static_router(request: &Request) -> (action: Action)
    ensures
        action@ == static_plan(request@),
{
    match trailing_slash_redirect(request) {
        Some(response) => {
            return Action::Respond(response);
        },
        None => {},
    }
    if !request.method.is_read() {
        return Action::Respond(Response::method_not_allowed());
    }
    let query = match &request.query {
        Some(q) => Some(q.as_str()),
        None => None,
    };
    let path = static_file(request.path.as_str(), query);
    Action::ServeFile { path, query: request.query.clone() }
}

/// Whether `path` goes to the visit counter.
pub fn is_proxied(path: &str) -> (found: bool)
    ensures
        found == is_proxy_path(path@),
{
    str_eq(path, "/count") || starts_with(path, "/count/")
}

/// The primary site. Below the proxy's prefix a request whose target is a URI is forwarded,
/// unless its header map is full. Everywhere else there is an action for every request.
pub fn primary_router(upstream: &Upstream, request: Request) -> (answer: Result<Action, Report>)
    ensures
        primary_answer(upstream@, request@, answer),
        is_proxy_path(request@.path) && is_uri(
            proxy_target(upstream@.url, request@.path, request@.query),
        ) && header_count(request.headers) + 1 < full_count() ==> answer is Ok,
{
    if is_proxied(request.path.as_str()) {
        proof {
            reveal_strlit("/count");
            reveal_strlit("/count/");
        }
        match goatcounter_proxy(upstream, request) {
            Ok(forward) => Ok(Action::Forward(forward)),
            Err(report) => Err(report),
        }
    } else {
        Ok(static_router(&request))
    }
}

/// The types of content that do not change under their name: scripts, style sheets and
/// fonts.
pub open spec fn is_long_lived(kind: Option<Seq<char>>) -> bool {
    kind == Some("application/javascript"@) || kind == Some("text/css"@) || kind == Some(
        "font/woff2"@,
    )
}

/// The name of the header that tells for how long a response may be kept.
pub open spec fn cache_control() -> Seq<char> {
    "cache-control"@
}

/// How long content that does not change may be kept: by anyone, for a year.
pub open spec fn long_lived_policy() -> Seq<char> {
    "public, max-age=31536000"@
}

/// The headers of a response of the file server as they go out: with the policy for content
/// that does not change where the type of the content is such, and as they came otherwise.
pub open spec fn cached_fields(fields: Map<Seq<char>, Seq<Seq<u8>>>) -> Map<
    Seq<char>,
    Seq<Seq<u8>>,
> {
    if is_long_lived(header_text(fields, content_type())) {
        fields.insert(cache_control(), seq![encode_utf8(long_lived_policy())])
    } else {
        fields
    }
}

/// Marks the response of the file server as cacheable where its content does not change.
/// Only a header map that is full stands in the way: the headers then stay as they are, and
/// that is reported.
pub fn add_cache_control(headers: &mut HeaderMap) -> (done: Result<(), Report>)
    ensures
        header_count(*old(headers)) < full_count() ==> done is Ok,
        match done {
            Ok(_) => header_fields(*final(headers)) == cached_fields(
                header_fields(*old(headers)),
            ),
            Err(report) => {
                &&& is_long_lived(header_text(header_fields(*old(headers)), content_type()))
                &&& header_fields(*final(headers)) == header_fields(*old(headers))
                &&& header_count(*final(headers)) == header_count(*old(headers))
                &&& report@ == report_of(full_message())
            },
        },
{
    proof {
        reveal_strlit("content-type");
        reveal_strlit("cache-control");
        lemma_plain_name_is_lowered("content-type"@);
    }
    let long_lived = match get_header(headers, "content-type") {
        Some(kind) => str_eq(kind, "application/javascript") || str_eq(kind, "text/css")
            || str_eq(kind, "font/woff2"),
        None => false,
    };
    if !long_lived {
        return Ok(());
    }
    proof {
        reveal_strlit("public, max-age=31536000");
        is_ascii_chars_encode_utf8("public, max-age=31536000"@);
    }
    let policy = match value_from_str("public, max-age=31536000") {
        Ok(value) => value,
        Err(_) => unreached(),
    };
    inserted(header_try_insert(headers, "cache-control", policy))
}

/// The index document is a file with an extension.
proof fn lemma_index_has_extension(path: Seq<char>)
    ensures
        has_extension(index_of(path)),
        !root().is_suffix_of(index_of(path)),
{
    reveal_strlit("/index.html");
    reveal_strlit("/");
    let file = index_of(path);
    let n = file.len() as int;
    let a = file.drop_last();
    let b = a.drop_last();
    let c = b.drop_last();
    let d = c.drop_last();
    assert(has_extension(d));
    assert(has_extension(c));
    assert(has_extension(b));
    assert(has_extension(a));
    assert(file.subrange(n - 1, n)[0] == 'l');
}

/// Looking up what a path stands for changes nothing: the file that is served for a path is
/// served under its own name too.
pub proof fn lemma_lookup_is_idempotent(path: Seq<char>, query: Option<Seq<char>>)
    ensures
        static_lookup(static_lookup(path, query), query) == static_lookup(path, query),
{
    lemma_index_has_extension(path);
}

/// A request with a trailing slash and the request that follows its redirect come to the
/// same file as a request for that file by name. The redirect goes to the path without the
/// slash, with the query as it was; the file server answers that path, where it has no
/// further slash to lose, with the file that the path stands for; and asked for that file
/// directly, it serves the same.
pub proof fn lemma_redirect_then_lookup(request: RequestView)
    requires
        has_trailing_slash(request.path),
        !has_trailing_slash(request.path.drop_last()),
        request.method.reads(),
    ensures
        static_plan(request) == ActionView::Respond(
            redirect(
                TEMPORARY_REDIRECT,
                forwarded_proto(request.fields) + "://"@ + requested_host(request.fields)
                    + path_and_query(request.path.drop_last(), request.query),
            ),
        ),
        static_plan(RequestView { path: request.path.drop_last(), ..request })
            == (ActionView::ServeFile {
            path: static_lookup(request.path.drop_last(), request.query),
            query: request.query,
        }),
        static_plan(
            RequestView {
                path: static_lookup(request.path.drop_last(), request.query),
                ..request
            },
        ) == static_plan(RequestView { path: request.path.drop_last(), ..request }),
{
    lemma_index_has_extension(request.path.drop_last());
}

} // verus!
