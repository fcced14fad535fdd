//! The proxy for the visit counter: requests below `/count` go on to the counter's own
//! server, with a new target and with headers that tell it who asked.

use crate::error::{report_of, Report, ReportView};
use crate::headers::{first_value, full_count, header_count, header_fields, is_value};
use crate::headers::plain_name;
use crate::headers::{header_remove, header_try_insert, value_from_str};
use crate::request::{path_and_query, push_path_and_query, Request};
use crate::uri::{is_uri, parse_uri, uri_parse};
use hyper::header::{HeaderValue, MaxSizeReached};
use hyper::HeaderMap;
use vstd::pervasive::unreached;
use vstd::prelude::*;
use vstd::utf8::encode_utf8;

verus! {

/// The server of the visit counter: its address, and the host that the address names.
pub struct Upstream {
    url: String,
    host: String,
}

/// What an [`Upstream`] holds.
pub struct UpstreamView {
    pub url: Seq<char>,
    pub host: Seq<char>,
}

impl View for Upstream {
    type V = UpstreamView;

    closed spec fn view(&self) -> UpstreamView {
        UpstreamView { url: self.url@, host: self.host@ }
    }
}

/// What is said of an address that names no host.
pub open spec fn no_host_message() -> Seq<char> {
    "the upstream address names no host"@
}

/// What is said of a host that cannot stand in a header.
pub open spec fn bad_host_message() -> Seq<char> {
    "failed to parse header value"@
}

/// What is said when a header map takes no further header.
pub open spec fn full_message() -> Seq<char> {
    "max size reached"@
}

/// What making an [`Upstream`] of an address comes to, given what the parser made of the
/// address: the address with its host, or the failure that says what is wrong with it.
pub open spec fn upstream_of(url: Seq<char>, parsed: Result<Option<Seq<char>>, Seq<char>>)
    -> Result<UpstreamView, ReportView> {
    match parsed {
        Err(message) => Err(report_of(message)),
        Ok(None) => Err(report_of(no_host_message())),
        Ok(Some(host)) => if is_value(encode_utf8(host)) {
            Ok(UpstreamView { url, host })
        } else {
            Err(report_of(bad_host_message()))
        },
    }
}

/// An upstream or a failure, as values.
pub open spec fn upstream_view(made: Result<Upstream, Report>) -> Result<
    UpstreamView,
    ReportView,
> {
    match made {
        Ok(upstream) => Ok(upstream@),
        Err(report) => Err(report@),
    }
}

/// What the parser handed out, as values.
pub open spec fn parsed_view(parsed: Result<Option<String>, String>) -> Result<
    Option<Seq<char>>,
    Seq<char>,
> {
    match parsed {
        Ok(Some(host)) => Ok(Some(host@)),
        Ok(None) => Ok(None),
        Err(message) => Err(message@),
    }
}

/// Whether every byte of `text` may stand in a header value.
pub fn is_value_text(text: &str) -> (valid: bool)
    ensures
        valid == is_value(encode_utf8(text@)),
{
    let bytes = text.as_bytes();
    let mut i: usize = 0;
    while i < bytes.len()
        invariant
            i <= bytes.len(),
            bytes@ == encode_utf8(text@),
            forall|j: int| 0 <= j < i ==> crate::headers::value_byte(#[trigger] bytes@[j]),
        decreases bytes.len() - i,
    {
        let b: u8 = bytes[i];
        if !((b >= 32 && b != 127) || b == 9) {
            return false;
        }
        i += 1;
    }
    true
}

impl Upstream {
    #[verifier::type_invariant]
    spec fn host_is_value(&self) -> bool {
        is_value(encode_utf8(self.host@))
    }

    /// The address of the server.
    pub fn url(&self) -> (url: &str)
        ensures
            url@ == self@.url,
    {
        self.url.as_str()
    }

    /// The host that the address names.
    pub fn host(&self) -> (host: &str)
        ensures
            host@ == self@.host,
            is_value(encode_utf8(host@)),
    {
        proof {
            use_type_invariant(self);
        }
        self.host.as_str()
    }

    /// The upstream at `url`, given what the parser made of `url`.
    pub fn of_parsed(url: String, parsed: Result<Option<String>, String>) -> (made: Result<
        Upstream,
        Report,
    >)
        ensures
            upstream_view(made) == upstream_of(url@, parsed_view(parsed)),
    {
        match parsed {
            Err(message) => Err(Report::msg(message)),
            Ok(None) => Err(Report::msg("the upstream address names no host".to_owned())),
            Ok(Some(host)) => {
                if is_value_text(host.as_str()) {
                    Ok(Upstream { url, host })
                } else {
                    Err(Report::msg("failed to parse header value".to_owned()))
                }
            },
        }
    }

    /// The upstream at `url`. The address has to parse and to name a host that can stand in
    /// a `Host` header.
    pub fn new(url: String) -> (made: Result<Upstream, Report>)
        ensures
            upstream_view(made) == upstream_of(url@, uri_parse(url@)),
    {
        let parsed = parse_uri(url.as_str());
        Upstream::of_parsed(url, parsed)
    }
}

/// The prefix of the paths that go to the visit counter.
pub open spec fn proxy_prefix() -> Seq<char> {
    "/count"@
}

/// The paths that go to the visit counter: the prefix itself and everything below it.
pub open spec fn is_proxy_path(path: Seq<char>) -> bool {
    path == proxy_prefix() || "/count/"@.is_prefix_of(path)
}

/// The target of the forwarded request: the upstream address, followed by what the request
/// target holds behind the prefix.
pub open spec fn proxy_target(url: Seq<char>, path: Seq<char>, query: Option<Seq<char>>) -> Seq<
    char,
> {
    url + path_and_query(path, query).skip(proxy_prefix().len() as int)
}

/// The headers that the platform in front of the site adds, and that do not leave it.
pub open spec fn platform_headers() -> Set<Seq<char>> {
    set![
        "fly-forwarded-port"@,
        "fly-region"@,
        "x-forwarded-proto"@,
        "x-forwarded-port"@,
        "x-forwarded-ssl"@,
    ]
}

/// The header in which the platform names the client.
pub open spec fn client_ip_header() -> Seq<char> {
    "fly-client-ip"@
}

/// The header in which the upstream is told the client.
pub open spec fn real_ip_header() -> Seq<char> {
    "x-real-ip"@
}

/// The header that names the host a request is meant for.
pub open spec fn host_header() -> Seq<char> {
    "host"@
}

/// The fields without the platform's headers.
pub open spec fn stripped(fields: Map<Seq<char>, Seq<Seq<u8>>>) -> Map<Seq<char>, Seq<Seq<u8>>> {
    fields.remove_keys(platform_headers())
}

/// The fields without the platform's headers, meant for `host`, and with the platform's
/// word on the client taken out.
pub open spec fn addressed(fields: Map<Seq<char>, Seq<Seq<u8>>>, host: Seq<u8>) -> Map<
    Seq<char>,
    Seq<Seq<u8>>,
> {
    stripped(fields).insert(host_header(), seq![host]).remove(client_ip_header())
}

/// The address of the peer as a header value, where it can be one.
pub open spec fn peer_value(peer: Option<Seq<char>>) -> Option<Seq<u8>> {
    match peer {
        Some(address) => if is_value(encode_utf8(address)) {
            Some(encode_utf8(address))
        } else {
            None
        },
        None => None,
    }
}

/// The client as the upstream is told: the one that the platform names, else the peer.
pub open spec fn client_ip(fields: Map<Seq<char>, Seq<Seq<u8>>>, peer: Option<Seq<u8>>)
    -> Option<Seq<u8>> {
    match first_value(fields, client_ip_header()) {
        Some(ip) => Some(ip),
        None => peer,
    }
}

/// The headers of the forwarded request. The platform's headers are gone, `host` names the
/// upstream, and `x-real-ip` names the client where one is known; every other header is
/// as it came.
pub open spec fn proxied_fields(
    fields: Map<Seq<char>, Seq<Seq<u8>>>,
    host: Seq<u8>,
    peer: Option<Seq<u8>>,
) -> Map<Seq<char>, Seq<Seq<u8>>> {
    match client_ip(fields, peer) {
        Some(ip) => addressed(fields, host).insert(real_ip_header(), seq![ip]),
        None => addressed(fields, host),
    }
}

/// The names that the rewriting hands to the header map are plain names.
proof fn lemma_names_are_plain()
    ensures
        plain_name("fly-forwarded-port"@),
        plain_name("fly-region"@),
        plain_name("x-forwarded-proto"@),
        plain_name("x-forwarded-port"@),
        plain_name("x-forwarded-ssl"@),
        plain_name("fly-client-ip"@),
        plain_name("x-real-ip"@),
        plain_name("host"@),
{
    reveal_strlit("fly-forwarded-port");
    reveal_strlit("fly-region");
    reveal_strlit("x-forwarded-proto");
    reveal_strlit("x-forwarded-port");
    reveal_strlit("x-forwarded-ssl");
    reveal_strlit("fly-client-ip");
    reveal_strlit("x-real-ip");
    reveal_strlit("host");
}

/// No two of the names that the rewriting speaks of are the same.
proof fn lemma_names_differ()
    ensures
        !platform_headers().contains(host_header()),
        !platform_headers().contains(client_ip_header()),
        !platform_headers().contains(real_ip_header()),
        host_header() != client_ip_header(),
        host_header() != real_ip_header(),
        client_ip_header() != real_ip_header(),
{
    reveal_strlit("fly-forwarded-port");
    reveal_strlit("fly-region");
    reveal_strlit("x-forwarded-proto");
    reveal_strlit("x-forwarded-port");
    reveal_strlit("x-forwarded-ssl");
    reveal_strlit("fly-client-ip");
    reveal_strlit("x-real-ip");
    reveal_strlit("host");
    assert("fly-forwarded-port"@.len() == 18);
    assert("fly-region"@.len() == 10);
    assert("x-forwarded-proto"@.len() == 17);
    assert("x-forwarded-port"@.len() == 16);
    assert("x-forwarded-ssl"@.len() == 15);
    assert("fly-client-ip"@.len() == 13);
    assert("x-real-ip"@.len() == 9);
}

/// What comes of an attempt to put a header into a map: nothing to report, or the failure
/// of a map that is full.
pub fn inserted(done: Result<Option<HeaderValue>, MaxSizeReached>) -> (reported: Result<
    (),
    Report,
>)
    ensures
        match reported {
            Ok(_) => done is Ok,
            Err(report) => done is Err && report@ == report_of(full_message()),
        },
{
    match done {
        Ok(_) => Ok(()),
        Err(_) => Err(Report::msg("max size reached".to_owned())),
    }
}

/// Rewrites the headers of a request for the upstream. Only a header map that is full stands
/// in the way: the rewriting then stops where it is, before `host` is set or before the
/// client is named.
pub fn rewrite_headers(headers: &mut HeaderMap, upstream: &Upstream, peer: Option<&str>) -> (done:
    Result<(), Report>)
    ensures
        header_count(*old(headers)) + 1 < full_count() ==> done is Ok,
        match done {
            Ok(_) => header_fields(*final(headers)) == proxied_fields(
                header_fields(*old(headers)),
                encode_utf8(upstream@.host),
                peer_value(
                    match peer {
                        Some(p) => Some(p@),
                        None => None,
                    },
                ),
            ),
            Err(report) => {
                &&& report@ == report_of(full_message())
                &&& (header_fields(*final(headers)) == stripped(header_fields(*old(headers)))
                    || header_fields(*final(headers)) == addressed(
                    header_fields(*old(headers)),
                    encode_utf8(upstream@.host),
                ))
            },
        },
{
    let host = upstream.host();
    proof {
        lemma_names_are_plain();
        lemma_names_differ();
    }
    header_remove(headers, "fly-forwarded-port");
    header_remove(headers, "fly-region");
    header_remove(headers, "x-forwarded-proto");
    header_remove(headers, "x-forwarded-port");
    header_remove(headers, "x-forwarded-ssl");
    let host_value = match value_from_str(host) {
        Ok(value) => value,
        Err(_) => unreached(),
    };
    match inserted(header_try_insert(headers, "host", host_value)) {
        Ok(_) => {},
        Err(report) => {
            return Err(report);
        },
    }
    let peer_value = match peer {
        Some(address) => match value_from_str(address) {
            Ok(value) => Some(value),
            Err(_) => None,
        },
        None => None,
    };
    let client = match header_remove(headers, "fly-client-ip") {
        Some(ip) => Some(ip),
        None => peer_value,
    };
    match client {
        Some(ip) => match inserted(header_try_insert(headers, "x-real-ip", ip)) {
            Ok(_) => Ok(()),
            Err(report) => Err(report),
        },
        None => Ok(()),
    }
}

/// A request on its way to the upstream: where it goes, and the headers that it carries.
pub struct Forward {
    pub uri: String,
    pub headers: HeaderMap,
}

/// What a [`Forward`] holds.
pub struct ForwardView {
    pub uri: Seq<char>,
    pub fields: Map<Seq<char>, Seq<Seq<u8>>>,
}

impl View for Forward {
    type V = ForwardView;

    open spec fn view(&self) -> ForwardView {
        ForwardView { uri: self.uri@, fields: header_fields(self.headers) }
    }
}

/// The target as it goes out, given what the parser made of it: the target itself where it
/// is a URI, else the failure that tells what the parser said.
pub fn checked_target(target: String, parsed: Result<Option<String>, String>) -> (checked:
    Result<String, Report>)
    ensures
        match checked {
            Ok(uri) => parsed is Ok && uri@ == target@,
            Err(report) => parsed matches Err(message) && report@ == report_of(message@),
        },
{
    match parsed {
        Ok(_) => Ok(target),
        Err(message) => Err(Report::msg(message)),
    }
}

/// Why the proxy fails for a request: its target is no URI, or else the header map is full.
pub open spec fn proxy_failure(upstream: UpstreamView, path: Seq<char>, query: Option<Seq<char>>)
    -> ReportView {
    match uri_parse(proxy_target(upstream.url, path, query)) {
        Err(message) => report_of(message),
        Ok(_) => report_of(full_message()),
    }
}

/// The request that the proxy sends on: to its target, with the rewritten headers.
pub open spec fn forwarded(
    upstream: UpstreamView,
    path: Seq<char>,
    query: Option<Seq<char>>,
    fields: Map<Seq<char>, Seq<Seq<u8>>>,
    peer: Option<Seq<char>>,
) -> ForwardView {
    ForwardView {
        uri: proxy_target(upstream.url, path, query),
        fields: proxied_fields(fields, encode_utf8(upstream.host), peer_value(peer)),
    }
}

/// What the proxy owes for a request: the forwarded request, with its target and its
/// headers, where the target is a URI; else the failure that says why the target is none.
/// A header map that is full is a failure too.
pub open spec fn proxied(
    upstream: UpstreamView,
    path: Seq<char>,
    query: Option<Seq<char>>,
    fields: Map<Seq<char>, Seq<Seq<u8>>>,
    peer: Option<Seq<char>>,
    answer: Result<Forward, Report>,
) -> bool {
    match answer {
        Ok(forward) => {
            &&& is_uri(proxy_target(upstream.url, path, query))
            &&& forward@ == forwarded(upstream, path, query, fields, peer)
        },
        Err(report) => report@ == proxy_failure(upstream, path, query),
    }
}

/// Prepares a request below the prefix for the upstream. A request whose target is a URI is
/// forwarded, unless its header map is full.
pub fn goatcounter_proxy(upstream: &Upstream, request: Request) -> (answer: Result<
    Forward,
    Report,
>)
    requires
        proxy_prefix().is_prefix_of(request@.path),
    ensures
        is_uri(proxy_target(upstream@.url, request@.path, request@.query)) && header_count(
            request.headers,
        ) + 1 < full_count() ==> answer is Ok,
        proxied(
            upstream@,
            request@.path,
            request@.query,
            request@.fields,
            request@.peer,
            answer,
        ),
{
    proof {
        reveal_strlit("/count");
    }
    let Request { method: _, host: _, path, query, headers, peer } = request;
    let mut headers = headers;
    let mut tail = String::new();
    push_path_and_query(
        &mut tail,
        path.as_str(),
        match &query {
            Some(q) => Some(q.as_str()),
            None => None,
        },
    );
    let rest = tail.as_str().substring_char(6, tail.as_str().unicode_len());
    let mut target = upstream.url().to_owned();
    target.append(rest);
    let parsed = parse_uri(target.as_str());
    let uri = match checked_target(target, parsed) {
        Ok(uri) => uri,
        Err(report) => {
            return Err(report);
        },
    };
    let done = rewrite_headers(
        &mut headers,
        upstream,
        match &peer {
            Some(p) => Some(p.as_str()),
            None => None,
        },
    );
    match done {
        Ok(_) => Ok(Forward { uri, headers }),
        Err(report) => Err(report),
    }
}

/// Nothing that the platform added reaches the upstream.
pub proof fn lemma_platform_headers_are_gone(
    fields: Map<Seq<char>, Seq<Seq<u8>>>,
    host: Seq<u8>,
    peer: Option<Seq<u8>>,
    name: Seq<char>,
)
    requires
        platform_headers().contains(name) || name == client_ip_header(),
    ensures
        !proxied_fields(fields, host, peer).contains_key(name),
{
    lemma_names_differ();
}

/// The forwarded request is meant for the upstream's host and for no other.
pub proof fn lemma_host_is_upstream(
    fields: Map<Seq<char>, Seq<Seq<u8>>>,
    host: Seq<u8>,
    peer: Option<Seq<u8>>,
)
    ensures
        proxied_fields(fields, host, peer).contains_key(host_header()),
        proxied_fields(fields, host, peer)[host_header()] == seq![host],
{
    lemma_names_differ();
}

/// The upstream is told the client that the platform names, else the peer. Where neither is
/// known, what the request itself says of the client is left as it came.
pub proof fn lemma_real_ip_is_client(
    fields: Map<Seq<char>, Seq<Seq<u8>>>,
    host: Seq<u8>,
    peer: Option<Seq<u8>>,
)
    ensures
        match client_ip(fields, peer) {
            Some(ip) => proxied_fields(fields, host, peer).contains_key(real_ip_header())
                && proxied_fields(fields, host, peer)[real_ip_header()] == seq![ip],
            None => proxied_fields(fields, host, peer).contains_key(real_ip_header())
                == fields.contains_key(real_ip_header()) && (fields.contains_key(
                real_ip_header(),
            ) ==> proxied_fields(fields, host, peer)[real_ip_header()]
                == fields[real_ip_header()]),
        },
{
    lemma_names_differ();
}

/// Every header that the rewriting does not speak of, `x-forwarded-for` among them, goes
/// on with all its values.
pub proof fn lemma_other_headers_pass(
    fields: Map<Seq<char>, Seq<Seq<u8>>>,
    host: Seq<u8>,
    peer: Option<Seq<u8>>,
    name: Seq<char>,
)
    requires
        !platform_headers().contains(name),
        name != host_header(),
        name != client_ip_header(),
        name != real_ip_header(),
    ensures
        proxied_fields(fields, host, peer).contains_key(name) == fields.contains_key(name),
        fields.contains_key(name) ==> proxied_fields(fields, host, peer)[name] == fields[name],
{
}

} // verus!
