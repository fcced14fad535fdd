use hyper::header::HeaderValue;
use hyper::HeaderMap;
use ofcrse::primary::{
    add_cache_control, is_proxied, is_trailing_slash, lookup_for, primary_router, static_file,
    static_router, trailing_slash_redirect, Action,
};
use ofcrse::proxy::Upstream;
use ofcrse::request::Request;
use ofcrse::response::Method;

fn request(method: Method, path: &str, query: Option<&str>, headers: Vec<(&'static str, &'static str)>) -> Request {
    let mut map = HeaderMap::new();
    for (name, value) in headers {
        map.append(name, HeaderValue::from_static(value));
    }
    Request {
        method,
        host: Some("example.test".to_string()),
        path: path.to_string(),
        query: query.map(|q| q.to_string()),
        headers: map,
        peer: None,
    }
}

fn served(action: Action) -> (String, Option<String>) {
    match action {
        Action::ServeFile { path, query } => (path, query),
        _ => panic!("no file is served"),
    }
}

fn redirected(action: Action) -> (u16, String) {
    match action {
        Action::Respond(response) => {
            assert_eq!(response.headers.len(), 1);
            assert_eq!(response.headers[0].0, "location");
            assert!(response.body.is_empty());
            (response.status, response.headers[0].1.clone())
        }
        _ => panic!("no response is sent"),
    }
}

#[test]
fn trailing_slashes_are_redirected_away() {
    let req = request(
        Method::Get,
        "/foo/",
        Some("a=1"),
        vec![("x-forwarded-proto", "https"), ("host", "example.test")],
    );
    assert_eq!(
        redirected(static_router(&req)),
        (307, "https://example.test/foo?a=1".to_string())
    );
    let plain = request(Method::Get, "/a/b/", None, vec![("host", "example.test:3000")]);
    assert_eq!(
        redirected(static_router(&plain)),
        (307, "http://example.test:3000/a/b".to_string())
    );
}

#[test]
fn trailing_slash_redirect_works_without_headers_and_for_any_method() {
    let bare = request(Method::Post, "/foo/", None, vec![]);
    assert_eq!(redirected(static_router(&bare)), (307, "http:///foo".to_string()));
    let double = request(Method::Get, "/foo//", Some(""), vec![("host", "h")]);
    assert_eq!(redirected(static_router(&double)), (307, "http://h/foo/?".to_string()));
}

#[test]
fn header_values_that_are_no_text_count_as_missing() {
    let mut req = request(Method::Get, "/foo/", None, vec![("host", "first.test"), ("host", "second.test")]);
    req.headers.insert("x-forwarded-proto", HeaderValue::from_bytes(b"http\xe9").unwrap());
    assert_eq!(redirected(static_router(&req)), (307, "http://first.test/foo".to_string()));
}

#[test]
fn only_unwanted_slashes_count_as_trailing() {
    assert!(is_trailing_slash("/foo/"));
    assert!(is_trailing_slash("//"));
    assert!(is_trailing_slash("/coun/"));
    assert!(!is_trailing_slash("/"));
    assert!(!is_trailing_slash("/foo"));
    assert!(!is_trailing_slash(""));
    assert!(!is_trailing_slash("/count/"));
    assert!(!is_trailing_slash("/counter/"));
    assert!(!is_trailing_slash("/count/a/"));
    assert!(trailing_slash_redirect(&request(Method::Get, "/", None, vec![])).is_none());
    assert!(trailing_slash_redirect(&request(Method::Get, "/count/", None, vec![])).is_none());
    assert!(trailing_slash_redirect(&request(Method::Get, "/x/", None, vec![])).is_some());
}

#[test]
fn paths_without_extension_stand_for_their_index() {
    assert_eq!(static_file("/posts", None), "/posts/index.html");
    assert_eq!(static_file("/", Some("a=b")), "//index.html");
    assert_eq!(static_file("/a.b/c", None), "/a.b/c/index.html");
    assert_eq!(static_file("/counter/", None), "/counter//index.html");
    let req = request(Method::Get, "/posts", Some("page=2"), vec![]);
    assert_eq!(
        served(static_router(&req)),
        ("/posts/index.html".to_string(), Some("page=2".to_string()))
    );
}

#[test]
fn paths_with_extension_are_looked_up_as_they_are() {
    assert_eq!(static_file("/app.js", None), "/app.js");
    assert_eq!(static_file("/posts/index.html", None), "/posts/index.html");
    assert_eq!(static_file("/a/b.tar.gz", Some("v=1")), "/a/b.tar.gz");
    let req = request(Method::Head, "/style.css", None, vec![]);
    assert_eq!(served(static_router(&req)), ("/style.css".to_string(), None));
}

#[test]
fn a_path_whose_index_is_no_uri_is_looked_up_as_it_is() {
    assert_eq!(static_file("/a b", None), "/a b");
    assert_eq!(static_file("/ok", Some("bad query\u{7f}")), "/ok");
    let long = format!("/{}", "a".repeat(65530));
    assert_eq!(static_file(&long, None), long);
    assert_eq!(lookup_for("/posts", false), "/posts");
    assert_eq!(lookup_for("/posts", true), "/posts/index.html");
    assert_eq!(lookup_for("/app.js", true), "/app.js");
}

#[test]
fn looking_up_a_looked_up_path_changes_nothing() {
    for path in ["/", "/posts", "/app.js", "/a.b/c", "/x/index.html", "/a b"] {
        let once = static_file(path, Some("q=1"));
        let twice = static_file(&once, Some("q=1"));
        assert_eq!(once, twice);
    }
}

#[test]
fn redirect_then_lookup_comes_to_the_index_document() {
    let first = request(Method::Get, "/foo/", None, vec![("host", "example.test")]);
    let (status, location) = redirected(static_router(&first));
    assert_eq!(status, 307);
    assert_eq!(location, "http://example.test/foo");
    let followed = request(Method::Get, "/foo", None, vec![("host", "example.test")]);
    let direct = request(Method::Get, "/foo/index.html", None, vec![("host", "example.test")]);
    assert_eq!(served(static_router(&followed)), served(static_router(&direct)));
    assert_eq!(served(static_router(&followed)).0, "/foo/index.html");
}

#[test]
fn files_are_served_for_get_and_head_only() {
    for method in [Method::Post, Method::Put, Method::Delete, Method::Patch, Method::Options, Method::Other] {
        let req = request(method, "/posts", None, vec![]);
        match static_router(&req) {
            Action::Respond(response) => {
                assert_eq!(response.status, 405);
                assert_eq!(response.headers, vec![("allow".to_string(), "GET,HEAD".to_string())]);
            }
            _ => panic!("the method was not refused"),
        }
    }
}

#[test]
fn the_counter_owns_its_prefix_and_what_is_below() {
    assert!(is_proxied("/count"));
    assert!(is_proxied("/count/"));
    assert!(is_proxied("/count/a/b.js"));
    assert!(!is_proxied("/counter"));
    assert!(!is_proxied("/count.js"));
    assert!(!is_proxied("/coun"));
    assert!(!is_proxied("/"));
    assert!(!is_proxied("/a/count"));
}

#[test]
fn the_primary_site_forwards_or_serves() {
    let upstream = Upstream::new("https://stats.example.test".to_string()).unwrap();
    let counted = request(Method::Post, "/count", Some("p=%2Ffoo"), vec![]);
    match primary_router(&upstream, counted).unwrap() {
        Action::Forward(forward) => {
            assert_eq!(forward.uri, "https://stats.example.test?p=%2Ffoo");
        }
        _ => panic!("the request was not forwarded"),
    }
    let script = request(Method::Get, "/count.js", None, vec![]);
    assert_eq!(served(primary_router(&upstream, script).unwrap()).0, "/count.js");
    let page = request(Method::Get, "/counter", None, vec![]);
    assert_eq!(served(primary_router(&upstream, page).unwrap()).0, "/counter/index.html");
}

#[test]
fn styles_and_fonts_are_cached_too() {
    for kind in ["text/css", "font/woff2", "application/javascript"] {
        let mut headers = HeaderMap::new();
        headers.insert("content-type", HeaderValue::from_static(kind));
        headers.insert("content-length", HeaderValue::from_static("12"));
        add_cache_control(&mut headers).unwrap();
        assert_eq!(headers.get("cache-control").unwrap(), "public, max-age=31536000");
        assert_eq!(headers.get("content-type").unwrap(), kind);
        assert_eq!(headers.len(), 3);
    }
}

#[test]
fn the_cache_policy_replaces_what_the_file_server_said() {
    let mut headers = HeaderMap::new();
    headers.insert("content-type", HeaderValue::from_static("text/css"));
    headers.append("cache-control", HeaderValue::from_static("no-cache"));
    headers.append("cache-control", HeaderValue::from_static("no-store"));
    add_cache_control(&mut headers).unwrap();
    let values: Vec<&HeaderValue> = headers.get_all("cache-control").iter().collect();
    assert_eq!(values, vec!["public, max-age=31536000"]);
}

#[test]
fn other_content_keeps_its_headers() {
    for kind in [
        "text/html",
        "application/javascript; charset=utf-8",
        "text/javascript",
        "Text/CSS",
        "image/png",
        "",
    ] {
        let mut headers = HeaderMap::new();
        headers.insert("content-type", HeaderValue::from_str(kind).unwrap());
        headers.insert("cache-control", HeaderValue::from_static("no-cache"));
        add_cache_control(&mut headers).unwrap();
        assert_eq!(headers.get("cache-control").unwrap(), "no-cache");
        assert_eq!(headers.len(), 2);
    }
    let mut none = HeaderMap::new();
    add_cache_control(&mut none).unwrap();
    assert!(none.is_empty());
}

#[test]
fn only_the_first_content_type_counts() {
    let mut headers = HeaderMap::new();
    headers.append("content-type", HeaderValue::from_static("text/html"));
    headers.append("content-type", HeaderValue::from_static("text/css"));
    add_cache_control(&mut headers).unwrap();
    assert!(headers.get("cache-control").is_none());
}

#[test]
fn a_response_with_many_headers_is_still_marked() {
    let mut headers = HeaderMap::new();
    for i in 0..6552 {
        let name = hyper::header::HeaderName::from_bytes(format!("x-h{}", i).as_bytes()).unwrap();
        headers.insert(name, HeaderValue::from_static("v"));
    }
    headers.insert("content-type", HeaderValue::from_static("text/css"));
    assert_eq!(headers.keys_len(), 6553);
    add_cache_control(&mut headers).unwrap();
    assert_eq!(headers.get("cache-control").unwrap(), "public, max-age=31536000");
    assert_eq!(headers.keys_len(), 6554);
}
