use hyper::header::HeaderValue;
use hyper::HeaderMap;
use ofcrse::error::{read_error_file_contents, Failure, HttpError};
use ofcrse::primary::{add_cache_control, Action};
use ofcrse::proxy::Upstream;
use ofcrse::request::Request;
use ofcrse::response::{Method, Response};
use ofcrse::router::HostConfig;
use ofcrse::shortlinks::ShortlinkTable;
use ofcrse::site::Site;

fn hosts() -> HostConfig {
    HostConfig {
        health_check: "health.check".to_string(),
        shortlinks: "l.example.test".to_string(),
        music: "music.example.test".to_string(),
        secondary: vec!["example.org".to_string(), "www.example.org".to_string()],
        secondary_suffixes: vec![".example.test".to_string(), ".example.org".to_string()],
    }
}

fn site(links: Vec<(&str, &str)>) -> Site {
    let mut shortlinks = ShortlinkTable::new();
    for (key, url) in links {
        shortlinks.insert(key.to_string(), url.to_string());
    }
    Site {
        hosts: hosts(),
        site_url: "https://example.test".to_string(),
        upstream: Upstream::new("https://stats.example.test".to_string()).unwrap(),
        shortlinks,
        production: false,
    }
}

fn request(method: Method, host: &str, path: &str, query: Option<&str>) -> Request {
    Request {
        method,
        host: Some(host.to_string()),
        path: path.to_string(),
        query: query.map(|q| q.to_string()),
        headers: HeaderMap::new(),
        peer: None,
    }
}

fn response_of(answer: Result<Action, Failure>) -> Response {
    match answer {
        Ok(Action::Respond(response)) => response,
        Ok(_) => panic!("the request was not answered at once"),
        Err(error) => panic!("the request failed: {:?}", error),
    }
}

fn header<'a>(response: &'a Response, name: &str) -> Option<&'a str> {
    response.headers.iter().find(|(n, _)| n == name).map(|(_, v)| v.as_str())
}

#[test]
fn scenario_shortlink_redirects_to_stored_url() {
    let site = site(vec![("blog", "https://example.test/posts/1")]);
    let response = response_of(site.handle(request(Method::Get, "l.example.test", "/blog", None)));
    assert_eq!(response.status, 302);
    assert_eq!(header(&response, "location"), Some("https://example.test/posts/1"));
    assert_eq!(response.headers.len(), 1);
    assert!(response.body.is_empty());
}

#[test]
fn scenario_missing_shortlink_is_not_found() {
    let site = site(vec![("blog", "https://example.test/posts/1")]);
    let answer = site.handle(request(Method::Get, "l.example.test", "/missing", None));
    let failure = match answer {
        Err(failure) => failure,
        Ok(_) => panic!("a missing link was answered"),
    };
    assert!(matches!(failure, Failure::NotFound));
    let error = HttpError::from_failure(&failure, site.production);
    assert!(matches!(error, HttpError::NotFound));
    let pages = read_error_file_contents(b"<h1>gone</h1>".to_vec(), "<!-- ERROR -->".to_string());
    let response = error.into_response(&pages);
    assert_eq!(response.status, 404);
    assert_eq!(response.body, b"<h1>gone</h1>".to_vec());
}

#[test]
fn scenario_music_host_redirects_to_music_link() {
    let site = site(vec![("music", "https://open.spotify.com/artist/x")]);
    let response = response_of(site.handle(request(Method::Get, "music.example.test", "/", None)));
    assert_eq!(response.status, 302);
    assert_eq!(header(&response, "location"), Some("https://open.spotify.com/artist/x"));
}

#[test]
fn scenario_count_is_forwarded_upstream() {
    let site = site(vec![]);
    let mut req = request(Method::Get, "example.test", "/count/x", Some("y=1"));
    req.headers.insert("host", HeaderValue::from_static("example.test"));
    req.headers.insert("fly-forwarded-port", HeaderValue::from_static("443"));
    req.headers.insert("fly-region", HeaderValue::from_static("ams"));
    req.headers.insert("x-forwarded-proto", HeaderValue::from_static("https"));
    req.headers.insert("x-forwarded-port", HeaderValue::from_static("443"));
    req.headers.insert("x-forwarded-ssl", HeaderValue::from_static("on"));
    req.headers.insert("fly-client-ip", HeaderValue::from_static("203.0.113.7"));
    req.headers.insert("user-agent", HeaderValue::from_static("probe/1.0"));
    let forward = match site.handle(req) {
        Ok(Action::Forward(forward)) => forward,
        Ok(_) => panic!("the request was not forwarded"),
        Err(error) => panic!("the request failed: {:?}", error),
    };
    assert_eq!(forward.uri, "https://stats.example.test/x?y=1");
    assert_eq!(forward.headers.get("host").unwrap(), "stats.example.test");
    assert_eq!(forward.headers.get_all("host").iter().count(), 1);
    for name in [
        "fly-forwarded-port",
        "fly-region",
        "x-forwarded-proto",
        "x-forwarded-port",
        "x-forwarded-ssl",
        "fly-client-ip",
    ] {
        assert!(forward.headers.get(name).is_none(), "{} was forwarded", name);
    }
    assert_eq!(forward.headers.get("x-real-ip").unwrap(), "203.0.113.7");
    assert_eq!(forward.headers.get("user-agent").unwrap(), "probe/1.0");
    assert_eq!(forward.headers.len(), 3);
}

#[test]
fn scenario_health_check_answers_ok_for_every_method() {
    let site = site(vec![]);
    for method in [
        Method::Get,
        Method::Head,
        Method::Post,
        Method::Put,
        Method::Delete,
        Method::Connect,
        Method::Options,
        Method::Trace,
        Method::Patch,
        Method::Other,
    ] {
        let response = response_of(site.handle(request(method, "health.check", "/healthz", None)));
        assert_eq!(response.status, 200);
        assert_eq!(response.body, b"ok".to_vec());
        assert_eq!(header(&response, "content-type"), Some("text/plain; charset=utf-8"));
    }
}

#[test]
fn scenario_scripts_are_cached_and_pages_are_not() {
    let mut script = HeaderMap::new();
    script.insert("content-type", HeaderValue::from_static("application/javascript"));
    add_cache_control(&mut script).unwrap();
    assert_eq!(script.get("cache-control").unwrap(), "public, max-age=31536000");

    let mut page = HeaderMap::new();
    page.insert("content-type", HeaderValue::from_static("text/html"));
    add_cache_control(&mut page).unwrap();
    assert!(page.get("cache-control").is_none());
    assert_eq!(page.len(), 1);
}
