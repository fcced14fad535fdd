use hyper::HeaderMap;
use ofcrse::error::{Failure, HttpError};
use ofcrse::primary::Action;
use ofcrse::proxy::Upstream;
use ofcrse::request::Request;
use ofcrse::response::{Method, Response};
use ofcrse::router::HostConfig;
use ofcrse::shortlinks::ShortlinkTable;
use ofcrse::site::Site;

fn site(production: bool) -> Site {
    let mut shortlinks = ShortlinkTable::new();
    shortlinks.insert("blog".to_string(), "https://ofcr.se/posts/1".to_string());
    Site {
        hosts: HostConfig::default(),
        site_url: "https://ofcr.se".to_string(),
        upstream: Upstream::new("https://stats.example.test".to_string()).unwrap(),
        shortlinks,
        production,
    }
}

fn request(host: Option<&str>, path: &str, query: Option<&str>) -> Request {
    Request {
        method: Method::Get,
        host: host.map(|h| h.to_string()),
        path: path.to_string(),
        query: query.map(|q| q.to_string()),
        headers: HeaderMap::new(),
        peer: None,
    }
}

fn response_of(answer: Result<Action, Failure>) -> Response {
    match answer {
        Ok(Action::Respond(response)) => response,
        Ok(_) => panic!("the request was not answered at once"),
        Err(error) => panic!("the request failed: {:?}", error),
    }
}

#[test]
fn a_request_without_a_host_is_a_bad_request() {
    let response = response_of(site(false).handle(request(None, "/healthz", None)));
    assert_eq!(response.status, 400);
    assert!(response.headers.is_empty());
    assert!(response.body.is_empty());
}

#[test]
fn an_unlisted_subdomain_serves_nothing() {
    for path in ["/", "/healthz", "/count", "/blog"] {
        let answer = site(false).handle(request(Some("nope.ofcr.se"), path, None));
        assert!(matches!(answer, Err(Failure::NotFound)));
    }
}

#[test]
fn second_domains_move_to_the_site() {
    for host in ["oftcour.se", "www.oftcour.se", "ofcrse.fly.dev"] {
        let response = response_of(site(false).handle(request(Some(host), "/posts/1", Some("a=b"))));
        assert_eq!(response.status, 301);
        assert_eq!(
            response.headers,
            vec![("location".to_string(), "https://ofcr.se/posts/1?a=b".to_string())]
        );
    }
}

#[test]
fn the_host_alone_picks_the_handler() {
    let probe = response_of(site(false).handle(request(Some("health.check"), "/healthz", None)));
    assert_eq!(probe.status, 200);
    let link = response_of(site(false).handle(request(Some("l.ofcr.se"), "/blog", None)));
    assert_eq!(link.headers[0].1, "https://ofcr.se/posts/1");
    let home = response_of(site(false).handle(request(Some("l.ofcr.se"), "/", None)));
    assert_eq!(home.headers[0].1, "https://ofcr.se");
    assert!(matches!(
        site(false).handle(request(Some("music.ofcr.se"), "/", None)),
        Err(Failure::NotFound)
    ));
    assert!(matches!(
        site(false).handle(request(Some("l.ofcr.se"), "/healthz", None)),
        Err(Failure::NotFound)
    ));
    match site(false).handle(request(Some("ofcr.se"), "/healthz", None)) {
        Ok(Action::ServeFile { path, query }) => {
            assert_eq!(path, "/healthz/index.html");
            assert_eq!(query, None);
        }
        _ => panic!("the primary site did not serve a file"),
    }
    match site(false).handle(request(Some("ofcr.se"), "/blog/", None)) {
        Ok(Action::Respond(response)) => assert_eq!(response.status, 307),
        _ => panic!("the primary site did not redirect"),
    }
}

#[test]
fn a_proxy_failure_is_an_internal_error() {
    for production in [false, true] {
        let site = site(production);
        let failure = match site.handle(request(Some("ofcr.se"), "/count/a b", None)) {
            Err(failure) => failure,
            Ok(_) => panic!("the failure was not reported"),
        };
        match &failure {
            Failure::Internal(report) => {
                assert_eq!(report.chain, vec!["invalid uri character".to_string()]);
                assert!(report.backtrace.is_none());
            }
            Failure::NotFound => panic!("the failure was taken for a missing page"),
        }
        match HttpError::from_failure(&failure, site.production) {
            HttpError::Internal { err } => {
                assert_eq!(err, if production { "" } else { "1. invalid uri character\n\n" })
            }
            HttpError::NotFound => panic!("the failure was taken for a missing page"),
        }
    }
}

#[test]
fn a_missing_page_stays_a_missing_page() {
    assert!(matches!(HttpError::from_failure(&Failure::NotFound, false), HttpError::NotFound));
    assert!(matches!(HttpError::from_failure(&Failure::NotFound, true), HttpError::NotFound));
}

#[test]
fn the_site_is_configured_from_the_environment() {
    let bare = Site::configure(None, None, None, None).unwrap();
    assert_eq!(bare.site_url, "http://localhost:3000");
    assert_eq!(bare.upstream.url(), "http://localhost:3000");
    assert_eq!(bare.upstream.host(), "localhost");
    assert_eq!(bare.shortlinks.len(), 0);
    assert!(!bare.production);
    assert_eq!(bare.hosts.shortlinks, "l.ofcr.se");

    let full = Site::configure(
        Some("https://ofcr.se".to_string()),
        Some("https://stats.example.test/base".to_string()),
        Some(&b"{\"music\": \"https://example.test/m\"}"[..]),
        Some("ofcrse"),
    )
    .unwrap();
    assert_eq!(full.site_url, "https://ofcr.se");
    assert_eq!(full.upstream.url(), "https://stats.example.test/base");
    assert_eq!(full.upstream.host(), "stats.example.test");
    assert_eq!(full.shortlinks.get("music").unwrap(), "https://example.test/m");
    assert!(full.production);

    let broken_table = Site::configure(None, None, Some(&b"[]"[..]), Some("other")).unwrap();
    assert_eq!(broken_table.shortlinks.len(), 0);
    assert!(!broken_table.production);
}

#[test]
fn a_site_needs_a_visit_counter_with_a_host() {
    let report = match Site::configure(None, Some("not a uri".to_string()), None, None) {
        Err(report) => report,
        Ok(_) => panic!("a site was configured"),
    };
    assert_eq!(report.chain, vec!["invalid uri character".to_string()]);
    let report = match Site::configure(None, Some("/path".to_string()), None, None) {
        Err(report) => report,
        Ok(_) => panic!("a site was configured"),
    };
    assert_eq!(report.chain, vec!["the upstream address names no host".to_string()]);
}

#[test]
fn the_counter_is_reached_on_the_primary_site_only() {
    match site(false).handle(request(Some("ofcr.se"), "/count", Some("p=/"))) {
        Ok(Action::Forward(forward)) => {
            assert_eq!(forward.uri, "https://stats.example.test?p=/");
            assert_eq!(forward.headers.get("host").unwrap(), "stats.example.test");
        }
        _ => panic!("the request was not forwarded"),
    }
    assert!(matches!(
        site(false).handle(request(Some("l.ofcr.se"), "/count", None)),
        Err(Failure::NotFound)
    ));
    let moved = response_of(site(false).handle(request(Some("oftcour.se"), "/count", None)));
    assert_eq!(moved.status, 301);
}
