//! The site as a whole: every request goes to the part that its host names.

use crate::error::{is_production, production_name, Failure, FailureView};
use crate::error::{Report, ReportView};
use crate::headers::{full_count, header_count};
use crate::primary::{primary_router, static_plan, Action, ActionView};
use crate::proxy::{forwarded, is_proxy_path, proxy_failure, proxy_target, Upstream};
use crate::proxy::{upstream_of, UpstreamView};
use crate::request::{text_of, Request, RequestView};
use crate::response::{bad_request, Response, ResponseView};
use crate::router::{default_hosts, route_of, HostConfig, HostConfigView, RouteTarget};
use crate::shortlinks::{json_links, read_shortlinks_or_empty, ShortlinkTable};
use crate::handlers::{health_check_answer, health_check_router, music_shortlink_answer};
use crate::handlers::{music_shortlink_router, redirect_to_primary_site};
use crate::handlers::{redirect_to_primary_site_router, shortlinks_answer, shortlinks_router};
use crate::uri::{is_uri, uri_parse};
use vstd::prelude::*;

verus! {

/// What the site is made of. All of it is settled before the first request and does not
/// change afterwards.
pub struct Site {
    pub hosts: HostConfig,
    /// The address of the canonical site, without a trailing slash.
    pub site_url: String,
    pub upstream: Upstream,
    pub shortlinks: ShortlinkTable,
    /// Whether the process runs in production, where error pages tell no details.
    pub production: bool,
}

/// What a [`Site`] holds.
pub struct SiteView {
    pub hosts: HostConfigView,
    pub site_url: Seq<char>,
    pub upstream: UpstreamView,
    pub shortlinks: Map<Seq<char>, Seq<char>>,
    pub production: bool,
}

impl View for Site {
    type V = SiteView;

    open spec fn view(&self) -> SiteView {
        SiteView {
            hosts: self.hosts@,
            site_url: self.site_url@,
            upstream: self.upstream@,
            shortlinks: self.shortlinks@,
            production: self.production,
        }
    }
}

/// What the site gives back, as values: an action or a failure.
pub open spec fn outcome_view(answer: Result<Action, Failure>) -> Result<
    ActionView,
    FailureView,
> {
    match answer {
        Ok(action) => Ok(action@),
        Err(error) => Err(error@),
    }
}

/// The outcome that sends the response of a handler, or hands on its failure.
pub open spec fn responding(answer: Result<ResponseView, FailureView>) -> Result<
    ActionView,
    FailureView,
> {
    match answer {
        Ok(response) => Ok(ActionView::Respond(response)),
        Err(error) => Err(error),
    }
}

/// What the primary site comes to, given whether the proxy got its request ready: below the
/// proxy's prefix the forwarded request, or the failure that tells why there is none;
/// everywhere else what the file server does.
pub open spec fn primary_outcome(site: SiteView, request: RequestView, forwards: bool) -> Result<
    ActionView,
    FailureView,
> {
    if !is_proxy_path(request.path) {
        Ok(static_plan(request))
    } else if forwards {
        Ok(
            ActionView::Forward(
                forwarded(
                    site.upstream,
                    request.path,
                    request.query,
                    request.fields,
                    request.peer,
                ),
            ),
        )
    } else {
        Err(FailureView::Internal(proxy_failure(site.upstream, request.path, request.query)))
    }
}

/// What the site comes to for a request, given whether the proxy got its request ready.
/// A request that names no host is a bad request. A host without a target is not found.
/// Every other request is handled by the target of its host, and by that alone.
pub open spec fn site_outcome(site: SiteView, request: RequestView, forwards: bool) -> Result<
    ActionView,
    FailureView,
> {
    match request.host {
        None => Ok(ActionView::Respond(bad_request())),
        Some(host) => match route_of(site.hosts, host) {
            None => Err(FailureView::NotFound),
            Some(RouteTarget::HealthCheck) => responding(health_check_answer(request.path)),
            Some(RouteTarget::ShortlinkSite) => responding(
                shortlinks_answer(site.shortlinks, site.site_url, request.method, request.path),
            ),
            Some(RouteTarget::MusicShortlink) => responding(
                music_shortlink_answer(site.shortlinks, request.method, request.path),
            ),
            Some(RouteTarget::CrossSiteRedirect) => Ok(
                ActionView::Respond(
                    redirect_to_primary_site(site.site_url, request.path, request.query),
                ),
            ),
            Some(RouteTarget::PrimarySite) => primary_outcome(site, request, forwards),
        },
    }
}

/// Whether a request reaches the proxy: it names a host of the primary site and a path
/// below the proxy's prefix.
pub open spec fn reaches_proxy(site: SiteView, request: RequestView) -> bool {
    request.host matches Some(host) && route_of(site.hosts, host) == Some(
        RouteTarget::PrimarySite,
    ) && is_proxy_path(request.path)
}

/// The action that sends the response of a handler, or its failure.
fn respond(answer: Result<Response, Failure>) -> (outcome: Result<Action, Failure>)
    ensures
        outcome_view(outcome) == responding(crate::handlers::answer_view(answer)),
{
    match answer {
        Ok(response) => Ok(Action::Respond(response)),
        Err(error) => Err(error),
    }
}

/// The address of the site where none is configured.
pub open spec fn default_site_url() -> Seq<char> {
    "http://localhost:3000"@
}

/// The text that is configured, or the default.
pub open spec fn or_default(configured: Option<Seq<char>>) -> Seq<char> {
    match configured {
        Some(text) => text,
        None => default_site_url(),
    }
}

/// The table that the site starts with: the one that the text holds, and an empty one where
/// there is no text or it holds no table.
pub open spec fn starting_links(json: Option<Seq<u8>>) -> Map<Seq<char>, Seq<char>> {
    match json {
        Some(text) => match json_links(text) {
            Ok(links) => links,
            Err(_) => Map::empty(),
        },
        None => Map::empty(),
    }
}

/// The site that a configuration describes, or why it describes none. The hostnames are
/// those of the deployed site. The address of the site and that of the visit counter both
/// default to the local one. Only the address of the visit counter can be at fault.
pub open spec fn configured(
    site_url: Option<Seq<char>>,
    counter_url: Option<Seq<char>>,
    shortlinks: Option<Seq<u8>>,
    app_name: Option<Seq<char>>,
) -> Result<SiteView, ReportView> {
    match upstream_of(or_default(counter_url), uri_parse(or_default(counter_url))) {
        Ok(upstream) => Ok(
            SiteView {
                hosts: default_hosts(),
                site_url: or_default(site_url),
                upstream,
                shortlinks: starting_links(shortlinks),
                production: app_name == Some(production_name()),
            },
        ),
        Err(report) => Err(report),
    }
}

/// A site or a failure, as values.
pub open spec fn site_view(made: Result<Site, Report>) -> Result<SiteView, ReportView> {
    match made {
        Ok(site) => Ok(site@),
        Err(report) => Err(report@),
    }
}

impl Site {
    /// The site as it is deployed, from what the environment says: the address of the site,
    /// the address of the visit counter, the JSON text of the short links, and the name that
    /// the platform gave the application. Each may be missing.
    pub fn configure(
        site_url: Option<String>,
        goatcounter_url: Option<String>,
        shortlinks: Option<&[u8]>,
        app_name: Option<&str>,
    ) -> (made: Result<Site, Report>)
        ensures
            site_view(made) == configured(
                text_of(site_url),
                text_of(goatcounter_url),
                match shortlinks {
                    Some(json) => Some(json@),
                    None => None,
                },
                match app_name {
                    Some(name) => Some(name@),
                    None => None,
                },
            ),
    {
        let counter = match goatcounter_url {
            Some(url) => url,
            None => "http://localhost:3000".to_owned(),
        };
        let upstream = match Upstream::new(counter) {
            Ok(upstream) => upstream,
            Err(report) => {
                return Err(report);
            },
        };
        let site_url = match site_url {
            Some(url) => url,
            None => "http://localhost:3000".to_owned(),
        };
        Ok(
            Site {
                hosts: HostConfig::default(),
                site_url,
                upstream,
                shortlinks: read_shortlinks_or_empty(shortlinks),
                production: is_production(app_name),
            },
        )
    }

    /// Decides what is to be done for a request. The outcome is stated given whether there
    /// is an action. For a request that reaches the proxy there is none where its target is
    /// no URI, and there is one where the target is a URI and the header map is not full.
    pub fn handle(&self, request: Request) -> (answer: Result<Action, Failure>)
        ensures
            outcome_view(answer) == site_outcome(self@, request@, answer is Ok),
            reaches_proxy(self@, request@) && !is_uri(
                proxy_target(self@.upstream.url, request@.path, request@.query),
            ) ==> answer is Err,
            reaches_proxy(self@, request@) && is_uri(
                proxy_target(self@.upstream.url, request@.path, request@.query),
            ) && header_count(request.headers) + 1 < full_count() ==> answer is Ok,
    {
        let target = match &request.host {
            None => {
                return Ok(Action::Respond(Response::bad_request()));
            },
            Some(host) => match self.hosts.route(host.as_str()) {
                Ok(target) => target,
                Err(error) => {
                    return Err(error);
                },
            },
        };
        match target {
            RouteTarget::HealthCheck => respond(health_check_router(request.path.as_str())),
            RouteTarget::ShortlinkSite => respond(
                shortlinks_router(
                    &self.shortlinks,
                    self.site_url.as_str(),
                    request.method,
                    request.path.as_str(),
                ),
            ),
            RouteTarget::MusicShortlink => respond(
                music_shortlink_router(&self.shortlinks, request.method, request.path.as_str()),
            ),
            RouteTarget::CrossSiteRedirect => {
                let query = match &request.query {
                    Some(q) => Some(q.as_str()),
                    None => None,
                };
                Ok(
                    Action::Respond(
                        redirect_to_primary_site_router(
                            self.site_url.as_str(),
                            request.path.as_str(),
                            query,
                        ),
                    ),
                )
            },
            RouteTarget::PrimarySite => match primary_router(&self.upstream, request) {
                Ok(action) => Ok(action),
                Err(report) => Err(Failure::Internal(report)),
            },
        }
    }
}

} // verus!
