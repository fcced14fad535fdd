//! The host router: which part of the site a hostname stands for.

use crate::error::{Failure, FailureView};
use crate::text::{ends_with, str_eq};
use vstd::prelude::*;

verus! {

/// The part of the site that handles a request.
#[derive(Clone, Copy, Debug, PartialEq, Eq, Structural)]
pub enum RouteTarget {
    /// The liveness probe of the hosting platform.
    HealthCheck,
    /// The short links: each path is a key of the table.
    ShortlinkSite,
    /// The one short link that has a hostname of its own.
    MusicShortlink,
    /// A second domain of the site: everything moves to the canonical one.
    CrossSiteRedirect,
    /// The site itself: its files, and the proxy for the visit counter.
    PrimarySite,
}

/// The hostnames that the site answers to. Names are compared as they are written, letter
/// case included.
#[derive(Debug)]
pub struct HostConfig {
    /// The host of the liveness probe.
    pub health_check: String,
    /// The host of the short links.
    pub shortlinks: String,
    /// The host of the music link.
    pub music: String,
    /// The second domains, each of which redirects to the canonical site.
    pub secondary: Vec<String>,
    /// The endings of the site's own domains. A host with such an ending that is not listed
    /// above serves nothing.
    pub secondary_suffixes: Vec<String>,
}

/// What a [`HostConfig`] holds.
pub struct HostConfigView {
    pub health_check: Seq<char>,
    pub shortlinks: Seq<char>,
    pub music: Seq<char>,
    pub secondary: Seq<Seq<char>>,
    pub secondary_suffixes: Seq<Seq<char>>,
}

impl View for HostConfig {
    type V = HostConfigView;

    open spec fn view(&self) -> HostConfigView {
        HostConfigView {
            health_check: self.health_check@,
            shortlinks: self.shortlinks@,
            music: self.music@,
            secondary: Seq::new(self.secondary@.len(), |i: int| self.secondary@[i]@),
            secondary_suffixes: Seq::new(
                self.secondary_suffixes@.len(),
                |i: int| self.secondary_suffixes@[i]@,
            ),
        }
    }
}

/// `host` is one of `names`.
pub open spec fn listed(names: Seq<Seq<char>>, host: Seq<char>) -> bool {
    exists|i: int| 0 <= i < names.len() && #[trigger] names[i] == host
}

/// `host` ends with one of `endings`.
pub open spec fn has_ending(endings: Seq<Seq<char>>, host: Seq<char>) -> bool {
    exists|i: int| 0 <= i < endings.len() && (#[trigger] endings[i]).is_suffix_of(host)
}

/// The target of a host, by the first rule that applies: the probe's host, the host of the
/// short links, the host of the music link, a listed second domain. Any other host under one
/// of the site's own domains has no target. Every host that is left is the primary site.
pub open spec fn route_of(config: HostConfigView, host: Seq<char>) -> Option<RouteTarget> {
    if host == config.health_check {
        Some(RouteTarget::HealthCheck)
    } else if host == config.shortlinks {
        Some(RouteTarget::ShortlinkSite)
    } else if host == config.music {
        Some(RouteTarget::MusicShortlink)
    } else if listed(config.secondary, host) {
        Some(RouteTarget::CrossSiteRedirect)
    } else if has_ending(config.secondary_suffixes, host) {
        None
    } else {
        Some(RouteTarget::PrimarySite)
    }
}

/// Every host has a target but the unlisted hosts under the site's own domains: a host is
/// without one exactly when no rule names it and it has one of the configured endings.
pub proof fn lemma_only_unlisted_subdomains_are_unrouted(config: HostConfigView, host: Seq<char>)
    ensures
        route_of(config, host) is None <==> {
            &&& host != config.health_check
            &&& host != config.shortlinks
            &&& host != config.music
            &&& !listed(config.secondary, host)
            &&& has_ending(config.secondary_suffixes, host)
        },
{
}

/// The hostnames of the site as it is deployed.
pub open spec fn default_hosts() -> HostConfigView {
    HostConfigView {
        health_check: "health.check"@,
        shortlinks: "l.ofcr.se"@,
        music: "music.ofcr.se"@,
        secondary: seq!["oftcour.se"@, "www.oftcour.se"@, "ofcrse.fly.dev"@],
        secondary_suffixes: seq![".ofcr.se"@, ".oftcour.se"@],
    }
}

/// Whether `host` is one of `names`.
fn is_listed(names: &Vec<String>, host: &str) -> (found: bool)
    ensures
        found == listed(Seq::new(names@.len(), |i: int| names@[i]@), host@),
{
    let ghost view = Seq::new(names@.len(), |i: int| names@[i]@);
    let mut i: usize = 0;
    while i < names.len()
        invariant
            i <= names.len(),
            view == Seq::new(names@.len(), |i: int| names@[i]@),
            forall|j: int| 0 <= j < i ==> view[j] != host@,
        decreases names.len() - i,
    {
        if str_eq(names[i].as_str(), host) {
            assert(view[i as int] == host@);
            return true;
        }
        i += 1;
    }
    false
}

/// Whether `host` ends with one of `endings`.
fn ends_with_any(endings: &Vec<String>, host: &str) -> (found: bool)
    ensures
        found == has_ending(Seq::new(endings@.len(), |i: int| endings@[i]@), host@),
{
    let ghost view = Seq::new(endings@.len(), |i: int| endings@[i]@);
    let mut i: usize = 0;
    while i < endings.len()
        invariant
            i <= endings.len(),
            view == Seq::new(endings@.len(), |i: int| endings@[i]@),
            forall|j: int| 0 <= j < i ==> !view[j].is_suffix_of(host@),
        decreases endings.len() - i,
    {
        if ends_with(host, endings[i].as_str()) {
            assert(view[i as int].is_suffix_of(host@));
            return true;
        }
        i += 1;
    }
    false
}

impl HostConfig {
    /// The target of a request for `host`, or `NotFound` for a host that has none.
    pub fn route(&self, host: &str) -> (target: Result<RouteTarget, Failure>)
        ensures
            match target {
                Ok(t) => route_of(self@, host@) == Some(t),
                Err(e) => route_of(self@, host@) is None && e@ == FailureView::NotFound,
            },
    {
        if str_eq(host, self.health_check.as_str()) {
            Ok(RouteTarget::HealthCheck)
        } else if str_eq(host, self.shortlinks.as_str()) {
            Ok(RouteTarget::ShortlinkSite)
        } else if str_eq(host, self.music.as_str()) {
            Ok(RouteTarget::MusicShortlink)
        } else if is_listed(&self.secondary, host) {
            Ok(RouteTarget::CrossSiteRedirect)
        } else if ends_with_any(&self.secondary_suffixes, host) {
            Err(Failure::NotFound)
        } else {
            Ok(RouteTarget::PrimarySite)
        }
    }
}

impl Default for HostConfig {
    /// The hostnames of the site as it is deployed.
    fn default() -> (config: HostConfig)
        ensures
            config@ == default_hosts(),
    {
        let mut secondary: Vec<String> = Vec::new();
        secondary.push("oftcour.se".to_owned());
        secondary.push("www.oftcour.se".to_owned());
        secondary.push("ofcrse.fly.dev".to_owned());
        let mut secondary_suffixes: Vec<String> = Vec::new();
        secondary_suffixes.push(".ofcr.se".to_owned());
        secondary_suffixes.push(".oftcour.se".to_owned());
        let config = HostConfig {
            health_check: "health.check".to_owned(),
            shortlinks: "l.ofcr.se".to_owned(),
            music: "music.ofcr.se".to_owned(),
            secondary,
            secondary_suffixes,
        };
        assert(config@.secondary =~= default_hosts().secondary);
        assert(config@.secondary_suffixes =~= default_hosts().secondary_suffixes);
        config
    }
}

} // verus!
