//! Which backends a dashboard poll visits, and in what order.
//!
//! The order is a display contract: the streaming server first, then the
//! two library managers, the indexer proxy, the download client, and the
//! remaining streaming servers.  A backend with an empty connection URL
//! is not configured and is skipped; every configured backend yields
//! exactly one row, however its probe ends.

use vstd::prelude::*;
use crate::config::{ConfigModel, DashboardConfig};

verus! {

/// One of the fixed set of backends the dashboard knows.
#[derive(PartialEq, Eq, Structural, Clone, Copy, Debug)]
pub enum Backend {
    Plex,
    Sonarr,
    Radarr,
    Jackett,
    Transmission,
    Jellyfin,
    Emby,
}

/// The backends one poll visits: the fixed display order, restricted to
/// those whose connection URL is non-empty.
pub open spec fn plan_spec(c: ConfigModel) -> Seq<Backend> {
    (if c.plex_url.len() > 0 {
        seq![Backend::Plex]
    } else {
        Seq::empty()
    }) + (if c.sonarr_url.len() > 0 {
        seq![Backend::Sonarr]
    } else {
        Seq::empty()
    }) + (if c.radarr_url.len() > 0 {
        seq![Backend::Radarr]
    } else {
        Seq::empty()
    }) + (if c.jackett_url.len() > 0 {
        seq![Backend::Jackett]
    } else {
        Seq::empty()
    }) + (if c.transmission_url.len() > 0 {
        seq![Backend::Transmission]
    } else {
        Seq::empty()
    }) + (if c.jellyfin_url.len() > 0 {
        seq![Backend::Jellyfin]
    } else {
        Seq::empty()
    }) + (if c.emby_url.len() > 0 {
        seq![Backend::Emby]
    } else {
        Seq::empty()
    })
}

/// The backends one poll visits, in display order.
pub fn poll_plan(cfg: &DashboardConfig) -> (v: Vec<Backend>)
    ensures
        v@ == plan_spec(cfg@),
{
    let mut v: Vec<Backend> = Vec::new();
    if !cfg.plex_url.as_str().is_empty() {
        v.push(Backend::Plex);
    }
    if !cfg.sonarr_url.as_str().is_empty() {
        v.push(Backend::Sonarr);
    }
    if !cfg.radarr_url.as_str().is_empty() {
        v.push(Backend::Radarr);
    }
    if !cfg.jackett_url.as_str().is_empty() {
        v.push(Backend::Jackett);
    }
    if !cfg.transmission_url.as_str().is_empty() {
        v.push(Backend::Transmission);
    }
    if !cfg.jellyfin_url.as_str().is_empty() {
        v.push(Backend::Jellyfin);
    }
    if !cfg.emby_url.as_str().is_empty() {
        v.push(Backend::Emby);
    }
    proof {
        assert(v@ =~= plan_spec(cfg@));
    }
    v
}

} // verus!
