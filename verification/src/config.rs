//! The dashboard's connection settings and the credential masking /
//! merge protocol applied at the configuration boundary.
//!
//! The stored form holds real secrets.  The displayed form replaces every
//! non-empty secret with a fixed sentinel, so a client can resubmit the
//! form without ever seeing the secret: a field equal to the sentinel on
//! merge resolves to the previously stored value, while any other value —
//! including an intentional clear to empty — is taken verbatim.

use vstd::prelude::*;
use vstd::string::StringExecFns;

verus! {

/// One URL and one or two credential fields per backend.
pub struct DashboardConfig {
    pub sonarr_url: String,
    pub sonarr_key: String,
    pub radarr_url: String,
    pub radarr_key: String,
    pub jackett_url: String,
    pub jackett_key: String,
    pub transmission_url: String,
    pub transmission_user: String,
    pub transmission_pass: String,
    pub plex_url: String,
    pub plex_token: String,
    pub jellyfin_url: String,
    pub jellyfin_key: String,
    pub emby_url: String,
    pub emby_key: String,
}

/// `DashboardConfig`, at the specification level.
pub struct ConfigModel {
    pub sonarr_url: Seq<char>,
    pub sonarr_key: Seq<char>,
    pub radarr_url: Seq<char>,
    pub radarr_key: Seq<char>,
    pub jackett_url: Seq<char>,
    pub jackett_key: Seq<char>,
    pub transmission_url: Seq<char>,
    pub transmission_user: Seq<char>,
    pub transmission_pass: Seq<char>,
    pub plex_url: Seq<char>,
    pub plex_token: Seq<char>,
    pub jellyfin_url: Seq<char>,
    pub jellyfin_key: Seq<char>,
    pub emby_url: Seq<char>,
    pub emby_key: Seq<char>,
}

impl View for DashboardConfig {
    type V = ConfigModel;

    open spec fn view(&self) -> ConfigModel {
        ConfigModel {
            sonarr_url: self.sonarr_url@,
            sonarr_key: self.sonarr_key@,
            radarr_url: self.radarr_url@,
            radarr_key: self.radarr_key@,
            jackett_url: self.jackett_url@,
            jackett_key: self.jackett_key@,
            transmission_url: self.transmission_url@,
            transmission_user: self.transmission_user@,
            transmission_pass: self.transmission_pass@,
            plex_url: self.plex_url@,
            plex_token: self.plex_token@,
            jellyfin_url: self.jellyfin_url@,
            jellyfin_key: self.jellyfin_key@,
            emby_url: self.emby_url@,
            emby_key: self.emby_key@,
        }
    }
}

/// The placeholder standing in for a hidden secret.
pub open spec fn sentinel() -> Seq<char> {
    "********"@
}

/// The placeholder standing in for a hidden secret.
pub fn mask_sentinel() -> (r: &'static str)
    ensures
        r@ == sentinel(),
{
    "********"
}

/// One secret field on the read path: hidden when set, left empty when
/// not, so "not configured" stays distinguishable from "hidden".
pub open spec fn mask_field(f: Seq<char>) -> Seq<char> {
    if f.len() == 0 {
        f
    } else {
        sentinel()
    }
}

/// One secret field on the write path: the sentinel means "unchanged",
/// anything else — the empty string included — is taken verbatim.
pub open spec fn merge_field(stored: Seq<char>, incoming: Seq<char>) -> Seq<char> {
    if incoming == sentinel() {
        stored
    } else {
        incoming
    }
}

/// The displayed form of a configuration: every non-empty secret field
/// replaced by the sentinel, all other fields unchanged.
pub open spec fn mask_spec(c: ConfigModel) -> ConfigModel {
    ConfigModel {
        sonarr_key: mask_field(c.sonarr_key),
        radarr_key: mask_field(c.radarr_key),
        jackett_key: mask_field(c.jackett_key),
        transmission_pass: mask_field(c.transmission_pass),
        plex_token: mask_field(c.plex_token),
        jellyfin_key: mask_field(c.jellyfin_key),
        emby_key: mask_field(c.emby_key),
        ..c
    }
}

/// The resolved form of an update: secret fields equal to the sentinel
/// fall back to the stored value, everything else comes from the
/// incoming payload.
pub open spec fn merge_spec(stored: ConfigModel, incoming: ConfigModel) -> ConfigModel {
    ConfigModel {
        sonarr_key: merge_field(stored.sonarr_key, incoming.sonarr_key),
        radarr_key: merge_field(stored.radarr_key, incoming.radarr_key),
        jackett_key: merge_field(stored.jackett_key, incoming.jackett_key),
        transmission_pass: merge_field(stored.transmission_pass, incoming.transmission_pass),
        plex_token: merge_field(stored.plex_token, incoming.plex_token),
        jellyfin_key: merge_field(stored.jellyfin_key, incoming.jellyfin_key),
        emby_key: merge_field(stored.emby_key, incoming.emby_key),
        ..incoming
    }
}

/// One secret field on the read path.
fn masked(f: &String) -> (r: String)
    ensures
        r@ == mask_field(f@),
{
    if f.as_str().is_empty() {
        f.clone()
    } else {
        String::from_str(mask_sentinel())
    }
}

/// One secret field on the write path.
fn merged(stored: &String, incoming: &String) -> (r: String)
    ensures
        r@ == merge_field(stored@, incoming@),
{
    let m = String::from_str(mask_sentinel());
    if *incoming == m {
        stored.clone()
    } else {
        incoming.clone()
    }
}

/// The displayed form of `cfg`: secrets hidden, URLs and user names
/// passed through.
pub fn mask(cfg: &DashboardConfig) -> (r: DashboardConfig)
    ensures
        r@ == mask_spec(cfg@),
{
    DashboardConfig {
        sonarr_url: cfg.sonarr_url.clone(),
        sonarr_key: masked(&cfg.sonarr_key),
        radarr_url: cfg.radarr_url.clone(),
        radarr_key: masked(&cfg.radarr_key),
        jackett_url: cfg.jackett_url.clone(),
        jackett_key: masked(&cfg.jackett_key),
        transmission_url: cfg.transmission_url.clone(),
        transmission_user: cfg.transmission_user.clone(),
        transmission_pass: masked(&cfg.transmission_pass),
        plex_url: cfg.plex_url.clone(),
        plex_token: masked(&cfg.plex_token),
        jellyfin_url: cfg.jellyfin_url.clone(),
        jellyfin_key: masked(&cfg.jellyfin_key),
        emby_url: cfg.emby_url.clone(),
        emby_key: masked(&cfg.emby_key),
    }
}

/// The resolved form of an update against the stored configuration.
pub fn merge(stored: &DashboardConfig, incoming: &DashboardConfig) -> (r: DashboardConfig)
    ensures
        r@ == merge_spec(stored@, incoming@),
{
    DashboardConfig {
        sonarr_url: incoming.sonarr_url.clone(),
        sonarr_key: merged(&stored.sonarr_key, &incoming.sonarr_key),
        radarr_url: incoming.radarr_url.clone(),
        radarr_key: merged(&stored.radarr_key, &incoming.radarr_key),
        jackett_url: incoming.jackett_url.clone(),
        jackett_key: merged(&stored.jackett_key, &incoming.jackett_key),
        transmission_url: incoming.transmission_url.clone(),
        transmission_user: incoming.transmission_user.clone(),
        transmission_pass: merged(&stored.transmission_pass, &incoming.transmission_pass),
        plex_url: incoming.plex_url.clone(),
        plex_token: merged(&stored.plex_token, &incoming.plex_token),
        jellyfin_url: incoming.jellyfin_url.clone(),
        jellyfin_key: merged(&stored.jellyfin_key, &incoming.jellyfin_key),
        emby_url: incoming.emby_url.clone(),
        emby_key: merged(&stored.emby_key, &incoming.emby_key),
    }
}

/// Masking is idempotent: a masked configuration masks to itself, since
/// every masked field is either empty or the (non-empty) sentinel.
pub proof fn lemma_mask_idempotent(c: ConfigModel)
    ensures
        mask_spec(mask_spec(c)) == mask_spec(c),
{
    reveal_strlit("********");
}

/// An unchanged form submission round-trips: merging a configuration
/// with its own masked form reproduces the stored configuration exactly.
pub proof fn lemma_merge_mask_roundtrip(c: ConfigModel)
    ensures
        merge_spec(c, mask_spec(c)) == c,
{
    reveal_strlit("********");
}

/// Explicit clearing is honored: an empty incoming secret stays empty in
/// the merged result, never mistaken for "unchanged".
pub proof fn lemma_merge_honors_clearing(stored: ConfigModel, incoming: ConfigModel)
    ensures
        incoming.sonarr_key.len() == 0 ==> merge_spec(stored, incoming).sonarr_key.len() == 0,
        incoming.radarr_key.len() == 0 ==> merge_spec(stored, incoming).radarr_key.len() == 0,
        incoming.jackett_key.len() == 0 ==> merge_spec(stored, incoming).jackett_key.len() == 0,
        incoming.transmission_pass.len() == 0 ==> merge_spec(
            stored,
            incoming,
        ).transmission_pass.len() == 0,
        incoming.plex_token.len() == 0 ==> merge_spec(stored, incoming).plex_token.len() == 0,
        incoming.jellyfin_key.len() == 0 ==> merge_spec(stored, incoming).jellyfin_key.len() == 0,
        incoming.emby_key.len() == 0 ==> merge_spec(stored, incoming).emby_key.len() == 0,
{
    reveal_strlit("********");
}

/// The sentinel can never become a persisted secret: a merged secret
/// equals the sentinel only when the stored secret already did.
pub proof fn lemma_sentinel_never_persisted(stored: Seq<char>, incoming: Seq<char>)
    ensures
        merge_field(stored, incoming) == sentinel() ==> stored == sentinel(),
{
}

} // verus!
