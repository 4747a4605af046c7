//! The exact URLs the dashboard calls on each backend.
//!
//! Every builder states the full endpoint text; the host only sends.
//! The search builder percent-encodes the user's term through the
//! `urlencoding` crate.

use vstd::prelude::*;
use vstd::string::StringExecFns;
use crate::numfmt::{fmt_i64, fmt_u64, dec_rep, int_rep};
use crate::text_scan::{trim_trailing, trim_trailing_char};

verus! {

/// What `urlencoding::encode` returns for a string: a function of its
/// characters alone.
pub uninterp spec fn url_encoded(s: Seq<char>) -> Seq<char>;

/// Relies on `urlencoding::encode`: percent-encodes every byte except
/// ASCII alphanumerics and `-`, `_`, `.`, `~`; an empty input stays
/// empty.
#[verifier::external_body]
fn url_encode(term: &str) -> (r: String)
    ensures
        r@ == url_encoded(term@),
        term@.len() == 0 ==> r@.len() == 0,
{
    urlencoding::encode(term).into_owned()
}

/// The textual form of a boolean query parameter.
pub open spec fn bool_rep(b: bool) -> Seq<char> {
    if b {
        "true"@
    } else {
        "false"@
    }
}

/// A series/movie-manager resource endpoint:
/// `<url>/api/v3/<resource>?apikey=<key>`.
pub fn api_v3_endpoint(url: &str, resource: &str, key: &str) -> (r: String)
    ensures
        r@ == url@ + "/api/v3/"@ + resource@ + "?apikey="@ + key@,
{
    let mut s = url.to_owned();
    s.append("/api/v3/");
    s.append(resource);
    s.append("?apikey=");
    s.append(key);
    assert(s@ =~= url@ + "/api/v3/"@ + resource@ + "?apikey="@ + key@);
    s
}

/// A series/movie-manager lookup endpoint with the percent-encoded
/// search term attached.
pub fn search_endpoint(url: &str, resource: &str, key: &str, term: &str) -> (r: String)
    ensures
        r@ == url@ + "/api/v3/"@ + resource@ + "?apikey="@ + key@ + "&term="@ + url_encoded(
            term@,
        ),
{
    let mut s = api_v3_endpoint(url, resource, key);
    s.append("&term=");
    let encoded = url_encode(term);
    s.append(encoded.as_str());
    assert(s@ =~= url@ + "/api/v3/"@ + resource@ + "?apikey="@ + key@ + "&term="@ + url_encoded(
        term@,
    ));
    s
}

/// A series/movie-manager delete endpoint:
/// `<url>/api/v3/<resource>/<id>?apikey=<key>&deleteFiles=<flag>`.
pub fn delete_endpoint(url: &str, resource: &str, key: &str, id: i64, delete_files: bool) -> (r:
    String)
    ensures
        r@ == url@ + "/api/v3/"@ + resource@ + "/"@ + int_rep(id as int) + "?apikey="@ + key@
            + "&deleteFiles="@ + bool_rep(delete_files),
{
    let mut s = url.to_owned();
    s.append("/api/v3/");
    s.append(resource);
    s.append("/");
    let ids = fmt_i64(id);
    s.append(ids.as_str());
    s.append("?apikey=");
    s.append(key);
    s.append("&deleteFiles=");
    if delete_files {
        s.append("true");
    } else {
        s.append("false");
    }
    assert(s@ =~= url@ + "/api/v3/"@ + resource@ + "/"@ + int_rep(id as int) + "?apikey="@ + key@
        + "&deleteFiles="@ + bool_rep(delete_files));
    s
}

/// The missing-episodes probe of a series manager: one page, newest
/// air date first.
pub fn wanted_missing_endpoint(url: &str, key: &str) -> (r: String)
    ensures
        r@ == url@ + "/api/v3/wanted/missing?apikey="@ + key@
            + "&pageSize=1&sortKey=airDateUtc&sortDirection=descending"@,
{
    let mut s = url.to_owned();
    s.append("/api/v3/wanted/missing?apikey=");
    s.append(key);
    s.append("&pageSize=1&sortKey=airDateUtc&sortDirection=descending");
    assert(s@ =~= url@ + "/api/v3/wanted/missing?apikey="@ + key@
        + "&pageSize=1&sortKey=airDateUtc&sortDirection=descending"@);
    s
}

/// The calendar endpoint of a series/movie manager, over a date range.
pub fn calendar_endpoint(url: &str, key: &str, start: &str, end: &str) -> (r: String)
    ensures
        r@ == url@ + "/api/v3/calendar?apikey="@ + key@ + "&start="@ + start@ + "&end="@ + end@
            + "&includeSeries=true"@,
{
    let mut s = url.to_owned();
    s.append("/api/v3/calendar?apikey=");
    s.append(key);
    s.append("&start=");
    s.append(start);
    s.append("&end=");
    s.append(end);
    s.append("&includeSeries=true");
    assert(s@ =~= url@ + "/api/v3/calendar?apikey="@ + key@ + "&start="@ + start@ + "&end="@
        + end@ + "&includeSeries=true"@);
    s
}

/// The indexer proxy's machine-to-machine health probe: the search
/// endpoint, which accepts the API key without browser cookies.
pub fn jackett_health_endpoint(url: &str, key: &str) -> (r: String)
    ensures
        r@ == trim_trailing(url@, '/') + "/api/v2.0/indexers/all/results?apikey="@ + key@
            + "&t=search&q="@,
{
    let mut s = trim_trailing_char(url, '/');
    s.append("/api/v2.0/indexers/all/results?apikey=");
    s.append(key);
    s.append("&t=search&q=");
    assert(s@ =~= trim_trailing(url@, '/') + "/api/v2.0/indexers/all/results?apikey="@ + key@
        + "&t=search&q="@);
    s
}

/// The indexer proxy's Torznab listing endpoint, which returns the XML
/// document the scanner walks.
pub fn jackett_torznab_endpoint(url: &str, key: &str) -> (r: String)
    ensures
        r@ == trim_trailing(url@, '/') + "/api/v2.0/indexers/all/results/torznab/api?apikey="@
            + key@ + "&t=indexers"@,
{
    let mut s = trim_trailing_char(url, '/');
    s.append("/api/v2.0/indexers/all/results/torznab/api?apikey=");
    s.append(key);
    s.append("&t=indexers");
    assert(s@ =~= trim_trailing(url@, '/') + "/api/v2.0/indexers/all/results/torznab/api?apikey="@
        + key@ + "&t=indexers"@);
    s
}

/// The download client's single RPC endpoint.
pub fn transmission_rpc_endpoint(url: &str) -> (r: String)
    ensures
        r@ == url@ + "/transmission/rpc"@,
{
    let mut s = url.to_owned();
    s.append("/transmission/rpc");
    s
}

/// The Plex sessions probe.
pub fn plex_sessions_endpoint(url: &str, token: &str) -> (r: String)
    ensures
        r@ == url@ + "/status/sessions?X-Plex-Token="@ + token@,
{
    let mut s = url.to_owned();
    s.append("/status/sessions?X-Plex-Token=");
    s.append(token);
    assert(s@ =~= url@ + "/status/sessions?X-Plex-Token="@ + token@);
    s
}

/// The Plex server root, which reports the machine identifier and name.
pub fn plex_root_endpoint(url: &str, token: &str) -> (r: String)
    ensures
        r@ == trim_trailing(url@, '/') + "/?X-Plex-Token="@ + token@,
{
    let mut s = trim_trailing_char(url, '/');
    s.append("/?X-Plex-Token=");
    s.append(token);
    assert(s@ =~= trim_trailing(url@, '/') + "/?X-Plex-Token="@ + token@);
    s
}

/// The Plex sections listing.
pub fn plex_sections_endpoint(url: &str, token: &str) -> (r: String)
    ensures
        r@ == trim_trailing(url@, '/') + "/library/sections?X-Plex-Token="@ + token@,
{
    let mut s = trim_trailing_char(url, '/');
    s.append("/library/sections?X-Plex-Token=");
    s.append(token);
    assert(s@ =~= trim_trailing(url@, '/') + "/library/sections?X-Plex-Token="@ + token@);
    s
}

/// The zero-size listing of one Plex section, which reports the total
/// item count without items.
pub fn plex_section_count_endpoint(base: &str, key: &str, token: &str) -> (r: String)
    ensures
        r@ == base@ + "/library/sections/"@ + key@ + "/all?X-Plex-Token="@ + token@
            + "&X-Plex-Container-Start=0&X-Plex-Container-Size=0"@,
{
    let mut s = base.to_owned();
    s.append("/library/sections/");
    s.append(key);
    s.append("/all?X-Plex-Token=");
    s.append(token);
    s.append("&X-Plex-Container-Start=0&X-Plex-Container-Size=0");
    assert(s@ =~= base@ + "/library/sections/"@ + key@ + "/all?X-Plex-Token="@ + token@
        + "&X-Plex-Container-Start=0&X-Plex-Container-Size=0"@);
    s
}

/// The Plex recently-added listing, capped at `limit` items.
pub fn plex_recently_added_endpoint(url: &str, token: &str, limit: u64) -> (r: String)
    ensures
        r@ == trim_trailing(url@, '/') + "/library/recentlyAdded?X-Plex-Token="@ + token@
            + "&X-Plex-Container-Start=0&X-Plex-Container-Size="@ + dec_rep(limit as int),
{
    let mut s = trim_trailing_char(url, '/');
    s.append("/library/recentlyAdded?X-Plex-Token=");
    s.append(token);
    s.append("&X-Plex-Container-Start=0&X-Plex-Container-Size=");
    let n = fmt_u64(limit);
    s.append(n.as_str());
    assert(s@ =~= trim_trailing(url@, '/') + "/library/recentlyAdded?X-Plex-Token="@ + token@
        + "&X-Plex-Container-Start=0&X-Plex-Container-Size="@ + dec_rep(limit as int));
    s
}

/// The sessions probe of the Emby-like streaming servers.
pub fn emby_sessions_endpoint(url: &str, key: &str) -> (r: String)
    ensures
        r@ == url@ + "/Sessions?api_key="@ + key@,
{
    let mut s = url.to_owned();
    s.append("/Sessions?api_key=");
    s.append(key);
    assert(s@ =~= url@ + "/Sessions?api_key="@ + key@);
    s
}

} // verus!
