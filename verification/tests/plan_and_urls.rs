use media_dashboard::aggregator::{poll_plan, Backend};
use media_dashboard::config::DashboardConfig;
use media_dashboard::endpoints::{
    api_v3_endpoint, calendar_endpoint, delete_endpoint, emby_sessions_endpoint,
    jackett_health_endpoint, jackett_torznab_endpoint, plex_recently_added_endpoint,
    plex_root_endpoint, plex_section_count_endpoint, plex_sections_endpoint,
    plex_sessions_endpoint, search_endpoint, transmission_rpc_endpoint, wanted_missing_endpoint,
};
use media_dashboard::numfmt::{fmt_i64, fmt_u64, format_date};

fn empty_config() -> DashboardConfig {
    DashboardConfig {
        sonarr_url: String::new(),
        sonarr_key: String::new(),
        radarr_url: String::new(),
        radarr_key: String::new(),
        jackett_url: String::new(),
        jackett_key: String::new(),
        transmission_url: String::new(),
        transmission_user: String::new(),
        transmission_pass: String::new(),
        plex_url: String::new(),
        plex_token: String::new(),
        jellyfin_url: String::new(),
        jellyfin_key: String::new(),
        emby_url: String::new(),
        emby_key: String::new(),
    }
}

#[test]
fn fully_configured_dashboard_polls_in_display_order() {
    let mut cfg = empty_config();
    cfg.plex_url = "p".to_string();
    cfg.sonarr_url = "s".to_string();
    cfg.radarr_url = "r".to_string();
    cfg.jackett_url = "j".to_string();
    cfg.transmission_url = "t".to_string();
    cfg.jellyfin_url = "jf".to_string();
    cfg.emby_url = "e".to_string();
    assert_eq!(
        poll_plan(&cfg),
        vec![
            Backend::Plex,
            Backend::Sonarr,
            Backend::Radarr,
            Backend::Jackett,
            Backend::Transmission,
            Backend::Jellyfin,
            Backend::Emby,
        ]
    );
}

#[test]
fn backends_with_empty_urls_are_skipped() {
    let mut cfg = empty_config();
    cfg.sonarr_url = "s".to_string();
    cfg.transmission_url = "t".to_string();
    assert_eq!(poll_plan(&cfg), vec![Backend::Sonarr, Backend::Transmission]);
    assert_eq!(poll_plan(&empty_config()), Vec::<Backend>::new());
}

#[test]
fn series_manager_endpoints_are_exact() {
    assert_eq!(
        api_v3_endpoint("http://sonarr:8989", "system/status", "k1"),
        "http://sonarr:8989/api/v3/system/status?apikey=k1"
    );
    assert_eq!(
        wanted_missing_endpoint("http://sonarr:8989", "k1"),
        "http://sonarr:8989/api/v3/wanted/missing?apikey=k1&pageSize=1&sortKey=airDateUtc&sortDirection=descending"
    );
    assert_eq!(
        delete_endpoint("http://sonarr:8989", "series", "k1", 42, true),
        "http://sonarr:8989/api/v3/series/42?apikey=k1&deleteFiles=true"
    );
    assert_eq!(
        calendar_endpoint("http://sonarr:8989", "k1", "2026-10-12", "2026-10-19"),
        "http://sonarr:8989/api/v3/calendar?apikey=k1&start=2026-10-12&end=2026-10-19&includeSeries=true"
    );
}

#[test]
fn search_endpoint_percent_encodes_the_term() {
    assert_eq!(
        search_endpoint("http://sonarr:8989", "series/lookup", "k1", "the wire & more"),
        "http://sonarr:8989/api/v3/series/lookup?apikey=k1&term=the%20wire%20%26%20more"
    );
}

#[test]
fn jackett_endpoints_trim_trailing_slashes() {
    assert_eq!(
        jackett_health_endpoint("http://jackett:9117/", "jk"),
        "http://jackett:9117/api/v2.0/indexers/all/results?apikey=jk&t=search&q="
    );
    assert_eq!(
        jackett_torznab_endpoint("http://jackett:9117", "jk"),
        "http://jackett:9117/api/v2.0/indexers/all/results/torznab/api?apikey=jk&t=indexers"
    );
}

#[test]
fn transmission_and_streaming_endpoints_are_exact() {
    assert_eq!(
        transmission_rpc_endpoint("http://tr:9091"),
        "http://tr:9091/transmission/rpc"
    );
    assert_eq!(
        plex_sessions_endpoint("http://plex:32400", "tok"),
        "http://plex:32400/status/sessions?X-Plex-Token=tok"
    );
    assert_eq!(
        plex_root_endpoint("http://plex:32400/", "tok"),
        "http://plex:32400/?X-Plex-Token=tok"
    );
    assert_eq!(
        plex_sections_endpoint("http://plex:32400", "tok"),
        "http://plex:32400/library/sections?X-Plex-Token=tok"
    );
    assert_eq!(
        plex_section_count_endpoint("http://plex:32400", "7", "tok"),
        "http://plex:32400/library/sections/7/all?X-Plex-Token=tok&X-Plex-Container-Start=0&X-Plex-Container-Size=0"
    );
    assert_eq!(
        plex_recently_added_endpoint("http://plex:32400", "tok", 30),
        "http://plex:32400/library/recentlyAdded?X-Plex-Token=tok&X-Plex-Container-Start=0&X-Plex-Container-Size=30"
    );
    assert_eq!(
        emby_sessions_endpoint("http://emby:8096", "ek"),
        "http://emby:8096/Sessions?api_key=ek"
    );
}

#[test]
fn decimal_rendering_is_exact() {
    assert_eq!(fmt_u64(0), "0");
    assert_eq!(fmt_u64(10), "10");
    assert_eq!(fmt_u64(409), "409");
    assert_eq!(fmt_u64(18446744073709551615), "18446744073709551615");
    assert_eq!(fmt_i64(-37), "-37");
    assert_eq!(fmt_i64(0), "0");
    assert_eq!(fmt_i64(i64::MIN), "-9223372036854775808");
}

#[test]
fn dates_render_zero_padded() {
    assert_eq!(format_date(2026, 10, 12), "2026-10-12");
    assert_eq!(format_date(999, 1, 5), "0999-01-05");
}
