use media_dashboard::adapters::{
    jackett_status, series_extras, series_manager_status, sessions_status, PlaySession,
};
use media_dashboard::plex::{plex_status, PlexContainer, PlexSessionInfo};
use media_dashboard::status::{Extras, FetchReply};
use media_dashboard::transmission::{
    torrent_extras, transmission_status, HttpReply, TorrentSummary,
};

fn torrent(id: i64, name: &str, status: i64, percent: i64) -> TorrentSummary {
    TorrentSummary {
        id,
        name: name.to_string(),
        status,
        percent,
        rate_download: 0,
    }
}

#[test]
fn unreachable_backend_is_inactive_with_no_extras() {
    let reply = FetchReply::Failed { error: "connection refused".to_string() };
    let st = series_manager_status("Sonarr", &reply, &None, &None, &None);
    assert_eq!(st.name, "Sonarr");
    assert!(!st.active);
    assert!(!st.message.is_empty());
    assert_eq!(st.message, "connection refused");
    assert!(st.extras.is_none());
    assert!(st.version.is_none());
}

#[test]
fn http_failure_mentions_the_status_code() {
    let reply = FetchReply::Reply { status: 500, body: String::new() };
    let st = series_manager_status("Radarr", &reply, &None, &None, &None);
    assert!(!st.active);
    assert!(st.message.contains("500"));
    assert_eq!(st.message, "HTTP 500");
    assert!(st.extras.is_none());
}

#[test]
fn unparseable_success_body_is_active_with_parse_message() {
    let reply = FetchReply::Reply { status: 200, body: "not json".to_string() };
    let st = series_manager_status("Sonarr", &reply, &None, &None, &None);
    assert!(st.active);
    assert_eq!(st.message, "Parse Error");
    assert!(st.extras.is_none());
}

#[test]
fn parsed_series_status_reports_version_and_counts() {
    let reply = FetchReply::Reply { status: 200, body: String::new() };
    let st = series_manager_status(
        "Sonarr",
        &reply,
        &Some("4.0.1".to_string()),
        &Some(12),
        &Some(250),
    );
    assert!(st.active);
    assert_eq!(st.message, "Running");
    assert_eq!(st.version, Some("4.0.1".to_string()));
    match st.extras {
        Some(Extras::Library { missing, total }) => {
            assert_eq!(missing, 12);
            assert_eq!(total, 250);
        }
        _ => panic!("a parsed series manager carries a library payload"),
    }
}

#[test]
fn failed_enrichment_calls_degrade_to_zero() {
    match series_extras(&None, &Some(7)) {
        Extras::Library { missing, total } => {
            assert_eq!(missing, 0);
            assert_eq!(total, 7);
        }
        _ => panic!("series extras are a library payload"),
    }
}

#[test]
fn transmission_unreachable_is_inactive() {
    let reply = HttpReply::Failed { error: "dns failure".to_string() };
    let st = transmission_status(&reply, &None);
    assert_eq!(st.name, "Transmission");
    assert!(!st.active);
    assert_eq!(st.message, "dns failure");
    assert!(st.extras.is_none());
}

#[test]
fn transmission_challenge_counts_as_alive() {
    let reply = HttpReply::Reply {
        status: 409,
        session_id: Some("tok".to_string()),
        body: String::new(),
    };
    let st = transmission_status(&reply, &None);
    assert!(st.active);
    assert_eq!(st.message, "Running");
    assert!(matches!(st.extras, Some(Extras::Empty)));
}

#[test]
fn transmission_http_failure_mentions_the_code() {
    let reply = HttpReply::Reply { status: 502, session_id: None, body: String::new() };
    let st = transmission_status(&reply, &None);
    assert!(!st.active);
    assert_eq!(st.message, "HTTP 502");
    assert!(st.extras.is_none());
}

#[test]
fn torrent_summary_reports_downloading_subset() {
    let torrents = vec![
        torrent(1, "ubuntu", 4, 37),
        torrent(2, "paused", 0, 99),
        torrent(3, "fedora", 4, 5),
        torrent(4, "seeding", 6, 100),
        torrent(5, "queued", 3, 0),
    ];
    match torrent_extras(&Some(torrents)) {
        Extras::Torrents { total, downloading, names } => {
            assert_eq!(total, 5);
            assert_eq!(downloading, 2);
            assert_eq!(names, vec!["ubuntu (37%)".to_string(), "fedora (5%)".to_string()]);
        }
        _ => panic!("a parsed torrent list yields a torrent payload"),
    }
}

#[test]
fn torrent_progress_lines_are_capped_at_five() {
    let torrents: Vec<TorrentSummary> =
        (0..8).map(|i| torrent(i, &format!("t{}", i), 4, 50)).collect();
    match torrent_extras(&Some(torrents)) {
        Extras::Torrents { total, downloading, names } => {
            assert_eq!(total, 8);
            assert_eq!(downloading, 8);
            assert_eq!(names.len(), 5);
            assert_eq!(names[0], "t0 (50%)");
            assert_eq!(names[4], "t4 (50%)");
        }
        _ => panic!("a parsed torrent list yields a torrent payload"),
    }
}

#[test]
fn unparsed_torrent_response_degrades_to_empty_extras() {
    assert!(matches!(torrent_extras(&None), Extras::Empty));
}

#[test]
fn emby_sessions_count_only_playing_ones() {
    let reply = FetchReply::Reply { status: 200, body: String::new() };
    let sessions = vec![
        PlaySession {
            now_playing: Some("The Movie".to_string()),
            user_name: Some("ann".to_string()),
        },
        PlaySession { now_playing: None, user_name: Some("idle".to_string()) },
        PlaySession { now_playing: Some("Show S01E02".to_string()), user_name: None },
    ];
    let st = sessions_status("Emby", &reply, &Ok(sessions));
    assert!(st.active);
    assert_eq!(st.message, "2 active session(s)");
    match st.extras {
        Some(Extras::Sessions { active, names }) => {
            assert_eq!(active, 2);
            assert_eq!(
                names,
                vec!["The Movie (ann)".to_string(), "Show S01E02 (Unknown)".to_string()]
            );
        }
        _ => panic!("a parsed session list yields a sessions payload"),
    }
}

#[test]
fn emby_parse_failure_keeps_backend_active() {
    let reply = FetchReply::Reply { status: 200, body: String::new() };
    let st = sessions_status("Jellyfin", &reply, &Err("missing field `Id`".to_string()));
    assert!(st.active);
    assert_eq!(st.message, "Parse Error: missing field `Id`");
    assert!(st.extras.is_none());
}

#[test]
fn plex_status_reports_container_size_and_lines() {
    let reply = FetchReply::Reply { status: 200, body: String::new() };
    let container = PlexContainer {
        size: 3,
        metadata: Some(vec![PlexSessionInfo {
            title: Some("Film".to_string()),
            user: Some("bea".to_string()),
        }]),
    };
    let st = plex_status(&reply, &Ok(container));
    assert_eq!(st.name, "Plex");
    assert!(st.active);
    assert_eq!(st.message, "3 active session(s)");
    match st.extras {
        Some(Extras::Sessions { active, names }) => {
            assert_eq!(active, 3);
            assert_eq!(names, vec!["Film (bea)".to_string()]);
        }
        _ => panic!("a parsed container yields a sessions payload"),
    }
}

#[test]
fn plex_container_without_metadata_has_no_lines() {
    let reply = FetchReply::Reply { status: 200, body: String::new() };
    let st = plex_status(&reply, &Ok(PlexContainer { size: 0, metadata: None }));
    assert!(st.active);
    assert_eq!(st.message, "0 active session(s)");
    match st.extras {
        Some(Extras::Sessions { active, names }) => {
            assert_eq!(active, 0);
            assert!(names.is_empty());
        }
        _ => panic!("a parsed container yields a sessions payload"),
    }
}

#[test]
fn jackett_http_failure_shows_code_and_body_excerpt() {
    let long_body = "e".repeat(200);
    let reply = FetchReply::Reply { status: 401, body: long_body };
    let st = jackett_status(&reply, &None);
    assert!(!st.active);
    assert_eq!(st.message, format!("HTTP 401 — {}", "e".repeat(80)));
    assert!(st.extras.is_none());
}

#[test]
fn jackett_http_failure_carries_the_code_even_without_a_body() {
    let reply = FetchReply::Reply { status: 500, body: String::new() };
    let st = jackett_status(&reply, &None);
    assert!(!st.active);
    assert_eq!(st.message, "HTTP 500 — ");
    assert!(st.message.contains("500"));
    assert!(st.extras.is_none());
}

#[test]
fn jackett_success_counts_configured_indexers() {
    let reply = FetchReply::Reply { status: 200, body: String::new() };
    let pad = "x".repeat(300);
    let xml = format!(
        "<indexer id=\"a\" configured=\"true\" pad=\"{p}\"></indexer>\
        <indexer id=\"b\" configured=\"false\" pad=\"{p}\"></indexer>\
        <indexer id=\"c\" configured=\"true\" pad=\"{p}\"></indexer>",
        p = pad
    );
    let st = jackett_status(&reply, &Some(xml));
    assert!(st.active);
    assert_eq!(st.message, "Running");
    match st.extras {
        Some(Extras::Indexers { total, failed_count, failed_names }) => {
            assert_eq!(total, 2);
            assert_eq!(failed_count, 0);
            assert!(failed_names.is_empty());
        }
        _ => panic!("a reachable indexer proxy yields an indexer payload"),
    }
}

#[test]
fn jackett_transport_failure_names_the_connection() {
    let reply = FetchReply::Failed { error: "tcp connect error".to_string() };
    let st = jackett_status(&reply, &None);
    assert!(!st.active);
    assert_eq!(st.message, "Connection error: tcp connect error");
    assert!(st.extras.is_none());
}
