use media_dashboard::config::{mask, mask_sentinel, merge, DashboardConfig};

fn sample_config() -> DashboardConfig {
    DashboardConfig {
        sonarr_url: "http://sonarr:8989".to_string(),
        sonarr_key: "sonarr-secret".to_string(),
        radarr_url: "http://radarr:7878".to_string(),
        radarr_key: "".to_string(),
        jackett_url: "http://jackett:9117".to_string(),
        jackett_key: "jackett-secret".to_string(),
        transmission_url: "http://transmission:9091".to_string(),
        transmission_user: "admin".to_string(),
        transmission_pass: "hunter2".to_string(),
        plex_url: "http://plex:32400".to_string(),
        plex_token: "plex-token".to_string(),
        jellyfin_url: "".to_string(),
        jellyfin_key: "".to_string(),
        emby_url: "http://emby:8096".to_string(),
        emby_key: "emby-secret".to_string(),
    }
}

fn fields(c: &DashboardConfig) -> Vec<String> {
    vec![
        c.sonarr_url.clone(),
        c.sonarr_key.clone(),
        c.radarr_url.clone(),
        c.radarr_key.clone(),
        c.jackett_url.clone(),
        c.jackett_key.clone(),
        c.transmission_url.clone(),
        c.transmission_user.clone(),
        c.transmission_pass.clone(),
        c.plex_url.clone(),
        c.plex_token.clone(),
        c.jellyfin_url.clone(),
        c.jellyfin_key.clone(),
        c.emby_url.clone(),
        c.emby_key.clone(),
    ]
}

#[test]
fn mask_hides_set_secrets_and_keeps_empty_ones() {
    let stored = sample_config();
    let shown = mask(&stored);
    assert_eq!(shown.sonarr_key, "********");
    assert_eq!(shown.jackett_key, "********");
    assert_eq!(shown.transmission_pass, "********");
    assert_eq!(shown.plex_token, "********");
    assert_eq!(shown.emby_key, "********");
    // unset secrets stay empty, so "not configured" remains visible
    assert_eq!(shown.radarr_key, "");
    assert_eq!(shown.jellyfin_key, "");
    // URLs and the user name are never masked
    assert_eq!(shown.sonarr_url, "http://sonarr:8989");
    assert_eq!(shown.transmission_user, "admin");
}

#[test]
fn mask_is_idempotent() {
    let stored = sample_config();
    let once = mask(&stored);
    let twice = mask(&once);
    assert_eq!(fields(&once), fields(&twice));
}

#[test]
fn merge_of_masked_form_round_trips() {
    let stored = sample_config();
    let resubmitted = mask(&stored);
    let resolved = merge(&stored, &resubmitted);
    assert_eq!(fields(&resolved), fields(&stored));
}

#[test]
fn merge_honors_explicit_clearing() {
    let stored = sample_config();
    let mut incoming = mask(&stored);
    incoming.sonarr_key = "".to_string();
    let resolved = merge(&stored, &incoming);
    assert_eq!(resolved.sonarr_key, "");
    // the untouched masked fields still resolve to the stored secrets
    assert_eq!(resolved.jackett_key, "jackett-secret");
    assert_eq!(resolved.transmission_pass, "hunter2");
}

#[test]
fn merge_takes_new_values_verbatim() {
    let stored = sample_config();
    let mut incoming = mask(&stored);
    incoming.plex_token = "fresh-token".to_string();
    incoming.plex_url = "http://plex2:32400".to_string();
    let resolved = merge(&stored, &incoming);
    assert_eq!(resolved.plex_token, "fresh-token");
    assert_eq!(resolved.plex_url, "http://plex2:32400");
}

#[test]
fn sentinel_is_eight_asterisks() {
    assert_eq!(mask_sentinel(), "********");
}
