use media_dashboard::transmission::{
    attach_credentials, request_body, HttpReply, RpcAction, RpcCall, RpcOutcome, RpcPhase,
    RpcRequest,
};

#[test]
fn session_get_body_is_exact() {
    let body = request_body(&RpcRequest::SessionGet);
    assert_eq!(body, "{\"method\":\"session-get\"}");
}

#[test]
fn torrent_get_bodies_carry_the_fixed_field_sets() {
    let short = request_body(&RpcRequest::TorrentGet { extended: false });
    assert_eq!(
        short,
        "{\"method\":\"torrent-get\",\"arguments\":{\"fields\":[\"id\",\"name\",\"status\",\"percentDone\",\"rateDownload\"]}}"
    );
    let long = request_body(&RpcRequest::TorrentGet { extended: true });
    assert!(long.contains("\"rateUpload\""));
    assert!(long.contains("\"errorString\""));
}

#[test]
fn torrent_add_escapes_the_filename() {
    let body = request_body(&RpcRequest::TorrentAdd {
        filename: "weird \"name\"\nwith\\stuff".to_string(),
    });
    assert_eq!(
        body,
        "{\"method\":\"torrent-add\",\"arguments\":{\"filename\":\"weird \\\"name\\\"\\nwith\\\\stuff\"}}"
    );
}

#[test]
fn torrent_control_bodies_carry_the_id() {
    assert_eq!(
        request_body(&RpcRequest::TorrentStart { id: 17 }),
        "{\"method\":\"torrent-start\",\"arguments\":{\"ids\":[17]}}"
    );
    assert_eq!(
        request_body(&RpcRequest::TorrentStop { id: 3 }),
        "{\"method\":\"torrent-stop\",\"arguments\":{\"ids\":[3]}}"
    );
    assert_eq!(
        request_body(&RpcRequest::TorrentRemove { id: 5, delete_data: true }),
        "{\"method\":\"torrent-remove\",\"arguments\":{\"ids\":[5],\"delete-local-data\":true}}"
    );
    assert_eq!(
        request_body(&RpcRequest::TorrentRemove { id: 5, delete_data: false }),
        "{\"method\":\"torrent-remove\",\"arguments\":{\"ids\":[5],\"delete-local-data\":false}}"
    );
}

#[test]
fn session_set_wraps_the_raw_arguments() {
    let body = request_body(&RpcRequest::SessionSet {
        arguments: "{\"speed-limit-down\":100}".to_string(),
    });
    assert_eq!(
        body,
        "{\"method\":\"session-set\",\"arguments\":{\"speed-limit-down\":100}}"
    );
}

#[test]
fn challenge_is_retried_once_with_token_and_identical_body() {
    let mut call = RpcCall::new(&RpcRequest::SessionGet);
    let first_body = match call.start() {
        RpcAction::Send { body, session_id } => {
            assert!(session_id.is_none());
            body
        }
        RpcAction::Finish { .. } => panic!("the first action must be a send"),
    };

    let challenge = HttpReply::Reply {
        status: 409,
        session_id: Some("abc".to_string()),
        body: "<h1>409</h1>".to_string(),
    };
    match call.on_reply(&challenge) {
        RpcAction::Send { body, session_id } => {
            assert_eq!(body, first_body);
            assert_eq!(session_id, Some("abc".to_string()));
        }
        RpcAction::Finish { .. } => panic!("a 409 must trigger a retry"),
    }
    assert_eq!(call.phase, RpcPhase::Retry);

    // the retry's body is final even though its status is not a success
    let second = HttpReply::Reply {
        status: 500,
        session_id: None,
        body: "{\"result\":\"success\"}".to_string(),
    };
    match call.on_reply(&second) {
        RpcAction::Finish { outcome: RpcOutcome::Success { body } } => {
            assert_eq!(body, "{\"result\":\"success\"}");
        }
        _ => panic!("the retry's outcome is final"),
    }
    assert_eq!(call.phase, RpcPhase::Done);
}

#[test]
fn missing_challenge_header_means_empty_token() {
    let mut call = RpcCall::new(&RpcRequest::SessionGet);
    let challenge = HttpReply::Reply {
        status: 409,
        session_id: None,
        body: String::new(),
    };
    match call.on_reply(&challenge) {
        RpcAction::Send { session_id, .. } => assert_eq!(session_id, Some(String::new())),
        RpcAction::Finish { .. } => panic!("a 409 must trigger a retry"),
    }
}

#[test]
fn successful_first_response_is_final_without_retry() {
    let mut call = RpcCall::new(&RpcRequest::TorrentGet { extended: false });
    let reply = HttpReply::Reply {
        status: 200,
        session_id: None,
        body: "{\"arguments\":{}}".to_string(),
    };
    match call.on_reply(&reply) {
        RpcAction::Finish { outcome: RpcOutcome::Success { body } } => {
            assert_eq!(body, "{\"arguments\":{}}");
        }
        _ => panic!("a success must finish at once"),
    }
    assert_eq!(call.phase, RpcPhase::Done);
}

#[test]
fn other_first_status_is_a_protocol_error() {
    let mut call = RpcCall::new(&RpcRequest::SessionGet);
    let reply = HttpReply::Reply {
        status: 503,
        session_id: None,
        body: String::new(),
    };
    match call.on_reply(&reply) {
        RpcAction::Finish { outcome: RpcOutcome::Protocol { status } } => {
            assert_eq!(status, 503);
        }
        _ => panic!("a non-409 non-success first status is a protocol error"),
    }
}

#[test]
fn transport_failure_is_reported_as_such() {
    let mut call = RpcCall::new(&RpcRequest::SessionGet);
    let reply = HttpReply::Failed { error: "connection refused".to_string() };
    match call.on_reply(&reply) {
        RpcAction::Finish { outcome: RpcOutcome::Transport { error } } => {
            assert_eq!(error, "connection refused");
        }
        _ => panic!("a transport failure must surface as a transport outcome"),
    }
}

#[test]
fn credentials_are_attached_only_when_a_user_is_configured() {
    assert!(!attach_credentials(""));
    assert!(attach_credentials("admin"));
}
