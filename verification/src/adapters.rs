//! Status adapters for the series/movie managers, the session-oriented
//! streaming servers and the indexer proxy.
//!
//! Every adapter classifies one probe reply into the uniform status
//! shape: a transport failure or a non-success HTTP status makes the
//! backend inactive with a short diagnostic, a success with an
//! unreadable body makes it active with a parse diagnostic and no
//! payload, and a parsed body yields the backend's secondary payload,
//! with every enrichment value degrading to zero or empty on its own
//! failure rather than failing the row.

use vstd::prelude::*;
use vstd::string::StringExecFns;
use crate::numfmt::{dec_rep, fmt_u64};
use crate::status::{is_success_status, status_is_success, status_wf, Extras, ExtrasModel,
    FetchReply, ReplyModel, ServiceStatus, StatusModel};
use crate::text_scan::{prefix_chars, take_chars};
use crate::torznab::count_from;

verus! {

/// Connection settings for the Emby-like streaming server.
pub struct EmbyConfig {
    pub url: String,
    pub api_key: String,
}

/// A status row for a backend that answered nothing useful: inactive,
/// with a short diagnostic and no payload.
pub open spec fn inactive_status(name: Seq<char>, message: Seq<char>) -> StatusModel {
    StatusModel { name, active: false, message, version: None, extras: None }
}

/// The `HTTP <code>` diagnostic for a non-success response.
pub open spec fn http_message(status: u16) -> Seq<char> {
    "HTTP "@ + dec_rep(status as int)
}

/// The `HTTP <code>` diagnostic for a non-success response.
pub fn http_message_exec(status: u16) -> (r: String)
    ensures
        r@ == http_message(status),
        r@.len() > 0,
{
    let mut s = String::from_str("HTTP ");
    let code = fmt_u64(status as u64);
    s.append(code.as_str());
    proof {
        reveal_strlit("HTTP ");
    }
    s
}

/// The `N active session(s)` message of the streaming servers.
pub open spec fn sessions_message(n: int) -> Seq<char> {
    dec_rep(n) + " active session(s)"@
}

/// The `N active session(s)` message of the streaming servers.
pub fn sessions_message_exec(n: u64) -> (r: String)
    ensures
        r@ == sessions_message(n as int),
        r@.len() > 0,
{
    let mut s = fmt_u64(n);
    s.append(" active session(s)");
    s
}

/// The `a (b)` rendering used for session and progress lines.
pub open spec fn labeled(a: Seq<char>, b: Seq<char>) -> Seq<char> {
    a + " ("@ + b + ")"@
}

/// The fallback shown for a missing title or user name.
pub open spec fn unknown_label() -> Seq<char> {
    "Unknown"@
}

/// An optional string, or the `Unknown` fallback.
pub open spec fn or_unknown(o: Option<Seq<char>>) -> Seq<char> {
    match o {
        Some(s) => s,
        None => unknown_label(),
    }
}

/// The `a (b)` rendering used for session lines.
pub fn labeled_exec(a: &str, b: &str) -> (r: String)
    ensures
        r@ == labeled(a@, b@),
{
    let mut s = a.to_owned();
    s.append(" (");
    s.append(b);
    s.append(")");
    assert(s@ =~= labeled(a@, b@));
    s
}

/// An optional count, or zero when the enrichment call failed.
pub open spec fn or_zero(o: Option<i64>) -> int {
    match o {
        Some(v) => v as int,
        None => 0,
    }
}

/// The library payload of a series/movie manager, each value degraded
/// to zero when its enrichment call failed.
pub fn series_extras(missing: &Option<i64>, total: &Option<i64>) -> (e: Extras)
    ensures
        e@ == (ExtrasModel::Library { missing: or_zero(*missing), total: or_zero(*total) }),
{
    let m = match missing {
        Some(v) => *v,
        None => 0,
    };
    let t = match total {
        Some(v) => *v,
        None => 0,
    };
    Extras::Library { missing: m, total: t }
}

/// The status row of a series/movie manager, given the reply to its
/// system-status probe, the version parsed from that reply's body, and
/// the two enrichment counts.
pub open spec fn series_status_spec(
    name: Seq<char>,
    reply: ReplyModel,
    version: Option<Seq<char>>,
    missing: Option<i64>,
    total: Option<i64>,
) -> StatusModel {
    match reply {
        ReplyModel::Failed { error } => inactive_status(name, error),
        ReplyModel::Reply { status, .. } => if !is_success_status(status) {
            inactive_status(name, http_message(status))
        } else {
            match version {
                None => StatusModel {
                    name,
                    active: true,
                    message: "Parse Error"@,
                    version: None,
                    extras: None,
                },
                Some(v) => StatusModel {
                    name,
                    active: true,
                    message: "Running"@,
                    version: Some(v),
                    extras: Some(
                        ExtrasModel::Library { missing: or_zero(missing), total: or_zero(total) },
                    ),
                },
            }
        },
    }
}

/// The status row of a series/movie manager.  `version` is `None` when
/// the probe's body did not parse; the enrichment counts are `None`
/// where their own calls failed.
pub fn series_manager_status(
    name: &str,
    reply: &FetchReply,
    version: &Option<String>,
    missing: &Option<i64>,
    total: &Option<i64>,
) -> (st: ServiceStatus)
    requires
        match *reply {
            FetchReply::Failed { ref error } => error@.len() > 0,
            _ => true,
        },
    ensures
        st@ == series_status_spec(name@, reply@, version.deep_view(), *missing, *total),
        status_wf(st@),
{
    proof {
        reveal_strlit("Running");
        reveal_strlit("Parse Error");
    }
    match reply {
        FetchReply::Failed { error } => ServiceStatus {
            name: name.to_owned(),
            active: false,
            message: error.clone(),
            version: None,
            extras: None,
        },
        FetchReply::Reply { status, .. } => {
            if !status_is_success(*status) {
                ServiceStatus {
                    name: name.to_owned(),
                    active: false,
                    message: http_message_exec(*status),
                    version: None,
                    extras: None,
                }
            } else {
                match version {
                    None => ServiceStatus {
                        name: name.to_owned(),
                        active: true,
                        message: String::from_str("Parse Error"),
                        version: None,
                        extras: None,
                    },
                    Some(v) => ServiceStatus {
                        name: name.to_owned(),
                        active: true,
                        message: String::from_str("Running"),
                        version: Some(v.clone()),
                        extras: Some(series_extras(missing, total)),
                    },
                }
            }
        },
    }
}

/// One playback session as the Emby-like servers report it.
pub struct PlaySession {
    pub now_playing: Option<String>,
    pub user_name: Option<String>,
}

/// `PlaySession`, at the specification level.
pub struct PlaySessionModel {
    pub now_playing: Option<Seq<char>>,
    pub user_name: Option<Seq<char>>,
}

impl View for PlaySession {
    type V = PlaySessionModel;

    open spec fn view(&self) -> PlaySessionModel {
        PlaySessionModel {
            now_playing: self.now_playing.deep_view(),
            user_name: self.user_name.deep_view(),
        }
    }
}

/// The sessions that are actively playing something, in original order.
pub open spec fn playing_of(ss: Seq<PlaySessionModel>) -> Seq<PlaySessionModel>
    decreases ss.len(),
{
    if ss.len() == 0 {
        Seq::empty()
    } else {
        let front = playing_of(ss.drop_last());
        if ss.last().now_playing is Some {
            front.push(ss.last())
        } else {
            front
        }
    }
}

/// One `title (user)` session line, with `Unknown` fallbacks.
pub open spec fn session_line(s: PlaySessionModel) -> Seq<char> {
    labeled(or_unknown(s.now_playing), or_unknown(s.user_name))
}

/// The session lines of the actively playing sessions.
pub open spec fn session_lines(ss: Seq<PlaySessionModel>) -> Seq<Seq<char>> {
    playing_of(ss).map_values(|s: PlaySessionModel| session_line(s))
}

/// The playing subset never outgrows the whole list.
proof fn lemma_playing_len(ss: Seq<PlaySessionModel>)
    ensures
        playing_of(ss).len() <= ss.len(),
    decreases ss.len(),
{
    if ss.len() > 0 {
        lemma_playing_len(ss.drop_last());
    }
}

/// A parsed session list, at the specification level.
pub open spec fn sessions_parse_view(p: Result<Vec<PlaySession>, String>) -> Result<
    Seq<PlaySessionModel>,
    Seq<char>,
> {
    match p {
        Ok(v) => Ok(v@.map_values(|s: PlaySession| s@)),
        Err(e) => Err(e@),
    }
}

/// The status row of an Emby-like streaming server: active sessions are
/// those with something playing, each rendered as `title (user)`.
pub open spec fn sessions_status_spec(
    name: Seq<char>,
    reply: ReplyModel,
    parsed: Result<Seq<PlaySessionModel>, Seq<char>>,
) -> StatusModel {
    match reply {
        ReplyModel::Failed { error } => inactive_status(name, error),
        ReplyModel::Reply { status, .. } => if !is_success_status(status) {
            inactive_status(name, http_message(status))
        } else {
            match parsed {
                Err(e) => StatusModel {
                    name,
                    active: true,
                    message: "Parse Error: "@ + e,
                    version: None,
                    extras: None,
                },
                Ok(ss) => StatusModel {
                    name,
                    active: true,
                    message: sessions_message(playing_of(ss).len() as int),
                    version: None,
                    extras: Some(
                        ExtrasModel::Sessions {
                            active: playing_of(ss).len() as int,
                            names: session_lines(ss),
                        },
                    ),
                },
            }
        },
    }
}

/// The status row of an Emby-like streaming server.  `parsed` carries
/// the session list read from the reply's body, or the parse error's
/// description.
pub fn sessions_status(name: &str, reply: &FetchReply, parsed: &Result<Vec<PlaySession>, String>)
    -> (st: ServiceStatus)
    requires
        match *reply {
            FetchReply::Failed { ref error } => error@.len() > 0,
            _ => true,
        },
        match *parsed {
            Ok(ref ss) => ss@.len() <= i64::MAX,
            _ => true,
        },
    ensures
        st@ == sessions_status_spec(name@, reply@, sessions_parse_view(*parsed)),
        status_wf(st@),
{
    match reply {
        FetchReply::Failed { error } => ServiceStatus {
            name: name.to_owned(),
            active: false,
            message: error.clone(),
            version: None,
            extras: None,
        },
        FetchReply::Reply { status, .. } => {
            if !status_is_success(*status) {
                ServiceStatus {
                    name: name.to_owned(),
                    active: false,
                    message: http_message_exec(*status),
                    version: None,
                    extras: None,
                }
            } else {
                match parsed {
                    Err(e) => {
                        let mut message = String::from_str("Parse Error: ");
                        message.append(e.as_str());
                        proof {
                            reveal_strlit("Parse Error: ");
                        }
                        ServiceStatus {
                            name: name.to_owned(),
                            active: true,
                            message,
                            version: None,
                            extras: None,
                        }
                    },
                    Ok(ss) => {
                        let ghost m = ss@.map_values(|s: PlaySession| s@);
                        let mut active_count: i64 = 0;
                        let mut names: Vec<String> = Vec::new();
                        let mut i: usize = 0;
                        proof {
                            assert(m.take(0) =~= Seq::<PlaySessionModel>::empty());
                        }
                        while i < ss.len()
                            invariant
                                i <= ss@.len(),
                                ss@.len() <= i64::MAX,
                                m == ss@.map_values(|s: PlaySession| s@),
                                active_count as int == playing_of(m.take(i as int)).len(),
                                names.deep_view() == session_lines(m.take(i as int)),
                            decreases ss@.len() - i,
                        {
                            let ghost pre = m.take(i as int);
                            let ghost cur = m.take(i + 1 as int);
                            proof {
                                assert(cur.drop_last() =~= pre);
                                assert(cur.last() == m[i as int]);
                                lemma_playing_len(pre);
                            }
                            let s = &ss[i];
                            match &s.now_playing {
                                Some(title) => {
                                    active_count = active_count + 1;
                                    let user = match &s.user_name {
                                        Some(u) => u.as_str(),
                                        None => "Unknown",
                                    };
                                    let line = labeled_exec(title.as_str(), user);
                                    let ghost lines_pre = names.deep_view();
                                    names.push(line);
                                    proof {
                                        assert(playing_of(cur) == playing_of(pre).push(
                                            m[i as int],
                                        ));
                                        assert(names.deep_view() =~= lines_pre.push(session_line(
                                            m[i as int],
                                        )));
                                        assert(names.deep_view() =~= session_lines(cur));
                                    }
                                },
                                None => {
                                    proof {
                                        assert(playing_of(cur) == playing_of(pre));
                                    }
                                },
                            }
                            i = i + 1;
                        }
                        proof {
                            assert(m.take(ss@.len() as int) =~= m);
                        }
                        let count_u: u64 = active_count as u64;
                        ServiceStatus {
                            name: name.to_owned(),
                            active: true,
                            message: sessions_message_exec(count_u),
                            version: None,
                            extras: Some(Extras::Sessions { active: active_count, names }),
                        }
                    },
                }
            }
        },
    }
}

/// How much of a failed response's body the indexer-proxy diagnostic
/// shows.
pub const BODY_EXCERPT: usize = 80;

/// The count the indexer-proxy row shows: the counting pass over the
/// listing document, zero when that document could not be fetched.
pub open spec fn indexer_count_of(xml: Option<Seq<char>>) -> int {
    match xml {
        Some(x) => count_from(x, 0),
        None => 0,
    }
}

/// The status row of the indexer proxy, given the reply to its search
/// probe and the Torznab listing document fetched on success.  A
/// non-success probe carries the status code and then the first
/// `BODY_EXCERPT` characters of the response body.
pub open spec fn jackett_status_spec(reply: ReplyModel, xml: Option<Seq<char>>) -> StatusModel {
    match reply {
        ReplyModel::Failed { error } => inactive_status("Jackett"@, "Connection error: "@ + error),
        ReplyModel::Reply { status, body } => if is_success_status(status) {
            StatusModel {
                name: "Jackett"@,
                active: true,
                message: "Running"@,
                version: None,
                extras: Some(
                    ExtrasModel::Indexers {
                        total: indexer_count_of(xml),
                        failed_count: 0,
                        failed_names: Seq::empty(),
                    },
                ),
            }
        } else {
            inactive_status(
                "Jackett"@,
                http_message(status) + " — "@ + prefix_chars(body, BODY_EXCERPT as int),
            )
        },
    }
}

/// The status row of the indexer proxy.  `xml` is the listing document
/// fetched after a successful search probe; `None` degrades the count
/// to zero rather than failing the row.  On a non-success probe the
/// diagnostic names the status code first, then a bounded body excerpt.
pub fn jackett_status(reply: &FetchReply, xml: &Option<String>) -> (st: ServiceStatus)
    ensures
        st@ == jackett_status_spec(
            reply@,
            match *xml {
                Some(ref x) => Some(x@),
                None => None,
            },
        ),
        status_wf(st@),
{
    proof {
        reveal_strlit("Jackett");
        reveal_strlit("Running");
        reveal_strlit("Connection error: ");
    }
    match reply {
        FetchReply::Failed { error } => {
            let mut message = String::from_str("Connection error: ");
            message.append(error.as_str());
            ServiceStatus {
                name: String::from_str("Jackett"),
                active: false,
                message,
                version: None,
                extras: None,
            }
        },
        FetchReply::Reply { status, body } => {
            if status_is_success(*status) {
                let total = match xml {
                    Some(x) => crate::torznab::count_configured_indexers(x.as_str()),
                    None => 0,
                };
                let failed_names: Vec<String> = Vec::new();
                proof {
                    assert(failed_names.deep_view() =~= Seq::<Seq<char>>::empty());
                }
                ServiceStatus {
                    name: String::from_str("Jackett"),
                    active: true,
                    message: String::from_str("Running"),
                    version: None,
                    extras: Some(Extras::Indexers { total, failed_count: 0, failed_names }),
                }
            } else {
                let mut message = http_message_exec(*status);
                message.append(" — ");
                let excerpt = take_chars(body.as_str(), BODY_EXCERPT);
                message.append(excerpt.as_str());
                proof {
                    assert(message@ =~= http_message(*status) + " — "@ + prefix_chars(
                        body@,
                        BODY_EXCERPT as int,
                    ));
                }
                ServiceStatus {
                    name: String::from_str("Jackett"),
                    active: false,
                    message,
                    version: None,
                    extras: None,
                }
            }
        },
    }
}

} // verus!
