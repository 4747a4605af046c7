//! The Transmission RPC client: typed request bodies over one JSON-RPC
//! style POST endpoint, and the session-token challenge handshake.
//!
//! The handshake is a strict two-step protocol: the first POST may be
//! answered with status 409 carrying an `X-Transmission-Session-Id`
//! header, in which case the identical body is POSTed once more with
//! that token attached, and the second response is final whatever its
//! status.  A successful first response is final at once; any other
//! first status is a protocol error.  The host performs the actual
//! sends; `RpcCall` decides every step.

use vstd::prelude::*;
use vstd::string::StringExecFns;
use crate::jsontext::{json_escape, json_escaped};
use crate::numfmt::{dec_rep, fmt_i64, fmt_u64, int_rep};
use crate::status::{is_success_status, status_is_success, status_wf, Extras, ExtrasModel,
    ServiceStatus, StatusModel};

verus! {

/// One typed operation on the RPC endpoint.
pub enum RpcRequest {
    /// Read the session settings.
    SessionGet,
    /// Replace session settings with the given raw JSON object.
    SessionSet { arguments: String },
    /// List torrents; `extended` asks for the larger field set used by
    /// the torrent listing, the smaller one serves the status summary.
    TorrentGet { extended: bool },
    /// Add a torrent by file name, magnet link or URL.
    TorrentAdd { filename: String },
    /// Start the torrent with the given id.
    TorrentStart { id: i64 },
    /// Stop the torrent with the given id.
    TorrentStop { id: i64 },
    /// Remove the torrent with the given id, optionally deleting its
    /// local data.
    TorrentRemove { id: i64, delete_data: bool },
}

/// `RpcRequest`, at the specification level.
pub enum RequestModel {
    SessionGet,
    SessionSet { arguments: Seq<char> },
    TorrentGet { extended: bool },
    TorrentAdd { filename: Seq<char> },
    TorrentStart { id: int },
    TorrentStop { id: int },
    TorrentRemove { id: int, delete_data: bool },
}

impl View for RpcRequest {
    type V = RequestModel;

    open spec fn view(&self) -> RequestModel {
        match self {
            RpcRequest::SessionGet => RequestModel::SessionGet,
            RpcRequest::SessionSet { arguments } => RequestModel::SessionSet {
                arguments: arguments@,
            },
            RpcRequest::TorrentGet { extended } => RequestModel::TorrentGet {
                extended: *extended,
            },
            RpcRequest::TorrentAdd { filename } => RequestModel::TorrentAdd {
                filename: filename@,
            },
            RpcRequest::TorrentStart { id } => RequestModel::TorrentStart { id: *id as int },
            RpcRequest::TorrentStop { id } => RequestModel::TorrentStop { id: *id as int },
            RpcRequest::TorrentRemove { id, delete_data } => RequestModel::TorrentRemove {
                id: *id as int,
                delete_data: *delete_data,
            },
        }
    }
}

/// The exact JSON text POSTed for each operation.
pub open spec fn body_spec(r: RequestModel) -> Seq<char> {
    match r {
        RequestModel::SessionGet => "{\"method\":\"session-get\"}"@,
        RequestModel::SessionSet { arguments } => "{\"method\":\"session-set\",\"arguments\":"@
            + arguments + "}"@,
        RequestModel::TorrentGet { extended } => if extended {
            "{\"method\":\"torrent-get\",\"arguments\":{\"fields\":[\"id\",\"name\",\"status\",\"percentDone\",\"rateDownload\",\"rateUpload\",\"sizeWhenDone\",\"eta\",\"errorString\"]}}"@
        } else {
            "{\"method\":\"torrent-get\",\"arguments\":{\"fields\":[\"id\",\"name\",\"status\",\"percentDone\",\"rateDownload\"]}}"@
        },
        RequestModel::TorrentAdd { filename } => "{\"method\":\"torrent-add\",\"arguments\":{\"filename\":\""@
            + json_escaped(filename) + "\"}}"@,
        RequestModel::TorrentStart { id } => "{\"method\":\"torrent-start\",\"arguments\":{\"ids\":["@
            + int_rep(id) + "]}}"@,
        RequestModel::TorrentStop { id } => "{\"method\":\"torrent-stop\",\"arguments\":{\"ids\":["@
            + int_rep(id) + "]}}"@,
        RequestModel::TorrentRemove { id, delete_data } => "{\"method\":\"torrent-remove\",\"arguments\":{\"ids\":["@
            + int_rep(id) + "],\"delete-local-data\":"@ + (if delete_data {
            "true"@
        } else {
            "false"@
        }) + "}}"@,
    }
}

/// The JSON text POSTed for `r`.
pub fn request_body(r: &RpcRequest) -> (s: String)
    ensures
        s@ == body_spec(r@),
{
    match r {
        RpcRequest::SessionGet => String::from_str("{\"method\":\"session-get\"}"),
        RpcRequest::SessionSet { arguments } => {
            let mut s = String::from_str("{\"method\":\"session-set\",\"arguments\":");
            s.append(arguments.as_str());
            s.append("}");
            assert(s@ =~= body_spec(r@));
            s
        },
        RpcRequest::TorrentGet { extended } => {
            if *extended {
                String::from_str(
                    "{\"method\":\"torrent-get\",\"arguments\":{\"fields\":[\"id\",\"name\",\"status\",\"percentDone\",\"rateDownload\",\"rateUpload\",\"sizeWhenDone\",\"eta\",\"errorString\"]}}",
                )
            } else {
                String::from_str(
                    "{\"method\":\"torrent-get\",\"arguments\":{\"fields\":[\"id\",\"name\",\"status\",\"percentDone\",\"rateDownload\"]}}",
                )
            }
        },
        RpcRequest::TorrentAdd { filename } => {
            let mut s = String::from_str("{\"method\":\"torrent-add\",\"arguments\":{\"filename\":\"");
            let escaped = json_escape(filename.as_str());
            s.append(escaped.as_str());
            s.append("\"}}");
            assert(s@ =~= body_spec(r@));
            s
        },
        RpcRequest::TorrentStart { id } => {
            let mut s = String::from_str("{\"method\":\"torrent-start\",\"arguments\":{\"ids\":[");
            let ids = fmt_i64(*id);
            s.append(ids.as_str());
            s.append("]}}");
            assert(s@ =~= body_spec(r@));
            s
        },
        RpcRequest::TorrentStop { id } => {
            let mut s = String::from_str("{\"method\":\"torrent-stop\",\"arguments\":{\"ids\":[");
            let ids = fmt_i64(*id);
            s.append(ids.as_str());
            s.append("]}}");
            assert(s@ =~= body_spec(r@));
            s
        },
        RpcRequest::TorrentRemove { id, delete_data } => {
            let mut s = String::from_str("{\"method\":\"torrent-remove\",\"arguments\":{\"ids\":[");
            let ids = fmt_i64(*id);
            s.append(ids.as_str());
            s.append("],\"delete-local-data\":");
            if *delete_data {
                s.append("true");
            } else {
                s.append("false");
            }
            s.append("}}");
            assert(s@ =~= body_spec(r@));
            s
        },
    }
}

/// Whether a POST to the RPC endpoint carries basic credentials: only
/// when a user name is configured.  An empty user name means no auth
/// header at all, not empty-credential auth, and the retry carries
/// exactly what the first send carried.
pub open spec fn credentials_attached(user: Seq<char>) -> bool {
    user.len() > 0
}

/// Whether a POST to the RPC endpoint carries basic credentials.
pub fn attach_credentials(user: &str) -> (r: bool)
    ensures
        r == credentials_attached(user@),
{
    !user.is_empty()
}

/// What one POST to the RPC endpoint came back with: the response status,
/// the `X-Transmission-Session-Id` header when present, and the body; or
/// the transport error's description.
pub enum HttpReply {
    Reply { status: u16, session_id: Option<String>, body: String },
    Failed { error: String },
}

/// `HttpReply`, at the specification level.
pub enum RpcReplyModel {
    Reply { status: u16, session_id: Option<Seq<char>>, body: Seq<char> },
    Failed { error: Seq<char> },
}

impl View for HttpReply {
    type V = RpcReplyModel;

    open spec fn view(&self) -> RpcReplyModel {
        match self {
            HttpReply::Reply { status, session_id, body } => RpcReplyModel::Reply {
                status: *status,
                session_id: match session_id {
                    Some(s) => Some(s@),
                    None => None,
                },
                body: body@,
            },
            HttpReply::Failed { error } => RpcReplyModel::Failed { error: error@ },
        }
    }
}

/// How one RPC call ends.
pub enum RpcOutcome {
    /// The final response's body, to be parsed by the caller.
    Success { body: String },
    /// The backend could not be reached.
    Transport { error: String },
    /// The final relevant response carried an unexpected status.
    Protocol { status: u16 },
}

/// `RpcOutcome`, at the specification level.
pub enum OutcomeModel {
    Success { body: Seq<char> },
    Transport { error: Seq<char> },
    Protocol { status: u16 },
}

impl View for RpcOutcome {
    type V = OutcomeModel;

    open spec fn view(&self) -> OutcomeModel {
        match self {
            RpcOutcome::Success { body } => OutcomeModel::Success { body: body@ },
            RpcOutcome::Transport { error } => OutcomeModel::Transport { error: error@ },
            RpcOutcome::Protocol { status } => OutcomeModel::Protocol { status: *status },
        }
    }
}

/// What the host must do next: POST the given body (with the session
/// token attached when given), or stop with the outcome.
pub enum RpcAction {
    Send { body: String, session_id: Option<String> },
    Finish { outcome: RpcOutcome },
}

/// `RpcAction`, at the specification level.
pub enum ActionModel {
    Send { body: Seq<char>, session_id: Option<Seq<char>> },
    Finish { outcome: OutcomeModel },
}

impl View for RpcAction {
    type V = ActionModel;

    open spec fn view(&self) -> ActionModel {
        match self {
            RpcAction::Send { body, session_id } => ActionModel::Send {
                body: body@,
                session_id: match session_id {
                    Some(s) => Some(s@),
                    None => None,
                },
            },
            RpcAction::Finish { outcome } => ActionModel::Finish { outcome: outcome@ },
        }
    }
}

/// Where the handshake stands.
#[derive(PartialEq, Eq, Structural, Clone, Copy, Debug)]
pub enum RpcPhase {
    /// The first POST is out.
    First,
    /// The 409 challenge was answered with one retry.
    Retry,
    /// An outcome was produced.
    Done,
}

/// The session token taken from a 409 response: the header's value, or
/// the empty string when the header is absent.
pub open spec fn header_token(h: Option<Seq<char>>) -> Seq<char> {
    match h {
        Some(s) => s,
        None => Seq::empty(),
    }
}

/// The handshake's single transition: what the next phase is and what
/// the host must do, given the phase the reply answers.
pub open spec fn step_spec(body: Seq<char>, phase: RpcPhase, reply: RpcReplyModel) -> (
    RpcPhase,
    ActionModel,
)
    recommends
        phase != RpcPhase::Done,
{
    match reply {
        RpcReplyModel::Failed { error } => (
            RpcPhase::Done,
            ActionModel::Finish { outcome: OutcomeModel::Transport { error } },
        ),
        RpcReplyModel::Reply { status, session_id, body: rbody } => {
            if phase == RpcPhase::First {
                if status == 409 {
                    (
                        RpcPhase::Retry,
                        ActionModel::Send { body, session_id: Some(header_token(session_id)) },
                    )
                } else if is_success_status(status) {
                    (
                        RpcPhase::Done,
                        ActionModel::Finish { outcome: OutcomeModel::Success { body: rbody } },
                    )
                } else {
                    (
                        RpcPhase::Done,
                        ActionModel::Finish { outcome: OutcomeModel::Protocol { status } },
                    )
                }
            } else {
                (
                    RpcPhase::Done,
                    ActionModel::Finish { outcome: OutcomeModel::Success { body: rbody } },
                )
            }
        },
    }
}

/// One in-flight RPC call: the body to POST and where the handshake
/// stands.  The body never changes over the call's lifetime.
pub struct RpcCall {
    pub body: String,
    pub phase: RpcPhase,
}

impl RpcCall {
    /// A fresh call for `req`.
    pub fn new(req: &RpcRequest) -> (c: RpcCall)
        ensures
            c.body@ == body_spec(req@),
            c.phase == RpcPhase::First,
    {
        RpcCall { body: request_body(req), phase: RpcPhase::First }
    }

    /// The first action: POST the body with no session token.
    pub fn start(&self) -> (a: RpcAction)
        requires
            self.phase == RpcPhase::First,
        ensures
            a@ == (ActionModel::Send { body: self.body@, session_id: None }),
    {
        RpcAction::Send { body: self.body.clone(), session_id: None }
    }

    /// Advance the handshake by one reply.
    pub fn on_reply(&mut self, reply: &HttpReply) -> (a: RpcAction)
        requires
            old(self).phase != RpcPhase::Done,
        ensures
            final(self).body@ == old(self).body@,
            final(self).phase == step_spec(old(self).body@, old(self).phase, reply@).0,
            a@ == step_spec(old(self).body@, old(self).phase, reply@).1,
    {
        match reply {
            HttpReply::Failed { error } => {
                self.phase = RpcPhase::Done;
                RpcAction::Finish { outcome: RpcOutcome::Transport { error: error.clone() } }
            },
            HttpReply::Reply { status, session_id, body } => {
                if self.phase == RpcPhase::First {
                    if *status == 409 {
                        self.phase = RpcPhase::Retry;
                        let sid = match session_id {
                            Some(s) => s.clone(),
                            None => String::new(),
                        };
                        RpcAction::Send { body: self.body.clone(), session_id: Some(sid) }
                    } else if status_is_success(*status) {
                        self.phase = RpcPhase::Done;
                        RpcAction::Finish {
                            outcome: RpcOutcome::Success { body: body.clone() },
                        }
                    } else {
                        self.phase = RpcPhase::Done;
                        RpcAction::Finish { outcome: RpcOutcome::Protocol { status: *status } }
                    }
                } else {
                    self.phase = RpcPhase::Done;
                    RpcAction::Finish { outcome: RpcOutcome::Success { body: body.clone() } }
                }
            },
        }
    }
}

/// A successful first response is final: the handshake finishes with
/// that body at once, so no second request is ever issued.
pub proof fn lemma_success_first_response_is_final(
    body: Seq<char>,
    status: u16,
    session_id: Option<Seq<char>>,
    rbody: Seq<char>,
)
    requires
        is_success_status(status),
    ensures
        step_spec(body, RpcPhase::First, RpcReplyModel::Reply { status, session_id, body: rbody })
            == (
            RpcPhase::Done,
            ActionModel::Finish { outcome: OutcomeModel::Success { body: rbody } },
        ),
{
}

/// A 409 first response triggers exactly one retry, which carries the
/// token from the `X-Transmission-Session-Id` header (the empty string
/// when the header is absent) and the identical request body; whatever
/// status the retry's response has, its body is the final result.
pub proof fn lemma_challenge_retry(
    body: Seq<char>,
    session_id: Option<Seq<char>>,
    rbody: Seq<char>,
    status2: u16,
    session_id2: Option<Seq<char>>,
    rbody2: Seq<char>,
)
    ensures
        step_spec(
            body,
            RpcPhase::First,
            RpcReplyModel::Reply { status: 409, session_id, body: rbody },
        ) == (
            RpcPhase::Retry,
            ActionModel::Send { body, session_id: Some(header_token(session_id)) },
        ),
        step_spec(
            body,
            RpcPhase::Retry,
            RpcReplyModel::Reply { status: status2, session_id: session_id2, body: rbody2 },
        ) == (
            RpcPhase::Done,
            ActionModel::Finish { outcome: OutcomeModel::Success { body: rbody2 } },
        ),
{
    assert(!is_success_status(409));
}

/// The backend's numeric code for a torrent that is downloading — the
/// only status value this dashboard interprets.
pub const DOWNLOADING_STATUS: i64 = 4;

/// How many progress lines the status summary shows at most.
pub const PROGRESS_LINES_SHOWN: usize = 5;

/// One torrent as the summary pass reads it, at the specification level.
pub struct TorrentModel {
    pub id: int,
    pub name: Seq<char>,
    pub status: int,
    pub percent: int,
    pub rate_download: int,
}

/// One torrent as parsed from a `torrent-get` response.  `percent` is
/// the backend's completion ratio already rounded to whole percent.
pub struct TorrentSummary {
    pub id: i64,
    pub name: String,
    pub status: i64,
    pub percent: i64,
    pub rate_download: i64,
}

impl View for TorrentSummary {
    type V = TorrentModel;

    open spec fn view(&self) -> TorrentModel {
        TorrentModel {
            id: self.id as int,
            name: self.name@,
            status: self.status as int,
            percent: self.percent as int,
            rate_download: self.rate_download as int,
        }
    }
}

/// The torrents of a parsed response, at the specification level.
pub open spec fn torrents_view(p: Option<Vec<TorrentSummary>>) -> Option<Seq<TorrentModel>> {
    match p {
        Some(v) => Some(v@.map_values(|t: TorrentSummary| t@)),
        None => None,
    }
}

/// The torrents with the downloading status code, in original order.
pub open spec fn downloading_of(ts: Seq<TorrentModel>) -> Seq<TorrentModel>
    decreases ts.len(),
{
    if ts.len() == 0 {
        Seq::empty()
    } else {
        let front = downloading_of(ts.drop_last());
        if ts.last().status == DOWNLOADING_STATUS as int {
            front.push(ts.last())
        } else {
            front
        }
    }
}

/// One `name (percent%)` progress line.
pub open spec fn progress_line(t: TorrentModel) -> Seq<char> {
    t.name + " ("@ + int_rep(t.percent) + "%)"@
}

/// At most the first `PROGRESS_LINES_SHOWN` of a sequence.
pub open spec fn shown_of(d: Seq<TorrentModel>) -> Seq<TorrentModel> {
    if d.len() <= PROGRESS_LINES_SHOWN as int {
        d
    } else {
        d.take(PROGRESS_LINES_SHOWN as int)
    }
}

/// The progress lines of the downloading subset, capped at
/// `PROGRESS_LINES_SHOWN`, in original order.
pub open spec fn progress_lines(ts: Seq<TorrentModel>) -> Seq<Seq<char>> {
    shown_of(downloading_of(ts)).map_values(|t: TorrentModel| progress_line(t))
}

/// The summary payload derived from a `torrent-get` response: counts
/// and capped progress lines when it parsed, an empty payload when it
/// did not.
pub open spec fn torrents_extras_spec(parsed: Option<Seq<TorrentModel>>) -> ExtrasModel {
    match parsed {
        None => ExtrasModel::Empty,
        Some(ts) => ExtrasModel::Torrents {
            total: ts.len() as int,
            downloading: downloading_of(ts).len() as int,
            names: progress_lines(ts),
        },
    }
}

/// One `name (percent%)` progress line.
fn progress_line_exec(t: &TorrentSummary) -> (r: String)
    ensures
        r@ == progress_line(t@),
{
    let mut s = t.name.clone();
    s.append(" (");
    let p = fmt_i64(t.percent);
    s.append(p.as_str());
    s.append("%)");
    assert(s@ =~= progress_line(t@));
    s
}

/// The downloading subset never outgrows the whole list.
proof fn lemma_downloading_len(ts: Seq<TorrentModel>)
    ensures
        downloading_of(ts).len() <= ts.len(),
    decreases ts.len(),
{
    if ts.len() > 0 {
        lemma_downloading_len(ts.drop_last());
    }
}

/// The status summary of a `torrent-get` response: the total count, how
/// many torrents carry the downloading status code, and at most
/// `PROGRESS_LINES_SHOWN` `name (percent%)` lines for the downloading
/// subset only, in the backend's original order.  A response that did
/// not parse degrades to an empty payload.
pub fn torrent_extras(parsed: &Option<Vec<TorrentSummary>>) -> (e: Extras)
    requires
        match *parsed {
            Some(ts) => ts@.len() <= i64::MAX,
            None => true,
        },
    ensures
        e@ == torrents_extras_spec(torrents_view(*parsed)),
{
    match parsed {
        None => Extras::Empty,
        Some(ts) => {
            let ghost m = ts@.map_values(|t: TorrentSummary| t@);
            let mut downloading: i64 = 0;
            let mut names: Vec<String> = Vec::new();
            let mut i: usize = 0;
            proof {
                assert(m.take(0) =~= Seq::<TorrentModel>::empty());
            }
            while i < ts.len()
                invariant
                    i <= ts@.len(),
                    ts@.len() <= i64::MAX,
                    m == ts@.map_values(|t: TorrentSummary| t@),
                    downloading as int == downloading_of(m.take(i as int)).len(),
                    names.deep_view() == progress_lines(m.take(i as int)),
                decreases ts@.len() - i,
            {
                let ghost pre = m.take(i as int);
                let ghost cur = m.take(i + 1 as int);
                proof {
                    assert(cur.drop_last() =~= pre);
                    assert(cur.last() == m[i as int]);
                    lemma_downloading_len(pre);
                }
                let t = &ts[i];
                if t.status == DOWNLOADING_STATUS {
                    downloading = downloading + 1;
                    let ghost d_pre = downloading_of(pre);
                    proof {
                        assert(downloading_of(cur) == d_pre.push(m[i as int]));
                    }
                    if names.len() < PROGRESS_LINES_SHOWN {
                        let line = progress_line_exec(t);
                        let ghost lines_pre = names.deep_view();
                        names.push(line);
                        proof {
                            assert(names.deep_view() =~= lines_pre.push(progress_line(m[i as int])));
                            assert(shown_of(downloading_of(cur)) =~= shown_of(d_pre).push(
                                m[i as int],
                            ));
                            assert(names.deep_view() =~= progress_lines(cur));
                        }
                    } else {
                        proof {
                            assert(names.deep_view().len() == names@.len());
                            assert(shown_of(d_pre).len() >= PROGRESS_LINES_SHOWN as int);
                            assert(d_pre.len() >= PROGRESS_LINES_SHOWN as int);
                            assert(downloading_of(cur).take(PROGRESS_LINES_SHOWN as int)
                                =~= d_pre.take(PROGRESS_LINES_SHOWN as int));
                            assert(shown_of(downloading_of(cur)) =~= shown_of(d_pre));
                            assert(names.deep_view() =~= progress_lines(cur));
                        }
                    }
                } else {
                    proof {
                        assert(downloading_of(cur) == downloading_of(pre));
                    }
                }
                i = i + 1;
            }
            proof {
                assert(m.take(ts@.len() as int) =~= m);
            }
            Extras::Torrents { total: ts.len() as i64, downloading, names }
        },
    }
}

/// The status row for the download client, given the reply to the
/// initial `session-get` probe and the parsed `torrent-get` summary.  A
/// 409 challenge still proves the backend alive, so it counts as
/// reachable here.
pub open spec fn transmission_status_spec(
    first: RpcReplyModel,
    parsed: Option<Seq<TorrentModel>>,
) -> StatusModel {
    match first {
        RpcReplyModel::Failed { error } => StatusModel {
            name: "Transmission"@,
            active: false,
            message: error,
            version: None,
            extras: None,
        },
        RpcReplyModel::Reply { status, .. } => if is_success_status(status) || status == 409 {
            StatusModel {
                name: "Transmission"@,
                active: true,
                message: "Running"@,
                version: None,
                extras: Some(torrents_extras_spec(parsed)),
            }
        } else {
            StatusModel {
                name: "Transmission"@,
                active: false,
                message: "HTTP "@ + dec_rep(status as int),
                version: None,
                extras: None,
            }
        },
    }
}

/// The decimal rendering is never empty.
proof fn lemma_dec_rep_nonempty(n: int)
    ensures
        dec_rep(n).len() >= 1,
{
}

/// The status row for the download client.
pub fn transmission_status(first: &HttpReply, parsed: &Option<Vec<TorrentSummary>>) -> (st:
    ServiceStatus)
    requires
        match *first {
            HttpReply::Failed { ref error } => error@.len() > 0,
            _ => true,
        },
        match *parsed {
            Some(ts) => ts@.len() <= i64::MAX,
            None => true,
        },
    ensures
        st@ == transmission_status_spec(first@, torrents_view(*parsed)),
        status_wf(st@),
{
    proof {
        reveal_strlit("Transmission");
        reveal_strlit("Running");
        reveal_strlit("HTTP ");
    }
    match first {
        HttpReply::Failed { error } => ServiceStatus {
            name: String::from_str("Transmission"),
            active: false,
            message: error.clone(),
            version: None,
            extras: None,
        },
        HttpReply::Reply { status, .. } => {
            if status_is_success(*status) || *status == 409 {
                ServiceStatus {
                    name: String::from_str("Transmission"),
                    active: true,
                    message: String::from_str("Running"),
                    version: None,
                    extras: Some(torrent_extras(parsed)),
                }
            } else {
                let mut message = String::from_str("HTTP ");
                let code = fmt_u64(*status as u64);
                message.append(code.as_str());
                proof {
                    lemma_dec_rep_nonempty(*status as int);
                }
                ServiceStatus {
                    name: String::from_str("Transmission"),
                    active: false,
                    message,
                    version: None,
                    extras: None,
                }
            }
        },
    }
}

} // verus!
