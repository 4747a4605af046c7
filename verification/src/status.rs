//! The uniform status record every backend adapter produces, and the
//! shape of the reply an adapter classifies.

use vstd::prelude::*;

verus! {

/// Backend-specific secondary payload, at the specification level.
pub enum ExtrasModel {
    /// Indexer-proxy summary: configured indexers and failures.
    Indexers { total: int, failed_count: int, failed_names: Seq<Seq<char>> },
    /// Download-client summary: torrent counts and progress lines.
    Torrents { total: int, downloading: int, names: Seq<Seq<char>> },
    /// Streaming-server summary: active playback sessions.
    Sessions { active: int, names: Seq<Seq<char>> },
    /// Series/movie-manager summary: missing and total titles.
    Library { missing: int, total: int },
    /// A reachable backend whose summary could not be read.
    Empty,
}

/// Backend-specific secondary payload.
pub enum Extras {
    Indexers { total: i64, failed_count: i64, failed_names: Vec<String> },
    Torrents { total: i64, downloading: i64, names: Vec<String> },
    Sessions { active: i64, names: Vec<String> },
    Library { missing: i64, total: i64 },
    Empty,
}

impl View for Extras {
    type V = ExtrasModel;

    open spec fn view(&self) -> ExtrasModel {
        match self {
            Extras::Indexers { total, failed_count, failed_names } => ExtrasModel::Indexers {
                total: *total as int,
                failed_count: *failed_count as int,
                failed_names: failed_names.deep_view(),
            },
            Extras::Torrents { total, downloading, names } => ExtrasModel::Torrents {
                total: *total as int,
                downloading: *downloading as int,
                names: names.deep_view(),
            },
            Extras::Sessions { active, names } => ExtrasModel::Sessions {
                active: *active as int,
                names: names.deep_view(),
            },
            Extras::Library { missing, total } => ExtrasModel::Library {
                missing: *missing as int,
                total: *total as int,
            },
            Extras::Empty => ExtrasModel::Empty,
        }
    }
}

/// One backend's status, at the specification level.
pub struct StatusModel {
    pub name: Seq<char>,
    pub active: bool,
    pub message: Seq<char>,
    pub version: Option<Seq<char>>,
    pub extras: Option<ExtrasModel>,
}

/// The uniform output of every adapter: one row of the dashboard.
pub struct ServiceStatus {
    pub name: String,
    pub active: bool,
    pub message: String,
    pub version: Option<String>,
    pub extras: Option<Extras>,
}

impl View for ServiceStatus {
    type V = StatusModel;

    open spec fn view(&self) -> StatusModel {
        StatusModel {
            name: self.name@,
            active: self.active,
            message: self.message@,
            version: match self.version {
                Some(v) => Some(v@),
                None => None,
            },
            extras: match self.extras {
                Some(e) => Some(e@),
                None => None,
            },
        }
    }
}

/// Every adapter keeps this shape: the message is never empty, and an
/// unreachable or failing backend carries no secondary payload.
pub open spec fn status_wf(s: StatusModel) -> bool {
    &&& s.message.len() > 0
    &&& !s.active ==> s.extras is None
}

/// What the host hands an adapter after one probe: either the response
/// status and body, or the transport error's description.
pub enum FetchReply {
    Reply { status: u16, body: String },
    Failed { error: String },
}

/// `FetchReply`, at the specification level.
pub enum ReplyModel {
    Reply { status: u16, body: Seq<char> },
    Failed { error: Seq<char> },
}

impl View for FetchReply {
    type V = ReplyModel;

    open spec fn view(&self) -> ReplyModel {
        match self {
            FetchReply::Reply { status, body } => ReplyModel::Reply {
                status: *status,
                body: body@,
            },
            FetchReply::Failed { error } => ReplyModel::Failed { error: error@ },
        }
    }
}

/// The success range of HTTP status codes.
pub open spec fn is_success_status(s: u16) -> bool {
    200 <= s < 300
}

/// Executable form of `is_success_status`.
pub fn status_is_success(s: u16) -> (r: bool)
    ensures
        r == is_success_status(s),
{
    200 <= s && s < 300
}

} // verus!
