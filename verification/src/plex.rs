//! The Plex adapter: session status, server info, library listing and
//! recently-added shaping.
//!
//! The host fetches and decodes the backend's JSON; this module owns
//! every default, count and formatted string derived from it, including
//! the token-carrying thumbnail URLs.

use vstd::prelude::*;
use vstd::string::StringExecFns;
use crate::adapters::{http_message_exec, http_message, inactive_status, labeled, labeled_exec,
    or_unknown, or_zero};
use crate::numfmt::{fmt_i64, int_rep};
use crate::status::{is_success_status, status_is_success, status_wf, Extras, ExtrasModel,
    FetchReply, ReplyModel, ServiceStatus, StatusModel};

verus! {

/// Connection settings for the Plex server.
pub struct PlexConfig {
    pub url: String,
    pub token: String,
}

/// One playback session as Plex reports it.
pub struct PlexSessionInfo {
    pub title: Option<String>,
    pub user: Option<String>,
}

/// `PlexSessionInfo`, at the specification level.
pub struct PlexSessionModel {
    pub title: Option<Seq<char>>,
    pub user: Option<Seq<char>>,
}

impl View for PlexSessionInfo {
    type V = PlexSessionModel;

    open spec fn view(&self) -> PlexSessionModel {
        PlexSessionModel { title: self.title.deep_view(), user: self.user.deep_view() }
    }
}

/// The media container of a sessions response: its reported size and,
/// when present, one entry per session.
pub struct PlexContainer {
    pub size: i64,
    pub metadata: Option<Vec<PlexSessionInfo>>,
}

/// `PlexContainer`, at the specification level.
pub struct ContainerModel {
    pub size: int,
    pub metadata: Option<Seq<PlexSessionModel>>,
}

impl View for PlexContainer {
    type V = ContainerModel;

    open spec fn view(&self) -> ContainerModel {
        ContainerModel {
            size: self.size as int,
            metadata: match self.metadata {
                Some(ref v) => Some(v@.map_values(|s: PlexSessionInfo| s@)),
                None => None,
            },
        }
    }
}

/// The `N active session(s)` message, rendered from the container's
/// reported size.
pub open spec fn plex_sessions_message(n: int) -> Seq<char> {
    int_rep(n) + " active session(s)"@
}

/// One `title (user)` session line, with `Unknown` fallbacks.
pub open spec fn plex_session_line(s: PlexSessionModel) -> Seq<char> {
    labeled(or_unknown(s.title), or_unknown(s.user))
}

/// The session lines of a container: one per metadata entry, or none
/// when the response carried no metadata.
pub open spec fn plex_session_lines(c: ContainerModel) -> Seq<Seq<char>> {
    match c.metadata {
        Some(meta) => meta.map_values(|s: PlexSessionModel| plex_session_line(s)),
        None => Seq::empty(),
    }
}

/// A parsed sessions response, at the specification level.
pub open spec fn container_parse_view(p: Result<PlexContainer, String>) -> Result<
    ContainerModel,
    Seq<char>,
> {
    match p {
        Ok(c) => Ok(c@),
        Err(e) => Err(e@),
    }
}

/// The status row of the Plex server: the message and the payload both
/// come from the sessions container, with one line per session.
pub open spec fn plex_status_spec(reply: ReplyModel, parsed: Result<ContainerModel, Seq<char>>)
    -> StatusModel {
    match reply {
        ReplyModel::Failed { error } => inactive_status("Plex"@, error),
        ReplyModel::Reply { status, .. } => if !is_success_status(status) {
            inactive_status("Plex"@, http_message(status))
        } else {
            match parsed {
                Err(e) => StatusModel {
                    name: "Plex"@,
                    active: true,
                    message: "Parse Error: "@ + e,
                    version: None,
                    extras: None,
                },
                Ok(c) => StatusModel {
                    name: "Plex"@,
                    active: true,
                    message: plex_sessions_message(c.size),
                    version: None,
                    extras: Some(
                        ExtrasModel::Sessions { active: c.size, names: plex_session_lines(c) },
                    ),
                },
            }
        },
    }
}

/// The status row of the Plex server.  `parsed` carries the sessions
/// container read from the reply's body, or the parse error's
/// description.
pub fn plex_status(reply: &FetchReply, parsed: &Result<PlexContainer, String>) -> (st:
    ServiceStatus)
    requires
        match *reply {
            FetchReply::Failed { ref error } => error@.len() > 0,
            _ => true,
        },
    ensures
        st@ == plex_status_spec(reply@, container_parse_view(*parsed)),
        status_wf(st@),
{
    proof {
        reveal_strlit("Plex");
        reveal_strlit("Parse Error: ");
    }
    match reply {
        FetchReply::Failed { error } => ServiceStatus {
            name: String::from_str("Plex"),
            active: false,
            message: error.clone(),
            version: None,
            extras: None,
        },
        FetchReply::Reply { status, .. } => {
            if !status_is_success(*status) {
                ServiceStatus {
                    name: String::from_str("Plex"),
                    active: false,
                    message: http_message_exec(*status),
                    version: None,
                    extras: None,
                }
            } else {
                match parsed {
                    Err(e) => {
                        let mut message = String::from_str("Parse Error: ");
                        message.append(e.as_str());
                        ServiceStatus {
                            name: String::from_str("Plex"),
                            active: true,
                            message,
                            version: None,
                            extras: None,
                        }
                    },
                    Ok(c) => {
                        let names = match &c.metadata {
                            Some(meta) => plex_lines_exec(meta),
                            None => {
                                let empty_names: Vec<String> = Vec::new();
                                proof {
                                    assert(empty_names.deep_view() =~= Seq::<Seq<char>>::empty());
                                }
                                empty_names
                            },
                        };
                        let mut message = fmt_i64(c.size);
                        message.append(" active session(s)");
                        ServiceStatus {
                            name: String::from_str("Plex"),
                            active: true,
                            message,
                            version: None,
                            extras: Some(Extras::Sessions { active: c.size, names }),
                        }
                    },
                }
            }
        },
    }
}

/// One `title (user)` line per session entry.
fn plex_lines_exec(meta: &Vec<PlexSessionInfo>) -> (names: Vec<String>)
    ensures
        names.deep_view() == meta@.map_values(|s: PlexSessionInfo| s@).map_values(
            |s: PlexSessionModel| plex_session_line(s),
        ),
{
    let ghost m = meta@.map_values(|s: PlexSessionInfo| s@);
    let ghost lines = m.map_values(|s: PlexSessionModel| plex_session_line(s));
    let mut names: Vec<String> = Vec::new();
    let mut i: usize = 0;
    while i < meta.len()
        invariant
            i <= meta@.len(),
            m == meta@.map_values(|s: PlexSessionInfo| s@),
            lines == m.map_values(|s: PlexSessionModel| plex_session_line(s)),
            names.deep_view() == lines.take(i as int),
        decreases meta@.len() - i,
    {
        let s = &meta[i];
        let title = match &s.title {
            Some(t) => t.as_str(),
            None => "Unknown",
        };
        let user = match &s.user {
            Some(u) => u.as_str(),
            None => "Unknown",
        };
        let line = labeled_exec(title, user);
        let ghost pre = names.deep_view();
        names.push(line);
        proof {
            assert(names.deep_view() =~= pre.push(plex_session_line(m[i as int])));
            assert(names.deep_view() =~= lines.take(i + 1 as int));
        }
        i = i + 1;
    }
    proof {
        assert(lines.take(meta@.len() as int) =~= lines);
    }
    names
}

/// One library section, with the item count filled in by a secondary
/// call.
pub struct PlexLibrary {
    pub key: String,
    pub title: String,
    pub lib_type: String,
    pub count: i64,
}

/// `PlexLibrary`, at the specification level.
pub struct LibraryModel {
    pub key: Seq<char>,
    pub title: Seq<char>,
    pub lib_type: Seq<char>,
    pub count: int,
}

impl View for PlexLibrary {
    type V = LibraryModel;

    open spec fn view(&self) -> LibraryModel {
        LibraryModel {
            key: self.key@,
            title: self.title@,
            lib_type: self.lib_type@,
            count: self.count as int,
        }
    }
}

/// One directory entry of the sections listing, as decoded by the host.
pub struct PlexDirEntry {
    pub key: Option<String>,
    pub title: Option<String>,
    pub lib_type: Option<String>,
}

/// `PlexDirEntry`, at the specification level.
pub struct DirEntryModel {
    pub key: Option<Seq<char>>,
    pub title: Option<Seq<char>>,
    pub lib_type: Option<Seq<char>>,
}

impl View for PlexDirEntry {
    type V = DirEntryModel;

    open spec fn view(&self) -> DirEntryModel {
        DirEntryModel {
            key: self.key.deep_view(),
            title: self.title.deep_view(),
            lib_type: self.lib_type.deep_view(),
        }
    }
}

/// The library derived from one directory entry: missing keys default
/// to empty, missing titles to `Unknown`, missing types to `unknown`,
/// and the count starts at zero until the secondary call fills it.
pub open spec fn library_of(d: DirEntryModel) -> LibraryModel {
    LibraryModel {
        key: match d.key {
            Some(k) => k,
            None => Seq::empty(),
        },
        title: or_unknown(d.title),
        lib_type: match d.lib_type {
            Some(t) => t,
            None => "unknown"@,
        },
        count: 0,
    }
}

/// The libraries of a sections listing, counts not yet filled.
pub fn make_libraries(dirs: &Vec<PlexDirEntry>) -> (v: Vec<PlexLibrary>)
    ensures
        v@.map_values(|l: PlexLibrary| l@) == dirs@.map_values(|d: PlexDirEntry| d@).map_values(
            |d: DirEntryModel| library_of(d),
        ),
{
    let ghost m = dirs@.map_values(|d: PlexDirEntry| d@);
    let ghost libs = m.map_values(|d: DirEntryModel| library_of(d));
    let mut v: Vec<PlexLibrary> = Vec::new();
    let mut i: usize = 0;
    while i < dirs.len()
        invariant
            i <= dirs@.len(),
            m == dirs@.map_values(|d: PlexDirEntry| d@),
            libs == m.map_values(|d: DirEntryModel| library_of(d)),
            v@.map_values(|l: PlexLibrary| l@) == libs.take(i as int),
        decreases dirs@.len() - i,
    {
        let d = &dirs[i];
        let key = match &d.key {
            Some(k) => k.clone(),
            None => String::new(),
        };
        let title = match &d.title {
            Some(t) => t.clone(),
            None => String::from_str("Unknown"),
        };
        let lib_type = match &d.lib_type {
            Some(t) => t.clone(),
            None => String::from_str("unknown"),
        };
        let ghost pre = v@.map_values(|l: PlexLibrary| l@);
        v.push(PlexLibrary { key, title, lib_type, count: 0 });
        proof {
            assert(v@.map_values(|l: PlexLibrary| l@) =~= pre.push(library_of(m[i as int])));
            assert(v@.map_values(|l: PlexLibrary| l@) =~= libs.take(i + 1 as int));
        }
        i = i + 1;
    }
    proof {
        assert(libs.take(dirs@.len() as int) =~= libs);
    }
    v
}

/// Fill one library's item count from its secondary call, degrading to
/// zero when that call failed.  Every other field is unchanged.
pub fn set_library_count(lib: &mut PlexLibrary, count: &Option<i64>)
    ensures
        final(lib)@ == (LibraryModel { count: or_zero(*count), ..old(lib)@ }),
{
    lib.count = match count {
        Some(c) => *c,
        None => 0,
    };
}

/// What the server-info probe reports, with its defaults applied.
pub struct PlexServerInfo {
    pub machine_id: String,
    pub server_name: String,
}

/// The server info derived from the decoded root document: a missing
/// machine identifier defaults to empty, a missing name to `Plex`.
pub fn server_info(machine_id: &Option<String>, name: &Option<String>) -> (r: PlexServerInfo)
    ensures
        r.machine_id@ == (match machine_id.deep_view() {
            Some(m) => m,
            None => Seq::<char>::empty(),
        }),
        r.server_name@ == (match name.deep_view() {
            Some(n) => n,
            None => "Plex"@,
        }),
{
    PlexServerInfo {
        machine_id: match machine_id {
            Some(m) => m.clone(),
            None => String::new(),
        },
        server_name: match name {
            Some(n) => n.clone(),
            None => String::from_str("Plex"),
        },
    }
}

/// One recently-added entry as decoded by the host.
pub struct PlexRecentEntry {
    pub title: Option<String>,
    pub media_type: Option<String>,
    pub year: Option<i32>,
    pub thumb: Option<String>,
    pub grandparent_thumb: Option<String>,
    pub grandparent_title: Option<String>,
    pub added_at: Option<i64>,
}

/// `PlexRecentEntry`, at the specification level.
pub struct RecentEntryModel {
    pub title: Option<Seq<char>>,
    pub media_type: Option<Seq<char>>,
    pub year: Option<int>,
    pub thumb: Option<Seq<char>>,
    pub grandparent_thumb: Option<Seq<char>>,
    pub grandparent_title: Option<Seq<char>>,
    pub added_at: Option<int>,
}

impl View for PlexRecentEntry {
    type V = RecentEntryModel;

    open spec fn view(&self) -> RecentEntryModel {
        RecentEntryModel {
            title: self.title.deep_view(),
            media_type: self.media_type.deep_view(),
            year: match self.year {
                Some(y) => Some(y as int),
                None => None,
            },
            thumb: self.thumb.deep_view(),
            grandparent_thumb: self.grandparent_thumb.deep_view(),
            grandparent_title: self.grandparent_title.deep_view(),
            added_at: match self.added_at {
                Some(a) => Some(a as int),
                None => None,
            },
        }
    }
}

/// One recently-added item as surfaced to callers.
pub struct PlexRecentItem {
    pub title: String,
    pub media_type: String,
    pub year: Option<i32>,
    pub thumb: Option<String>,
    pub grandparent_title: Option<String>,
    pub added_at: Option<i64>,
}

/// `PlexRecentItem`, at the specification level.
pub struct RecentItemModel {
    pub title: Seq<char>,
    pub media_type: Seq<char>,
    pub year: Option<int>,
    pub thumb: Option<Seq<char>>,
    pub grandparent_title: Option<Seq<char>>,
    pub added_at: Option<int>,
}

impl View for PlexRecentItem {
    type V = RecentItemModel;

    open spec fn view(&self) -> RecentItemModel {
        RecentItemModel {
            title: self.title@,
            media_type: self.media_type@,
            year: match self.year {
                Some(y) => Some(y as int),
                None => None,
            },
            thumb: self.thumb.deep_view(),
            grandparent_title: self.grandparent_title.deep_view(),
            added_at: match self.added_at {
                Some(a) => Some(a as int),
                None => None,
            },
        }
    }
}

/// The token-carrying URL a thumbnail path is served under.  The thumb
/// path has no query string of its own, so `?` starts one.
pub open spec fn thumb_url(base: Seq<char>, token: Seq<char>, path: Seq<char>) -> Seq<char> {
    base + path + "?X-Plex-Token="@ + token
}

/// The item derived from one recently-added entry: `Unknown`/`unknown`
/// defaults for the title and type, and the thumbnail path — falling
/// back to the grandparent's — turned into a token-carrying URL.
pub open spec fn recent_item_of(base: Seq<char>, token: Seq<char>, e: RecentEntryModel)
    -> RecentItemModel {
    RecentItemModel {
        title: or_unknown(e.title),
        media_type: match e.media_type {
            Some(t) => t,
            None => "unknown"@,
        },
        year: e.year,
        thumb: match e.thumb {
            Some(p) => Some(thumb_url(base, token, p)),
            None => match e.grandparent_thumb {
                Some(p) => Some(thumb_url(base, token, p)),
                None => None,
            },
        },
        grandparent_title: e.grandparent_title,
        added_at: e.added_at,
    }
}

/// The token-carrying URL a thumbnail path is served under.
fn thumb_url_exec(base: &str, token: &str, path: &str) -> (r: String)
    ensures
        r@ == thumb_url(base@, token@, path@),
{
    let mut s = base.to_owned();
    s.append(path);
    s.append("?X-Plex-Token=");
    s.append(token);
    assert(s@ =~= thumb_url(base@, token@, path@));
    s
}

/// The recently-added items derived from the decoded listing, in the
/// backend's original order.
pub fn make_recent_items(base: &str, token: &str, entries: &Vec<PlexRecentEntry>) -> (v: Vec<
    PlexRecentItem,
>)
    ensures
        v@.map_values(|r: PlexRecentItem| r@) == entries@.map_values(
            |e: PlexRecentEntry| e@,
        ).map_values(|e: RecentEntryModel| recent_item_of(base@, token@, e)),
{
    let ghost m = entries@.map_values(|e: PlexRecentEntry| e@);
    let ghost items = m.map_values(|e: RecentEntryModel| recent_item_of(base@, token@, e));
    let mut v: Vec<PlexRecentItem> = Vec::new();
    let mut i: usize = 0;
    while i < entries.len()
        invariant
            i <= entries@.len(),
            m == entries@.map_values(|e: PlexRecentEntry| e@),
            items == m.map_values(|e: RecentEntryModel| recent_item_of(base@, token@, e)),
            v@.map_values(|r: PlexRecentItem| r@) == items.take(i as int),
        decreases entries@.len() - i,
    {
        let e = &entries[i];
        let title = match &e.title {
            Some(t) => t.clone(),
            None => String::from_str("Unknown"),
        };
        let media_type = match &e.media_type {
            Some(t) => t.clone(),
            None => String::from_str("unknown"),
        };
        let thumb = match &e.thumb {
            Some(p) => Some(thumb_url_exec(base, token, p.as_str())),
            None => match &e.grandparent_thumb {
                Some(p) => Some(thumb_url_exec(base, token, p.as_str())),
                None => None,
            },
        };
        let grandparent_title = match &e.grandparent_title {
            Some(t) => Some(t.clone()),
            None => None,
        };
        let ghost pre = v@.map_values(|r: PlexRecentItem| r@);
        v.push(
            PlexRecentItem {
                title,
                media_type,
                year: e.year,
                thumb,
                grandparent_title,
                added_at: e.added_at,
            },
        );
        proof {
            assert(v@.map_values(|r: PlexRecentItem| r@) =~= pre.push(
                recent_item_of(base@, token@, m[i as int]),
            ));
            assert(v@.map_values(|r: PlexRecentItem| r@) =~= items.take(i + 1 as int));
        }
        i = i + 1;
    }
    proof {
        assert(items.take(entries@.len() as int) =~= items);
    }
    v
}

} // verus!
