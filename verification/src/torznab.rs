//! Scanning a Torznab indexer feed.
//!
//! The indexer proxy lists its search indexers as a sequence of
//! `<indexer ...>...</indexer>` fragments.  Two passes exist over the same
//! document: a full listing pass that yields one record per configured
//! indexer, and a cheaper counting pass that inspects a fixed window after
//! each fragment marker.  Malformed fragments are skipped, never raised as
//! errors.

use vstd::prelude::*;
use vstd::string::StrSliceExecFns;
use vstd::string::StringExecFns;
use crate::text_scan::{
    attr_value, chars_vec, extract_attr, extract_tag, find_from, find_sub, lemma_find_from_some,
    match_at, tag_value,
};

verus! {

/// How far past a fragment marker the counting pass looks for the
/// `configured="true"` token.
pub const COUNT_WINDOW: usize = 300;

/// The literal that opens each indexer fragment.
pub open spec fn marker() -> Seq<char> {
    "<indexer "@
}

/// The token the counting pass looks for.
pub open spec fn configured_token() -> Seq<char> {
    "configured=\"true\""@
}

/// Everything after the fragment marker found at `p`.
pub open spec fn suffix_at(text: Seq<char>, p: int) -> Seq<char> {
    text.subrange(p + marker().len(), text.len() as int)
}

/// Whether the bounded window after the marker at `p` carries the
/// `configured="true"` token.
pub open spec fn window_configured(text: Seq<char>, p: int) -> bool {
    let stop = if p + COUNT_WINDOW as int <= text.len() {
        p + COUNT_WINDOW as int
    } else {
        text.len() as int
    };
    find_from(text.subrange(p, stop), configured_token(), 0) is Some
}

/// What the counting pass yields from position `i` on: one per fragment
/// marker whose window carries the token.
pub open spec fn count_from(text: Seq<char>, i: int) -> int
    decreases text.len() - i,
    when 0 <= i
    via count_from_dec
{
    match find_from(text, marker(), i) {
        None => 0,
        Some(p) => (if window_configured(text, p) {
            1int
        } else {
            0int
        }) + count_from(text, p + marker().len() as int),
    }
}

#[via_fn]
proof fn count_from_dec(text: Seq<char>, i: int) {
    reveal_strlit("<indexer ");
    match find_from(text, marker(), i) {
        Some(p) => lemma_find_from_some(text, marker(), i, p),
        None => {},
    }
}

/// One indexer as the listing pass reports it, at the specification level.
pub struct IndexerModel {
    pub id: Seq<char>,
    pub name: Seq<char>,
    pub itype: Seq<char>,
    pub configured: bool,
}

/// What the listing pass derives from the text following one fragment
/// marker: `id` and `type` attributes (type defaults to `public`), the
/// `<title>` element as display name (defaulting to the id), and whether
/// the fragment is literally marked `configured="true"`.
pub open spec fn fragment_record(suffix: Seq<char>) -> IndexerModel {
    let id = match attr_value(suffix, "id"@) {
        Some(v) => v,
        None => Seq::empty(),
    };
    let itype = match attr_value(suffix, "type"@) {
        Some(v) => v,
        None => "public"@,
    };
    let name = match tag_value(suffix, "title"@) {
        Some(v) => v,
        None => id,
    };
    let configured = match attr_value(suffix, "configured"@) {
        Some(v) => v == "true"@,
        None => false,
    };
    IndexerModel { id, name, itype, configured }
}

/// What the listing pass yields from position `i` on: the records of the
/// configured fragments, in document order.
pub open spec fn scan_from(text: Seq<char>, i: int) -> Seq<IndexerModel>
    decreases text.len() - i,
    when 0 <= i
    via scan_from_dec
{
    match find_from(text, marker(), i) {
        None => Seq::empty(),
        Some(p) => {
            let rec = fragment_record(suffix_at(text, p));
            let rest = scan_from(text, p + marker().len() as int);
            if rec.configured {
                seq![rec] + rest
            } else {
                rest
            }
        },
    }
}

#[via_fn]
proof fn scan_from_dec(text: Seq<char>, i: int) {
    reveal_strlit("<indexer ");
    match find_from(text, marker(), i) {
        Some(p) => lemma_find_from_some(text, marker(), i, p),
        None => {},
    }
}

/// One indexer as surfaced to callers.  Only configured indexers are ever
/// returned, so `configured` is true on every record the scan yields.
pub struct IndexerRecord {
    pub id: String,
    pub name: String,
    pub itype: String,
    pub configured: bool,
}

impl View for IndexerRecord {
    type V = IndexerModel;

    open spec fn view(&self) -> IndexerModel {
        IndexerModel {
            id: self.id@,
            name: self.name@,
            itype: self.itype@,
            configured: self.configured,
        }
    }
}

/// The records of a vector, at the specification level.
pub open spec fn records_view(v: Seq<IndexerRecord>) -> Seq<IndexerModel> {
    v.map_values(|r: IndexerRecord| r@)
}

/// The record derived from the text following one fragment marker.
fn read_fragment(frag: &str) -> (rec: IndexerRecord)
    ensures
        rec@ == fragment_record(frag@),
{
    let id = match extract_attr(frag, "id") {
        Some(v) => v,
        None => String::new(),
    };
    let itype = match extract_attr(frag, "type") {
        Some(v) => v,
        None => String::from_str("public"),
    };
    let name = match extract_tag(frag, "title") {
        Some(v) => v,
        None => id.clone(),
    };
    let configured = match extract_attr(frag, "configured") {
        Some(v) => v == String::from_str("true"),
        None => false,
    };
    IndexerRecord { id, name, itype, configured }
}

/// The configured indexers of `doc`, in document order: for each
/// `<indexer ` marker, the fields are extracted from the text that
/// follows it, and the record is kept only when the fragment is marked
/// `configured="true"`.
pub fn scan_indexers(doc: &str) -> (v: Vec<IndexerRecord>)
    ensures
        records_view(v@) == scan_from(doc@, 0),
        forall|k: int| 0 <= k < v@.len() ==> v@[k].configured,
{
    let text = chars_vec(doc);
    let mark = chars_vec("<indexer ");
    let n = doc.unicode_len();
    let mut result: Vec<IndexerRecord> = Vec::new();
    let mut pos: usize = 0;
    let mut done = false;
    while !done
        invariant
            pos <= n,
            n == doc@.len(),
            n <= usize::MAX,
            text@ == doc@,
            mark@ == marker(),
            records_view(result@) + scan_from(doc@, pos as int) == scan_from(doc@, 0),
            done ==> scan_from(doc@, pos as int) == Seq::<IndexerModel>::empty(),
            forall|k: int| 0 <= k < result@.len() ==> result@[k].configured,
        decreases 2 * (n - pos) + (if done {
            0int
        } else {
            1int
        }),
    {
        match find_sub(&text, &mark, pos) {
            None => {
                done = true;
            },
            Some(p) => {
                proof {
                    lemma_find_from_some(text@, mark@, pos as int, p as int);
                    reveal_strlit("<indexer ");
                }
                let frag = doc.substring_char(p + mark.len(), n);
                let rec = read_fragment(frag);
                let ghost prior = result@;
                if rec.configured {
                    result.push(rec);
                    proof {
                        assert(records_view(result@) =~= records_view(prior) + seq![
                            fragment_record(suffix_at(doc@, p as int)),
                        ]);
                    }
                } else {
                    proof {
                        assert(frag@ == suffix_at(doc@, p as int));
                    }
                }
                pos = p + mark.len();
                proof {
                    assert(records_view(result@) + scan_from(doc@, pos as int) =~= scan_from(
                        doc@,
                        0,
                    ));
                }
            },
        }
    }
    result
}

/// How many fragments the counting pass accepts: one per `<indexer `
/// marker whose following `COUNT_WINDOW` characters carry the literal
/// `configured="true"` token.
pub fn count_configured_indexers(xml: &str) -> (r: i64)
    ensures
        r as int == count_from(xml@, 0),
{
    let text = chars_vec(xml);
    let mark = chars_vec("<indexer ");
    let token = chars_vec("configured=\"true\"");
    let n = xml.unicode_len();
    let mut count: i64 = 0;
    let mut pos: usize = 0;
    let mut done = false;
    while !done
        invariant
            pos <= n,
            n == xml@.len(),
            n <= usize::MAX,
            text@ == xml@,
            mark@ == marker(),
            token@ == configured_token(),
            0 <= count,
            count * 9 <= pos,
            count as int + count_from(xml@, pos as int) == count_from(xml@, 0),
            done ==> count_from(xml@, pos as int) == 0,
        decreases 2 * (n - pos) + (if done {
            0int
        } else {
            1int
        }),
    {
        match find_sub(&text, &mark, pos) {
            None => {
                done = true;
            },
            Some(p) => {
                proof {
                    lemma_find_from_some(text@, mark@, pos as int, p as int);
                    reveal_strlit("<indexer ");
                }
                let stop = if n - p > COUNT_WINDOW {
                    p + COUNT_WINDOW
                } else {
                    n
                };
                let mut window: Vec<char> = Vec::new();
                let mut k = p;
                while k < stop
                    invariant
                        p <= k <= stop,
                        stop <= text@.len(),
                        window@ == text@.subrange(p as int, k as int),
                    decreases stop - k,
                {
                    window.push(text[k]);
                    assert(window@ =~= text@.subrange(p as int, k + 1 as int));
                    k = k + 1;
                }
                if find_sub(&window, &token, 0).is_some() {
                    count = count + 1;
                }
                pos = p + mark.len();
            },
        }
    }
    count
}

/// The agreement between the two passes on one document: at every
/// fragment marker, the bounded window carries the token exactly when the
/// listing pass reads the fragment as configured.  Well-formed feeds
/// satisfy this; a fragment whose `configured` attribute sits past the
/// counting window, or a token that bleeds in from a neighbouring
/// fragment, would break it.
pub open spec fn counts_agree(text: Seq<char>) -> bool {
    forall|p: int|
        #[trigger] match_at(text, marker(), p) ==> (window_configured(text, p) == fragment_record(
            suffix_at(text, p),
        ).configured)
}

/// On documents where the two passes agree fragment by fragment, the
/// counting pass returns exactly the number of records the listing pass
/// yields.
pub proof fn lemma_count_matches_scan(text: Seq<char>, i: int)
    requires
        0 <= i,
        counts_agree(text),
    ensures
        count_from(text, i) == scan_from(text, i).len(),
    decreases text.len() - i,
{
    reveal_strlit("<indexer ");
    match find_from(text, marker(), i) {
        None => {},
        Some(p) => {
            lemma_find_from_some(text, marker(), i, p);
            lemma_count_matches_scan(text, p + marker().len() as int);
        },
    }
}

/// A fragment with no `<title>` element is listed under its `id`.
pub proof fn lemma_missing_title_defaults_to_id(suffix: Seq<char>)
    requires
        tag_value(suffix, "title"@) is None,
    ensures
        fragment_record(suffix).name == fragment_record(suffix).id,
{
}

} // verus!
