//! Bounded literal-string scanning over markup fragments.
//!
//! The indexer proxy returns a small, semi-trusted XML document.  Rather
//! than pull in a full parser, the dashboard extracts a fixed set of
//! attributes and element texts by literal search, with hard bounds on how
//! far a value may extend: an overlong or unterminated value is treated as
//! "absent", never as an error.

use vstd::prelude::*;
use vstd::string::StrSliceExecFns;

verus! {

/// Longest attribute value the scan will accept.
pub const ATTR_VALUE_BOUND: usize = 200;

/// Longest element text the scan will accept.
pub const TAG_TEXT_BOUND: usize = 500;

/// True when `pat` occurs in `text` starting exactly at index `i`.
pub open spec fn match_at(text: Seq<char>, pat: Seq<char>, i: int) -> bool {
    &&& 0 <= i
    &&& i + pat.len() <= text.len()
    &&& forall|j: int| 0 <= j < pat.len() ==> text[i + j] == pat[j]
}

/// Index of the first occurrence of `pat` in `text` at or after `from`,
/// or `None` when there is none.
pub open spec fn find_from(text: Seq<char>, pat: Seq<char>, from: int) -> Option<int>
    decreases text.len() - from,
{
    if from < 0 || from + pat.len() > text.len() {
        None
    } else if match_at(text, pat, from) {
        Some(from)
    } else {
        find_from(text, pat, from + 1)
    }
}

/// A found index is a match, lies at or after `from`, and is the first one.
pub proof fn lemma_find_from_some(text: Seq<char>, pat: Seq<char>, from: int, i: int)
    requires
        find_from(text, pat, from) == Some(i),
    ensures
        from <= i,
        match_at(text, pat, i),
        forall|k: int| from <= k < i ==> !match_at(text, pat, k),
    decreases text.len() - from,
{
    if !(from < 0 || from + pat.len() > text.len()) && !match_at(text, pat, from) {
        lemma_find_from_some(text, pat, from + 1, i);
    }
}

/// The characters of `s`, in order, as a vector.
pub fn chars_vec(s: &str) -> (v: Vec<char>)
    ensures
        v@ == s@,
{
    let n = s.unicode_len();
    let mut v: Vec<char> = Vec::new();
    let mut i: usize = 0;
    while i < n
        invariant
            i <= n,
            n == s@.len(),
            v@ == s@.subrange(0, i as int),
        decreases n - i,
    {
        let c = s.get_char(i);
        v.push(c);
        assert(v@ =~= s@.subrange(0, i + 1 as int));
        i = i + 1;
    }
    assert(v@ =~= s@);
    v
}

/// First occurrence of `pat` in `text` at or after `from`, by direct scan.
pub fn find_sub(text: &Vec<char>, pat: &Vec<char>, from: usize) -> (r: Option<usize>)
    ensures
        match r {
            Some(i) => find_from(text@, pat@, from as int) == Some(i as int),
            None => find_from(text@, pat@, from as int) is None,
        },
{
    if pat.len() > text.len() || from > text.len() - pat.len() {
        return None;
    }
    if pat.len() == 0 {
        assert(match_at(text@, pat@, from as int));
        return Some(from);
    }
    let last = text.len() - pat.len();
    let mut i = from;
    while i <= last
        invariant
            from <= i,
            i <= last + 1,
            1 <= pat@.len() <= text@.len(),
            last == text@.len() - pat@.len(),
            text@.len() <= usize::MAX,
            find_from(text@, pat@, from as int) == find_from(text@, pat@, i as int),
        decreases last + 1 - i,
    {
        let mut j: usize = 0;
        let mut matched = true;
        while j < pat.len()
            invariant
                i + pat@.len() <= text@.len(),
                text@.len() <= usize::MAX,
                j <= pat@.len(),
                matched <==> (forall|k: int| 0 <= k < j ==> text@[i + k] == pat@[k]),
            decreases pat@.len() - j,
        {
            if text[i + j] != pat[j] {
                matched = false;
                j = pat.len();
            } else {
                j = j + 1;
            }
        }
        if matched {
            assert(match_at(text@, pat@, i as int));
            return Some(i);
        }
        assert(!match_at(text@, pat@, i as int));
        i = i + 1;
    }
    assert(find_from(text@, pat@, i as int) is None);
    None
}

/// The characters stripped from the ends of element text: the Unicode
/// white-space set, as `str::trim` strips it.
pub open spec fn is_space(c: char) -> bool {
    ||| c == ' '
    ||| c == '\t'
    ||| c == '\n'
    ||| c == '\u{b}'
    ||| c == '\u{c}'
    ||| c == '\r'
    ||| c == '\u{85}'
    ||| c == '\u{a0}'
    ||| c == '\u{1680}'
    ||| ('\u{2000}' <= c && c <= '\u{200a}')
    ||| c == '\u{2028}'
    ||| c == '\u{2029}'
    ||| c == '\u{202f}'
    ||| c == '\u{205f}'
    ||| c == '\u{3000}'
}

/// `t` with leading whitespace removed.
pub open spec fn trim_front(t: Seq<char>) -> Seq<char>
    decreases t.len(),
{
    if t.len() > 0 && is_space(t[0]) {
        trim_front(t.drop_first())
    } else {
        t
    }
}

/// `t` with trailing whitespace removed.
pub open spec fn trim_back(t: Seq<char>) -> Seq<char>
    decreases t.len(),
{
    if t.len() > 0 && is_space(t[t.len() - 1]) {
        trim_back(t.drop_last())
    } else {
        t
    }
}

/// `t` with whitespace removed at both ends.
pub open spec fn trimmed(t: Seq<char>) -> Seq<char> {
    trim_back(trim_front(t))
}

/// When the first `k` characters are spaces and the next one is not,
/// trimming the front keeps exactly the tail from `k` on.
proof fn lemma_trim_front_range(t: Seq<char>, k: int)
    requires
        0 <= k <= t.len(),
        forall|i: int| 0 <= i < k ==> is_space(t[i]),
        k == t.len() || !is_space(t[k]),
    ensures
        trim_front(t) == t.subrange(k, t.len() as int),
    decreases k,
{
    if k == 0 {
        assert(t =~= t.subrange(0, t.len() as int));
    } else {
        lemma_trim_front_range(t.drop_first(), k - 1);
        assert(t.drop_first().subrange(k - 1, t.drop_first().len() as int) =~= t.subrange(
            k,
            t.len() as int,
        ));
    }
}

/// When everything from `b` on is a space and the character before `b`
/// is not, trimming the back keeps exactly the first `b` characters.
proof fn lemma_trim_back_range(t: Seq<char>, b: int)
    requires
        0 <= b <= t.len(),
        forall|i: int| b <= i < t.len() ==> is_space(t[i]),
        b == 0 || !is_space(t[b - 1]),
    ensures
        trim_back(t) == t.subrange(0, b),
    decreases t.len() - b,
{
    if b == t.len() {
        if t.len() > 0 && is_space(t[t.len() - 1]) {
            assert(false);
        }
        assert(t =~= t.subrange(0, b));
    } else {
        lemma_trim_back_range(t.drop_last(), b);
        assert(t.drop_last().subrange(0, b) =~= t.subrange(0, b));
    }
}

/// The needle that locates an attribute: its name followed by `="`.
pub open spec fn attr_needle(attr: Seq<char>) -> Seq<char> {
    attr + "=\""@
}

/// What attribute extraction yields on `text`: the characters between the
/// first `attr="` and the next `"`, or nothing when either marker is
/// missing or the value runs past the scan bound.
pub open spec fn attr_value(text: Seq<char>, attr: Seq<char>) -> Option<Seq<char>> {
    match find_from(text, attr_needle(attr), 0) {
        None => None,
        Some(i) => {
            let vstart = i + attr_needle(attr).len();
            match find_from(text, "\""@, vstart) {
                None => None,
                Some(e) => if e - vstart < ATTR_VALUE_BOUND as int {
                    Some(text.subrange(vstart, e))
                } else {
                    None
                },
            }
        },
    }
}

/// The first `attr="..."` value in `s`, bounded by `ATTR_VALUE_BOUND`.
/// An overlong or unterminated value is reported as absent, not truncated.
pub fn extract_attr(s: &str, attr: &str) -> (r: Option<String>)
    ensures
        match r {
            Some(v) => attr_value(s@, attr@) == Some(v@),
            None => attr_value(s@, attr@) is None,
        },
{
    let text = chars_vec(s);
    let mut needle = chars_vec(attr);
    needle.push('=');
    needle.push('"');
    proof {
        reveal_strlit("=\"");
        assert(needle@ =~= attr_needle(attr@));
    }
    match find_sub(&text, &needle, 0) {
        None => None,
        Some(i) => {
            proof {
                lemma_find_from_some(text@, needle@, 0, i as int);
            }
            let vstart = i + needle.len();
            let mut quote: Vec<char> = Vec::new();
            quote.push('"');
            proof {
                reveal_strlit("\"");
                assert(quote@ =~= "\""@);
            }
            match find_sub(&text, &quote, vstart) {
                None => None,
                Some(e) => {
                    proof {
                        lemma_find_from_some(text@, quote@, vstart as int, e as int);
                    }
                    if e - vstart < ATTR_VALUE_BOUND {
                        Some(s.substring_char(vstart, e).to_owned())
                    } else {
                        None
                    }
                },
            }
        },
    }
}

/// An attribute value that runs to or past the scan bound is reported
/// as absent — never truncated, and never as an error: even when the
/// needle is found at `i` and a closing quote exists at `e`, a distance
/// at or beyond the bound yields nothing.
pub proof fn lemma_overlong_attr_absent(text: Seq<char>, attr: Seq<char>, i: int, e: int)
    requires
        find_from(text, attr_needle(attr), 0) == Some(i),
        find_from(text, "\""@, i + attr_needle(attr).len()) == Some(e),
        e - (i + attr_needle(attr).len()) >= ATTR_VALUE_BOUND as int,
    ensures
        attr_value(text, attr) is None,
{
}

/// The opening form of an element tag.
pub open spec fn tag_open(tag: Seq<char>) -> Seq<char> {
    "<"@ + tag + ">"@
}

/// The closing form of an element tag.
pub open spec fn tag_close(tag: Seq<char>) -> Seq<char> {
    "</"@ + tag + ">"@
}

/// What element-text extraction yields on `text`: the trimmed characters
/// between the first `<tag>` and the next `</tag>`, or nothing when either
/// marker is missing or the text runs past the scan bound.
pub open spec fn tag_value(text: Seq<char>, tag: Seq<char>) -> Option<Seq<char>> {
    match find_from(text, tag_open(tag), 0) {
        None => None,
        Some(i) => {
            let cstart = i + tag_open(tag).len();
            match find_from(text, tag_close(tag), cstart) {
                None => None,
                Some(e) => if e - cstart < TAG_TEXT_BOUND as int {
                    Some(trimmed(text.subrange(cstart, e)))
                } else {
                    None
                },
            }
        },
    }
}

/// The trimmed text of the first `<tag>...</tag>` element in `s`, bounded
/// by `TAG_TEXT_BOUND`.
pub fn extract_tag(s: &str, tag: &str) -> (r: Option<String>)
    ensures
        match r {
            Some(v) => tag_value(s@, tag@) == Some(v@),
            None => tag_value(s@, tag@) is None,
        },
{
    let text = chars_vec(s);
    let mut opening = String::from_str("<");
    opening.append(tag);
    opening.append(">");
    let open_pat = chars_vec(opening.as_str());
    proof {
        assert(open_pat@ =~= tag_open(tag@));
    }
    let mut closing = String::from_str("</");
    closing.append(tag);
    closing.append(">");
    let close_pat = chars_vec(closing.as_str());
    proof {
        assert(close_pat@ =~= tag_close(tag@));
    }
    match find_sub(&text, &open_pat, 0) {
        None => None,
        Some(i) => {
            proof {
                lemma_find_from_some(text@, open_pat@, 0, i as int);
            }
            let cstart = i + open_pat.len();
            match find_sub(&text, &close_pat, cstart) {
                None => None,
                Some(e) => {
                    proof {
                        lemma_find_from_some(text@, close_pat@, cstart as int, e as int);
                    }
                    if e - cstart < TAG_TEXT_BOUND {
                        Some(trim_range(s, &text, cstart, e))
                    } else {
                        None
                    }
                },
            }
        },
    }
}

/// The characters of `s` between `lo` and `hi`, with whitespace stripped
/// at both ends.
fn trim_range(s: &str, text: &Vec<char>, lo: usize, hi: usize) -> (r: String)
    requires
        text@ == s@,
        lo <= hi <= s@.len(),
    ensures
        r@ == trimmed(s@.subrange(lo as int, hi as int)),
{
    let ghost t = s@.subrange(lo as int, hi as int);
    let mut a = lo;
    while a < hi && is_space_char(text[a])
        invariant
            lo <= a <= hi,
            hi <= text@.len(),
            text@ == s@,
            forall|i: int| lo <= i < a ==> is_space(text@[i]),
        decreases hi - a,
    {
        a = a + 1;
    }
    let mut b = hi;
    while b > a && is_space_char(text[b - 1])
        invariant
            a <= b <= hi,
            hi <= text@.len(),
            text@ == s@,
            forall|i: int| b <= i < hi ==> is_space(text@[i]),
        decreases b,
    {
        b = b - 1;
    }
    proof {
        lemma_trim_front_range(t, a - lo);
        let f = t.subrange(a - lo, t.len() as int);
        assert(f =~= s@.subrange(a as int, hi as int));
        lemma_trim_back_range(f, b - a);
        assert(f.subrange(0, b - a) =~= s@.subrange(a as int, b as int));
    }
    s.substring_char(a, b).to_owned()
}

/// Executable form of `is_space`.
pub fn is_space_char(c: char) -> (r: bool)
    ensures
        r == is_space(c),
{
    c == ' ' || c == '\t' || c == '\n' || c == '\u{b}' || c == '\u{c}' || c == '\r'
        || c == '\u{85}' || c == '\u{a0}' || c == '\u{1680}'
        || ('\u{2000}' <= c && c <= '\u{200a}') || c == '\u{2028}' || c == '\u{2029}'
        || c == '\u{202f}' || c == '\u{205f}' || c == '\u{3000}'
}

/// `t` with every trailing occurrence of `c` removed.
pub open spec fn trim_trailing(t: Seq<char>, c: char) -> Seq<char>
    decreases t.len(),
{
    if t.len() > 0 && t[t.len() - 1] == c {
        trim_trailing(t.drop_last(), c)
    } else {
        t
    }
}

/// When everything from `b` on equals `c` and the character before `b`
/// does not, trimming keeps exactly the first `b` characters.
proof fn lemma_trim_trailing_range(t: Seq<char>, c: char, b: int)
    requires
        0 <= b <= t.len(),
        forall|i: int| b <= i < t.len() ==> t[i] == c,
        b == 0 || t[b - 1] != c,
    ensures
        trim_trailing(t, c) == t.subrange(0, b),
    decreases t.len() - b,
{
    if b == t.len() {
        assert(t =~= t.subrange(0, b));
    } else {
        lemma_trim_trailing_range(t.drop_last(), c, b);
        assert(t.drop_last().subrange(0, b) =~= t.subrange(0, b));
    }
}

/// `s` with every trailing occurrence of `c` removed.
pub fn trim_trailing_char(s: &str, c: char) -> (r: String)
    ensures
        r@ == trim_trailing(s@, c),
{
    let text = chars_vec(s);
    let mut b = text.len();
    while b > 0 && text[b - 1] == c
        invariant
            b <= text@.len(),
            text@ == s@,
            forall|i: int| b <= i < text@.len() ==> text@[i] == c,
        decreases b,
    {
        b = b - 1;
    }
    proof {
        lemma_trim_trailing_range(s@, c, b as int);
        assert(s@.subrange(0, b as int) =~= s@.subrange(0, b as int));
    }
    s.substring_char(0, b).to_owned()
}

/// The first `n` characters of `s`, or all of it when it is shorter.
pub open spec fn prefix_chars(s: Seq<char>, n: int) -> Seq<char> {
    if n <= s.len() {
        s.take(n)
    } else {
        s
    }
}

/// The first `n` characters of `s`, or all of `s` when it is shorter.
pub fn take_chars(s: &str, n: usize) -> (r: String)
    ensures
        r@ == prefix_chars(s@, n as int),
{
    let len = s.unicode_len();
    let m = if n < len {
        n
    } else {
        len
    };
    let r = s.substring_char(0, m).to_owned();
    proof {
        assert(s@.subrange(0, m as int) =~= prefix_chars(s@, n as int));
    }
    r
}

} // verus!
