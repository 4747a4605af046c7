//! Decimal rendering of the integers that appear in status messages,
//! request bodies and endpoint paths.

use vstd::prelude::*;
use vstd::string::StrSliceExecFns;
use vstd::string::StringExecFns;

verus! {

/// The decimal digit character for `d`.
pub open spec fn digit_char(d: int) -> char {
    if d == 0 {
        '0'
    } else if d == 1 {
        '1'
    } else if d == 2 {
        '2'
    } else if d == 3 {
        '3'
    } else if d == 4 {
        '4'
    } else if d == 5 {
        '5'
    } else if d == 6 {
        '6'
    } else if d == 7 {
        '7'
    } else if d == 8 {
        '8'
    } else {
        '9'
    }
}

/// The decimal rendering of a non-negative integer, without leading
/// zeros (except for zero itself).
pub open spec fn dec_rep(n: int) -> Seq<char>
    recommends
        n >= 0,
    decreases n,
{
    if n < 10 {
        seq![digit_char(n)]
    } else {
        dec_rep(n / 10).push(digit_char(n % 10))
    }
}

/// The decimal rendering of any integer: a minus sign before the
/// magnitude when negative.
pub open spec fn int_rep(n: int) -> Seq<char> {
    if n < 0 {
        seq!['-'] + dec_rep(-n)
    } else {
        dec_rep(n)
    }
}

/// A run of `k` zero characters.
pub open spec fn zeros(k: int) -> Seq<char>
    decreases k,
{
    if k <= 0 {
        Seq::empty()
    } else {
        seq!['0'] + zeros(k - 1)
    }
}

/// The decimal rendering of `n`, left-padded with zeros to width `w`.
pub open spec fn padded_rep(n: int, w: int) -> Seq<char> {
    zeros(w - dec_rep(n).len()) + dec_rep(n)
}

/// The one-character string for digit `d`.
fn digit_str(d: u64) -> (r: &'static str)
    requires
        d < 10,
    ensures
        r@ == seq![digit_char(d as int)],
{
    if d == 0 {
        proof {
            reveal_strlit("0");
        }
        assert("0"@ =~= seq![digit_char(0)]);
        "0"
    } else if d == 1 {
        proof {
            reveal_strlit("1");
        }
        assert("1"@ =~= seq![digit_char(1)]);
        "1"
    } else if d == 2 {
        proof {
            reveal_strlit("2");
        }
        assert("2"@ =~= seq![digit_char(2)]);
        "2"
    } else if d == 3 {
        proof {
            reveal_strlit("3");
        }
        assert("3"@ =~= seq![digit_char(3)]);
        "3"
    } else if d == 4 {
        proof {
            reveal_strlit("4");
        }
        assert("4"@ =~= seq![digit_char(4)]);
        "4"
    } else if d == 5 {
        proof {
            reveal_strlit("5");
        }
        assert("5"@ =~= seq![digit_char(5)]);
        "5"
    } else if d == 6 {
        proof {
            reveal_strlit("6");
        }
        assert("6"@ =~= seq![digit_char(6)]);
        "6"
    } else if d == 7 {
        proof {
            reveal_strlit("7");
        }
        assert("7"@ =~= seq![digit_char(7)]);
        "7"
    } else if d == 8 {
        proof {
            reveal_strlit("8");
        }
        assert("8"@ =~= seq![digit_char(8)]);
        "8"
    } else {
        proof {
            reveal_strlit("9");
        }
        assert("9"@ =~= seq![digit_char(9)]);
        "9"
    }
}

/// The decimal rendering of `n`.
pub fn fmt_u64(n: u64) -> (r: String)
    ensures
        r@ == dec_rep(n as int),
    decreases n,
{
    if n < 10 {
        digit_str(n).to_owned()
    } else {
        let mut s = fmt_u64(n / 10);
        s.append(digit_str(n % 10));
        assert(s@ =~= dec_rep(n as int));
        s
    }
}

/// The decimal rendering of `n`, minus sign included when negative.
pub fn fmt_i64(n: i64) -> (r: String)
    ensures
        r@ == int_rep(n as int),
{
    if n >= 0 {
        fmt_u64(n as u64)
    } else {
        let wide: i128 = -(n as i128);
        let mag: u64 = wide as u64;
        let mut s = String::from_str("-");
        let rest = fmt_u64(mag);
        s.append(rest.as_str());
        proof {
            reveal_strlit("-");
            assert(s@ =~= int_rep(n as int));
        }
        s
    }
}

/// The decimal rendering of `n`, left-padded with zeros to width `w`.
pub fn fmt_padded(n: u64, w: usize) -> (r: String)
    ensures
        r@ == padded_rep(n as int, w as int),
{
    let digits = fmt_u64(n);
    let mut have = digits.as_str().unicode_len();
    let mut s = String::new();
    while have < w
        invariant
            digits@ == dec_rep(n as int),
            have >= digits@.len(),
            have <= w || have == digits@.len(),
            s@ == zeros(have - digits@.len()),
        decreases w - have,
    {
        let ghost k = have - digits@.len();
        s.append("0");
        proof {
            reveal_strlit("0");
            lemma_zeros_snoc(k + 1);
            assert(s@ =~= zeros(k + 1));
        }
        have = have + 1;
    }
    s.append(digits.as_str());
    proof {
        assert(s@ =~= padded_rep(n as int, w as int));
    }
    s
}

/// A run of zeros grows the same at either end.
proof fn lemma_zeros_snoc(k: int)
    requires
        k > 0,
    ensures
        zeros(k) == zeros(k - 1) + seq!['0'],
    decreases k,
{
    if k > 1 {
        lemma_zeros_snoc(k - 1);
    }
    assert(zeros(k) =~= zeros(k - 1) + seq!['0']);
}

/// The `YYYY-MM-DD` rendering of a calendar date.
pub open spec fn date_rep(y: int, m: int, d: int) -> Seq<char> {
    padded_rep(y, 4) + "-"@ + padded_rep(m, 2) + "-"@ + padded_rep(d, 2)
}

/// The `YYYY-MM-DD` rendering of a calendar date.
pub fn format_date(y: u64, m: u64, d: u64) -> (r: String)
    ensures
        r@ == date_rep(y as int, m as int, d as int),
{
    let mut s = fmt_padded(y, 4);
    s.append("-");
    let ms = fmt_padded(m, 2);
    s.append(ms.as_str());
    s.append("-");
    let ds = fmt_padded(d, 2);
    s.append(ds.as_str());
    s
}

} // verus!
