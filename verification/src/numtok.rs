//! Recognition of numeric tokens for the `size` facet.
//!
//! A `size` attribute contributes a facet only when its value is a valid
//! floating-point literal.  The accepted grammar is the one Rust documents
//! for parsing `f64` values from strings:
//!
//! ```text
//! Float  ::= Sign? ( 'inf' | 'infinity' | 'nan' | Number )
//! Number ::= Count '.' Digit* Exp?
//!          | '.' Count Exp?
//!          | Count Exp?
//! Exp    ::= ('e' | 'E') Sign? Count
//! Count  ::= Digit+
//! Sign   ::= '+' | '-'
//! ```
//!
//! with `inf`, `infinity` and `nan` accepted in any letter case.

use vstd::prelude::*;
use crate::strutil::{str_eq, to_ascii_upper, upper_seq};

verus! {

/// Whether `c` is a decimal digit.
pub open spec fn is_digit(c: char) -> bool {
    '0' <= c && c <= '9'
}

/// The index of the first non-digit character of `s` at or after `from`
/// (or the end of `s` if digits run to the end).
pub open spec fn digit_run_end(s: Seq<char>, from: int) -> int
    decreases s.len() - from,
{
    if from < 0 || from >= s.len() {
        from
    } else if is_digit(s[from]) {
        digit_run_end(s, from + 1)
    } else {
        from
    }
}

pub proof fn lemma_digit_run_end(s: Seq<char>, from: int)
    requires
        0 <= from <= s.len(),
    ensures
        from <= digit_run_end(s, from) <= s.len(),
    decreases s.len() - from,
{
    if from < s.len() && is_digit(s[from]) {
        lemma_digit_run_end(s, from + 1);
    }
}

/// One leading sign character stripped, if present.
pub open spec fn strip_sign(s: Seq<char>) -> Seq<char> {
    if s.len() > 0 && (s[0] == '+' || s[0] == '-') {
        s.drop_first()
    } else {
        s
    }
}

/// An exponent part: `e` or `E`, an optional sign, then one or more digits.
pub open spec fn is_exponent(r: Seq<char>) -> bool {
    r.len() >= 2 && (r[0] == 'e' || r[0] == 'E') && {
        let t = strip_sign(r.drop_first());
        t.len() > 0 && (forall|i: int| 0 <= i < t.len() ==> is_digit(t[i]))
    }
}

/// Either nothing is left, or what is left is an exponent part.
pub open spec fn exp_or_empty(r: Seq<char>) -> bool {
    r.len() == 0 || is_exponent(r)
}

/// A number body (after any leading sign): digits with an optional dot,
/// optional fraction digits and an optional exponent, with at least one
/// digit before or after the dot.
pub open spec fn is_number_body(b: Seq<char>) -> bool {
    if b.len() == 0 {
        false
    } else if b[0] == '.' {
        let d = digit_run_end(b, 1);
        d > 1 && exp_or_empty(b.skip(d))
    } else {
        let d = digit_run_end(b, 0);
        d > 0 && {
            let rest = b.skip(d);
            if rest.len() > 0 && rest[0] == '.' {
                let f = digit_run_end(rest, 1);
                exp_or_empty(rest.skip(f))
            } else {
                exp_or_empty(rest)
            }
        }
    }
}

/// Whether `s` is a valid floating-point literal under the documented
/// grammar: an optional sign followed by `inf`, `infinity` or `nan` in any
/// letter case, or by a number body.
pub open spec fn is_number_token(s: Seq<char>) -> bool {
    let b = strip_sign(s);
    upper_seq(b) == "INF"@ || upper_seq(b) == "INFINITY"@ || upper_seq(b) == "NAN"@
        || is_number_body(b)
}

/// Whether `c` is a decimal digit.
fn digit_char(c: char) -> (r: bool)
    ensures
        r == is_digit(c),
{
    let u = c as u32;
    48 <= u && u <= 57
}

/// Scans the digit run of `s` starting at `from` and returns the index of
/// the first non-digit character (or the length of `s`).
fn scan_digits(s: &str, from: usize) -> (end: usize)
    requires
        from <= s@.len(),
    ensures
        end == digit_run_end(s@, from as int),
        from <= end <= s@.len(),
{
    let len = s.unicode_len();
    let mut i: usize = from;
    while i < len && digit_char(s.get_char(i))
        invariant
            from <= i <= len,
            len == s@.len(),
            digit_run_end(s@, from as int) == digit_run_end(s@, i as int),
        decreases len - i,
    {
        i = i + 1;
    }
    i
}

/// Checks that nothing follows position `from`, or that an exponent part
/// (`e`/`E`, optional sign, one or more digits) runs exactly to the end.
fn check_exponent(s: &str, from: usize) -> (r: bool)
    requires
        from <= s@.len(),
    ensures
        r == exp_or_empty(s@.skip(from as int)),
{
    let len = s.unicode_len();
    let ghost rest = s@.skip(from as int);
    if from == len {
        return true;
    }
    let c = s.get_char(from);
    if !(c == 'e' || c == 'E') {
        assert(rest[0] == c);
        return false;
    }
    let mut j: usize = from + 1;
    proof {
        assert(rest.drop_first() =~= s@.skip(from as int + 1));
    }
    if j < len {
        let sc = s.get_char(j);
        if sc == '+' || sc == '-' {
            j = j + 1;
            proof {
                assert(s@.skip(from as int + 1).drop_first() =~= s@.skip(j as int));
            }
        }
    }
    let ghost t = strip_sign(rest.drop_first());
    proof {
        assert(t =~= s@.skip(j as int));
    }
    let d = scan_digits(s, j);
    if d == len && d > j {
        proof {
            lemma_digit_run_all(s@, j as int);
            assert forall|i: int| 0 <= i < t.len() implies is_digit(t[i]) by {
                assert(t[i] == s@[j + i]);
            }
        }
        true
    } else {
        proof {
            if t.len() > 0 && (forall|i: int| 0 <= i < t.len() ==> is_digit(t[i])) {
                assert forall|i: int| j <= i < s@.len() implies is_digit(s@[i]) by {
                    assert(t[i - j] == s@[i]);
                }
                lemma_digit_run_full(s@, j as int);
            }
        }
        false
    }
}

/// Every character of the digit run is a digit.
proof fn lemma_digit_run_all(s: Seq<char>, from: int)
    requires
        0 <= from <= s.len(),
    ensures
        forall|i: int| from <= i < digit_run_end(s, from) ==> is_digit(s[i]),
    decreases s.len() - from,
{
    if from < s.len() && is_digit(s[from]) {
        lemma_digit_run_all(s, from + 1);
    }
}

/// If every character from `from` to the end is a digit and there is at
/// least one, the digit run extends to the end.
proof fn lemma_digit_run_full(s: Seq<char>, from: int)
    requires
        0 <= from <= s.len(),
        forall|i: int| from <= i < s.len() ==> is_digit(s[i]),
    ensures
        digit_run_end(s, from) == s.len(),
    decreases s.len() - from,
{
    if from < s.len() {
        lemma_digit_run_full(s, from + 1);
    }
}

/// Whether `s` is a valid floating-point literal (see [`is_number_token`]).
pub fn is_numeric_token(s: &str) -> (r: bool)
    ensures
        r == is_number_token(s@),
{
    let len = s.unicode_len();
    let b: &str = if len > 0 {
        let c0 = s.get_char(0);
        if c0 == '+' || c0 == '-' {
            let t = s.substring_char(1, len);
            proof {
                assert(t@ =~= strip_sign(s@));
            }
            t
        } else {
            s
        }
    } else {
        s
    };
    proof {
        assert(b@ == strip_sign(s@));
    }
    let up = to_ascii_upper(b);
    if str_eq(up.as_str(), "INF") || str_eq(up.as_str(), "INFINITY") || str_eq(up.as_str(), "NAN") {
        return true;
    }
    let blen = b.unicode_len();
    if blen == 0 {
        return false;
    }
    if b.get_char(0) == '.' {
        let d = scan_digits(b, 1);
        if d <= 1 {
            return false;
        }
        check_exponent(b, d)
    } else {
        let d = scan_digits(b, 0);
        if d == 0 {
            return false;
        }
        let ghost rest = b@.skip(d as int);
        if d < blen && b.get_char(d) == '.' {
            proof {
                assert(rest[0] == '.');
            }
            let f = scan_digits(b, d + 1);
            proof {
                lemma_digit_run_shift(b@, d as int, f as int);
            }
            let r = check_exponent(b, f);
            proof {
                assert(b@.skip(f as int) =~= rest.skip(digit_run_end(rest, 1)));
            }
            r
        } else {
            proof {
                if rest.len() > 0 {
                    assert(rest[0] == b@[d as int]);
                }
            }
            check_exponent(b, d)
        }
    }
}

/// A digit run within a suffix matches the digit run within the whole
/// sequence, shifted by the suffix's start.
proof fn lemma_digit_run_shift(s: Seq<char>, d: int, f: int)
    requires
        0 <= d < s.len(),
        f == digit_run_end(s, d + 1),
    ensures
        digit_run_end(s.skip(d), 1) == f - d,
    decreases s.len() - d,
{
    lemma_digit_run_end(s, d + 1);
    lemma_digit_run_skip(s, d, d + 1);
}

/// Computing a digit run inside the suffix `s.skip(base)` agrees with
/// computing it on `s` directly.
proof fn lemma_digit_run_skip(s: Seq<char>, base: int, from: int)
    requires
        0 <= base <= from <= s.len(),
    ensures
        digit_run_end(s.skip(base), from - base) == digit_run_end(s, from) - base,
    decreases s.len() - from,
{
    let t = s.skip(base);
    if from < s.len() && is_digit(s[from]) {
        assert(t[from - base] == s[from]);
        lemma_digit_run_skip(s, base, from + 1);
    } else {
        if from < s.len() {
            assert(t[from - base] == s[from]);
        }
    }
}

} // verus!
