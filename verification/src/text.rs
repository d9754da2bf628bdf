//! Verified text building blocks: decimal rendering of integers,
//! single-quote escaping for SQL string literals, and substring
//! tests on identifiers.

use vstd::prelude::*;
use vstd::string::StrSliceExecFns;
use vstd::string::StringExecFns;

verus! {

// ---------------------------------------------------------------------------
// Decimal rendering
// ---------------------------------------------------------------------------

/// The decimal digit character for `d` (0 through 9).
pub open spec fn dec_digit(d: nat) -> char {
    if d == 0 {
        '0'
    } else if d == 1 {
        '1'
    } else if d == 2 {
        '2'
    } else if d == 3 {
        '3'
    } else if d == 4 {
        '4'
    } else if d == 5 {
        '5'
    } else if d == 6 {
        '6'
    } else if d == 7 {
        '7'
    } else if d == 8 {
        '8'
    } else {
        '9'
    }
}

/// The decimal rendering of a natural number, most significant digit
/// first, with no leading zeroes (a single `0` for zero).
pub open spec fn dec_str(n: nat) -> Seq<char>
    decreases n,
{
    if n < 10 {
        seq![dec_digit(n)]
    } else {
        dec_str(n / 10) + seq![dec_digit(n % 10)]
    }
}

/// The decimal rendering of an integer: a minus sign for negative
/// values, then the digits.
pub open spec fn dec_int_str(n: int) -> Seq<char> {
    if n < 0 {
        seq!['-'] + dec_str((-n) as nat)
    } else {
        dec_str(n as nat)
    }
}

/// One decimal digit as a string slice.
fn digit_str(d: u64) -> (r: &'static str)
    requires
        d < 10,
    ensures
        r@ == seq![dec_digit(d as nat)],
{
    proof {
        reveal_strlit("0");
        reveal_strlit("1");
        reveal_strlit("2");
        reveal_strlit("3");
        reveal_strlit("4");
        reveal_strlit("5");
        reveal_strlit("6");
        reveal_strlit("7");
        reveal_strlit("8");
        reveal_strlit("9");
    }
    let r: &'static str = if d == 0 {
        "0"
    } else if d == 1 {
        "1"
    } else if d == 2 {
        "2"
    } else if d == 3 {
        "3"
    } else if d == 4 {
        "4"
    } else if d == 5 {
        "5"
    } else if d == 6 {
        "6"
    } else if d == 7 {
        "7"
    } else if d == 8 {
        "8"
    } else {
        "9"
    };
    proof {
        assert(r@ =~= seq![dec_digit(d as nat)]);
    }
    r
}

/// Renders an unsigned integer in decimal.
pub fn u64_to_string(n: u64) -> (r: String)
    ensures
        r@ == dec_str(n as nat),
    decreases n,
{
    if n < 10 {
        let mut s = String::new();
        s.append(digit_str(n));
        s
    } else {
        let mut s = u64_to_string(n / 10);
        s.append(digit_str(n % 10));
        s
    }
}

/// Renders a signed integer in decimal.
pub fn i64_to_string(n: i64) -> (r: String)
    ensures
        r@ == dec_int_str(n as int),
{
    if n >= 0 {
        u64_to_string(n as u64)
    } else {
        // -(n + 1) stays within i64 for every negative n, so the
        // magnitude is computed without overflow.
        let m: u64 = (-(n + 1)) as u64 + 1;
        proof {
            assert(m as int == -(n as int));
        }
        let mut s = String::new();
        s.append("-");
        s.append(u64_to_string(m).as_str());
        proof {
            reveal_strlit("-");
            assert(s@ =~= dec_int_str(n as int));
        }
        s
    }
}

// ---------------------------------------------------------------------------
// Quote escaping
// ---------------------------------------------------------------------------

/// `s` with every single quote doubled.
pub open spec fn esc_seq(s: Seq<char>) -> Seq<char>
    decreases s.len(),
{
    if s.len() == 0 {
        Seq::empty()
    } else {
        esc_seq(s.drop_last()) + (if s.last() == '\'' {
            seq!['\'', '\'']
        } else {
            seq![s.last()]
        })
    }
}

/// Escapes single quotes for use inside a SQL string literal.
pub fn esc(s: &String) -> (r: String)
    ensures
        r@ == esc_seq(s@),
{
    let mut r = String::new();
    let st = s.as_str();
    let n = st.unicode_len();
    let mut i: usize = 0;
    while i < n
        invariant
            i <= n,
            n == st@.len(),
            st@ == s@,
            r@ == esc_seq(s@.take(i as int)),
        decreases n - i,
    {
        let c = st.get_char(i);
        if c == '\'' {
            r.append("''");
            proof {
                reveal_strlit("''");
            }
        } else {
            let piece = st.substring_char(i, i + 1);
            r.append(piece);
            proof {
                assert(piece@ =~= seq![s@[i as int]]);
            }
        }
        proof {
            assert(s@.take(i + 1).drop_last() =~= s@.take(i as int));
            assert(s@.take(i + 1).last() == s@[i as int]);
        }
        i = i + 1;
    }
    proof {
        assert(s@.take(n as int) =~= s@);
    }
    r
}

// ---------------------------------------------------------------------------
// Identifier tests
// ---------------------------------------------------------------------------

/// `p` occurs in `s` as a contiguous subsequence.
pub open spec fn contains_sub(s: Seq<char>, p: Seq<char>) -> bool {
    exists|k: int| 0 <= k <= s.len() - p.len() && #[trigger] s.subrange(k, k + p.len()) == p
}

/// `s` ends with `p`.
pub open spec fn ends_with(s: Seq<char>, p: Seq<char>) -> bool {
    s.len() >= p.len() && s.subrange(s.len() - p.len(), s.len() as int) == p
}

/// Whether the characters of `s` starting at `k` spell out `pat`.
fn matches_at(st: &str, k: usize, pat: &str) -> (r: bool)
    requires
        k + pat@.len() <= st@.len(),
        st@.len() <= usize::MAX,
    ensures
        r == (st@.subrange(k as int, k as int + pat@.len()) == pat@),
{
    let m = pat.unicode_len();
    let mut j: usize = 0;
    while j < m
        invariant
            j <= m,
            m == pat@.len(),
            k + m <= st@.len(),
            st@.len() <= usize::MAX,
            forall|l: int| 0 <= l < j ==> st@[k + l] == pat@[l],
        decreases m - j,
    {
        if st.get_char(k + j) != pat.get_char(j) {
            proof {
                assert(st@.subrange(k as int, k as int + m) != pat@) by {
                    assert(st@.subrange(k as int, k as int + m)[j as int] != pat@[j as int]);
                }
            }
            return false;
        }
        j = j + 1;
    }
    proof {
        assert(st@.subrange(k as int, k as int + m) =~= pat@);
    }
    true
}

/// Whether `pat` occurs anywhere in `s`.
pub fn string_contains(s: &String, pat: &str) -> (r: bool)
    ensures
        r == contains_sub(s@, pat@),
{
    let st = s.as_str();
    let n = st.unicode_len();
    let m = pat.unicode_len();
    if m > n {
        return false;
    }
    if m == 0 {
        proof {
            assert(s@.subrange(0, 0 + pat@.len() as int) =~= pat@);
            assert(contains_sub(s@, pat@));
        }
        return true;
    }
    let nm = n - m;
    let mut k: usize = 0;
    while k <= nm
        invariant
            0 < m <= n,
            nm == n - m,
            n == st@.len(),
            m == pat@.len(),
            st@ == s@,
            k <= nm + 1,
            forall|l: int| 0 <= l < k ==> #[trigger] s@.subrange(l, l + pat@.len()) != pat@,
        decreases nm + 1 - k,
    {
        if matches_at(st, k, pat) {
            return true;
        }
        k = k + 1;
    }
    false
}

/// Whether `s` ends with `pat`.
pub fn string_ends_with(s: &String, pat: &str) -> (r: bool)
    ensures
        r == ends_with(s@, pat@),
{
    let st = s.as_str();
    let n = st.unicode_len();
    let m = pat.unicode_len();
    if m > n {
        return false;
    }
    matches_at(st, n - m, pat)
}

/// Whether `s` reads exactly as `pat`.
pub fn string_eq_str(s: &String, pat: &str) -> (r: bool)
    ensures
        r == (s@ == pat@),
{
    let st = s.as_str();
    let n = st.unicode_len();
    let m = pat.unicode_len();
    if m != n {
        return false;
    }
    let r = matches_at(st, 0, pat);
    proof {
        assert(st@.subrange(0, st@.len() as int) =~= st@);
    }
    r
}

} // verus!
