//! Character-level string helpers used throughout the crate:
//! equality tests, ASCII case folding, decimal rendering of integers,
//! and token replacement.

use vstd::prelude::*;
use vstd::string::{StrSliceExecFns, StringExecFns};

verus! {

/// ASCII lower-casing of a single character; everything outside
/// `'A'..='Z'` is left alone.
pub open spec fn spec_lower_char(c: char) -> char {
    if 'A' <= c && c <= 'Z' {
        ((c as u8) + 32) as char
    } else {
        c
    }
}

/// ASCII lower-casing of a character sequence.
pub open spec fn spec_lower_chars(s: Seq<char>) -> Seq<char> {
    s.map_values(|c: char| spec_lower_char(c))
}

/// ASCII lower-casing of a single character.
pub fn lower_char(c: char) -> (r: char)
    ensures
        r == spec_lower_char(c),
{
    if 'A' <= c && c <= 'Z' {
        ((c as u8) + 32) as char
    } else {
        c
    }
}

/// Whether two strings hold the same characters.
pub fn str_eq(a: &str, b: &str) -> (r: bool)
    ensures
        r == (a@ == b@),
{
    let alen = a.unicode_len();
    let blen = b.unicode_len();
    if alen != blen {
        return false;
    }
    let mut i: usize = 0;
    while i < alen
        invariant
            alen == a@.len(),
            blen == b@.len(),
            alen == blen,
            i <= alen,
            forall|j: int| 0 <= j < i ==> a@[j] == b@[j],
        decreases alen - i,
    {
        if a.get_char(i) != b.get_char(i) {
            return false;
        }
        i = i + 1;
    }
    proof {
        assert(a@ =~= b@);
    }
    true
}

/// Whether two strings hold the same characters up to ASCII case.
pub fn str_eq_ignore_ascii_case(a: &str, b: &str) -> (r: bool)
    ensures
        r == (spec_lower_chars(a@) == spec_lower_chars(b@)),
{
    let alen = a.unicode_len();
    let blen = b.unicode_len();
    if alen != blen {
        proof {
            assert(spec_lower_chars(a@).len() != spec_lower_chars(b@).len());
        }
        return false;
    }
    let mut i: usize = 0;
    while i < alen
        invariant
            alen == a@.len(),
            blen == b@.len(),
            alen == blen,
            i <= alen,
            forall|j: int| 0 <= j < i ==> spec_lower_char(a@[j]) == spec_lower_char(b@[j]),
        decreases alen - i,
    {
        if lower_char(a.get_char(i)) != lower_char(b.get_char(i)) {
            proof {
                assert(spec_lower_chars(a@)[i as int] != spec_lower_chars(b@)[i as int]);
            }
            return false;
        }
        i = i + 1;
    }
    proof {
        assert(spec_lower_chars(a@) =~= spec_lower_chars(b@));
    }
    true
}

/// The character for a single decimal digit.
pub open spec fn spec_digit_char(d: nat) -> char {
    ((48 + d) as u8) as char
}

/// The decimal representation of a natural number, most significant
/// digit first, without leading zeros (`0` is rendered as `"0"`).
pub open spec fn spec_dec_digits(n: nat) -> Seq<char>
    decreases n,
{
    if n < 10 {
        seq![spec_digit_char(n)]
    } else {
        spec_dec_digits(n / 10).push(spec_digit_char(n % 10))
    }
}

/// The decimal representation is never empty.
pub proof fn lemma_dec_digits_len(n: nat)
    ensures
        spec_dec_digits(n).len() >= 1,
    decreases n,
{
    if n >= 10 {
        lemma_dec_digits_len(n / 10);
    }
}

/// Distinct numbers have distinct decimal representations.
pub proof fn lemma_dec_digits_injective(a: nat, b: nat)
    requires
        spec_dec_digits(a) == spec_dec_digits(b),
    ensures
        a == b,
    decreases a + b,
{
    lemma_dec_digits_len(a);
    lemma_dec_digits_len(b);
    if a < 10 && b < 10 {
        assert(spec_dec_digits(a)[0] == spec_digit_char(a));
        assert(spec_dec_digits(b)[0] == spec_digit_char(b));
        assert((48 + a) as u8 as char as int == 48 + a);
        assert((48 + b) as u8 as char as int == 48 + b);
    } else if a < 10 {
        assert(spec_dec_digits(a).len() == 1);
        assert(spec_dec_digits(b).len() == spec_dec_digits(b / 10).len() + 1);
    } else if b < 10 {
        assert(spec_dec_digits(b).len() == 1);
        assert(spec_dec_digits(a).len() == spec_dec_digits(a / 10).len() + 1);
    } else {
        let da = spec_dec_digits(a);
        let db = spec_dec_digits(b);
        assert(da.last() == spec_digit_char(a % 10));
        assert(db.last() == spec_digit_char(b % 10));
        assert((48 + a % 10) as u8 as char as int == 48 + a % 10);
        assert((48 + b % 10) as u8 as char as int == 48 + b % 10);
        assert(a % 10 == b % 10);
        assert(da.drop_last() =~= spec_dec_digits(a / 10));
        assert(db.drop_last() =~= spec_dec_digits(b / 10));
        lemma_dec_digits_injective(a / 10, b / 10);
        assert(a == 10 * (a / 10) + a % 10) by (nonlinear_arith);
        assert(b == 10 * (b / 10) + b % 10) by (nonlinear_arith);
    }
}

/// A one-character string for a decimal digit.
fn digit_str(d: u64) -> (r: &'static str)
    requires
        d < 10,
    ensures
        r@ =~= seq![spec_digit_char(d as nat)],
{
    proof {
        reveal_strlit("0");
        reveal_strlit("1");
        reveal_strlit("2");
        reveal_strlit("3");
        reveal_strlit("4");
        reveal_strlit("5");
        reveal_strlit("6");
        reveal_strlit("7");
        reveal_strlit("8");
        reveal_strlit("9");
    }
    if d == 0 {
        "0"
    } else if d == 1 {
        "1"
    } else if d == 2 {
        "2"
    } else if d == 3 {
        "3"
    } else if d == 4 {
        "4"
    } else if d == 5 {
        "5"
    } else if d == 6 {
        "6"
    } else if d == 7 {
        "7"
    } else if d == 8 {
        "8"
    } else {
        "9"
    }
}

/// Renders a number in decimal.
pub fn u64_to_dec_string(n: u64) -> (r: String)
    ensures
        r@ == spec_dec_digits(n as nat),
    decreases n,
{
    if n < 10 {
        let s = digit_str(n);
        let r = s.to_owned();
        proof {
            assert(r@ =~= spec_dec_digits(n as nat));
        }
        r
    } else {
        let mut r = u64_to_dec_string(n / 10);
        r.append(digit_str(n % 10));
        proof {
            assert(r@ =~= spec_dec_digits(n as nat));
        }
        r
    }
}

/// `s` with every occurrence of `tok` replaced by `rep`, scanning left
/// to right without overlap, as `str::replace` does.
pub open spec fn spec_replace_all(s: Seq<char>, tok: Seq<char>, rep: Seq<char>) -> Seq<char>
    decreases s.len(),
{
    if tok.len() == 0 {
        s
    } else if s.len() < tok.len() {
        s
    } else if s.take(tok.len() as int) == tok {
        rep + spec_replace_all(s.skip(tok.len() as int), tok, rep)
    } else {
        seq![s[0]] + spec_replace_all(s.skip(1), tok, rep)
    }
}

/// Whether `tok` occurs in `s` starting at character `i`.
fn matches_at(s: &str, i: usize, tok: &str) -> (r: bool)
    requires
        i + tok@.len() <= s@.len(),
    ensures
        r == (s@.subrange(i as int, i + tok@.len()) == tok@),
{
    let slen = s.unicode_len();
    let tlen = tok.unicode_len();
    let mut j: usize = 0;
    while j < tlen
        invariant
            slen == s@.len(),
            tlen == tok@.len(),
            i + tlen <= slen,
            j <= tlen,
            forall|k: int| 0 <= k < j ==> s@[i + k] == tok@[k],
        decreases tlen - j,
    {
        if s.get_char(i + j) != tok.get_char(j) {
            proof {
                assert(s@.subrange(i as int, i + tok@.len())[j as int] != tok@[j as int]);
            }
            return false;
        }
        j = j + 1;
    }
    proof {
        assert(s@.subrange(i as int, i + tok@.len()) =~= tok@);
    }
    true
}

/// Replaces every occurrence of `tok` in `s` by `rep`, scanning left to
/// right without overlap, as `str::replace` does.
pub fn replace_all(s: &str, tok: &str, rep: &str) -> (r: String)
    requires
        tok@.len() >= 1,
    ensures
        r@ == spec_replace_all(s@, tok@, rep@),
{
    let slen = s.unicode_len();
    let tlen = tok.unicode_len();
    let mut out = String::new();
    let mut i: usize = 0;
    proof {
        assert(s@.skip(0) =~= s@);
        assert(Seq::<char>::empty() + spec_replace_all(s@, tok@, rep@) =~= spec_replace_all(
            s@,
            tok@,
            rep@,
        ));
    }
    while i < slen
        invariant
            slen == s@.len(),
            tlen == tok@.len(),
            tlen >= 1,
            i <= slen,
            spec_replace_all(s@, tok@, rep@) == out@ + spec_replace_all(
                s@.skip(i as int),
                tok@,
                rep@,
            ),
        decreases slen - i,
    {
        let ghost rest = s@.skip(i as int);
        if slen - i >= tlen && matches_at(s, i, tok) {
            out.append(rep);
            proof {
                assert(rest.take(tok@.len() as int) =~= s@.subrange(i as int, i + tok@.len()));
                assert(rest.skip(tok@.len() as int) =~= s@.skip(i + tlen));
            }
            i = i + tlen;
        } else {
            let piece = s.substring_char(i, i + 1);
            out.append(piece);
            proof {
                if rest.len() >= tok@.len() {
                    assert(rest.take(tok@.len() as int) =~= s@.subrange(
                        i as int,
                        i + tok@.len(),
                    ));
                }
                assert(seq![rest[0]] =~= s@.subrange(i as int, i + 1));
                assert(rest.skip(1) =~= s@.skip(i + 1));
                assert(out@ + spec_replace_all(s@.skip(i + 1), tok@, rep@) =~= spec_replace_all(
                    s@,
                    tok@,
                    rep@,
                ));
            }
            i = i + 1;
        }
    }
    proof {
        assert(s@.skip(i as int) =~= Seq::<char>::empty());
        assert(spec_replace_all(Seq::<char>::empty(), tok@, rep@) =~= Seq::<char>::empty());
        assert(out@ + Seq::<char>::empty() =~= out@);
    }
    out
}

} // verus!
