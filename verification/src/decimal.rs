//! Decimal rendering of unsigned integers.
//!
//! Device identifiers and notification messages embed numbers in decimal;
//! [`dec_spec`] is the mathematical rendering and [`push_decimal`] the
//! executable one.

use crate::text::is_digit;
use crate::utils::chars_to_string;
use vstd::prelude::*;

verus! {

/// The digit character for `d`, for `d < 10`.
pub open spec fn digit_char(d: int) -> char {
    if d == 0 {
        '0'
    } else if d == 1 {
        '1'
    } else if d == 2 {
        '2'
    } else if d == 3 {
        '3'
    } else if d == 4 {
        '4'
    } else if d == 5 {
        '5'
    } else if d == 6 {
        '6'
    } else if d == 7 {
        '7'
    } else if d == 8 {
        '8'
    } else {
        '9'
    }
}

/// The decimal rendering of `n`, most significant digit first, with no
/// leading zeros (a single `'0'` for zero itself).
pub open spec fn dec_spec(n: nat) -> Seq<char>
    decreases n,
{
    if n < 10 {
        seq![digit_char(n as int)]
    } else {
        dec_spec(n / 10) + seq![digit_char((n % 10) as int)]
    }
}

/// A decimal rendering is never empty.
pub proof fn lemma_dec_len_ge1(n: nat)
    ensures
        dec_spec(n).len() >= 1,
{
}

/// Every character of a decimal rendering is a digit.
pub proof fn lemma_dec_all_digits(n: nat)
    ensures
        forall|i: int| 0 <= i < dec_spec(n).len() ==> is_digit(dec_spec(n)[i]),
    decreases n,
{
    if n >= 10 {
        lemma_dec_all_digits(n / 10);
        let s = dec_spec(n);
        let p = dec_spec(n / 10);
        assert forall|i: int| 0 <= i < s.len() implies is_digit(s[i]) by {
            if i < p.len() {
                assert(s[i] == p[i]);
            } else {
                assert(s[i] == digit_char((n % 10) as int));
            }
        }
    } else {
        assert(dec_spec(n)[0] == digit_char(n as int));
    }
}

/// A number of at least five decimal digits renders to at least five
/// characters.
pub proof fn lemma_dec_len_10000(n: nat)
    requires
        n >= 10000,
    ensures
        dec_spec(n).len() >= 5,
{
    let n1 = n / 10;
    let n2 = n1 / 10;
    let n3 = n2 / 10;
    assert(n1 >= 1000);
    assert(n2 >= 100);
    assert(n3 >= 10);
    assert(dec_spec(n).len() == dec_spec(n1).len() + 1);
    assert(dec_spec(n1).len() == dec_spec(n2).len() + 1);
    assert(dec_spec(n2).len() == dec_spec(n3).len() + 1);
    assert(dec_spec(n3).len() == dec_spec(n3 / 10).len() + 1);
    lemma_dec_len_ge1(n3 / 10);
}

/// Decimal renderings are injective: equal renderings come only from
/// equal numbers.
pub proof fn lemma_dec_injective(a: nat, b: nat)
    requires
        dec_spec(a) == dec_spec(b),
    ensures
        a == b,
    decreases a,
{
    if a < 10 && b < 10 {
        assert(dec_spec(a)[0] == digit_char(a as int));
        assert(dec_spec(b)[0] == digit_char(b as int));
    } else if a >= 10 && b >= 10 {
        let xa = dec_spec(a / 10);
        let xb = dec_spec(b / 10);
        assert(dec_spec(a).last() == digit_char((a % 10) as int));
        assert(dec_spec(b).last() == digit_char((b % 10) as int));
        assert(a % 10 == b % 10);
        assert(dec_spec(a).drop_last() =~= xa);
        assert(dec_spec(b).drop_last() =~= xb);
        lemma_dec_injective(a / 10, b / 10);
    } else if a >= 10 {
        lemma_dec_len_ge1(a / 10);
        assert(dec_spec(a).len() >= 2);
        assert(dec_spec(b).len() == 1);
    } else {
        lemma_dec_len_ge1(b / 10);
        assert(dec_spec(b).len() >= 2);
        assert(dec_spec(a).len() == 1);
    }
}

/// The digit character for `d`, for `d < 10`.
pub fn to_digit_char(d: u64) -> (c: char)
    requires
        d < 10,
    ensures
        c == digit_char(d as int),
{
    if d == 0 {
        '0'
    } else if d == 1 {
        '1'
    } else if d == 2 {
        '2'
    } else if d == 3 {
        '3'
    } else if d == 4 {
        '4'
    } else if d == 5 {
        '5'
    } else if d == 6 {
        '6'
    } else if d == 7 {
        '7'
    } else if d == 8 {
        '8'
    } else {
        '9'
    }
}

/// Append the decimal rendering of `n` to `out`.
pub fn push_decimal(n: u64, out: &mut Vec<char>)
    ensures
        final(out)@ == old(out)@ + dec_spec(n as nat),
    decreases n,
{
    if n >= 10 {
        push_decimal(n / 10, out);
    }
    let c = to_digit_char(n % 10);
    out.push(c);
    proof {
        if n < 10 {
            assert(old(out)@ + dec_spec(n as nat) =~= out@);
        } else {
            assert(old(out)@ + dec_spec(n as nat) =~= out@);
        }
    }
}

/// The decimal rendering of `n` as a vector of characters.
pub fn dec_chars(n: u64) -> (v: Vec<char>)
    ensures
        v@ == dec_spec(n as nat),
{
    let mut v: Vec<char> = Vec::new();
    push_decimal(n, &mut v);
    proof {
        assert(v@ =~= dec_spec(n as nat));
    }
    v
}

/// The decimal rendering of `n` as a string.
pub fn dec_string(n: u64) -> (s: String)
    ensures
        s@ == dec_spec(n as nat),
{
    chars_to_string(&dec_chars(n))
}

} // verus!
