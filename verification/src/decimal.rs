//! Decimal text of integers.
//!
//! Numeric cells of the contract state hold an integer as ASCII decimal
//! text. This module says which integer a text denotes and which text an
//! integer is written as, and proves that reading undoes writing.

use vstd::prelude::*;

verus! {

/// ASCII `-`.
pub const MINUS: u8 = 45;

/// ASCII `+`.
pub const PLUS: u8 = 43;

/// ASCII `0`.
pub const ZERO: u8 = 48;

/// ASCII `9`.
pub const NINE: u8 = 57;

/// Whether `b` is an ASCII decimal digit.
pub open spec fn is_digit(b: u8) -> bool {
    48 <= b <= 57
}

/// Whether every byte of `s` is a decimal digit.
pub open spec fn all_digits(s: Seq<u8>) -> bool {
    forall|i: int| 0 <= i < s.len() ==> is_digit(#[trigger] s[i])
}

/// The number that a run of digits denotes, most significant digit first.
pub open spec fn digits_value(s: Seq<u8>) -> nat
    decreases s.len(),
{
    if s.len() == 0 {
        0
    } else {
        (digits_value(s.drop_last()) * 10 + (s.last() - 48)) as nat
    }
}

/// The digits of `n`, most significant first, without leading zeros.
pub open spec fn nat_digits(n: nat) -> Seq<u8>
    decreases n,
{
    if n < 10 {
        seq![(48 + n) as u8]
    } else {
        nat_digits(n / 10).push((48 + n % 10) as u8)
    }
}

/// The canonical decimal text of `v`: a `-` for negative numbers, then the
/// digits of the magnitude.
pub open spec fn decimal(v: int) -> Seq<u8> {
    if v < 0 {
        seq![45u8] + nat_digits((-v) as nat)
    } else {
        nat_digits(v as nat)
    }
}

/// The integer that a text denotes: an optional sign followed by one or more
/// digits. Any other text denotes nothing.
pub open spec fn parse_decimal(s: Seq<u8>) -> Option<int> {
    if s.len() == 0 {
        None
    } else if s[0] == 45 || s[0] == 43 {
        let body = s.subrange(1, s.len() as int);
        if body.len() > 0 && all_digits(body) {
            if s[0] == 45 {
                Some(-(digits_value(body) as int))
            } else {
                Some(digits_value(body) as int)
            }
        } else {
            None
        }
    } else if all_digits(s) {
        Some(digits_value(s) as int)
    } else {
        None
    }
}

/// The 128-bit integer that a text denotes, if it denotes one in range.
pub open spec fn parse_i128_spec(s: Seq<u8>) -> Option<i128> {
    match parse_decimal(s) {
        Some(v) => if i128::MIN <= v <= i128::MAX {
            Some(v as i128)
        } else {
            None
        },
        None => None,
    }
}

/// The digits of a number are digits, start with no sign, and denote it.
pub proof fn lemma_nat_digits(n: nat)
    ensures
        nat_digits(n).len() > 0,
        all_digits(nat_digits(n)),
        digits_value(nat_digits(n)) == n,
    decreases n,
{
    if n < 10 {
        let s = nat_digits(n);
        assert(s.drop_last() =~= Seq::<u8>::empty());
        assert(digits_value(s.drop_last()) == 0);
    } else {
        lemma_nat_digits(n / 10);
        let s = nat_digits(n);
        assert(s.drop_last() =~= nat_digits(n / 10));
        assert(s.last() == (48 + n % 10) as u8);
    }
}

/// Reading the canonical text of an integer gives the integer back.
pub proof fn lemma_parse_decimal_of_decimal(v: int)
    ensures
        parse_decimal(decimal(v)) == Some(v),
{
    if v < 0 {
        let m = (-v) as nat;
        lemma_nat_digits(m);
        let s = decimal(v);
        assert(s.subrange(1, s.len() as int) =~= nat_digits(m));
    } else {
        lemma_nat_digits(v as nat);
        let s = decimal(v);
        assert(is_digit(s[0]));
    }
}

/// A run of digits denotes at least what any of its prefixes denotes.
pub proof fn lemma_digits_value_prefix(s: Seq<u8>, k: int)
    requires
        0 <= k <= s.len(),
        all_digits(s),
    ensures
        digits_value(s.subrange(0, k)) <= digits_value(s),
    decreases s.len(),
{
    if k == s.len() {
        assert(s.subrange(0, k) =~= s);
    } else {
        assert(s.drop_last().subrange(0, k) =~= s.subrange(0, k));
        lemma_digits_value_prefix(s.drop_last(), k);
    }
}

/// Appends the digits of `n` to `out`.
fn push_nat_digits(out: &mut Vec<u8>, n: u128)
    ensures
        final(out)@ == old(out)@ + nat_digits(n as nat),
    decreases n,
{
    if n >= 10 {
        push_nat_digits(out, n / 10);
    }
    let d: u128 = n % 10;
    out.push((48 + d) as u8);
    assert(final(out)@ =~= old(out)@ + nat_digits(n as nat));
}

/// Writes `v` as canonical decimal text.
pub fn to_decimal(v: i128) -> (out: Vec<u8>)
    ensures
        out@ == decimal(v as int),
{
    let mut out: Vec<u8> = Vec::new();
    if v < 0 {
        out.push(MINUS);
        let m: u128 = (-(v + 1)) as u128 + 1;
        push_nat_digits(&mut out, m);
        assert(out@ =~= decimal(v as int));
    } else {
        push_nat_digits(&mut out, v as u128);
        assert(out@ =~= decimal(v as int));
    }
    out
}

/// Reads a 128-bit integer from decimal text: an optional sign, then one or
/// more digits, and nothing else. Text that denotes a number out of range
/// reads as nothing.
pub fn parse_i128(s: &[u8]) -> (r: Option<i128>)
    ensures
        r == parse_i128_spec(s@),
{
    let n = s.len();
    if n == 0 {
        return None;
    }
    let negative = s[0] == MINUS;
    let start: usize = if s[0] == MINUS || s[0] == PLUS {
        1
    } else {
        0
    };
    let ghost body = s@.subrange(start as int, n as int);
    if start == n {
        return None;
    }
    proof {
        if start == 0 {
            assert(body =~= s@);
        }
    }
    // The magnitude is accumulated below zero, where the least value fits.
    let mut acc: i128 = 0;
    let mut i: usize = start;
    while i < n
        invariant
            start <= i <= n,
            0 < n == s@.len(),
            start == (if s@[0] == 45 || s@[0] == 43 {
                1int
            } else {
                0int
            }),
            body == s@.subrange(start as int, n as int),
            start == 0 ==> body == s@,
            all_digits(body.subrange(0, i - start)),
            acc == -(digits_value(body.subrange(0, i - start)) as int),
        decreases n - i,
    {
        let b = s[i];
        if b < ZERO || b > NINE {
            assert(!is_digit(body[i - start]));
            return None;
        }
        let ghost prefix = body.subrange(0, i - start);
        let ghost next = body.subrange(0, i + 1 - start);
        proof {
            assert(next.drop_last() =~= prefix);
            assert(next.last() == b);
            assert(all_digits(next)) by {
                assert forall|j: int| 0 <= j < next.len() implies is_digit(#[trigger] next[j]) by {
                    if j < prefix.len() {
                        assert(next[j] == prefix[j]);
                    }
                }
            }
            if all_digits(body) {
                lemma_digits_value_prefix(body, i + 1 - start);
            }
        }
        let d: i128 = (b - ZERO) as i128;
        let stepped = match acc.checked_mul(10) {
            Some(t) => t.checked_sub(d),
            None => None,
        };
        match stepped {
            Some(t) => {
                acc = t;
            },
            None => {
                // The prefix alone is out of range, and so is every extension.
                assert(digits_value(next) > 0x8000_0000_0000_0000_0000_0000_0000_0000);
                return None;
            },
        }
        i += 1;
    }
    proof {
        assert(body.subrange(0, n - start) =~= body);
    }
    if negative {
        Some(acc)
    } else if acc == i128::MIN {
        None
    } else {
        Some(-acc)
    }
}

} // verus!
