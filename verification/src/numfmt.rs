//! Exact decimal rendering of the integer-scaled percentages, and the
//! division-guarded percentage computation shared by host and container
//! metrics.

use vstd::prelude::*;

verus! {

/// The character for one decimal digit.
pub open spec fn digit_char(d: nat) -> char {
    if d == 0 {
        '0'
    } else if d == 1 {
        '1'
    } else if d == 2 {
        '2'
    } else if d == 3 {
        '3'
    } else if d == 4 {
        '4'
    } else if d == 5 {
        '5'
    } else if d == 6 {
        '6'
    } else if d == 7 {
        '7'
    } else if d == 8 {
        '8'
    } else {
        '9'
    }
}

/// Decimal representation of `n`, most significant digit first, with no
/// leading zeros (zero itself is a single '0').
pub open spec fn dec_str(n: nat) -> Seq<char>
    decreases n,
{
    if n < 10 {
        seq![digit_char(n)]
    } else {
        dec_str(n / 10).push(digit_char(n % 10))
    }
}

/// Rendering of a value held in hundredths: integer part, a dot, then
/// exactly two fractional digits (7550 renders as "75.50").
pub open spec fn centi_str(n: nat) -> Seq<char> {
    dec_str(n / 100) + seq!['.', digit_char((n % 100) / 10), digit_char(n % 10)]
}

/// `part` of `whole` as hundredths of a percent, 0 when `whole` is 0
/// (the division-by-zero guard).
pub open spec fn spec_percent_centi(part: nat, whole: nat) -> nat {
    if whole == 0 {
        0
    } else {
        part * 10000 / whole
    }
}

/// A zero denominator always yields a zero percentage, whatever the
/// numerator: no division error can propagate out of the guard.
pub proof fn lemma_zero_whole_zero_percent(part: nat)
    ensures
        spec_percent_centi(part, 0) == 0,
{
}

/// The percentage as a stats field carries it: 0 when `whole` is 0, and
/// saturating at `u64::MAX`.
pub open spec fn capped_percent(part: u64, whole: u64) -> u64 {
    if spec_percent_centi(part as nat, whole as nat) > u64::MAX as nat {
        u64::MAX
    } else {
        spec_percent_centi(part as nat, whole as nat) as u64
    }
}

fn digit_str(d: u64) -> (r: &'static str)
    requires
        d < 10,
    ensures
        r@ =~= seq![digit_char(d as nat)],
{
    proof {
        reveal_strlit("0");
        reveal_strlit("1");
        reveal_strlit("2");
        reveal_strlit("3");
        reveal_strlit("4");
        reveal_strlit("5");
        reveal_strlit("6");
        reveal_strlit("7");
        reveal_strlit("8");
        reveal_strlit("9");
    }
    if d == 0 {
        "0"
    } else if d == 1 {
        "1"
    } else if d == 2 {
        "2"
    } else if d == 3 {
        "3"
    } else if d == 4 {
        "4"
    } else if d == 5 {
        "5"
    } else if d == 6 {
        "6"
    } else if d == 7 {
        "7"
    } else if d == 8 {
        "8"
    } else {
        "9"
    }
}

/// Renders `n` in decimal.
pub fn u64_to_string(n: u64) -> (s: String)
    ensures
        s@ == dec_str(n as nat),
    decreases n,
{
    if n < 10 {
        String::from_str(digit_str(n))
    } else {
        let mut s = u64_to_string(n / 10);
        s.append(digit_str(n % 10));
        proof {
            assert(s@ =~= dec_str((n / 10) as nat).push(digit_char((n % 10) as nat)));
        }
        s
    }
}

/// Renders a value held in hundredths with two decimal places, as a
/// percentage column expects (7550 becomes "75.50").
pub fn centi_to_string(n: u64) -> (s: String)
    ensures
        s@ == centi_str(n as nat),
{
    let mut s = u64_to_string(n / 100);
    s.append(".");
    s.append(digit_str((n % 100) / 10));
    s.append(digit_str(n % 10));
    proof {
        reveal_strlit(".");
        assert(s@ =~= centi_str(n as nat));
    }
    s
}

/// Computes `part` of `whole` in hundredths of a percent, 0 when `whole`
/// is 0; a quotient beyond `u64::MAX` saturates there.
pub fn percent_centi(part: u64, whole: u64) -> (r: u64)
    ensures
        r == capped_percent(part, whole),
        whole == 0 ==> r == 0,
{
    if whole == 0 {
        0
    } else {
        let q: u128 = (part as u128) * 10000 / (whole as u128);
        if q > u64::MAX as u128 {
            u64::MAX
        } else {
            q as u64
        }
    }
}

} // verus!
