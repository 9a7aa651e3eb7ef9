//! Truncating division and remainder on unbounded integers.
//!
//! Rust's primitive `/` and `%` truncate the quotient toward zero, while the
//! `/` and `%` of spec arithmetic are Euclidean. The spec functions here give
//! the truncating forms, together with the bounds needed to reason about
//! fixed-width two's-complement division.

use vstd::arithmetic::div_mod::{
    lemma_div_basics, lemma_div_is_ordered, lemma_div_is_ordered_by_denominator,
    lemma_div_multiples_vanish, lemma_div_nonincreasing, lemma_div_pos_is_pos, lemma_mod_pos_bound,
    lemma_small_mod,
};
use vstd::prelude::*;

verus! {

/// Quotient of `x / d` truncated toward zero, as native integer division
/// computes it.
pub open spec fn trunc_div(x: int, d: int) -> int
    recommends
        d != 0,
{
    if x == 0 {
        0
    } else if x > 0 && d > 0 {
        x / d
    } else if x < 0 && d < 0 {
        (x * -1) / (d * -1)
    } else if x < 0 {
        ((x * -1) / d) * -1
    } else {
        (x / (d * -1)) * -1
    }
}

/// Remainder of `x / d` under truncating division: it has the sign of the
/// dividend, as the native `%` does.
pub open spec fn trunc_rem(x: int, d: int) -> int
    recommends
        d != 0,
{
    if x == 0 {
        0
    } else if x > 0 && d > 0 {
        x % d
    } else if x < 0 && d < 0 {
        ((x * -1) % (d * -1)) * -1
    } else if x < 0 {
        ((x * -1) % d) * -1
    } else {
        x % (d * -1)
    }
}

/// On non-negative operands, truncating division and remainder coincide with
/// the Euclidean forms and the quotient never exceeds the dividend.
pub proof fn lemma_trunc_div_rem_nonneg(x: int, d: int)
    requires
        0 <= x,
        1 <= d,
    ensures
        trunc_div(x, d) == x / d,
        trunc_rem(x, d) == x % d,
        0 <= x / d <= x,
        0 <= x % d < d,
{
    lemma_div_pos_is_pos(x, d);
    lemma_div_nonincreasing(x, d);
    lemma_mod_pos_bound(x, d);
    if x == 0 {
        lemma_div_basics(d);
        lemma_small_mod(0, d as nat);
    }
}

/// For a dividend and divisor drawn from the two's-complement interval
/// `[-(max + 1), max]`, the truncated quotient stays in that interval except
/// in the single case of dividing the minimum by `-1`, and the remainder
/// always stays in it.
pub proof fn lemma_trunc_div_rem_in_width(a: int, b: int, max: int)
    requires
        b != 0,
        1 <= max,
        -(max + 1) <= a <= max,
        -(max + 1) <= b <= max,
    ensures
        -(max + 1) <= trunc_rem(a, b) <= max,
        a == -(max + 1) && b == -1 ==> trunc_div(a, b) == max + 1,
        !(a == -(max + 1) && b == -1) ==> -(max + 1) <= trunc_div(a, b) <= max,
{
    let p = if a >= 0 { a } else { a * -1 };
    let q = if b >= 0 { b } else { b * -1 };
    lemma_div_basics(p);
    lemma_div_pos_is_pos(p, q);
    lemma_div_nonincreasing(p, q);
    lemma_mod_pos_bound(p, q);
    assert(0 <= p / q <= p);
    assert(0 <= p % q < q);
    if q >= 2 {
        // With a divisor of magnitude at least two the quotient magnitude is
        // at most half the dividend magnitude, hence strictly within width.
        lemma_div_is_ordered_by_denominator(p, 2, q);
        lemma_div_nonincreasing(p / 2, 2);
        assert(p / 2 <= (max + 1) / 2) by {
            lemma_div_is_ordered(p, max + 1, 2);
        }
        assert((max + 1) / 2 <= max) by {
            lemma_div_is_ordered(max + 1, 2 * max, 2);
            lemma_div_multiples_vanish(max, 2);
        }
    }
}

} // verus!
