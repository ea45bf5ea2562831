//! The mathematical model the operator contracts are stated over: clamping,
//! reduction modulo a type's value space, and division truncated toward zero,
//! all over unbounded integers, together with the lemmas about them that the
//! per-type implementations rely on.

use vstd::prelude::*;
use vstd::arithmetic::div_mod::{
    lemma_div_basics, lemma_div_is_ordered, lemma_div_is_ordered_by_denominator,
    lemma_div_nonincreasing, lemma_div_pos_is_pos, lemma_fundamental_div_mod,
    lemma_fundamental_div_mod_converse_mod, lemma_mod_division_less_than_divisor,
};

verus! {

/// `v` clamped to the inclusive range `[min, max]`: the nearest representable
/// value when `v` lies outside it.
pub open spec fn clamp(v: int, min: int, max: int) -> int {
    if v > max {
        max
    } else if v < min {
        min
    } else {
        v
    }
}

/// `v` reduced modulo `range` into `[0, range)`: the value an unsigned type
/// of that value space wraps to.
pub open spec fn wrap_unsigned(v: int, range: int) -> int {
    v % range
}

/// `v` reduced modulo `range` into `(max - range, max]`: with
/// `range == 2 * (max + 1)` this is two's-complement wraparound for a signed
/// type whose largest value is `max`.
pub open spec fn wrap_signed(v: int, max: int, range: int) -> int {
    if v % range > max {
        v % range - range
    } else {
        v % range
    }
}

/// The quotient of `x` and `d` truncated toward zero, as hardware division
/// computes it (`%` and `/` on `int` round toward negative infinity instead).
pub open spec fn div_trunc(x: int, d: int) -> int {
    if x == 0 {
        0
    } else if x > 0 && d > 0 {
        x / d
    } else if x < 0 && d < 0 {
        (x * -1) / (d * -1)
    } else if x < 0 {
        ((x * -1) / d) * -1
    } else {
        (x / (d * -1)) * -1
    }
}

/// The remainder that pairs with `div_trunc`: it has the sign of `x` and
/// satisfies `x == d * div_trunc(x, d) + rem_trunc(x, d)`.
pub open spec fn rem_trunc(x: int, d: int) -> int {
    if x == 0 {
        0
    } else if x > 0 && d > 0 {
        x % d
    } else if x < 0 && d < 0 {
        ((x * -1) % (d * -1)) * -1
    } else if x < 0 {
        ((x * -1) % d) * -1
    } else {
        x % (d * -1)
    }
}

/// The product of two integers is non-negative when their signs agree and
/// non-positive when they differ.
pub proof fn lemma_mul_sign(x: int, y: int)
    ensures
        x >= 0 && y >= 0 ==> x * y >= 0,
        x <= 0 && y <= 0 ==> x * y >= 0,
        x >= 0 && y <= 0 ==> x * y <= 0,
        x <= 0 && y >= 0 ==> x * y <= 0,
{
    assert(x >= 0 && y >= 0 ==> x * y >= 0) by (nonlinear_arith);
    assert(x <= 0 && y <= 0 ==> x * y >= 0) by (nonlinear_arith);
    assert(x >= 0 && y <= 0 ==> x * y <= 0) by (nonlinear_arith);
    assert(x <= 0 && y >= 0 ==> x * y <= 0) by (nonlinear_arith);
}

/// How `wrap_unsigned` acts on each of the three windows a sum, difference or
/// negation of values in `[0, range)` can fall into.
pub proof fn lemma_wrap_unsigned_cases(v: int, range: int)
    requires
        range > 0,
    ensures
        0 <= v < range ==> wrap_unsigned(v, range) == v,
        range <= v < 2 * range ==> wrap_unsigned(v, range) == v - range,
        -range <= v < 0 ==> wrap_unsigned(v, range) == v + range,
{
    if 0 <= v < range {
        lemma_fundamental_div_mod_converse_mod(v, range, 0, v);
    } else if range <= v < 2 * range {
        lemma_fundamental_div_mod_converse_mod(v, range, 1, v - range);
    } else if -range <= v < 0 {
        lemma_fundamental_div_mod_converse_mod(v, range, -1, v + range);
    }
}

/// How `wrap_signed` acts on each of the three windows a sum, difference or
/// negation of values in `[-(max + 1), max]` can fall into.
pub proof fn lemma_wrap_signed_cases(v: int, max: int, range: int)
    requires
        max >= 0,
        range == 2 * (max + 1),
    ensures
        -(max + 1) <= v <= max ==> wrap_signed(v, max, range) == v,
        max < v <= max + range ==> wrap_signed(v, max, range) == v - range,
        -(max + 1) - range <= v < -(max + 1) ==> wrap_signed(v, max, range) == v + range,
{
    let min = -(max + 1);
    if min <= v <= max {
        if v >= 0 {
            lemma_fundamental_div_mod_converse_mod(v, range, 0, v);
        } else {
            lemma_fundamental_div_mod_converse_mod(v, range, -1, v + range);
        }
    } else if max < v <= max + range {
        if v < range {
            lemma_fundamental_div_mod_converse_mod(v, range, 0, v);
        } else {
            lemma_fundamental_div_mod_converse_mod(v, range, 1, v - range);
        }
    } else if min - range <= v < min {
        if v + range >= 0 {
            lemma_fundamental_div_mod_converse_mod(v, range, -1, v + range);
        } else {
            lemma_fundamental_div_mod_converse_mod(v, range, -2, v + 2 * range);
        }
    }
}

/// Bounds of truncated division over the value space of a signed type:
/// the quotient is representable except for `min / -1`, whose true value is
/// `max + 1`.
pub proof fn lemma_div_trunc_facts(x: int, d: int, min: int, max: int)
    requires
        min < 0,
        max == -min - 1,
        min <= x <= max,
        min <= d <= max,
    ensures
        d != 0 && !(x == min && d == -1) ==> min <= div_trunc(x, d) <= max,
        x == min && d == -1 ==> div_trunc(x, d) == max + 1,
{
    if x == min && d == -1 {
        lemma_div_basics(x * -1);
    } else if d != 0 {
        if x == 0 {
        } else if x > 0 && d > 0 {
            lemma_div_pos_is_pos(x, d);
            lemma_div_nonincreasing(x, d);
        } else if x < 0 && d < 0 {
            let n = x * -1;
            let m = d * -1;
            lemma_div_pos_is_pos(n, m);
            if m == 1 {
                lemma_div_basics(n);
            } else {
                lemma_div_is_ordered_by_denominator(n, 2, m);
                lemma_div_is_ordered(n, max + 1, 2);
                lemma_fundamental_div_mod(max + 1, 2);
                lemma_mod_division_less_than_divisor(max + 1, 2);
            }
        } else if x < 0 {
            let n = x * -1;
            lemma_div_pos_is_pos(n, d);
            lemma_div_nonincreasing(n, d);
        } else {
            let m = d * -1;
            lemma_div_pos_is_pos(x, m);
            lemma_div_nonincreasing(x, m);
        }
    }
}

/// Bounds of the truncated remainder over the value space of a signed type:
/// it is always representable, and a divisor of magnitude one leaves no
/// remainder, so `min % -1` is zero even though `min / -1` is not
/// representable.
pub proof fn lemma_rem_trunc_facts(x: int, d: int, min: int, max: int)
    requires
        min < 0,
        max == -min - 1,
        min <= x <= max,
        min <= d <= max,
    ensures
        d != 0 ==> min <= rem_trunc(x, d) <= max,
        d == 1 || d == -1 ==> rem_trunc(x, d) == 0,
{
    if d != 0 {
        if x == 0 {
        } else if x > 0 && d > 0 {
            lemma_mod_division_less_than_divisor(x, d);
        } else if x < 0 && d < 0 {
            lemma_mod_division_less_than_divisor(x * -1, d * -1);
        } else if x < 0 {
            lemma_mod_division_less_than_divisor(x * -1, d);
        } else {
            lemma_mod_division_less_than_divisor(x, d * -1);
        }
    }
}

} // verus!
