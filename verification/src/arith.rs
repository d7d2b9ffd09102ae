//! Integer facts that the contracts' arithmetic rests on.
//!
//! Rust divides signed integers by truncating toward zero; [`tdiv`] states
//! that division over mathematical integers.

use vstd::prelude::*;
use vstd::arithmetic::div_mod::*;
use vstd::arithmetic::mul::*;

verus! {

/// `x` is representable as an `i128`.
pub open spec fn fits_i128(x: int) -> bool {
    i128::MIN <= x <= i128::MAX
}

/// Absolute value.
pub open spec fn abs(x: int) -> int {
    if x < 0 { -x } else { x }
}

/// Division that truncates toward zero, as Rust's `/` on signed integers.
pub open spec fn tdiv(a: int, b: int) -> int {
    let q = abs(a) / abs(b);
    if (a < 0) == (b < 0) { q } else { -q }
}

/// Rust's `a / b` on `i128` neither divides by zero nor overflows.
pub open spec fn div_ok(a: int, b: int) -> bool {
    &&& b != 0
    &&& fits_i128(a)
    &&& !(a == i128::MIN && b == -1)
}

/// Truncating division of `a` by `b`.
pub fn div_trunc(a: i128, b: i128) -> (q: i128)
    requires
        div_ok(a as int, b as int),
    ensures
        q == tdiv(a as int, b as int),
{
    if b > 0 {
        a / b
    } else if b == i128::MIN {
        proof {
            if a != i128::MIN {
                lemma_small_div_nonneg(abs(a as int), abs(b as int));
            } else {
                lemma_div_by_self(abs(b as int));
            }
        }
        if a == i128::MIN {
            1
        } else {
            0
        }
    } else {
        let nb: i128 = -b;
        let q = a / nb;
        proof {
            lemma_div_le_numerator(abs(a as int), nb as int);
            if nb >= 2 {
                lemma_div_is_ordered_by_denominator(abs(a as int), 2, nb as int);
            }
            assert(q == tdiv(a as int, nb as int));
        }
        -q
    }
}

proof fn lemma_small_div_nonneg(x: int, d: int)
    requires
        0 <= x < d,
    ensures
        x / d == 0,
{
    lemma_basic_div(x, d);
}

/// Dividing a nonnegative number by a positive one does not increase it.
pub proof fn lemma_div_le_numerator(x: int, d: int)
    requires
        0 <= x,
        0 < d,
    ensures
        0 <= x / d <= x,
{
    lemma_div_pos_is_pos(x, d);
    lemma_div_is_ordered_by_denominator(x, 1, d);
}

/// For a positive divisor, truncating division of a nonnegative number is
/// floor division.
pub proof fn lemma_tdiv_nonneg(a: int, b: int)
    requires
        0 <= a,
        0 < b,
    ensures
        tdiv(a, b) == a / b,
        0 <= tdiv(a, b) <= a,
{
    lemma_div_le_numerator(a, b);
}

/// Truncating division is odd in its numerator.
pub proof fn lemma_tdiv_neg(a: int, b: int)
    requires
        b != 0,
    ensures
        tdiv(-a, b) == -tdiv(a, b),
{
    if a == 0 {
        lemma_div_of0(abs(b));
    }
}

/// For a positive divisor, truncating division is monotonic.
pub proof fn lemma_tdiv_monotonic(a1: int, a2: int, b: int)
    requires
        a1 <= a2,
        0 < b,
    ensures
        tdiv(a1, b) <= tdiv(a2, b),
{
    if a1 >= 0 {
        lemma_div_is_ordered(a1, a2, b);
    } else if a2 >= 0 {
        lemma_div_pos_is_pos(-a1, b);
        lemma_div_pos_is_pos(a2, b);
    } else {
        lemma_div_is_ordered(-a2, -a1, b);
    }
}

/// For a positive divisor, the sign of a truncated quotient follows the
/// sign of the numerator.
pub proof fn lemma_tdiv_sign(a: int, b: int)
    requires
        0 < b,
    ensures
        a >= 0 ==> tdiv(a, b) >= 0,
        a <= 0 ==> tdiv(a, b) <= 0,
{
    if a >= 0 {
        lemma_div_pos_is_pos(a, b);
    } else {
        lemma_div_pos_is_pos(-a, b);
    }
}

/// A multiple of the divisor divides exactly.
pub proof fn lemma_tdiv_exact(q: int, b: int)
    requires
        0 < b,
    ensures
        tdiv(q * b, b) == q,
{
    if q >= 0 {
        lemma_mul_nonnegative(q, b);
        lemma_div_by_multiple(q, b);
    } else {
        lemma_mul_unary_negation(q, b);
        lemma_mul_nonnegative(-q, b);
        lemma_div_by_multiple(-q, b);
    }
}

/// Dividing by a positive number keeps a representable value representable.
pub proof fn lemma_tdiv_fits(a: int, b: int)
    requires
        fits_i128(a),
        0 < b,
    ensures
        fits_i128(tdiv(a, b)),
        abs(tdiv(a, b)) <= abs(a),
{
    lemma_div_le_numerator(abs(a), b);
}

} // verus!
