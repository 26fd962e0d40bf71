//! Signed fixed-point arithmetic on an `i64` grid of billionths.
//!
//! A value `x` stands for the real number `x / SCALE`. Products and
//! quotients are rounded toward zero, and every operation reports overflow
//! through `Option` instead of wrapping or panicking.

use vstd::prelude::*;
use vstd::arithmetic::div_mod::lemma_div_is_ordered;
use vstd::arithmetic::div_mod::lemma_fundamental_div_mod;
use vstd::arithmetic::div_mod::lemma_mod_division_less_than_divisor;
use vstd::arithmetic::div_mod::lemma_div_multiples_vanish;
use vstd::arithmetic::div_mod::lemma_div_pos_is_pos;
use vstd::arithmetic::mul::lemma_mul_inequality;
use vstd::arithmetic::mul::lemma_mul_upper_bound;
use vstd::arithmetic::mul::lemma_mul_is_commutative;
use vstd::arithmetic::mul::lemma_mul_nonnegative;
use vstd::arithmetic::mul::lemma_mul_unary_negation;

verus! {

/// Number of fixed-point units in one whole.
pub const SCALE: i64 = 1_000_000_000;

/// The magnitude of an integer.
pub open spec fn mag(x: int) -> int {
    if x >= 0 {
        x
    } else {
        -x
    }
}

/// True when `x` and `y` are both negative or both non-negative, so that
/// their exact product is non-negative.
pub open spec fn same_sign(x: int, y: int) -> bool {
    (x < 0) == (y < 0)
}

/// The exact value of a fixed-point product, rounded toward zero.
pub open spec fn mul_value(a: int, b: int) -> int {
    if same_sign(a, b) {
        mag(a) * mag(b) / (SCALE as int)
    } else {
        -(mag(a) * mag(b) / (SCALE as int))
    }
}

/// Whether a fixed-point product stays representable in an `i64`.
pub open spec fn mul_in_range(a: int, b: int) -> bool {
    mag(a) * mag(b) / (SCALE as int) <= i64::MAX as int
}

/// The exact value of a fixed-point quotient, rounded toward zero.
pub open spec fn div_value(a: int, b: int) -> int {
    if same_sign(a, b) {
        mag(a) * (SCALE as int) / mag(b)
    } else {
        -(mag(a) * (SCALE as int) / mag(b))
    }
}

/// Whether a fixed-point quotient stays representable in an `i64`.
pub open spec fn div_in_range(a: int, b: int) -> bool {
    mag(a) * (SCALE as int) / mag(b) <= i64::MAX as int
}

/// The magnitude of `x`, widened so that `i64::MIN` needs no special case.
fn magnitude(x: i64) -> (r: u64)
    ensures
        r as int == mag(x as int),
{
    if x >= 0 {
        x as u64
    } else {
        (-(x as i128)) as u64
    }
}

/// Fixed-point product `a * b`, rounded toward zero; `None` exactly when the
/// result does not fit in an `i64`.
pub fn fx_mul(a: i64, b: i64) -> (r: Option<i64>)
    ensures
        r is Some <==> mul_in_range(a as int, b as int),
        r is Some ==> r->Some_0 == mul_value(a as int, b as int),
{
    let ma: u64 = magnitude(a);
    let mb: u64 = magnitude(b);
    proof {
        lemma_mul_upper_bound(ma as int, 0x8000_0000_0000_0000, mb as int, 0x8000_0000_0000_0000);
    }
    let q: u128 = (ma as u128) * (mb as u128) / (SCALE as u128);
    if q > i64::MAX as u128 {
        None
    } else if (a < 0) == (b < 0) {
        Some(q as i64)
    } else {
        Some(-(q as i64))
    }
}

/// Fixed-point quotient `a / b`, rounded toward zero; `None` exactly when
/// `b` is zero or the result does not fit in an `i64`.
pub fn fx_div(a: i64, b: i64) -> (r: Option<i64>)
    ensures
        r is Some <==> b != 0 && div_in_range(a as int, b as int),
        r is Some ==> r->Some_0 == div_value(a as int, b as int),
{
    if b == 0 {
        return None;
    }
    let ma: u64 = magnitude(a);
    let mb: u64 = magnitude(b);
    proof {
        lemma_mul_upper_bound(ma as int, 0x8000_0000_0000_0000, SCALE as int, SCALE as int);
    }
    let q: u128 = (ma as u128) * (SCALE as u128) / (mb as u128);
    if q > i64::MAX as u128 {
        None
    } else if (a < 0) == (b < 0) {
        Some(q as i64)
    } else {
        Some(-(q as i64))
    }
}

/// Scaling a non-negative value by a factor of at most one whole can only
/// shrink it, and the product always stays representable.
pub proof fn lemma_mul_value_contracts(a: int, b: int)
    requires
        0 <= a <= i64::MAX as int,
        0 <= b <= SCALE as int,
    ensures
        0 <= mul_value(a, b) <= a,
        mul_in_range(a, b),
{
    lemma_mul_inequality(b, SCALE as int, a);
    lemma_mul_is_commutative(b, a);
    lemma_mul_is_commutative(SCALE as int, a);
    lemma_div_is_ordered(a * b, a * (SCALE as int), SCALE as int);
    lemma_mul_is_commutative(a, SCALE as int);
    lemma_div_multiples_vanish(a, SCALE as int);
    lemma_div_pos_is_pos(a * b, SCALE as int);
}

/// `mul_value` is monotone in its second argument when the first is
/// non-negative.
pub proof fn lemma_mul_value_monotone_second(a: int, b1: int, b2: int)
    requires
        0 <= a,
        b1 <= b2,
    ensures
        mul_value(a, b1) <= mul_value(a, b2),
{
    lemma_div_pos_is_pos(mag(a) * mag(b1), SCALE as int);
    lemma_div_pos_is_pos(mag(a) * mag(b2), SCALE as int);
    if b1 < 0 && b2 < 0 {
        lemma_mul_inequality(-b2, -b1, a);
        lemma_mul_is_commutative(-b2, a);
        lemma_mul_is_commutative(-b1, a);
        lemma_div_is_ordered(a * -b2, a * -b1, SCALE as int);
    } else if b1 >= 0 && b2 >= 0 {
        lemma_mul_inequality(b1, b2, a);
        lemma_mul_is_commutative(b1, a);
        lemma_mul_is_commutative(b2, a);
        lemma_div_is_ordered(a * b1, a * b2, SCALE as int);
    }
}

/// `mul_value` is monotone in its first argument when the second is
/// non-negative.
pub proof fn lemma_mul_value_monotone_first(a1: int, a2: int, b: int)
    requires
        a1 <= a2,
        0 <= b,
    ensures
        mul_value(a1, b) <= mul_value(a2, b),
{
    lemma_div_pos_is_pos(mag(a1) * mag(b), SCALE as int);
    lemma_div_pos_is_pos(mag(a2) * mag(b), SCALE as int);
    if a1 < 0 && a2 < 0 {
        lemma_mul_inequality(-a2, -a1, b);
        lemma_div_is_ordered(-a2 * b, -a1 * b, SCALE as int);
    } else if a1 >= 0 && a2 >= 0 {
        lemma_mul_inequality(a1, a2, b);
        lemma_div_is_ordered(a1 * b, a2 * b, SCALE as int);
    }
}

/// Rounding toward zero loses less than one grid unit in either direction:
/// for a non-negative first factor, the exact product differs from
/// `SCALE * mul_value` by less than `SCALE` in magnitude.
pub proof fn lemma_mul_value_rounding(a: int, b: int)
    requires
        0 <= a,
    ensures
        -(SCALE as int) < a * b - (SCALE as int) * mul_value(a, b) < SCALE as int,
{
    if b >= 0 {
        lemma_mul_nonnegative(a, b);
        lemma_fundamental_div_mod(a * b, SCALE as int);
        lemma_mod_division_less_than_divisor(a * b, SCALE as int);
    } else {
        let p = a * -b;
        lemma_mul_unary_negation(a, b);
        lemma_mul_nonnegative(a, -b);
        lemma_fundamental_div_mod(p, SCALE as int);
        lemma_mod_division_less_than_divisor(p, SCALE as int);
        assert(a * b == -p);
        assert(mul_value(a, b) == -(p / (SCALE as int)));
    }
}

/// Scaling by exactly one whole is the identity.
pub proof fn lemma_mul_value_by_one_whole(x: int)
    requires
        0 <= x,
    ensures
        mul_value(x, SCALE as int) == x,
        mul_in_range(x, SCALE as int) <==> x <= i64::MAX as int,
{
    lemma_mul_is_commutative(x, SCALE as int);
    lemma_div_multiples_vanish(x, SCALE as int);
}

} // verus!
