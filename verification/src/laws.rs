//! Algebraic laws of the pricing model.
//!
//! `call_model` and `put_model` are the two price combinations in exact
//! integer arithmetic, before fixed-point rounding: a fixed-point value
//! carries one factor of `SCALE`, so each model value carries the factor
//! `SCALE * SCALE`. The laws below are what the combination formulas owe to
//! every choice of normal-CDF values, however the primitive computes them.

use vstd::prelude::*;
use vstd::arithmetic::div_mod::lemma_fundamental_div_mod;
use vstd::arithmetic::div_mod::lemma_mod_division_less_than_divisor;
use vstd::arithmetic::mul::lemma_mul_nonnegative;
use crate::fixed::SCALE;
use crate::fixed::lemma_mul_value_monotone_first;
use crate::fixed::mul_value;
use crate::pricing::call_payoff;
use crate::pricing::put_payoff;

verus! {

/// The call combination df * (F * nd1 - K * nd2) in exact arithmetic.
pub open spec fn call_model(df: int, forward: int, strike: int, nd1: int, nd2: int) -> int {
    df * (forward * nd1 - strike * nd2)
}

/// The put combination df * (K * nd2c - F * nd1c) in exact arithmetic.
pub open spec fn put_model(df: int, forward: int, strike: int, nd1c: int, nd2c: int) -> int {
    df * (strike * nd2c - forward * nd1c)
}

/// Put-call parity. The normal CDF satisfies N(-x) = 1 - N(x), so the put is
/// evaluated at the complementary values SCALE - nd1 and SCALE - nd2; the
/// call and the put of one parameter set then differ by exactly the
/// discounted forward-intrinsic difference df * (F - K), whatever CDF values
/// the primitive returned.
pub proof fn lemma_put_call_parity(df: int, forward: int, strike: int, nd1: int, nd2: int)
    by (nonlinear_arith)
    ensures
        call_model(df, forward, strike, nd1, nd2) - put_model(
            df,
            forward,
            strike,
            (SCALE as int) - nd1,
            (SCALE as int) - nd2,
        ) == df * (forward - strike) * (SCALE as int),
{
}

/// Parity at the degenerate boundary: the two intrinsic payoffs differ by
/// the same forward-intrinsic difference F - K that the closed form shows.
pub proof fn lemma_intrinsic_parity(forward: int, strike: int)
    ensures
        call_payoff(forward, strike) - put_payoff(forward, strike) == forward - strike,
{
}

/// The upper no-arbitrage bound for the call: with CDF values between zero
/// and one whole, the price never exceeds the discounted forward df * F.
pub proof fn lemma_call_model_upper_bound(df: int, forward: int, strike: int, nd1: int, nd2: int)
    by (nonlinear_arith)
    requires
        df >= 0,
        forward >= 0,
        strike >= 0,
        0 <= nd1 <= SCALE as int,
        0 <= nd2 <= SCALE as int,
    ensures
        call_model(df, forward, strike, nd1, nd2) <= df * forward * (SCALE as int),
{
}

/// The upper no-arbitrage bound for the put: the price never exceeds the
/// discounted strike df * K.
pub proof fn lemma_put_model_upper_bound(df: int, forward: int, strike: int, nd1c: int, nd2c: int)
    by (nonlinear_arith)
    requires
        df >= 0,
        forward >= 0,
        strike >= 0,
        0 <= nd1c <= SCALE as int,
        0 <= nd2c <= SCALE as int,
    ensures
        put_model(df, forward, strike, nd1c, nd2c) <= df * strike * (SCALE as int),
{
}

/// Monotonicity in the underlying, for the part the combination owes by
/// itself: with the strike, the discounting and the CDF values held fixed,
/// the call combination is non-decreasing in the forward and the put
/// combination is non-increasing in it.
pub proof fn lemma_models_monotone_in_forward(
    df: int,
    forward_low: int,
    forward_high: int,
    strike: int,
    nd1: int,
    nd2: int,
)
    by (nonlinear_arith)
    requires
        df >= 0,
        nd1 >= 0,
        forward_low <= forward_high,
    ensures
        call_model(df, forward_low, strike, nd1, nd2) <= call_model(
            df,
            forward_high,
            strike,
            nd1,
            nd2,
        ),
        put_model(df, forward_high, strike, nd1, nd2) <= put_model(
            df,
            forward_low,
            strike,
            nd1,
            nd2,
        ),
{
}

/// The forward itself is non-decreasing in the spot: the growth factor
/// exp((r - q) t) is never negative, so a larger spot never gives a smaller
/// forward on the fixed-point grid.
pub proof fn lemma_forward_monotone_in_spot(spot_low: int, spot_high: int, growth: int)
    requires
        spot_low <= spot_high,
        growth >= 0,
    ensures
        mul_value(spot_low, growth) <= mul_value(spot_high, growth),
{
    lemma_mul_value_monotone_first(spot_low, spot_high, growth);
}

/// Each fixed-point product loses less than one grid unit to rounding: the
/// exact product a * b (which carries one extra factor of SCALE) exceeds the
/// grid value by at least zero and by less than SCALE. Chaining this bound
/// over the few products of either combination keeps every computed price
/// within a handful of billionths of the exact formula, which is what the
/// parity and reference tolerances rest on.
pub proof fn lemma_product_rounding_error(a: int, b: int)
    requires
        0 <= a,
        0 <= b,
    ensures
        0 <= a * b - (SCALE as int) * mul_value(a, b) < SCALE as int,
{
    lemma_mul_nonnegative(a, b);
    lemma_fundamental_div_mod(a * b, SCALE as int);
    lemma_mod_division_less_than_divisor(a * b, SCALE as int);
}

/// Accuracy of the executable combinations. Both price combinations have the
/// shape df * (x * a - y * b) with non-negative factors: the call with
/// x, a, y, b = F, nd1, K, nd2 and the put with x, a, y, b = K, nd2c, F,
/// nd1c. For a computed fixed-point price of that shape, the exact model
/// value (which carries two extra factors of SCALE) is matched to within
/// (df + SCALE) * SCALE — at most a few billionths of a currency unit once
/// the two extra factors are divided out. Together with the parity and bound
/// laws above, this carries those laws over to the prices the library
/// actually returns.
pub proof fn lemma_combination_accuracy(df: int, x: int, a: int, y: int, b: int, price: int)
    requires
        0 <= df,
        0 <= x,
        0 <= y,
        0 <= a,
        0 <= b,
        price == mul_value(df, mul_value(x, a) - mul_value(y, b)),
    ensures
        crate::fixed::mag(
            (SCALE as int) * ((SCALE as int) * price) - df * (x * a - y * b),
        ) < (df + SCALE as int) * (SCALE as int),
{
    let s = SCALE as int;
    let xa = mul_value(x, a);
    let yb = mul_value(y, b);
    let spread = xa - yb;
    lemma_product_rounding_error(x, a);
    lemma_product_rounding_error(y, b);
    crate::fixed::lemma_mul_value_rounding(df, spread);
    let e1 = x * a - s * xa;
    let e2 = y * b - s * yb;
    let e3 = df * spread - s * price;
    assert(s * (s * price) - df * (x * a - y * b) == -(s * e3) - df * (e1 - e2))
        by (nonlinear_arith)
        requires
            e1 == x * a - s * xa,
            e2 == y * b - s * yb,
            e3 == df * spread - s * price,
            spread == xa - yb,
    ;
    assert(-(s * e3) - df * (e1 - e2) < (df + s) * s) by (nonlinear_arith)
        requires
            0 <= e1 < s,
            0 <= e2 < s,
            -s < e3 < s,
            0 <= df,
            0 < s,
    ;
    assert(-(s * e3) - df * (e1 - e2) > -((df + s) * s)) by (nonlinear_arith)
        requires
            0 <= e1 < s,
            0 <= e2 < s,
            -s < e3 < s,
            0 <= df,
            0 < s,
    ;
}

/// With zero rate and zero dividend yield both exponential factors are one
/// whole, and scaling by one whole is the identity: the forward price equals
/// the spot, and discounting changes nothing.
pub proof fn lemma_zero_carry_identity(x: int)
    requires
        0 <= x,
    ensures
        mul_value(x, SCALE as int) == x,
{
    crate::fixed::lemma_mul_value_by_one_whole(x);
}

} // verus!
