//! The pricing core: the shared derivation of the closed form, the two
//! price combinations, and the discounted-intrinsic fallback.
//!
//! The caller supplies the transcendental factors — the discount factor
//! `exp(-r t)`, the growth factor `exp((r - q) t)`, `sqrt(t)`, `ln(F / K)`
//! and the normal-CDF values — as fixed-point numbers; the functions here do
//! every remaining step of the formula and say exactly what they return.

use vstd::prelude::*;
use crate::fixed::SCALE;
use crate::fixed::div_in_range;
use crate::fixed::div_value;
use crate::fixed::fx_div;
use crate::fixed::fx_mul;
use crate::fixed::lemma_mul_value_contracts;
use crate::fixed::lemma_mul_value_monotone_second;
use crate::fixed::mul_in_range;
use crate::fixed::mul_value;

verus! {

/// The intrinsic value of a call settled against the forward: max(F - K, 0).
pub open spec fn call_payoff(forward: int, strike: int) -> int {
    if forward - strike > 0 {
        forward - strike
    } else {
        0
    }
}

/// The intrinsic value of a put settled against the forward: max(K - F, 0).
pub open spec fn put_payoff(forward: int, strike: int) -> int {
    if strike - forward > 0 {
        strike - forward
    } else {
        0
    }
}

/// The first probability argument: d1 = ln(F / K) / std + std / 2.
pub open spec fn d1_value(log_moneyness: int, deviation: int) -> int {
    div_value(log_moneyness, deviation) + deviation / 2
}

/// The second probability argument: d2 = d1 - std.
pub open spec fn d2_value(log_moneyness: int, deviation: int) -> int {
    d1_value(log_moneyness, deviation) - deviation
}

/// Whether both probability arguments stay representable in an `i64`.
pub open spec fn arguments_in_range(log_moneyness: int, deviation: int) -> bool {
    &&& div_in_range(log_moneyness, deviation)
    &&& i64::MIN <= d1_value(log_moneyness, deviation) <= i64::MAX
    &&& i64::MIN <= d2_value(log_moneyness, deviation) <= i64::MAX
}

/// First stage of the shared derivation: the forward price F = S * g and
/// the total standard deviation std = v * sqrt(t), where the caller supplies
/// the growth factor g = exp((r - q) t) and sqrt(t) in fixed point.
/// `None` exactly when one of the two products leaves the `i64` grid.
pub fn forward_and_deviation(spot: i64, growth: i64, volatility: i64, sqrt_time: i64) -> (r:
    Option<(i64, i64)>)
    requires
        spot >= 0,
        growth >= 0,
        volatility >= 0,
        sqrt_time >= 0,
    ensures
        r is Some <==> mul_in_range(spot as int, growth as int) && mul_in_range(
            volatility as int,
            sqrt_time as int,
        ),
        r is Some ==> r->Some_0.0 == mul_value(spot as int, growth as int),
        r is Some ==> r->Some_0.1 == mul_value(volatility as int, sqrt_time as int),
        r is Some ==> r->Some_0.0 >= 0 && r->Some_0.1 >= 0,
{
    match (fx_mul(spot, growth), fx_mul(volatility, sqrt_time)) {
        (Some(forward), Some(deviation)) => Some((forward, deviation)),
        _ => None,
    }
}

/// Second stage: the probability arguments d1 = ln(F / K) / std + std / 2
/// and d2 = d1 - std, from the caller's ln(F / K) and a positive std.
/// `None` exactly when a step leaves the `i64` grid.
pub fn probability_arguments(log_moneyness: i64, deviation: i64) -> (r: Option<(i64, i64)>)
    requires
        deviation > 0,
    ensures
        r is Some <==> arguments_in_range(log_moneyness as int, deviation as int),
        r is Some ==> r->Some_0.0 == d1_value(log_moneyness as int, deviation as int),
        r is Some ==> r->Some_0.1 == d2_value(log_moneyness as int, deviation as int),
{
    let d: i64 = match fx_div(log_moneyness, deviation) {
        Some(v) => v,
        None => {
            return None;
        },
    };
    let half_deviation: i64 = ((deviation as u64) / 2) as i64;
    let wide_d1: i128 = d as i128 + half_deviation as i128;
    if wide_d1 < i64::MIN as i128 || wide_d1 > i64::MAX as i128 {
        return None;
    }
    let d1: i64 = wide_d1 as i64;
    let wide_d2: i128 = d1 as i128 - deviation as i128;
    if wide_d2 < i64::MIN as i128 || wide_d2 > i64::MAX as i128 {
        return None;
    }
    Some((d1, wide_d2 as i64))
}

/// The call-price combination df * (F * nd1 - K * nd2), with nd1 = N(d1)
/// and nd2 = N(d2) supplied by the caller's normal-CDF primitive, so both
/// lie between zero and one whole. `None` exactly when the discounting
/// product leaves the `i64` grid; a `Some` price never exceeds the
/// discounted forward df * F, the upper no-arbitrage bound.
pub fn call_combination(df: i64, forward: i64, strike: i64, nd1: i64, nd2: i64) -> (r: Option<
    i64,
>)
    requires
        df >= 0,
        forward >= 0,
        strike >= 0,
        0 <= nd1 <= SCALE,
        0 <= nd2 <= SCALE,
    ensures
        r is Some <==> mul_in_range(
            df as int,
            mul_value(forward as int, nd1 as int) - mul_value(strike as int, nd2 as int),
        ),
        r is Some ==> r->Some_0 == mul_value(
            df as int,
            mul_value(forward as int, nd1 as int) - mul_value(strike as int, nd2 as int),
        ),
        r is Some ==> r->Some_0 <= mul_value(df as int, forward as int),
{
    proof {
        lemma_mul_value_contracts(forward as int, nd1 as int);
        lemma_mul_value_contracts(strike as int, nd2 as int);
    }
    let weighted_forward: i64 = fx_mul(forward, nd1).unwrap();
    let weighted_strike: i64 = fx_mul(strike, nd2).unwrap();
    let spread: i64 = weighted_forward - weighted_strike;
    let r: Option<i64> = fx_mul(df, spread);
    proof {
        if r is Some {
            lemma_mul_value_monotone_second(df as int, spread as int, forward as int);
        }
    }
    r
}

/// The put-price combination df * (K * nd2c - F * nd1c), with nd1c = N(-d1)
/// and nd2c = N(-d2) supplied by the caller's normal-CDF primitive, so both
/// lie between zero and one whole. `None` exactly when the discounting
/// product leaves the `i64` grid; a `Some` price never exceeds the
/// discounted strike df * K, the upper no-arbitrage bound.
pub fn put_combination(df: i64, forward: i64, strike: i64, nd1c: i64, nd2c: i64) -> (r: Option<
    i64,
>)
    requires
        df >= 0,
        forward >= 0,
        strike >= 0,
        0 <= nd1c <= SCALE,
        0 <= nd2c <= SCALE,
    ensures
        r is Some <==> mul_in_range(
            df as int,
            mul_value(strike as int, nd2c as int) - mul_value(forward as int, nd1c as int),
        ),
        r is Some ==> r->Some_0 == mul_value(
            df as int,
            mul_value(strike as int, nd2c as int) - mul_value(forward as int, nd1c as int),
        ),
        r is Some ==> r->Some_0 <= mul_value(df as int, strike as int),
{
    proof {
        lemma_mul_value_contracts(strike as int, nd2c as int);
        lemma_mul_value_contracts(forward as int, nd1c as int);
    }
    let weighted_strike: i64 = fx_mul(strike, nd2c).unwrap();
    let weighted_forward: i64 = fx_mul(forward, nd1c).unwrap();
    let spread: i64 = weighted_strike - weighted_forward;
    let r: Option<i64> = fx_mul(df, spread);
    proof {
        if r is Some {
            lemma_mul_value_monotone_second(df as int, spread as int, strike as int);
        }
    }
    r
}

/// The boundary fallback for a call: the discounted intrinsic value
/// max(F - K, 0) * df, never negative. `None` exactly when the discounting
/// product leaves the `i64` grid.
pub fn intrinsic_call(df: i64, forward: i64, strike: i64) -> (r: Option<i64>)
    requires
        df >= 0,
        forward >= 0,
        strike >= 0,
    ensures
        r is Some <==> mul_in_range(call_payoff(forward as int, strike as int), df as int),
        r is Some ==> r->Some_0 == mul_value(call_payoff(forward as int, strike as int), df as int),
        r is Some ==> r->Some_0 >= 0,
{
    let payoff: i64 = if forward > strike {
        forward - strike
    } else {
        0
    };
    fx_mul(payoff, df)
}

/// The boundary fallback for a put: the discounted intrinsic value
/// max(K - F, 0) * df, never negative. `None` exactly when the discounting
/// product leaves the `i64` grid.
pub fn intrinsic_put(df: i64, forward: i64, strike: i64) -> (r: Option<i64>)
    requires
        df >= 0,
        forward >= 0,
        strike >= 0,
    ensures
        r is Some <==> mul_in_range(put_payoff(forward as int, strike as int), df as int),
        r is Some ==> r->Some_0 == mul_value(put_payoff(forward as int, strike as int), df as int),
        r is Some ==> r->Some_0 >= 0,
{
    let payoff: i64 = if strike > forward {
        strike - forward
    } else {
        0
    };
    fx_mul(payoff, df)
}

} // verus!
