//! End-to-end pricing through the library, with the transcendental
//! primitives (`exp`, `ln`, `sqrt` and the standard normal CDF) evaluated in
//! `f64` and handed to the fixed-point core.

use black_scholes::fixed::SCALE;
use black_scholes::params::MarketInputs;
use black_scholes::params::ParamClass;
use black_scholes::params::PricingMethod;
use black_scholes::params::Sign;
use black_scholes::params::plan;
use black_scholes::pricing::call_combination;
use black_scholes::pricing::forward_and_deviation;
use black_scholes::pricing::intrinsic_call;
use black_scholes::pricing::intrinsic_put;
use black_scholes::pricing::probability_arguments;
use black_scholes::pricing::put_combination;

fn classify(x: f64) -> ParamClass {
    let sign = if x > 0.0 {
        Sign::Positive
    } else if x < 0.0 {
        Sign::Negative
    } else {
        Sign::Zero
    };
    ParamClass { finite: x.is_finite(), sign }
}

fn to_fx(x: f64) -> Option<i64> {
    let scaled = x * SCALE as f64;
    if scaled.is_finite() && scaled.abs() < i64::MAX as f64 {
        Some(scaled.round() as i64)
    } else {
        None
    }
}

fn from_fx(x: i64) -> f64 {
    x as f64 / SCALE as f64
}

/// Abramowitz-Stegun 26.2.17 rational approximation of the standard normal
/// CDF, absolute error below 7.5e-8; complements are exact by construction.
fn pnorm(x: f64) -> f64 {
    if x < 0.0 {
        return 1.0 - pnorm(-x);
    }
    let t = 1.0 / (1.0 + 0.2316419 * x);
    let poly = t
        * (0.319381530
            + t * (-0.356563782 + t * (1.781477937 + t * (-1.821255978 + t * 1.330274429))));
    let pdf = (-(x * x) / 2.0).exp() / (2.0 * std::f64::consts::PI).sqrt();
    1.0 - pdf * poly
}

fn cdf_fx(x: f64) -> Option<i64> {
    let p = pnorm(x).clamp(0.0, 1.0);
    let fx = to_fx(p)?;
    Some(fx.clamp(0, SCALE))
}

fn price(s: f64, k: f64, v: f64, r: f64, t: f64, q: f64, call: bool) -> Option<f64> {
    let inputs = MarketInputs {
        underlying_price: classify(s),
        strike_price: classify(k),
        volatility: classify(v),
        risk_free_rate: classify(r),
        time_to_expiry: classify(t),
        dividend_yield: classify(q),
    };
    let method = plan(&inputs).ok()?;
    let df = to_fx((-r * t).exp())?;
    let growth = to_fx(((r - q) * t).exp())?;
    let spot = to_fx(s)?;
    let strike = to_fx(k)?;
    let vol = to_fx(v)?;
    let sqrt_t = to_fx(t.sqrt())?;
    if df < 0 || growth < 0 || spot < 0 || strike < 0 || vol < 0 || sqrt_t < 0 {
        return None;
    }
    let (forward, deviation) = forward_and_deviation(spot, growth, vol, sqrt_t)?;
    if matches!(method, PricingMethod::DiscountedIntrinsic) || deviation == 0 {
        let p = if call {
            intrinsic_call(df, forward, strike)?
        } else {
            intrinsic_put(df, forward, strike)?
        };
        return Some(from_fx(p));
    }
    let log_moneyness = to_fx((from_fx(forward) / k).ln())?;
    let (d1, d2) = probability_arguments(log_moneyness, deviation)?;
    let p = if call {
        let nd1 = cdf_fx(from_fx(d1))?;
        let nd2 = cdf_fx(from_fx(d2))?;
        call_combination(df, forward, strike, nd1, nd2)?
    } else {
        let nd1c = cdf_fx(-from_fx(d1))?;
        let nd2c = cdf_fx(-from_fx(d2))?;
        put_combination(df, forward, strike, nd1c, nd2c)?
    };
    Some(from_fx(p))
}

fn call_price(s: f64, k: f64, v: f64, r: f64, t: f64, q: f64) -> Option<f64> {
    price(s, k, v, r, t, q, true)
}

fn put_price(s: f64, k: f64, v: f64, r: f64, t: f64, q: f64) -> Option<f64> {
    price(s, k, v, r, t, q, false)
}

#[test]
fn black_scholes_call() {
    let BSC = call_price(100.0, 110.0, 0.2, 0.05, 0.5, 0.02).unwrap();
    assert!(BSC - 2.586 < 0.001);
}

#[test]
fn black_scholes_put() {
    let BSP = put_price(100.0, 110.0, 0.2, 0.05, 0.5, 0.02).unwrap();
    assert!(BSP - 10.865 < 0.001);
}

#[test]
fn reference_values_two_sided() {
    let c = call_price(100.0, 110.0, 0.2, 0.05, 0.5, 0.02).unwrap();
    let p = put_price(100.0, 110.0, 0.2, 0.05, 0.5, 0.02).unwrap();
    assert!((c - 2.586).abs() < 1e-3);
    assert!((p - 10.865).abs() < 1e-3);
}

#[test]
fn put_call_parity_across_tuples() {
    let tuples = [
        (100.0, 110.0, 0.2, 0.05, 0.5, 0.02),
        (100.0, 100.0, 0.25, 0.03, 1.0, 0.0),
        (80.0, 120.0, 0.4, -0.01, 2.0, 0.03),
        (150.0, 90.0, 0.15, 0.07, 0.25, 0.01),
        (55.0, 60.0, 0.35, 0.0, 3.0, 0.0),
    ];
    for &(s, k, v, r, t, q) in tuples.iter() {
        let c = call_price(s, k, v, r, t, q).unwrap();
        let p = put_price(s, k, v, r, t, q).unwrap();
        let df = (-r * t).exp();
        let forward = s * ((r - q) * t).exp();
        let expected = df * (forward - k);
        let scale = expected.abs().max(1.0);
        assert!(
            ((c - p) - expected).abs() <= 1e-6 * scale,
            "parity broken at S={}, K={}: {} vs {}",
            s,
            k,
            c - p,
            expected
        );
    }
}

#[test]
fn call_monotone_in_underlying() {
    let mut previous = f64::NEG_INFINITY;
    let mut spot = 60.0;
    while spot <= 150.0 {
        let c = call_price(spot, 100.0, 0.25, 0.03, 1.0, 0.01).unwrap();
        assert!(c >= previous - 1e-7, "call fell from {} to {} at S={}", previous, c, spot);
        previous = c;
        spot += 2.5;
    }
}

#[test]
fn put_monotone_in_underlying() {
    let mut previous = f64::INFINITY;
    let mut spot = 60.0;
    while spot <= 150.0 {
        let p = put_price(spot, 100.0, 0.25, 0.03, 1.0, 0.01).unwrap();
        assert!(p <= previous + 1e-7, "put rose from {} to {} at S={}", previous, p, spot);
        previous = p;
        spot += 2.5;
    }
}

#[test]
fn boundary_convergence_as_time_vanishes() {
    let t = 1e-10;
    let c = call_price(120.0, 110.0, 0.2, 0.05, t, 0.02).unwrap();
    assert!((c - 10.0).abs() < 1e-3);
    let c_out = call_price(100.0, 110.0, 0.2, 0.05, t, 0.02).unwrap();
    assert!(c_out.abs() < 1e-3);
    let p = put_price(100.0, 110.0, 0.2, 0.05, t, 0.02).unwrap();
    assert!((p - 10.0).abs() < 1e-3);
    let c_at_zero = call_price(120.0, 110.0, 0.2, 0.05, 0.0, 0.02).unwrap();
    assert!((c_at_zero - 10.0).abs() < 1e-9);
}

#[test]
fn zero_volatility_limit() {
    let df = (-0.05f64 * 0.5).exp();
    let forward = 120.0 * ((0.05f64 - 0.02) * 0.5).exp();
    let expected_call = (forward - 110.0).max(0.0) * df;
    let expected_put = (110.0 - forward).max(0.0) * df;
    let c_exact = call_price(120.0, 110.0, 0.0, 0.05, 0.5, 0.02).unwrap();
    let p_exact = put_price(120.0, 110.0, 0.0, 0.05, 0.5, 0.02).unwrap();
    assert!((c_exact - expected_call).abs() < 1e-6);
    assert!((p_exact - expected_put).abs() < 1e-6);
    let c_small = call_price(120.0, 110.0, 1e-5, 0.05, 0.5, 0.02).unwrap();
    let p_small = put_price(120.0, 110.0, 1e-5, 0.05, 0.5, 0.02).unwrap();
    assert!((c_small - expected_call).abs() < 1e-3);
    assert!((p_small - expected_put).abs() < 1e-3);
}

#[test]
fn prices_never_negative() {
    let tuples = [
        (50.0, 200.0, 0.1, 0.02, 0.25, 0.0),
        (200.0, 50.0, 0.1, 0.02, 0.25, 0.0),
        (100.0, 100.0, 0.5, -0.02, 5.0, 0.04),
        (100.0, 100.0, 0.0, 0.0, 0.0, 0.0),
        (1.0, 1000.0, 0.8, 0.1, 10.0, 0.0),
    ];
    for &(s, k, v, r, t, q) in tuples.iter() {
        let c = call_price(s, k, v, r, t, q).unwrap();
        let p = put_price(s, k, v, r, t, q).unwrap();
        assert!(c >= -1e-9, "negative call {} at S={}, K={}", c, s, k);
        assert!(p >= -1e-9, "negative put {} at S={}, K={}", p, s, k);
    }
}

#[test]
fn zero_rates_reduce_to_textbook_form() {
    // Independently computed: S=K=100, v=0.2, t=1, r=q=0 gives d1 = 0.1,
    // d2 = -0.1, price = 100*(N(0.1) - N(-0.1)) = 7.9656 for both legs.
    let c = call_price(100.0, 100.0, 0.2, 0.0, 1.0, 0.0).unwrap();
    let p = put_price(100.0, 100.0, 0.2, 0.0, 1.0, 0.0).unwrap();
    assert!((c - 7.9656).abs() < 1e-3);
    assert!((p - 7.9656).abs() < 1e-3);
}

#[test]
fn out_of_domain_inputs_are_refused() {
    assert!(call_price(-100.0, 110.0, 0.2, 0.05, 0.5, 0.02).is_none());
    assert!(call_price(100.0, 0.0, 0.2, 0.05, 0.5, 0.02).is_none());
    assert!(put_price(100.0, 110.0, -0.2, 0.05, 0.5, 0.02).is_none());
    assert!(put_price(100.0, 110.0, 0.2, 0.05, -0.5, 0.02).is_none());
    assert!(call_price(f64::NAN, 110.0, 0.2, 0.05, 0.5, 0.02).is_none());
    assert!(put_price(100.0, 110.0, 0.2, f64::INFINITY, 0.5, 0.02).is_none());
}
