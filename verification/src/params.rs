//! The domain of the model: which parameter sets are priced, and by which
//! formula.
//!
//! A caller holds the six market inputs in whatever numeric type it likes;
//! the rules here only read whether each input is a finite number and how it
//! compares to zero, so that is all a [`MarketInputs`] records.

use vstd::prelude::*;

verus! {

/// How a real-valued input compares to zero.
#[derive(Clone, Copy, Debug, PartialEq, Eq, Structural)]
pub enum Sign {
    Negative,
    Zero,
    Positive,
}

/// What the domain rules read of one market input: whether the caller's
/// number is finite, and its sign.
#[derive(Clone, Copy, Debug, PartialEq, Eq, Structural)]
pub struct ParamClass {
    pub finite: bool,
    pub sign: Sign,
}

/// The six parameters of one pricing request, each reduced to the facts the
/// domain rules read.
#[derive(Clone, Copy, Debug, PartialEq, Eq, Structural)]
pub struct MarketInputs {
    /// S: the spot price of the underlying.
    pub underlying_price: ParamClass,
    /// K: the strike.
    pub strike_price: ParamClass,
    /// v: the annualized volatility.
    pub volatility: ParamClass,
    /// r: the continuously compounded risk-free rate.
    pub risk_free_rate: ParamClass,
    /// t: the time to expiry in years.
    pub time_to_expiry: ParamClass,
    /// q: the continuously compounded dividend yield.
    pub dividend_yield: ParamClass,
}

/// Why a pricing request was refused.
#[derive(Clone, Copy, Debug, PartialEq, Eq, Structural)]
pub enum PricingError {
    /// A parameter lies outside the model's domain: a non-finite input, a
    /// non-positive spot or strike, or a negative volatility or time to
    /// expiry.
    InvalidParameter,
}

/// Which evaluation a valid request calls for.
#[derive(Clone, Copy, Debug, PartialEq, Eq, Structural)]
pub enum PricingMethod {
    /// The zero-volatility / zero-time boundary, on which the closed form
    /// degenerates: the price is the discounted intrinsic value.
    DiscountedIntrinsic,
    /// The closed-form Black-Scholes expression.
    ClosedForm,
}

/// The spot must be a finite, strictly positive number.
pub open spec fn spot_valid(p: ParamClass) -> bool {
    p.finite && p.sign is Positive
}

/// The strike must be a finite, strictly positive number: it divides the
/// forward inside a logarithm.
pub open spec fn strike_valid(p: ParamClass) -> bool {
    p.finite && p.sign is Positive
}

/// The volatility must be finite and non-negative.
pub open spec fn volatility_valid(p: ParamClass) -> bool {
    p.finite && !(p.sign is Negative)
}

/// The time to expiry must be finite and non-negative.
pub open spec fn time_valid(p: ParamClass) -> bool {
    p.finite && !(p.sign is Negative)
}

/// A rate or yield may be any finite number, negative included.
pub open spec fn rate_valid(p: ParamClass) -> bool {
    p.finite
}

/// The whole domain: S > 0, K > 0, v >= 0, t >= 0, r and q finite.
pub open spec fn inputs_valid(m: MarketInputs) -> bool {
    &&& spot_valid(m.underlying_price)
    &&& strike_valid(m.strike_price)
    &&& volatility_valid(m.volatility)
    &&& time_valid(m.time_to_expiry)
    &&& rate_valid(m.risk_free_rate)
    &&& rate_valid(m.dividend_yield)
}

/// The boundary on which the closed form degenerates: zero volatility or
/// zero time to expiry make the total standard deviation zero, and the
/// log-moneyness term would divide by it.
pub open spec fn degenerate(m: MarketInputs) -> bool {
    m.volatility.sign is Zero || m.time_to_expiry.sign is Zero
}

/// Validates the six parameters and picks the evaluation path: every
/// out-of-domain input is refused, the degenerate boundary is routed to the
/// discounted-intrinsic fallback, and every other valid request to the
/// closed form.
pub fn plan(m: &MarketInputs) -> (r: Result<PricingMethod, PricingError>)
    ensures
        r is Ok <==> inputs_valid(*m),
        r == Ok::<PricingMethod, PricingError>(PricingMethod::DiscountedIntrinsic) <==> inputs_valid(
            *m,
        ) && degenerate(*m),
        r == Ok::<PricingMethod, PricingError>(PricingMethod::ClosedForm) <==> inputs_valid(*m)
            && !degenerate(*m),
        r is Err ==> r->Err_0 == PricingError::InvalidParameter,
{
    if !(m.underlying_price.finite && m.underlying_price.sign == Sign::Positive) {
        return Err(PricingError::InvalidParameter);
    }
    if !(m.strike_price.finite && m.strike_price.sign == Sign::Positive) {
        return Err(PricingError::InvalidParameter);
    }
    if !(m.volatility.finite && m.volatility.sign != Sign::Negative) {
        return Err(PricingError::InvalidParameter);
    }
    if !(m.time_to_expiry.finite && m.time_to_expiry.sign != Sign::Negative) {
        return Err(PricingError::InvalidParameter);
    }
    if !m.risk_free_rate.finite || !m.dividend_yield.finite {
        return Err(PricingError::InvalidParameter);
    }
    if m.volatility.sign == Sign::Zero || m.time_to_expiry.sign == Sign::Zero {
        Ok(PricingMethod::DiscountedIntrinsic)
    } else {
        Ok(PricingMethod::ClosedForm)
    }
}

} // verus!
