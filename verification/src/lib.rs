//! Closed-form pricing of European vanilla options under the
//! Black-Scholes-Merton model.
//!
//! Every market quantity is held in fixed point: an `i64` counting
//! billionths ([`fixed::SCALE`] units to one whole). The transcendental
//! primitives the model needs — `exp`, `ln`, `sqrt` and the standard normal
//! CDF — are supplied by the caller as fixed-point values; everything from
//! input validation through the final price combination is computed and
//! verified here.

pub mod fixed;
pub mod laws;
pub mod params;
pub mod pricing;
