//! An unsigned fixed-point number with eighteen decimal places.
//!
//! Ratios, rates and prices are all values of this type: a `u128` holding
//! the value scaled by `10^18`. Construction from a rational and
//! multiplication by a balance round down and saturate at the largest
//! representable value, so no operation here can overflow or panic.

use vstd::prelude::*;
use crate::arith::{mul_div_sat, sat_u128};

verus! {

/// The scale factor: the inner representation of the value one.
pub const FIXED_SCALE: u128 = 1_000_000_000_000_000_000;

/// A non-negative fixed-point number; the value denoted is
/// `inner / FIXED_SCALE`.
#[derive(Clone, Copy, PartialEq, Eq, Structural, Debug)]
pub struct FixedU128 {
    pub inner: u128,
}

/// A collateral-per-debt ratio.
pub type Ratio = FixedU128;

/// A fractional rate, such as a penalty or an exchange rate.
pub type Rate = FixedU128;

/// A relative price between two assets.
pub type Price = FixedU128;

/// The inner representation of `n / d`, rounded down, saturated.
pub open spec fn spec_from_rational(n: int, d: int) -> int {
    sat_u128((n * FIXED_SCALE) / d)
}

/// The integer result of scaling `b` by the fixed-point value with inner
/// representation `inner`, rounded down, saturated.
pub open spec fn spec_mul_int(inner: int, b: int) -> int {
    sat_u128((inner * b) / (FIXED_SCALE as int))
}

impl FixedU128 {
    /// The value one.
    pub fn one() -> (r: Self)
        ensures
            r.inner == FIXED_SCALE,
    {
        FixedU128 { inner: FIXED_SCALE }
    }

    /// The value zero.
    pub fn zero() -> (r: Self)
        ensures
            r.inner == 0,
    {
        FixedU128 { inner: 0 }
    }

    /// The largest representable value.
    pub fn max_value() -> (r: Self)
        ensures
            r.inner == u128::MAX,
    {
        FixedU128 { inner: u128::MAX }
    }

    /// `n / d` rounded down to the nearest representable value, saturating
    /// at the largest one. The denominator must be nonzero.
    pub fn saturating_from_rational(n: u128, d: u128) -> (r: Self)
        requires
            d > 0,
        ensures
            r.inner == spec_from_rational(n as int, d as int),
    {
        FixedU128 { inner: mul_div_sat(n, FIXED_SCALE, d) }
    }

    /// Scale the balance `b` by this value, rounding down, saturating.
    pub fn saturating_mul_int(self, b: u128) -> (r: u128)
        ensures
            r == spec_mul_int(self.inner as int, b as int),
    {
        mul_div_sat(self.inner, b, FIXED_SCALE)
    }

    /// Strict order on the denoted values.
    pub fn lt(self, other: Self) -> (r: bool)
        ensures
            r == (self.inner < other.inner),
    {
        self.inner < other.inner
    }

    /// Whether this value is zero.
    pub fn is_zero(self) -> (r: bool)
        ensures
            r == (self.inner == 0),
    {
        self.inner == 0
    }
}

} // verus!
