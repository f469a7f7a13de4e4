//! Position safety: ratios, the debt cap, and the validity gate.
//!
//! The collateral ratio of a position is `(collateral * price) /
//! (debit * debit_exchange_rate)`, as a fixed-point value; a position
//! with no debt has the maximum representable ratio. A position is
//! unsafe when its ratio is below the effective liquidation ratio, or
//! when the oracle has no price at all (fail safe).

use vstd::prelude::*;
use crate::arith::{mul_div_sat, sat_u128};
use crate::currency::{Balance, CurrencyId};
use crate::engine::{CdpEngine, Error};
use crate::fixed::{spec_mul_int, FixedU128, Price, Ratio, FIXED_SCALE};

verus! {

impl CdpEngine {
    /// The stable-asset value of `debit` debit units of `c`.
    pub open spec fn spec_debit_value(self, c: CurrencyId, debit: Balance) -> int {
        spec_mul_int(self.spec_debit_exchange_rate(c).inner as int, debit as int)
    }

    /// Convert a debit balance of `c` to its stable-asset value.
    pub fn get_debit_value(&self, c: CurrencyId, debit: Balance) -> (r: Balance)
        ensures
            r == self.spec_debit_value(c, debit),
    {
        self.get_debit_exchange_rate(c).saturating_mul_int(debit)
    }

    /// The collateral ratio of a position at `price`, as the inner
    /// representation of a fixed-point value. A position with no debt
    /// value has the maximum representable ratio.
    pub open spec fn spec_collateral_ratio(
        self,
        c: CurrencyId,
        collateral: Balance,
        debit: Balance,
        price: Price,
    ) -> int {
        let locked_value = spec_mul_int(price.inner as int, collateral as int);
        let debit_value = self.spec_debit_value(c, debit);
        if debit_value == 0 {
            u128::MAX as int
        } else {
            sat_u128((locked_value * FIXED_SCALE) / debit_value)
        }
    }

    /// Compute the collateral ratio of a position at `price`.
    pub fn calculate_collateral_ratio(
        &self,
        c: CurrencyId,
        collateral: Balance,
        debit: Balance,
        price: Price,
    ) -> (r: Ratio)
        ensures
            r.inner == self.spec_collateral_ratio(c, collateral, debit, price),
    {
        let locked_value = price.saturating_mul_int(collateral);
        let debit_value = self.get_debit_value(c, debit);
        if debit_value == 0 {
            FixedU128::max_value()
        } else {
            FixedU128 { inner: mul_div_sat(locked_value, FIXED_SCALE, debit_value) }
        }
    }

    /// Whether the position is unsafe: the oracle has no price, or the
    /// ratio is strictly below the effective liquidation ratio.
    pub open spec fn spec_is_cdp_unsafe(
        self,
        c: CurrencyId,
        collateral: Balance,
        debit: Balance,
    ) -> bool {
        match self.price_source.relative_price {
            None => true,
            Some(price) => self.spec_collateral_ratio(c, collateral, debit, price)
                < self.spec_liquidation_ratio(c).inner,
        }
    }

    /// Decide whether the position is currently unsafe.
    pub fn is_cdp_unsafe(&self, c: CurrencyId, collateral: Balance, debit: Balance) -> (r: bool)
        ensures
            r == self.spec_is_cdp_unsafe(c, collateral, debit),
    {
        match self.price_source.get_relative_price(c, self.config.stable_currency_id) {
            None => true,
            Some(price) => {
                let ratio = self.calculate_collateral_ratio(c, collateral, debit, price);
                ratio.lt(self.get_liquidation_ratio(c))
            },
        }
    }

    /// The debt-cap gate on a tentative new total debit balance.
    pub open spec fn spec_check_debit_cap(self, c: CurrencyId, total_debit: Balance) -> Result<
        (),
        Error,
    > {
        if self.spec_debit_value(c, total_debit) <= self.spec_collateral_params(
            c,
        ).maximum_total_debit_value {
            Ok(())
        } else {
            Err(Error::ExceedDebitValueHardCap)
        }
    }

    /// Reject a tentative new total debit balance whose value exceeds the
    /// hard cap of `c`.
    pub fn check_debit_cap(&self, c: CurrencyId, total_debit: Balance) -> (r: Result<(), Error>)
        ensures
            r == self.spec_check_debit_cap(c, total_debit),
    {
        let hard_cap = self.collateral_params(c).maximum_total_debit_value;
        let total_debit_value = self.get_debit_value(c, total_debit);
        if total_debit_value <= hard_cap {
            Ok(())
        } else {
            Err(Error::ExceedDebitValueHardCap)
        }
    }

    /// The validity gate on a tentative position. A position with no debt
    /// is always valid, whatever the oracle says. Otherwise, in order:
    /// the oracle must have a price; the debt value must reach the
    /// minimum; the ratio must reach the liquidation ratio; and, only
    /// when the debt is being increased, the ratio must also reach the
    /// required collateral ratio, when one is set.
    pub open spec fn spec_check_position(
        self,
        c: CurrencyId,
        collateral: Balance,
        debit: Balance,
        check_required: bool,
    ) -> Result<(), Error> {
        if debit == 0 {
            Ok(())
        } else {
            match self.price_source.relative_price {
                None => Err(Error::InvalidFeedPrice),
                Some(price) => {
                    if self.spec_debit_value(c, debit) < self.config.minimum_debit_value {
                        Err(Error::RemainDebitValueTooSmall)
                    } else {
                        let ratio = self.spec_collateral_ratio(c, collateral, debit, price);
                        if ratio < self.spec_liquidation_ratio(c).inner {
                            Err(Error::BelowLiquidationRatio)
                        } else if check_required && (match self.spec_collateral_params(
                            c,
                        ).required_collateral_ratio {
                            Some(required) => ratio < required.inner,
                            None => false,
                        }) {
                            Err(Error::BelowRequiredCollateralRatio)
                        } else {
                            Ok(())
                        }
                    }
                },
            }
        }
    }

    /// Run the validity gate with or without the required-ratio check.
    pub(crate) fn validate_position(
        &self,
        c: CurrencyId,
        collateral: Balance,
        debit: Balance,
        check_required: bool,
    ) -> (r: Result<(), Error>)
        ensures
            r == self.spec_check_position(c, collateral, debit, check_required),
    {
        if debit == 0 {
            return Ok(());
        }
        let price = match self.price_source.get_relative_price(
            c,
            self.config.stable_currency_id,
        ) {
            None => {
                return Err(Error::InvalidFeedPrice);
            },
            Some(price) => price,
        };
        if self.get_debit_value(c, debit) < self.config.minimum_debit_value {
            return Err(Error::RemainDebitValueTooSmall);
        }
        let ratio = self.calculate_collateral_ratio(c, collateral, debit, price);
        if ratio.lt(self.get_liquidation_ratio(c)) {
            return Err(Error::BelowLiquidationRatio);
        }
        if check_required {
            match self.collateral_params(c).required_collateral_ratio {
                Some(required) => {
                    if ratio.lt(required) {
                        return Err(Error::BelowRequiredCollateralRatio);
                    }
                },
                None => {},
            }
        }
        Ok(())
    }

    /// Run the full validity gate on a tentative position, the one a
    /// debt-increasing adjustment must pass: required-ratio check
    /// included.
    pub fn check_position_valid(
        &self,
        c: CurrencyId,
        collateral: Balance,
        debit: Balance,
    ) -> (r: Result<(), Error>)
        ensures
            r == self.spec_check_position(c, collateral, debit, true),
    {
        self.validate_position(c, collateral, debit, true)
    }
}

} // verus!
