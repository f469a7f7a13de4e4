//! Opening and adjusting positions.
//!
//! `adjust_position` applies signed deltas to an account's collateral and
//! debit. Every check — recognized collateral type, nonzero adjustment,
//! arithmetic bounds, the debt cap, the validity gate, and balance
//! sufficiency — runs before any state is touched, so a rejected call
//! leaves the engine exactly as it was.

use vstd::prelude::*;
use crate::arith::TWO127;
use crate::currency::{AccountCurrency, AccountId, Amount, Balance, CurrencyId};
use crate::engine::{CdpEngine, Error, Position};
use crate::store::table_set;

verus! {

/// The magnitude of a negative delta.
fn neg_magnitude(x: i128) -> (r: u128)
    requires
        x < 0,
    ensures
        r == -(x as int),
{
    if x == i128::MIN {
        TWO127
    } else {
        (-x) as u128
    }
}

/// `base + delta`, or the arithmetic error the overflow direction calls
/// for.
fn add_signed(base: Balance, delta: i128) -> (r: Result<Balance, Error>)
    ensures
        r == (if base + delta < 0 {
            Err::<Balance, Error>(Error::ArithmeticUnderflow)
        } else if base + delta > u128::MAX {
            Err::<Balance, Error>(Error::ArithmeticOverflow)
        } else {
            Ok::<Balance, Error>((base + delta) as Balance)
        }),
{
    if delta >= 0 {
        match base.checked_add(delta as u128) {
            Some(v) => Ok(v),
            None => Err(Error::ArithmeticOverflow),
        }
    } else {
        match base.checked_sub(neg_magnitude(delta)) {
            Some(v) => Ok(v),
            None => Err(Error::ArithmeticUnderflow),
        }
    }
}

impl CdpEngine {
    /// The position of `who` for `c` after applying the deltas.
    pub open spec fn spec_adjust_new_position(
        self,
        who: AccountId,
        c: CurrencyId,
        cd: int,
        dd: int,
    ) -> Position {
        let pos = self.spec_position(c, who);
        Position {
            collateral: (pos.collateral + cd) as Balance,
            debit: (pos.debit + dd) as Balance,
        }
    }

    /// The signed stable-asset amount minted (positive) or burned
    /// (negative) for a debit delta of `dd`.
    pub open spec fn spec_stable_delta(self, c: CurrencyId, dd: int) -> int {
        if dd >= 0 {
            self.spec_debit_value(c, dd as Balance)
        } else {
            -self.spec_debit_value(c, (-dd) as Balance)
        }
    }

    /// Why an adjustment is rejected, if it is. The checks run in this
    /// order; the first that fails names the error.
    pub open spec fn spec_adjust_error(
        self,
        who: AccountId,
        c: CurrencyId,
        cd: int,
        dd: int,
    ) -> Option<Error> {
        let pos = self.spec_position(c, who);
        let total = self.spec_total_debit(c);
        if !self.spec_is_collateral(c) {
            Some(Error::InvalidCollateralType)
        } else if cd == 0 && dd == 0 {
            Some(Error::InvalidAdjustment)
        } else if pos.collateral + cd < 0 {
            Some(Error::ArithmeticUnderflow)
        } else if pos.collateral + cd > u128::MAX {
            Some(Error::ArithmeticOverflow)
        } else if pos.debit + dd < 0 {
            Some(Error::ArithmeticUnderflow)
        } else if pos.debit + dd > u128::MAX {
            Some(Error::ArithmeticOverflow)
        } else if total + dd < 0 {
            Some(Error::ArithmeticUnderflow)
        } else if total + dd > u128::MAX {
            Some(Error::ArithmeticOverflow)
        } else if self.spec_check_debit_cap(c, (total + dd) as Balance) is Err {
            Some(Error::ExceedDebitValueHardCap)
        } else {
            match self.spec_check_position(
                c,
                (pos.collateral + cd) as Balance,
                (pos.debit + dd) as Balance,
                dd > 0,
            ) {
                Err(e) => Some(e),
                Ok(_) => {
                    if cd > 0 && self.spec_balance(c, who) < cd {
                        Some(Error::BalanceTooLow)
                    } else if cd < 0 && self.spec_balance(c, who) - cd > u128::MAX {
                        Some(Error::ArithmeticOverflow)
                    } else if dd < 0 && self.spec_balance(self.config.stable_currency_id, who)
                        + self.spec_stable_delta(c, dd) < 0 {
                        Some(Error::BalanceTooLow)
                    } else if dd > 0 && self.spec_balance(self.config.stable_currency_id, who)
                        + self.spec_stable_delta(c, dd) > u128::MAX {
                        Some(Error::ArithmeticOverflow)
                    } else {
                        None
                    }
                },
            }
        }
    }

    /// Apply signed deltas to the position of `who` for `c`.
    ///
    /// On success the position, the per-type debit total, the account's
    /// collateral balance and its stable balance all move together:
    /// collateral flows between the account and the vault, and stable
    /// asset worth `debit delta x exchange rate` is minted to or burned
    /// from the account. On any error nothing changes.
    pub fn adjust_position(
        &mut self,
        who: AccountId,
        c: CurrencyId,
        collateral_adjustment: Amount,
        debit_adjustment: Amount,
    ) -> (r: Result<(), Error>)
        ensures
            final(self).config == old(self).config,
            final(self).params == old(self).params,
            final(self).debit_exchange_rate == old(self).debit_exchange_rate,
            final(self).treasury == old(self).treasury,
            final(self).dex == old(self).dex,
            final(self).price_source == old(self).price_source,
            final(self).shutdown == old(self).shutdown,
            final(self).events == old(self).events,
            match old(self).spec_adjust_error(
                who,
                c,
                collateral_adjustment as int,
                debit_adjustment as int,
            ) {
                Some(e) => r == Err::<(), Error>(e)
                    && final(self).positions == old(self).positions
                    && final(self).balances == old(self).balances
                    && final(self).total_debits == old(self).total_debits,
                None => {
                    let cd = collateral_adjustment as int;
                    let dd = debit_adjustment as int;
                    let key = AccountCurrency { account: who, currency: c };
                    let skey = AccountCurrency {
                        account: who,
                        currency: old(self).config.stable_currency_id,
                    };
                    r == Ok::<(), Error>(()) && final(self).positions.entries@ == table_set(
                        old(self).positions.entries@,
                        key,
                        old(self).spec_adjust_new_position(who, c, cd, dd),
                    ) && final(self).total_debits.entries@ == table_set(
                        old(self).total_debits.entries@,
                        c,
                        (old(self).spec_total_debit(c) + dd) as Balance,
                    ) && final(self).balances.entries@ == table_set(
                        table_set(
                            old(self).balances.entries@,
                            key,
                            (old(self).spec_balance(c, who) - cd) as Balance,
                        ),
                        skey,
                        (old(self).spec_balance(old(self).config.stable_currency_id, who)
                            + old(self).spec_stable_delta(c, dd)) as Balance,
                    )
                },
            },
    {
        if !self.is_collateral_currency(c) {
            return Err(Error::InvalidCollateralType);
        }
        if collateral_adjustment == 0 && debit_adjustment == 0 {
            return Err(Error::InvalidAdjustment);
        }
        let pos = self.positions(c, who);
        let new_collateral = match add_signed(pos.collateral, collateral_adjustment) {
            Ok(v) => v,
            Err(e) => {
                return Err(e);
            },
        };
        let new_debit = match add_signed(pos.debit, debit_adjustment) {
            Ok(v) => v,
            Err(e) => {
                return Err(e);
            },
        };
        let total = self.total_debit(c);
        let new_total = match add_signed(total, debit_adjustment) {
            Ok(v) => v,
            Err(e) => {
                return Err(e);
            },
        };
        match self.check_debit_cap(c, new_total) {
            Err(_) => {
                return Err(Error::ExceedDebitValueHardCap);
            },
            Ok(_) => {},
        }
        match self.validate_position(c, new_collateral, new_debit, debit_adjustment > 0) {
            Err(e) => {
                return Err(e);
            },
            Ok(_) => {},
        }
        let collateral_balance = self.free_balance(c, who);
        let stable = self.config.stable_currency_id;
        let stable_balance = self.free_balance(stable, who);
        let new_collateral_balance: Balance;
        if collateral_adjustment >= 0 {
            let amount = collateral_adjustment as u128;
            if collateral_balance < amount {
                return Err(Error::BalanceTooLow);
            }
            new_collateral_balance = collateral_balance - amount;
        } else {
            let amount = neg_magnitude(collateral_adjustment);
            new_collateral_balance = match collateral_balance.checked_add(amount) {
                Some(v) => v,
                None => {
                    return Err(Error::ArithmeticOverflow);
                },
            };
        }
        let new_stable_balance: Balance;
        if debit_adjustment == 0 {
            new_stable_balance = stable_balance;
            proof {
                let rate = old(self).spec_debit_exchange_rate(c).inner as int;
                vstd::arithmetic::mul::lemma_mul_by_zero_is_zero(rate);
                assert(old(self).spec_stable_delta(c, 0) == 0);
            }
        } else if debit_adjustment > 0 {
            let minted = self.get_debit_value(c, debit_adjustment as u128);
            new_stable_balance = match stable_balance.checked_add(minted) {
                Some(v) => v,
                None => {
                    return Err(Error::ArithmeticOverflow);
                },
            };
        } else {
            let burned = self.get_debit_value(c, neg_magnitude(debit_adjustment));
            if stable_balance < burned {
                return Err(Error::BalanceTooLow);
            }
            new_stable_balance = stable_balance - burned;
        }
        let key = AccountCurrency { account: who, currency: c };
        let skey = AccountCurrency { account: who, currency: stable };
        self.positions.set(key, Position { collateral: new_collateral, debit: new_debit });
        self.total_debits.set(c, new_total);
        self.balances.set(key, new_collateral_balance);
        self.balances.set(skey, new_stable_balance);
        Ok(())
    }
}

} // verus!
