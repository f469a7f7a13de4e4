//! Liquidation, voluntary close, and shutdown settlement.
//!
//! A liquidation confiscates an unsafe position and tries two strategies
//! in order: swap the collateral through the exchange for the debt value
//! plus the liquidation penalty, refunding the leftover to the owner; or
//! fall back to handing the whole collateral to the treasury for auction.
//! A voluntary close is the owner-initiated exchange path for a safe
//! position. Settlement is the administrative wind-down: it confiscates
//! collateral worth the debt, one for one, without penalty.

use vstd::prelude::*;
use crate::arith::sat_u128;
use crate::currency::{AccountCurrency, AccountId, Balance, CurrencyId};
use crate::dex::{spec_pool_after_swap, spec_swap_supply};
use crate::engine::{CdpEngine, Error, Event, LiquidationStrategy, Origin, Position};
use crate::fixed::spec_mul_int;
use crate::store::table_set;
use crate::treasury::AuctionItem;

verus! {

impl CdpEngine {
    /// The stable-asset value of the position's debt, the amount the
    /// treasury recognizes as bad debt when the position is confiscated.
    pub open spec fn spec_bad_debt_value(self, who: AccountId, c: CurrencyId) -> Balance {
        self.spec_debit_value(c, self.spec_position(c, who).debit) as Balance
    }

    /// The stable-asset target of a liquidation: the bad debt plus the
    /// effective liquidation penalty on it, saturating.
    pub open spec fn spec_liquidation_target(self, c: CurrencyId, bad_debt: Balance) -> Balance {
        sat_u128(
            bad_debt + spec_mul_int(self.spec_liquidation_penalty(c).inner as int, bad_debt as int),
        ) as Balance
    }

    /// The supply the exchange strategy would use: the quoted collateral
    /// for the target, accepted only when it fits in the position's
    /// collateral.
    pub open spec fn spec_liquidation_swap(
        self,
        c: CurrencyId,
        collateral: Balance,
        target: Balance,
    ) -> Option<Balance> {
        match spec_swap_supply(self.dex, c, target) {
            Some(s) => if s <= collateral {
                Some(s)
            } else {
                None
            },
            None => None,
        }
    }

    /// Why a liquidation is rejected, if it is. The checks run in this
    /// order; the first that fails names the error.
    pub open spec fn spec_liquidate_error(self, who: AccountId, c: CurrencyId) -> Option<Error> {
        let pos = self.spec_position(c, who);
        let total = self.spec_total_debit(c);
        if self.shutdown {
            Some(Error::AlreadyShutdown)
        } else if pos.debit == 0 {
            Some(Error::NoDebitValue)
        } else if !self.spec_is_cdp_unsafe(c, pos.collateral, pos.debit) {
            Some(Error::MustBeUnsafe)
        } else if total < pos.debit {
            Some(Error::ArithmeticUnderflow)
        } else {
            let bad_debt = self.spec_bad_debt_value(who, c);
            let target = self.spec_liquidation_target(c, bad_debt);
            match self.spec_liquidation_swap(c, pos.collateral, target) {
                Some(s) => if self.spec_balance(c, who) + (pos.collateral - s) > u128::MAX {
                    Some(Error::ArithmeticOverflow)
                } else if self.treasury.surplus_pool + target > u128::MAX {
                    Some(Error::ArithmeticOverflow)
                } else if self.treasury.debit_pool + bad_debt > u128::MAX {
                    Some(Error::ArithmeticOverflow)
                } else {
                    None
                },
                None => if self.treasury.spec_total_collaterals(c) + pos.collateral > u128::MAX {
                    Some(Error::ArithmeticOverflow)
                } else if self.treasury.debit_pool + bad_debt > u128::MAX {
                    Some(Error::ArithmeticOverflow)
                } else {
                    None
                },
            }
        }
    }

    /// What a successful liquidation does to the state.
    pub open spec fn spec_liquidate_effects(
        pre: CdpEngine,
        post: CdpEngine,
        who: AccountId,
        c: CurrencyId,
    ) -> bool {
        let pos = pre.spec_position(c, who);
        let key = AccountCurrency { account: who, currency: c };
        let bad_debt = pre.spec_bad_debt_value(who, c);
        let target = pre.spec_liquidation_target(c, bad_debt);
        post.config == pre.config && post.params == pre.params && post.debit_exchange_rate
            == pre.debit_exchange_rate && post.price_source == pre.price_source && post.shutdown
            == pre.shutdown && post.positions.entries@ == table_set(
            pre.positions.entries@,
            key,
            Position { collateral: 0, debit: 0 },
        ) && post.total_debits.entries@ == table_set(
            pre.total_debits.entries@,
            c,
            (pre.spec_total_debit(c) - pos.debit) as Balance,
        ) && match pre.spec_liquidation_swap(c, pos.collateral, target) {
            Some(s) => post.dex.fee_numerator == pre.dex.fee_numerator && post.dex.fee_denominator
                == pre.dex.fee_denominator && post.dex.pools.entries@ == table_set(
                pre.dex.pools.entries@,
                c,
                spec_pool_after_swap(pre.dex, c, s, target),
            ) && post.balances.entries@ == table_set(
                pre.balances.entries@,
                key,
                (pre.spec_balance(c, who) + (pos.collateral - s)) as Balance,
            ) && post.treasury.debit_pool == pre.treasury.debit_pool + bad_debt
                && post.treasury.surplus_pool == pre.treasury.surplus_pool + target
                && post.treasury.total_collaterals == pre.treasury.total_collaterals
                && post.treasury.auctions == pre.treasury.auctions && post.events@
                == pre.events@.push(
                Event::LiquidateUnsafeCDP(
                    c,
                    who,
                    pos.collateral,
                    bad_debt,
                    LiquidationStrategy::Exchange,
                ),
            ),
            None => post.dex == pre.dex && post.balances == pre.balances
                && post.treasury.debit_pool == pre.treasury.debit_pool + bad_debt
                && post.treasury.surplus_pool == pre.treasury.surplus_pool
                && post.treasury.total_collaterals.entries@ == table_set(
                pre.treasury.total_collaterals.entries@,
                c,
                (pre.treasury.spec_total_collaterals(c) + pos.collateral) as Balance,
            ) && post.treasury.auctions@ == pre.treasury.auctions@.push(
                AuctionItem { currency: c, amount: pos.collateral, target },
            ) && post.events@ == pre.events@.push(
                Event::LiquidateUnsafeCDP(
                    c,
                    who,
                    pos.collateral,
                    bad_debt,
                    LiquidationStrategy::Auction,
                ),
            ),
        }
    }

    /// Liquidate the unsafe position of `who` for `c`.
    ///
    /// Rejected while the system is shut down, when the position has no
    /// debt (nothing to do is reported as `NoDebitValue`), and when the
    /// position is not unsafe. On success the position is zeroed and the
    /// debt value lands in the treasury's debit pool, whichever strategy
    /// fired; the exchange strategy refunds the unspent collateral to the
    /// owner, the auction strategy hands all of it to the treasury.
    pub fn liquidate_unsafe_cdp(&mut self, who: AccountId, c: CurrencyId) -> (r: Result<
        (),
        Error,
    >)
        ensures
            match old(self).spec_liquidate_error(who, c) {
                Some(e) => r == Err::<(), Error>(e) && *final(self) == *old(self),
                None => r == Ok::<(), Error>(()) && Self::spec_liquidate_effects(
                    *old(self),
                    *final(self),
                    who,
                    c,
                ),
            },
    {
        if self.shutdown {
            return Err(Error::AlreadyShutdown);
        }
        let pos = self.positions(c, who);
        if pos.debit == 0 {
            return Err(Error::NoDebitValue);
        }
        if !self.is_cdp_unsafe(c, pos.collateral, pos.debit) {
            return Err(Error::MustBeUnsafe);
        }
        let total = self.total_debit(c);
        if total < pos.debit {
            return Err(Error::ArithmeticUnderflow);
        }
        let bad_debt = self.get_debit_value(c, pos.debit);
        let penalty = self.get_liquidation_penalty(c).saturating_mul_int(bad_debt);
        let target = match bad_debt.checked_add(penalty) {
            Some(v) => v,
            None => u128::MAX,
        };
        let key = AccountCurrency { account: who, currency: c };
        let swap = match self.dex.quote_exact_target(c, target) {
            Some(s) => if s <= pos.collateral {
                Some(s)
            } else {
                None
            },
            None => None,
        };
        match swap {
            Some(supply) => {
                let refund = pos.collateral - supply;
                let balance = self.free_balance(c, who);
                let new_balance = match balance.checked_add(refund) {
                    Some(v) => v,
                    None => {
                        return Err(Error::ArithmeticOverflow);
                    },
                };
                let new_surplus = match self.treasury.surplus_pool.checked_add(target) {
                    Some(v) => v,
                    None => {
                        return Err(Error::ArithmeticOverflow);
                    },
                };
                let new_debit_pool = match self.treasury.debit_pool.checked_add(bad_debt) {
                    Some(v) => v,
                    None => {
                        return Err(Error::ArithmeticOverflow);
                    },
                };
                self.dex.apply_swap(c, supply, target);
                self.positions.set(key, Position { collateral: 0, debit: 0 });
                self.total_debits.set(c, total - pos.debit);
                self.balances.set(key, new_balance);
                self.treasury.surplus_pool = new_surplus;
                self.treasury.debit_pool = new_debit_pool;
                self.events.push(
                    Event::LiquidateUnsafeCDP(
                        c,
                        who,
                        pos.collateral,
                        bad_debt,
                        LiquidationStrategy::Exchange,
                    ),
                );
                Ok(())
            },
            None => {
                let tally = self.treasury.get_total_collaterals(c);
                let new_tally = match tally.checked_add(pos.collateral) {
                    Some(v) => v,
                    None => {
                        return Err(Error::ArithmeticOverflow);
                    },
                };
                let new_debit_pool = match self.treasury.debit_pool.checked_add(bad_debt) {
                    Some(v) => v,
                    None => {
                        return Err(Error::ArithmeticOverflow);
                    },
                };
                self.positions.set(key, Position { collateral: 0, debit: 0 });
                self.total_debits.set(c, total - pos.debit);
                self.treasury.total_collaterals.set(c, new_tally);
                self.treasury.debit_pool = new_debit_pool;
                self.treasury.auctions.push(
                    AuctionItem { currency: c, amount: pos.collateral, target },
                );
                self.events.push(
                    Event::LiquidateUnsafeCDP(
                        c,
                        who,
                        pos.collateral,
                        bad_debt,
                        LiquidationStrategy::Auction,
                    ),
                );
                Ok(())
            },
        }
    }

    /// The permissionless liquidation entry point: unsigned calls only.
    pub fn liquidate(&mut self, origin: Origin, c: CurrencyId, who: AccountId) -> (r: Result<
        (),
        Error,
    >)
        ensures
            origin != Origin::Unsigned ==> r == Err::<(), Error>(Error::Unauthorized)
                && *final(self) == *old(self),
            origin == Origin::Unsigned ==> match old(self).spec_liquidate_error(who, c) {
                Some(e) => r == Err::<(), Error>(e) && *final(self) == *old(self),
                None => r == Ok::<(), Error>(()) && Self::spec_liquidate_effects(
                    *old(self),
                    *final(self),
                    who,
                    c,
                ),
            },
    {
        match origin {
            Origin::Unsigned => self.liquidate_unsafe_cdp(who, c),
            _ => Err(Error::Unauthorized),
        }
    }
}

impl CdpEngine {
    /// The largest collateral the owner allows a voluntary close to
    /// spend: the stated bound, capped by the position's collateral.
    pub open spec fn spec_close_supply_limit(
        collateral: Balance,
        max_collateral_amount: Option<Balance>,
    ) -> Balance {
        match max_collateral_amount {
            Some(m) => if m <= collateral {
                m
            } else {
                collateral
            },
            None => collateral,
        }
    }

    /// Why a voluntary close is rejected, if it is. The checks run in
    /// this order; the first that fails names the error.
    pub open spec fn spec_close_error(
        self,
        who: AccountId,
        c: CurrencyId,
        max_collateral_amount: Option<Balance>,
    ) -> Option<Error> {
        let pos = self.spec_position(c, who);
        let total = self.spec_total_debit(c);
        if pos.debit == 0 {
            Some(Error::NoDebitValue)
        } else if self.spec_is_cdp_unsafe(c, pos.collateral, pos.debit) {
            Some(Error::IsUnsafe)
        } else if total < pos.debit {
            Some(Error::ArithmeticUnderflow)
        } else {
            let bad_debt = self.spec_bad_debt_value(who, c);
            let limit = Self::spec_close_supply_limit(pos.collateral, max_collateral_amount);
            match self.spec_liquidation_swap(c, limit, bad_debt) {
                None => Some(Error::CannotSwap),
                Some(s) => if self.spec_balance(c, who) + (pos.collateral - s) > u128::MAX {
                    Some(Error::ArithmeticOverflow)
                } else if self.treasury.surplus_pool + bad_debt > u128::MAX {
                    Some(Error::ArithmeticOverflow)
                } else if self.treasury.debit_pool + bad_debt > u128::MAX {
                    Some(Error::ArithmeticOverflow)
                } else {
                    None
                },
            }
        }
    }

    /// What a successful voluntary close does to the state.
    pub open spec fn spec_close_effects(
        pre: CdpEngine,
        post: CdpEngine,
        who: AccountId,
        c: CurrencyId,
        max_collateral_amount: Option<Balance>,
    ) -> bool {
        let pos = pre.spec_position(c, who);
        let key = AccountCurrency { account: who, currency: c };
        let bad_debt = pre.spec_bad_debt_value(who, c);
        let limit = Self::spec_close_supply_limit(pos.collateral, max_collateral_amount);
        match pre.spec_liquidation_swap(c, limit, bad_debt) {
            None => false,
            Some(s) => post.config == pre.config && post.params == pre.params
                && post.debit_exchange_rate == pre.debit_exchange_rate && post.price_source
                == pre.price_source && post.shutdown == pre.shutdown && post.positions.entries@
                == table_set(pre.positions.entries@, key, Position { collateral: 0, debit: 0 })
                && post.total_debits.entries@ == table_set(
                pre.total_debits.entries@,
                c,
                (pre.spec_total_debit(c) - pos.debit) as Balance,
            ) && post.dex.fee_numerator == pre.dex.fee_numerator && post.dex.fee_denominator
                == pre.dex.fee_denominator && post.dex.pools.entries@ == table_set(
                pre.dex.pools.entries@,
                c,
                spec_pool_after_swap(pre.dex, c, s, bad_debt),
            ) && post.balances.entries@ == table_set(
                pre.balances.entries@,
                key,
                (pre.spec_balance(c, who) + (pos.collateral - s)) as Balance,
            ) && post.treasury.debit_pool == pre.treasury.debit_pool + bad_debt
                && post.treasury.surplus_pool == pre.treasury.surplus_pool + bad_debt
                && post.treasury.total_collaterals == pre.treasury.total_collaterals
                && post.treasury.auctions == pre.treasury.auctions && post.events@
                == pre.events@.push(
                Event::CloseCDPInDebitByDEX(
                    c,
                    who,
                    s,
                    (pos.collateral - s) as Balance,
                    bad_debt,
                ),
            ),
        }
    }

    /// Close the position of `who` for `c` voluntarily through the
    /// exchange.
    ///
    /// The position must carry debt and must not be unsafe (an unsafe
    /// position goes through liquidation instead). The exchange sells
    /// just enough collateral — no more than `max_collateral_amount`, if
    /// given — for exactly the debt value; the proceeds land in the
    /// treasury as surplus against the recognized debt, and all unsold
    /// collateral returns to the owner.
    pub fn close_cdp_has_debit_by_dex(
        &mut self,
        who: AccountId,
        c: CurrencyId,
        max_collateral_amount: Option<Balance>,
    ) -> (r: Result<(), Error>)
        ensures
            match old(self).spec_close_error(who, c, max_collateral_amount) {
                Some(e) => r == Err::<(), Error>(e) && *final(self) == *old(self),
                None => r == Ok::<(), Error>(()) && Self::spec_close_effects(
                    *old(self),
                    *final(self),
                    who,
                    c,
                    max_collateral_amount,
                ),
            },
    {
        let pos = self.positions(c, who);
        if pos.debit == 0 {
            return Err(Error::NoDebitValue);
        }
        if self.is_cdp_unsafe(c, pos.collateral, pos.debit) {
            return Err(Error::IsUnsafe);
        }
        let total = self.total_debit(c);
        if total < pos.debit {
            return Err(Error::ArithmeticUnderflow);
        }
        let bad_debt = self.get_debit_value(c, pos.debit);
        let limit = match max_collateral_amount {
            Some(m) => if m <= pos.collateral {
                m
            } else {
                pos.collateral
            },
            None => pos.collateral,
        };
        let supply = match self.dex.quote_exact_target(c, bad_debt) {
            Some(s) => if s <= limit {
                s
            } else {
                return Err(Error::CannotSwap);
            },
            None => {
                return Err(Error::CannotSwap);
            },
        };
        let refund = pos.collateral - supply;
        let balance = self.free_balance(c, who);
        let new_balance = match balance.checked_add(refund) {
            Some(v) => v,
            None => {
                return Err(Error::ArithmeticOverflow);
            },
        };
        let new_surplus = match self.treasury.surplus_pool.checked_add(bad_debt) {
            Some(v) => v,
            None => {
                return Err(Error::ArithmeticOverflow);
            },
        };
        let new_debit_pool = match self.treasury.debit_pool.checked_add(bad_debt) {
            Some(v) => v,
            None => {
                return Err(Error::ArithmeticOverflow);
            },
        };
        let key = AccountCurrency { account: who, currency: c };
        self.dex.apply_swap(c, supply, bad_debt);
        self.positions.set(key, Position { collateral: 0, debit: 0 });
        self.total_debits.set(c, total - pos.debit);
        self.balances.set(key, new_balance);
        self.treasury.surplus_pool = new_surplus;
        self.treasury.debit_pool = new_debit_pool;
        self.events.push(Event::CloseCDPInDebitByDEX(c, who, supply, refund, bad_debt));
        Ok(())
    }

    /// The collateral settlement confiscates: the debt value converted
    /// to collateral at the settlement price, capped by the position's
    /// collateral.
    pub open spec fn spec_settle_confiscation(
        self,
        who: AccountId,
        c: CurrencyId,
        settle_price_inner: int,
    ) -> Balance {
        let pos = self.spec_position(c, who);
        let bad_debt = self.spec_bad_debt_value(who, c);
        let worth = spec_mul_int(settle_price_inner, bad_debt as int);
        if worth <= pos.collateral {
            worth as Balance
        } else {
            pos.collateral
        }
    }

    /// Why a settlement is rejected, if it is. The checks run in this
    /// order; the first that fails names the error.
    pub open spec fn spec_settle_error(self, who: AccountId, c: CurrencyId) -> Option<Error> {
        let pos = self.spec_position(c, who);
        let total = self.spec_total_debit(c);
        if pos.debit == 0 {
            Some(Error::NoDebitValue)
        } else {
            match self.price_source.relative_price {
                None => Some(Error::InvalidFeedPrice),
                Some(price) => {
                    if total < pos.debit {
                        Some(Error::ArithmeticUnderflow)
                    } else {
                        let bad_debt = self.spec_bad_debt_value(who, c);
                        let confiscate = self.spec_settle_confiscation(who, c, price.inner as int);
                        if self.treasury.spec_total_collaterals(c) + confiscate > u128::MAX {
                            Some(Error::ArithmeticOverflow)
                        } else if self.treasury.debit_pool + bad_debt > u128::MAX {
                            Some(Error::ArithmeticOverflow)
                        } else {
                            None
                        }
                    }
                },
            }
        }
    }

    /// What a successful settlement does to the state.
    pub open spec fn spec_settle_effects(
        pre: CdpEngine,
        post: CdpEngine,
        who: AccountId,
        c: CurrencyId,
    ) -> bool {
        let pos = pre.spec_position(c, who);
        let key = AccountCurrency { account: who, currency: c };
        let bad_debt = pre.spec_bad_debt_value(who, c);
        match pre.price_source.relative_price {
            None => false,
            Some(price) => {
                let confiscate = pre.spec_settle_confiscation(who, c, price.inner as int);
                post.config == pre.config && post.params == pre.params
                    && post.debit_exchange_rate == pre.debit_exchange_rate && post.price_source
                    == pre.price_source && post.shutdown == pre.shutdown && post.dex == pre.dex
                    && post.balances == pre.balances && post.positions.entries@ == table_set(
                    pre.positions.entries@,
                    key,
                    Position { collateral: (pos.collateral - confiscate) as Balance, debit: 0 },
                ) && post.total_debits.entries@ == table_set(
                    pre.total_debits.entries@,
                    c,
                    (pre.spec_total_debit(c) - pos.debit) as Balance,
                ) && post.treasury.debit_pool == pre.treasury.debit_pool + bad_debt
                    && post.treasury.surplus_pool == pre.treasury.surplus_pool
                    && post.treasury.total_collaterals.entries@ == table_set(
                    pre.treasury.total_collaterals.entries@,
                    c,
                    (pre.treasury.spec_total_collaterals(c) + confiscate) as Balance,
                ) && post.treasury.auctions == pre.treasury.auctions && post.events@
                    == pre.events@.push(Event::SettleCDPInDebit(c, who))
            },
        }
    }

    /// Settle the debt of `who` for `c` during wind-down.
    ///
    /// The position must carry debt. Collateral worth exactly the debt
    /// value at the settlement price — both pools are credited with the
    /// same amounts, one for one, with no penalty — moves to the
    /// treasury, capped by what the position holds; the debt is cleared
    /// and any remaining collateral stays on the position.
    pub fn settle_cdp_has_debit(&mut self, who: AccountId, c: CurrencyId) -> (r: Result<
        (),
        Error,
    >)
        ensures
            match old(self).spec_settle_error(who, c) {
                Some(e) => r == Err::<(), Error>(e) && *final(self) == *old(self),
                None => r == Ok::<(), Error>(()) && Self::spec_settle_effects(
                    *old(self),
                    *final(self),
                    who,
                    c,
                ),
            },
    {
        let pos = self.positions(c, who);
        if pos.debit == 0 {
            return Err(Error::NoDebitValue);
        }
        let settle_price = match self.price_source.get_relative_price(
            self.config.stable_currency_id,
            c,
        ) {
            None => {
                return Err(Error::InvalidFeedPrice);
            },
            Some(p) => p,
        };
        let total = self.total_debit(c);
        if total < pos.debit {
            return Err(Error::ArithmeticUnderflow);
        }
        let bad_debt = self.get_debit_value(c, pos.debit);
        let worth = settle_price.saturating_mul_int(bad_debt);
        let confiscate = if worth <= pos.collateral {
            worth
        } else {
            pos.collateral
        };
        let tally = self.treasury.get_total_collaterals(c);
        let new_tally = match tally.checked_add(confiscate) {
            Some(v) => v,
            None => {
                return Err(Error::ArithmeticOverflow);
            },
        };
        let new_debit_pool = match self.treasury.debit_pool.checked_add(bad_debt) {
            Some(v) => v,
            None => {
                return Err(Error::ArithmeticOverflow);
            },
        };
        let key = AccountCurrency { account: who, currency: c };
        self.positions.set(
            key,
            Position { collateral: pos.collateral - confiscate, debit: 0 },
        );
        self.total_debits.set(c, total - pos.debit);
        self.treasury.total_collaterals.set(c, new_tally);
        self.treasury.debit_pool = new_debit_pool;
        self.events.push(Event::SettleCDPInDebit(c, who));
        Ok(())
    }

    /// The permissionless settlement entry point: unsigned calls only,
    /// and only once shutdown has been declared.
    pub fn settle(&mut self, origin: Origin, c: CurrencyId, who: AccountId) -> (r: Result<
        (),
        Error,
    >)
        ensures
            origin != Origin::Unsigned ==> r == Err::<(), Error>(Error::Unauthorized)
                && *final(self) == *old(self),
            origin == Origin::Unsigned && !old(self).shutdown ==> r == Err::<(), Error>(
                Error::MustAfterShutdown,
            ) && *final(self) == *old(self),
            origin == Origin::Unsigned && old(self).shutdown ==> match old(self).spec_settle_error(
                who,
                c,
            ) {
                Some(e) => r == Err::<(), Error>(e) && *final(self) == *old(self),
                None => r == Ok::<(), Error>(()) && Self::spec_settle_effects(
                    *old(self),
                    *final(self),
                    who,
                    c,
                ),
            },
    {
        match origin {
            Origin::Unsigned => {
                if !self.shutdown {
                    return Err(Error::MustAfterShutdown);
                }
                self.settle_cdp_has_debit(who, c)
            },
            _ => Err(Error::Unauthorized),
        }
    }
}


} // verus!
