//! The exchange model: constant-product pools against the stable asset.
//!
//! The engine consumes the exchange through one contract: swap as little
//! collateral as possible for an exact stable-asset amount, subject to a
//! supply bound. Each pool pairs one collateral type with the stable asset
//! and charges a fractional fee on the way in; the supply owed for an
//! exact target is the classic constant-product formula rounded up by one.

use vstd::prelude::*;
use crate::arith::mul_div_sat;
use crate::currency::{AccountCurrency, AccountId, Balance, CurrencyId};
use crate::engine::{CdpEngine, Error, Origin};
use crate::store::{table_get, table_set, KeyEq, Table};

verus! {

/// One pool: reserves of a collateral type and of the stable asset.
#[derive(Clone, Copy, PartialEq, Eq, Structural, Debug)]
pub struct Pool {
    /// The collateral-side reserve.
    pub collateral_reserve: Balance,
    /// The stable-asset reserve.
    pub stable_reserve: Balance,
}

/// The exchange: one pool per collateral type, and the exchange fee as a
/// fraction `fee_numerator / fee_denominator` taken on the supplied side.
pub struct Dex {
    /// Pools, keyed by the collateral type paired against the stable asset.
    pub pools: Table<CurrencyId, Pool>,
    /// Fee fraction numerator.
    pub fee_numerator: u128,
    /// Fee fraction denominator.
    pub fee_denominator: u128,
}

/// The collateral owed for an exact stable-asset `target` out of the pool
/// for `c`: `floor(reserve_in * target * fd / ((reserve_out - target) *
/// (fd - fn))) + 1`, or `None` when the pool is missing, the target is
/// zero or not covered by the reserve, the fee is degenerate, or a step
/// does not fit in a `u128`.
pub open spec fn spec_swap_supply(dex: Dex, c: CurrencyId, target: Balance) -> Option<Balance> {
    match table_get(dex.pools.entries@, c) {
        None => None,
        Some(p) => {
            if target == 0 || target >= p.stable_reserve {
                None
            } else if dex.fee_denominator <= dex.fee_numerator {
                None
            } else if target * dex.fee_denominator > u128::MAX {
                None
            } else if (p.stable_reserve - target) * (dex.fee_denominator - dex.fee_numerator)
                > u128::MAX {
                None
            } else {
                let scaled_target = target * dex.fee_denominator;
                let denom = (p.stable_reserve - target) * (dex.fee_denominator
                    - dex.fee_numerator);
                let floor_supply = (p.collateral_reserve * scaled_target) / denom;
                if floor_supply + 1 > u128::MAX {
                    None
                } else if p.collateral_reserve + floor_supply + 1 > u128::MAX {
                    None
                } else {
                    Some((floor_supply + 1) as Balance)
                }
            }
        },
    }
}

impl Dex {
    /// An exchange with no pools and the given fee fraction.
    pub fn new(fee_numerator: u128, fee_denominator: u128) -> (r: Self)
        ensures
            r.pools.entries@ == Seq::<(CurrencyId, Pool)>::empty(),
            r.fee_numerator == fee_numerator,
            r.fee_denominator == fee_denominator,
    {
        Dex { pools: Table::new(), fee_numerator, fee_denominator }
    }

    /// The collateral owed for an exact `target`, without touching state.
    pub fn quote_exact_target(&self, c: CurrencyId, target: Balance) -> (r: Option<Balance>)
        ensures
            r == spec_swap_supply(*self, c, target),
    {
        let p = match self.pools.get(c) {
            Some(p) => p,
            None => {
                return None;
            },
        };
        if target == 0 || target >= p.stable_reserve {
            return None;
        }
        if self.fee_denominator <= self.fee_numerator {
            return None;
        }
        let scaled_target = match target.checked_mul(self.fee_denominator) {
            Some(v) => v,
            None => {
                return None;
            },
        };
        let denom = match (p.stable_reserve - target).checked_mul(
            self.fee_denominator - self.fee_numerator,
        ) {
            Some(v) => v,
            None => {
                return None;
            },
        };
        proof {
            assert(denom >= 1) by (nonlinear_arith)
                requires
                    denom == (p.stable_reserve - target) * (dex_fee_gap(*self)),
                    p.stable_reserve - target >= 1,
                    dex_fee_gap(*self) >= 1,
            ;
        }
        let floor_supply = mul_div_sat(p.collateral_reserve, scaled_target, denom);
        if floor_supply == u128::MAX {
            return None;
        }
        let supply = floor_supply + 1;
        match p.collateral_reserve.checked_add(supply) {
            Some(_) => Some(supply),
            None => None,
        }
    }

    /// Execute a swap already quoted: move the supplied collateral in and
    /// the exact target out of the pool for `c`.
    pub fn apply_swap(&mut self, c: CurrencyId, supply: Balance, target: Balance)
        requires
            spec_swap_supply(*old(self), c, target) == Some(supply),
        ensures
            final(self).fee_numerator == old(self).fee_numerator,
            final(self).fee_denominator == old(self).fee_denominator,
            final(self).pools.entries@ == table_set(
                old(self).pools.entries@,
                c,
                spec_pool_after_swap(*old(self), c, supply, target),
            ),
    {
        let p = match self.pools.get(c) {
            Some(p) => p,
            None => {
                proof {
                    assert(false);
                }
                Pool { collateral_reserve: 0, stable_reserve: 0 }
            },
        };
        proof {
            let dex = *old(self);
            let pp = table_get(dex.pools.entries@, c)->Some_0;
            assert(p == pp);
            assert(spec_swap_supply(dex, c, target) == Some(supply));
            assert(target != 0);
            assert(dex.fee_denominator > dex.fee_numerator);
            assert(target * dex.fee_denominator <= u128::MAX);
            let scaled_target = target * dex.fee_denominator;
            let denom = (pp.stable_reserve - target) * (dex.fee_denominator - dex.fee_numerator);
            let floor_supply = (pp.collateral_reserve * scaled_target) / denom;
            assert(pp.collateral_reserve * scaled_target >= 0 && denom > 0) by (nonlinear_arith)
                requires
                    pp.collateral_reserve >= 0,
                    scaled_target >= 0,
                    denom == (pp.stable_reserve - target) * (dex.fee_denominator
                        - dex.fee_numerator),
                    pp.stable_reserve - target >= 1,
                    dex.fee_denominator - dex.fee_numerator >= 1,
            ;
            vstd::arithmetic::div_mod::lemma_div_pos_is_pos(
                pp.collateral_reserve * scaled_target,
                denom,
            );
            assert(supply == floor_supply + 1);
            assert(pp.collateral_reserve + floor_supply + 1 <= u128::MAX);
            assert(target < pp.stable_reserve);
        }
        self.pools.set(
            c,
            Pool {
                collateral_reserve: p.collateral_reserve + supply,
                stable_reserve: p.stable_reserve - target,
            },
        );
    }
}

/// The fee gap `fd - fn` of the exchange, as an integer.
pub open spec fn dex_fee_gap(dex: Dex) -> int {
    dex.fee_denominator - dex.fee_numerator
}

/// The pool for `c` after swapping `supply` in for `target` out.
pub open spec fn spec_pool_after_swap(dex: Dex, c: CurrencyId, supply: Balance, target: Balance) -> Pool {
    let p = table_get(dex.pools.entries@, c)->Some_0;
    Pool {
        collateral_reserve: (p.collateral_reserve + supply) as Balance,
        stable_reserve: (p.stable_reserve - target) as Balance,
    }
}

impl CdpEngine {
    /// Why a liquidity provision is rejected, if it is. The checks run
    /// in this order; the first that fails names the error.
    pub open spec fn spec_add_liquidity_error(
        self,
        origin: Origin,
        currency_a: CurrencyId,
        currency_b: CurrencyId,
        max_amount_a: Balance,
        max_amount_b: Balance,
    ) -> Option<Error> {
        match origin {
            Origin::Unsigned => Some(Error::Unauthorized),
            Origin::Signed(who) => {
                let stable = self.config.stable_currency_id;
                if (currency_a == stable) == (currency_b == stable) {
                    Some(Error::InvalidCurrencyPair)
                } else {
                    let pool_currency = if currency_b == stable {
                        currency_a
                    } else {
                        currency_b
                    };
                    let amount_collateral = if currency_b == stable {
                        max_amount_a
                    } else {
                        max_amount_b
                    };
                    let amount_stable = if currency_b == stable {
                        max_amount_b
                    } else {
                        max_amount_a
                    };
                    if amount_collateral == 0 || amount_stable == 0 {
                        Some(Error::InvalidLiquidityIncrement)
                    } else if table_get(self.dex.pools.entries@, pool_currency) is Some {
                        Some(Error::InvalidLiquidityIncrement)
                    } else if self.spec_balance(pool_currency, who) < amount_collateral {
                        Some(Error::BalanceTooLow)
                    } else if self.spec_balance(stable, who) < amount_stable {
                        Some(Error::BalanceTooLow)
                    } else {
                        None
                    }
                }
            },
        }
    }

    /// What a successful liquidity provision does to the state.
    pub open spec fn spec_add_liquidity_effects(
        pre: CdpEngine,
        post: CdpEngine,
        who: AccountId,
        currency_a: CurrencyId,
        currency_b: CurrencyId,
        max_amount_a: Balance,
        max_amount_b: Balance,
    ) -> bool {
        let stable = pre.config.stable_currency_id;
        let pool_currency = if currency_b == stable {
            currency_a
        } else {
            currency_b
        };
        let amount_collateral = if currency_b == stable {
            max_amount_a
        } else {
            max_amount_b
        };
        let amount_stable = if currency_b == stable {
            max_amount_b
        } else {
            max_amount_a
        };
        let key = AccountCurrency { account: who, currency: pool_currency };
        let skey = AccountCurrency { account: who, currency: stable };
        post.config == pre.config && post.params == pre.params && post.debit_exchange_rate
            == pre.debit_exchange_rate && post.positions == pre.positions && post.total_debits
            == pre.total_debits && post.treasury == pre.treasury && post.price_source
            == pre.price_source && post.shutdown == pre.shutdown && post.events == pre.events
            && post.dex.fee_numerator == pre.dex.fee_numerator && post.dex.fee_denominator
            == pre.dex.fee_denominator && post.dex.pools.entries@ == table_set(
            pre.dex.pools.entries@,
            pool_currency,
            Pool { collateral_reserve: amount_collateral, stable_reserve: amount_stable },
        ) && post.balances.entries@ == table_set(
            table_set(
                pre.balances.entries@,
                key,
                (pre.spec_balance(pool_currency, who) - amount_collateral) as Balance,
            ),
            skey,
            (pre.spec_balance(stable, who) - amount_stable) as Balance,
        )
    }

    /// Provide the first liquidity of a pool: one collateral type paired
    /// against the stable asset.
    ///
    /// The caller must sign; the two assets must form a collateral/stable
    /// pair, in either order; both amounts must be nonzero and covered by
    /// the caller's balances; and the pool must not exist yet — this
    /// model supports only the initial provision, so the amounts are
    /// taken in full and become the reserves. Pool shares are not
    /// modeled: `_min_share_increment` and `_stake_increment_share` are
    /// accepted for interface fidelity and ignored.
    pub fn add_liquidity(
        &mut self,
        origin: Origin,
        currency_a: CurrencyId,
        currency_b: CurrencyId,
        max_amount_a: Balance,
        max_amount_b: Balance,
        _min_share_increment: Balance,
        _stake_increment_share: bool,
    ) -> (r: Result<(), Error>)
        ensures
            match old(self).spec_add_liquidity_error(
                origin,
                currency_a,
                currency_b,
                max_amount_a,
                max_amount_b,
            ) {
                Some(e) => r == Err::<(), Error>(e) && *final(self) == *old(self),
                None => r == Ok::<(), Error>(()) && (origin matches Origin::Signed(who)
                    && Self::spec_add_liquidity_effects(
                    *old(self),
                    *final(self),
                    who,
                    currency_a,
                    currency_b,
                    max_amount_a,
                    max_amount_b,
                )),
            },
    {
        let who = match origin {
            Origin::Signed(who) => who,
            Origin::Unsigned => {
                return Err(Error::Unauthorized);
            },
        };
        let stable = self.config.stable_currency_id;
        let a_is_stable = currency_a.key_eq(stable);
        let b_is_stable = currency_b.key_eq(stable);
        if a_is_stable == b_is_stable {
            return Err(Error::InvalidCurrencyPair);
        }
        let pool_currency = if b_is_stable {
            currency_a
        } else {
            currency_b
        };
        let amount_collateral = if b_is_stable {
            max_amount_a
        } else {
            max_amount_b
        };
        let amount_stable = if b_is_stable {
            max_amount_b
        } else {
            max_amount_a
        };
        if amount_collateral == 0 || amount_stable == 0 {
            return Err(Error::InvalidLiquidityIncrement);
        }
        match self.dex.pools.get(pool_currency) {
            Some(_) => {
                return Err(Error::InvalidLiquidityIncrement);
            },
            None => {},
        }
        let collateral_balance = self.free_balance(pool_currency, who);
        if collateral_balance < amount_collateral {
            return Err(Error::BalanceTooLow);
        }
        let stable_balance = self.free_balance(stable, who);
        if stable_balance < amount_stable {
            return Err(Error::BalanceTooLow);
        }
        let key = AccountCurrency { account: who, currency: pool_currency };
        let skey = AccountCurrency { account: who, currency: stable };
        self.dex.pools.set(
            pool_currency,
            Pool { collateral_reserve: amount_collateral, stable_reserve: amount_stable },
        );
        self.balances.set(key, collateral_balance - amount_collateral);
        self.balances.set(skey, stable_balance - amount_stable);
        Ok(())
    }
}


} // verus!
