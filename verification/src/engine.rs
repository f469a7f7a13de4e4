//! The engine's state, its data model, and parameter governance.
//!
//! One `CdpEngine` value holds everything an operation may read or write:
//! risk parameters, open positions, ledger balances, the treasury, the
//! exchange, the price source, the shutdown flag and the event log. Every
//! operation is a method whose contract pins the result and the new state
//! for every input; on any error the state is left exactly as it was.

use vstd::prelude::*;
use crate::currency::{AccountCurrency, AccountId, Balance, CurrencyId};
use crate::dex::Dex;
use crate::fixed::{Rate, Ratio};
use crate::oracle::MockPriceSource;
use crate::store::{table_get, table_set, KeyEq, Table};
use crate::treasury::Treasury;

verus! {

/// A per-field change directive: leave a value as it is, or overwrite it.
#[derive(Clone, Copy, PartialEq, Eq, Debug)]
pub enum Change<T> {
    /// Leave the stored value untouched.
    NoChange,
    /// Overwrite the stored value.
    NewValue(T),
}

/// Why an operation was rejected. Every rejection leaves the engine state
/// unchanged.
#[derive(Clone, Copy, PartialEq, Eq, Structural, Debug)]
pub enum Error {
    /// The caller lacks the required privilege.
    Unauthorized,
    /// The collateral type is not in the recognized set.
    InvalidCollateralType,
    /// Both adjustment deltas are zero.
    InvalidAdjustment,
    /// The new total debt value would exceed the hard cap.
    ExceedDebitValueHardCap,
    /// The price oracle reported no price.
    InvalidFeedPrice,
    /// The remaining debt would be positive but below the minimum.
    RemainDebitValueTooSmall,
    /// The collateral ratio would fall below the liquidation ratio.
    BelowLiquidationRatio,
    /// The collateral ratio would fall below the required ratio.
    BelowRequiredCollateralRatio,
    /// The position is not unsafe, so it cannot be liquidated.
    MustBeUnsafe,
    /// The position is unsafe, so it cannot be closed voluntarily.
    IsUnsafe,
    /// The position has no debt to settle or close.
    NoDebitValue,
    /// The system is shut down.
    AlreadyShutdown,
    /// The system is not shut down yet.
    MustAfterShutdown,
    /// An account balance is too low for the transfer.
    BalanceTooLow,
    /// A balance computation would fall below zero.
    ArithmeticUnderflow,
    /// A balance computation would exceed the largest balance.
    ArithmeticOverflow,
    /// The exchange cannot fill the requested swap.
    CannotSwap,
    /// The two assets do not form a collateral/stable pair.
    InvalidCurrencyPair,
    /// The liquidity provision is empty or the pool already exists.
    InvalidLiquidityIncrement,
}

/// Which strategy resolved a liquidation.
#[derive(Clone, Copy, PartialEq, Eq, Structural, Debug)]
pub enum LiquidationStrategy {
    /// The collateral was handed to the treasury for auction.
    Auction,
    /// The collateral was swapped through the exchange.
    Exchange,
}

/// The provenance of a call.
#[derive(Clone, Copy, PartialEq, Eq, Structural, Debug)]
pub enum Origin {
    /// A call signed by an account.
    Signed(AccountId),
    /// An unsigned, system-triggered call.
    Unsigned,
}

/// A notification appended to the event log by a successful operation.
#[derive(Clone, Copy, PartialEq, Eq, Debug)]
pub enum Event {
    /// The liquidation ratio of a collateral type was overwritten.
    LiquidationRatioUpdated(CurrencyId, Option<Ratio>),
    /// The liquidation penalty of a collateral type was overwritten.
    LiquidationPenaltyUpdated(CurrencyId, Option<Rate>),
    /// The required collateral ratio of a collateral type was overwritten.
    RequiredCollateralRatioUpdated(CurrencyId, Option<Ratio>),
    /// The debt cap of a collateral type was overwritten.
    MaximumTotalDebitValueUpdated(CurrencyId, Balance),
    /// An unsafe position was liquidated: collateral amount, debt value,
    /// and the strategy used.
    LiquidateUnsafeCDP(CurrencyId, AccountId, Balance, Balance, LiquidationStrategy),
    /// A position's debt was settled after shutdown.
    SettleCDPInDebit(CurrencyId, AccountId),
    /// A position was closed through the exchange: collateral sold,
    /// collateral refunded, and debt value repaid.
    CloseCDPInDebitByDEX(CurrencyId, AccountId, Balance, Balance, Balance),
}

/// An account's open pair for one collateral type.
#[derive(Clone, Copy, PartialEq, Eq, Structural, Debug)]
pub struct Position {
    /// Locked collateral.
    pub collateral: Balance,
    /// Debt, in internal debit units.
    pub debit: Balance,
}

/// The mutable risk parameters of one collateral type.
#[derive(Clone, Copy, PartialEq, Eq, Debug)]
pub struct RiskParams {
    /// The ratio below which a position is unsafe; `None` falls back to
    /// the system default.
    pub liquidation_ratio: Option<Ratio>,
    /// The fractional penalty charged on liquidation; `None` falls back
    /// to the system default.
    pub liquidation_penalty: Option<Rate>,
    /// The ratio required to increase debt; `None` disables the check.
    pub required_collateral_ratio: Option<Ratio>,
    /// The hard cap on the total debt value of this collateral type.
    pub maximum_total_debit_value: Balance,
}

/// The record a collateral type has before any parameters were set.
pub open spec fn spec_default_params() -> RiskParams {
    RiskParams {
        liquidation_ratio: None,
        liquidation_penalty: None,
        required_collateral_ratio: None,
        maximum_total_debit_value: 0,
    }
}

/// The engine's immutable configuration.
pub struct EngineConfig {
    /// The account allowed to set risk parameters.
    pub governance_account: AccountId,
    /// The collateral types the engine recognizes.
    pub collateral_currency_ids: Vec<CurrencyId>,
    /// The stable asset minted against collateral.
    pub stable_currency_id: CurrencyId,
    /// The smallest positive debt value a position may keep.
    pub minimum_debit_value: Balance,
    /// The liquidation ratio used when none is stored.
    pub default_liquidation_ratio: Ratio,
    /// The liquidation penalty used when none is stored.
    pub default_liquidation_penalty: Rate,
    /// The debit exchange rate used when none is stored.
    pub default_debit_exchange_rate: Rate,
}

/// The whole engine: configuration and every piece of mutable state.
pub struct CdpEngine {
    /// Immutable configuration.
    pub config: EngineConfig,
    /// Risk parameters, per collateral type.
    pub params: Table<CurrencyId, RiskParams>,
    /// Debit exchange rates, per collateral type. The engine itself never
    /// writes this store — rate accrual is outside this core — so reads
    /// fall back to the configured default.
    pub debit_exchange_rate: Table<CurrencyId, Rate>,
    /// Open positions, per collateral type and account.
    pub positions: Table<AccountCurrency, Position>,
    /// Free balances, per account and asset.
    pub balances: Table<AccountCurrency, Balance>,
    /// The sum of all accounts' debits, per collateral type.
    pub total_debits: Table<CurrencyId, Balance>,
    /// The treasury pools.
    pub treasury: Treasury,
    /// The exchange pools.
    pub dex: Dex,
    /// The price source.
    pub price_source: MockPriceSource,
    /// Whether global shutdown has been declared.
    pub shutdown: bool,
    /// The event log, oldest first.
    pub events: Vec<Event>,
}

/// The record stored for `c` in a parameter table, or the default.
pub open spec fn spec_stored_params(t: Seq<(CurrencyId, RiskParams)>, c: CurrencyId) -> RiskParams {
    match table_get(t, c) {
        Some(p) => p,
        None => spec_default_params(),
    }
}

impl CdpEngine {
    /// The stored risk parameters of `c`, or the default record.
    pub open spec fn spec_collateral_params(self, c: CurrencyId) -> RiskParams {
        spec_stored_params(self.params.entries@, c)
    }

    /// The effective liquidation ratio of `c`.
    pub open spec fn spec_liquidation_ratio(self, c: CurrencyId) -> Ratio {
        match self.spec_collateral_params(c).liquidation_ratio {
            Some(r) => r,
            None => self.config.default_liquidation_ratio,
        }
    }

    /// The effective liquidation penalty of `c`.
    pub open spec fn spec_liquidation_penalty(self, c: CurrencyId) -> Rate {
        match self.spec_collateral_params(c).liquidation_penalty {
            Some(r) => r,
            None => self.config.default_liquidation_penalty,
        }
    }

    /// The effective debit exchange rate of `c`.
    pub open spec fn spec_debit_exchange_rate(self, c: CurrencyId) -> Rate {
        match table_get(self.debit_exchange_rate.entries@, c) {
            Some(r) => r,
            None => self.config.default_debit_exchange_rate,
        }
    }

    /// The open position of `who` for `c`; a missing entry is the closed
    /// position.
    pub open spec fn spec_position(self, c: CurrencyId, who: AccountId) -> Position {
        match table_get(
            self.positions.entries@,
            AccountCurrency { account: who, currency: c },
        ) {
            Some(p) => p,
            None => Position { collateral: 0, debit: 0 },
        }
    }

    /// The free balance of `who` in asset `c`.
    pub open spec fn spec_balance(self, c: CurrencyId, who: AccountId) -> Balance {
        match table_get(
            self.balances.entries@,
            AccountCurrency { account: who, currency: c },
        ) {
            Some(b) => b,
            None => 0,
        }
    }

    /// The total debit balance recorded for `c`.
    pub open spec fn spec_total_debit(self, c: CurrencyId) -> Balance {
        match table_get(self.total_debits.entries@, c) {
            Some(b) => b,
            None => 0,
        }
    }

    /// Whether `c` is a recognized collateral type.
    pub open spec fn spec_is_collateral(self, c: CurrencyId) -> bool {
        self.config.collateral_currency_ids@.contains(c)
    }

    /// Decide whether `c` is a recognized collateral type.
    pub fn is_collateral_currency(&self, c: CurrencyId) -> (r: bool)
        ensures
            r == self.spec_is_collateral(c),
    {
        let n = self.config.collateral_currency_ids.len();
        let mut i: usize = 0;
        while i < n
            invariant
                i <= n,
                n == self.config.collateral_currency_ids@.len(),
                forall|j: int|
                    0 <= j < i ==> self.config.collateral_currency_ids@[j] != c,
            decreases n - i,
        {
            if self.config.collateral_currency_ids[i].key_eq(c) {
                proof {
                    assert(self.config.collateral_currency_ids@[i as int] == c);
                }
                return true;
            }
            i = i + 1;
        }
        false
    }

    /// Read the stored risk parameters of `c` (the default record if none
    /// were ever set).
    pub fn collateral_params(&self, c: CurrencyId) -> (r: RiskParams)
        ensures
            r == self.spec_collateral_params(c),
    {
        match self.params.get(c) {
            Some(p) => p,
            None => RiskParams {
                liquidation_ratio: None,
                liquidation_penalty: None,
                required_collateral_ratio: None,
                maximum_total_debit_value: 0,
            },
        }
    }

    /// Read the effective liquidation ratio of `c`.
    pub fn get_liquidation_ratio(&self, c: CurrencyId) -> (r: Ratio)
        ensures
            r == self.spec_liquidation_ratio(c),
    {
        match self.collateral_params(c).liquidation_ratio {
            Some(r) => r,
            None => self.config.default_liquidation_ratio,
        }
    }

    /// Read the effective liquidation penalty of `c`.
    pub fn get_liquidation_penalty(&self, c: CurrencyId) -> (r: Rate)
        ensures
            r == self.spec_liquidation_penalty(c),
    {
        match self.collateral_params(c).liquidation_penalty {
            Some(r) => r,
            None => self.config.default_liquidation_penalty,
        }
    }

    /// Read the effective debit exchange rate of `c`.
    pub fn get_debit_exchange_rate(&self, c: CurrencyId) -> (r: Rate)
        ensures
            r == self.spec_debit_exchange_rate(c),
    {
        match self.debit_exchange_rate.get(c) {
            Some(r) => r,
            None => self.config.default_debit_exchange_rate,
        }
    }

    /// Read the open position of `who` for `c`.
    pub fn positions(&self, c: CurrencyId, who: AccountId) -> (r: Position)
        ensures
            r == self.spec_position(c, who),
    {
        match self.positions.get(AccountCurrency { account: who, currency: c }) {
            Some(p) => p,
            None => Position { collateral: 0, debit: 0 },
        }
    }

    /// Read the free balance of `who` in asset `c`.
    pub fn free_balance(&self, c: CurrencyId, who: AccountId) -> (r: Balance)
        ensures
            r == self.spec_balance(c, who),
    {
        match self.balances.get(AccountCurrency { account: who, currency: c }) {
            Some(b) => b,
            None => 0,
        }
    }

    /// Read the total debit balance recorded for `c`.
    pub fn total_debit(&self, c: CurrencyId) -> (r: Balance)
        ensures
            r == self.spec_total_debit(c),
    {
        match self.total_debits.get(c) {
            Some(b) => b,
            None => 0,
        }
    }

    /// Read the treasury's debit pool.
    pub fn debit_pool(&self) -> (r: Balance)
        ensures
            r == self.treasury.debit_pool,
    {
        self.treasury.debit_pool
    }

    /// Read the treasury's debit pool.
    pub fn get_debit_pool(&self) -> (r: Balance)
        ensures
            r == self.treasury.debit_pool,
    {
        self.treasury.debit_pool
    }

    /// Read the treasury's surplus pool.
    pub fn get_surplus_pool(&self) -> (r: Balance)
        ensures
            r == self.treasury.surplus_pool,
    {
        self.treasury.surplus_pool
    }

    /// Read the treasury's collateral tally for `c`.
    pub fn total_collaterals(&self, c: CurrencyId) -> (r: Balance)
        ensures
            r == self.treasury.spec_total_collaterals(c),
    {
        self.treasury.get_total_collaterals(c)
    }

    /// Declare global shutdown. Irreversible: from here on only
    /// settlement operations are allowed through the dispatch entry
    /// points.
    pub fn declare_shutdown(&mut self)
        ensures
            final(self).shutdown == true,
            final(self).config == old(self).config,
            final(self).params == old(self).params,
            final(self).debit_exchange_rate == old(self).debit_exchange_rate,
            final(self).positions == old(self).positions,
            final(self).balances == old(self).balances,
            final(self).total_debits == old(self).total_debits,
            final(self).treasury == old(self).treasury,
            final(self).dex == old(self).dex,
            final(self).price_source == old(self).price_source,
            final(self).events == old(self).events,
    {
        self.shutdown = true;
    }
}

/// A parameter record after applying four change directives field by
/// field.
pub open spec fn spec_apply_changes(
    p: RiskParams,
    liquidation_ratio: Change<Option<Ratio>>,
    liquidation_penalty: Change<Option<Rate>>,
    required_collateral_ratio: Change<Option<Ratio>>,
    maximum_total_debit_value: Change<Balance>,
) -> RiskParams {
    RiskParams {
        liquidation_ratio: match liquidation_ratio {
            Change::NewValue(v) => v,
            Change::NoChange => p.liquidation_ratio,
        },
        liquidation_penalty: match liquidation_penalty {
            Change::NewValue(v) => v,
            Change::NoChange => p.liquidation_penalty,
        },
        required_collateral_ratio: match required_collateral_ratio {
            Change::NewValue(v) => v,
            Change::NoChange => p.required_collateral_ratio,
        },
        maximum_total_debit_value: match maximum_total_debit_value {
            Change::NewValue(v) => v,
            Change::NoChange => p.maximum_total_debit_value,
        },
    }
}

/// The change notifications a parameter update emits: one per field set
/// with `NewValue`, in argument order.
pub open spec fn spec_param_update_events(
    c: CurrencyId,
    liquidation_ratio: Change<Option<Ratio>>,
    liquidation_penalty: Change<Option<Rate>>,
    required_collateral_ratio: Change<Option<Ratio>>,
    maximum_total_debit_value: Change<Balance>,
) -> Seq<Event> {
    (match liquidation_ratio {
        Change::NewValue(v) => seq![Event::LiquidationRatioUpdated(c, v)],
        Change::NoChange => Seq::<Event>::empty(),
    }) + (match liquidation_penalty {
        Change::NewValue(v) => seq![Event::LiquidationPenaltyUpdated(c, v)],
        Change::NoChange => Seq::<Event>::empty(),
    }) + (match required_collateral_ratio {
        Change::NewValue(v) => seq![Event::RequiredCollateralRatioUpdated(c, v)],
        Change::NoChange => Seq::<Event>::empty(),
    }) + (match maximum_total_debit_value {
        Change::NewValue(v) => seq![Event::MaximumTotalDebitValueUpdated(c, v)],
        Change::NoChange => Seq::<Event>::empty(),
    })
}

/// Why a parameter update is rejected, if it is.
pub open spec fn spec_set_params_error(e: CdpEngine, origin: Origin, c: CurrencyId) -> Option<
    Error,
> {
    if origin != Origin::Signed(e.config.governance_account) {
        Some(Error::Unauthorized)
    } else if !e.spec_is_collateral(c) {
        Some(Error::InvalidCollateralType)
    } else {
        None
    }
}

/// A parameter table after an update for `c`.
pub open spec fn spec_params_table_after(
    t: Seq<(CurrencyId, RiskParams)>,
    c: CurrencyId,
    liquidation_ratio: Change<Option<Ratio>>,
    liquidation_penalty: Change<Option<Rate>>,
    required_collateral_ratio: Change<Option<Ratio>>,
    maximum_total_debit_value: Change<Balance>,
) -> Seq<(CurrencyId, RiskParams)> {
    table_set(
        t,
        c,
        spec_apply_changes(
            spec_stored_params(t, c),
            liquidation_ratio,
            liquidation_penalty,
            required_collateral_ratio,
            maximum_total_debit_value,
        ),
    )
}

/// The parameter table after a successful update for `c`.
pub open spec fn spec_params_after(
    e: CdpEngine,
    c: CurrencyId,
    liquidation_ratio: Change<Option<Ratio>>,
    liquidation_penalty: Change<Option<Rate>>,
    required_collateral_ratio: Change<Option<Ratio>>,
    maximum_total_debit_value: Change<Balance>,
) -> Seq<(CurrencyId, RiskParams)> {
    spec_params_table_after(
        e.params.entries@,
        c,
        liquidation_ratio,
        liquidation_penalty,
        required_collateral_ratio,
        maximum_total_debit_value,
    )
}

impl CdpEngine {
    /// Overwrite the risk parameters of `c` field by field.
    ///
    /// Only the governance account may call this, and only for a
    /// recognized collateral type. Each field set with `NewValue` emits
    /// one change notification; fields set to the value already stored
    /// still emit one, but the stored state ends exactly as a single
    /// such update would leave it. Open positions are not touched:
    /// parameter changes apply prospectively.
    pub fn set_collateral_params(
        &mut self,
        origin: Origin,
        c: CurrencyId,
        liquidation_ratio: Change<Option<Ratio>>,
        liquidation_penalty: Change<Option<Rate>>,
        required_collateral_ratio: Change<Option<Ratio>>,
        maximum_total_debit_value: Change<Balance>,
    ) -> (r: Result<(), Error>)
        ensures
            final(self).config == old(self).config,
            final(self).debit_exchange_rate == old(self).debit_exchange_rate,
            final(self).positions == old(self).positions,
            final(self).balances == old(self).balances,
            final(self).total_debits == old(self).total_debits,
            final(self).treasury == old(self).treasury,
            final(self).dex == old(self).dex,
            final(self).price_source == old(self).price_source,
            final(self).shutdown == old(self).shutdown,
            match spec_set_params_error(*old(self), origin, c) {
                Some(e) => r == Err::<(), Error>(e) && final(self).params == old(self).params
                    && final(self).events == old(self).events,
                None => r == Ok::<(), Error>(()) && final(self).params.entries@
                    == spec_params_after(
                    *old(self),
                    c,
                    liquidation_ratio,
                    liquidation_penalty,
                    required_collateral_ratio,
                    maximum_total_debit_value,
                ) && final(self).events@ == old(self).events@ + spec_param_update_events(
                    c,
                    liquidation_ratio,
                    liquidation_penalty,
                    required_collateral_ratio,
                    maximum_total_debit_value,
                ),
            },
    {
        let authorized = match origin {
            Origin::Signed(who) => who == self.config.governance_account,
            Origin::Unsigned => false,
        };
        if !authorized {
            return Err(Error::Unauthorized);
        }
        if !self.is_collateral_currency(c) {
            return Err(Error::InvalidCollateralType);
        }
        let mut record = self.collateral_params(c);
        match liquidation_ratio {
            Change::NewValue(v) => {
                record.liquidation_ratio = v;
                self.events.push(Event::LiquidationRatioUpdated(c, v));
            },
            Change::NoChange => {},
        }
        match liquidation_penalty {
            Change::NewValue(v) => {
                record.liquidation_penalty = v;
                self.events.push(Event::LiquidationPenaltyUpdated(c, v));
            },
            Change::NoChange => {},
        }
        match required_collateral_ratio {
            Change::NewValue(v) => {
                record.required_collateral_ratio = v;
                self.events.push(Event::RequiredCollateralRatioUpdated(c, v));
            },
            Change::NoChange => {},
        }
        match maximum_total_debit_value {
            Change::NewValue(v) => {
                record.maximum_total_debit_value = v;
                self.events.push(Event::MaximumTotalDebitValueUpdated(c, v));
            },
            Change::NoChange => {},
        }
        self.params.set(c, record);
        proof {
            assert(final(self).events@ =~= old(self).events@ + spec_param_update_events(
                c,
                liquidation_ratio,
                liquidation_penalty,
                required_collateral_ratio,
                maximum_total_debit_value,
            ));
        }
        Ok(())
    }
}

} // verus!
