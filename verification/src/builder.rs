//! Building a configured engine, and small deterministic helpers the
//! test suite uses.
//!
//! `ExtBuilder` assembles a fresh engine with the standard test
//! configuration: account 1 governs, BTC is the one enabled collateral
//! type, the stable asset is SETUSD, and the oracle starts at price one.

use vstd::prelude::*;
use crate::currency::{AccountCurrency, AccountId, Balance, CurrencyId};
use crate::dex::Dex;
use crate::engine::{CdpEngine, EngineConfig, Error};
use crate::fixed::{spec_from_rational, FixedU128, FIXED_SCALE};
use crate::oracle::MockPriceSource;
use crate::store::{table_set, Table};
use crate::treasury::Treasury;

verus! {

/// The first test account; it also governs the engine built here.
pub const ALICE: AccountId = 1;

/// The second test account.
pub const BOB: AccountId = 2;

/// The third test account, the liquidity provider.
pub const CAROL: AccountId = 3;

/// Convert a (currency, balance) pair to a value: half the balance,
/// rounded down.
pub struct MockConvert;

impl MockConvert {
    /// Halve the balance of the pair, whatever the currency.
    pub fn convert(a: (CurrencyId, Balance)) -> (r: Balance)
        ensures
            r == a.1 / 2,
    {
        a.1 / 2
    }
}

/// A stand-in standard validator: it accepts exactly one currency.
pub struct MockStandardValidator;

impl MockStandardValidator {
    /// Accept EURJ positions and reject every other currency.
    pub fn check_position_valid(
        currency_id: CurrencyId,
        _reserve_balance: Balance,
        _standard_balance: Balance,
    ) -> (r: Result<(), Error>)
        ensures
            r == (if currency_id == CurrencyId::EURJ {
                Ok::<(), Error>(())
            } else {
                Err::<(), Error>(Error::InvalidCollateralType)
            }),
    {
        match currency_id {
            CurrencyId::EURJ => Ok(()),
            _ => Err(Error::InvalidCollateralType),
        }
    }
}

/// The balance table that a list of (account, currency, amount) rows
/// builds, first row bound first.
pub open spec fn spec_balances_table(s: Seq<(AccountId, CurrencyId, Balance)>) -> Seq<
    (AccountCurrency, Balance),
>
    decreases s.len(),
{
    if s.len() <= 0 {
        Seq::<(AccountCurrency, Balance)>::empty()
    } else {
        table_set(
            spec_balances_table(s.drop_last()),
            AccountCurrency { account: s.last().0, currency: s.last().1 },
            s.last().2,
        )
    }
}

/// A builder for a configured engine with initial balances.
pub struct ExtBuilder {
    /// Initial rows: account, asset, amount.
    pub balances: Vec<(AccountId, CurrencyId, Balance)>,
}

impl Default for ExtBuilder {
    /// The standard test balances: a thousand BTC for each account, and
    /// a thousand SETUSD for the liquidity provider.
    fn default() -> (r: Self)
        ensures
            r.balances@ == seq![
                (ALICE, CurrencyId::BTC, 1000u128),
                (BOB, CurrencyId::BTC, 1000u128),
                (CAROL, CurrencyId::BTC, 1000u128),
                (CAROL, CurrencyId::SETUSD, 1000u128),
            ],
    {
        let balances = vec![
            (ALICE, CurrencyId::BTC, 1000u128),
            (BOB, CurrencyId::BTC, 1000u128),
            (CAROL, CurrencyId::BTC, 1000u128),
            (CAROL, CurrencyId::SETUSD, 1000u128),
        ];
        proof {
            assert(balances@ =~= seq![
                (ALICE, CurrencyId::BTC, 1000u128),
                (BOB, CurrencyId::BTC, 1000u128),
                (CAROL, CurrencyId::BTC, 1000u128),
                (CAROL, CurrencyId::SETUSD, 1000u128),
            ]);
        }
        ExtBuilder { balances }
    }
}

impl ExtBuilder {
    /// Build the engine: the standard configuration, no open positions,
    /// no parameters set, an empty treasury and exchange, the oracle at
    /// price one, and the given initial balances.
    pub fn build(self) -> (engine: CdpEngine)
        ensures
            engine.config.governance_account == ALICE,
            engine.config.collateral_currency_ids@ == seq![CurrencyId::BTC],
            engine.config.stable_currency_id == CurrencyId::SETUSD,
            engine.config.minimum_debit_value == 2,
            engine.config.default_liquidation_ratio.inner == spec_from_rational(3, 2),
            engine.config.default_liquidation_penalty.inner == spec_from_rational(1, 10),
            engine.config.default_debit_exchange_rate.inner == FIXED_SCALE,
            engine.params.entries@.len() == 0,
            engine.debit_exchange_rate.entries@.len() == 0,
            engine.positions.entries@.len() == 0,
            engine.balances.entries@ == spec_balances_table(self.balances@),
            engine.total_debits.entries@.len() == 0,
            engine.treasury.debit_pool == 0,
            engine.treasury.surplus_pool == 0,
            engine.treasury.total_collaterals.entries@.len() == 0,
            engine.treasury.auctions@.len() == 0,
            engine.dex.pools.entries@.len() == 0,
            engine.dex.fee_numerator == 1,
            engine.dex.fee_denominator == 100,
            engine.price_source.relative_price == Some(FixedU128 { inner: FIXED_SCALE }),
            engine.shutdown == false,
            engine.events@.len() == 0,
    {
        let mut collateral_currency_ids: Vec<CurrencyId> = Vec::new();
        collateral_currency_ids.push(CurrencyId::BTC);
        proof {
            assert(collateral_currency_ids@ =~= seq![CurrencyId::BTC]);
        }
        let config = EngineConfig {
            governance_account: ALICE,
            collateral_currency_ids,
            stable_currency_id: CurrencyId::SETUSD,
            minimum_debit_value: 2,
            default_liquidation_ratio: FixedU128::saturating_from_rational(3, 2),
            default_liquidation_penalty: FixedU128::saturating_from_rational(1, 10),
            default_debit_exchange_rate: FixedU128::one(),
        };
        let mut balances: Table<AccountCurrency, Balance> = Table::new();
        let n = self.balances.len();
        let mut i: usize = 0;
        while i < n
            invariant
                i <= n,
                n == self.balances@.len(),
                balances.entries@ == spec_balances_table(self.balances@.take(i as int)),
            decreases n - i,
        {
            let row = self.balances[i];
            balances.set(AccountCurrency { account: row.0, currency: row.1 }, row.2);
            proof {
                assert(self.balances@.take(i + 1 as int).drop_last() =~= self.balances@.take(
                    i as int,
                ));
                assert(self.balances@.take(i + 1 as int).last() == self.balances@[i as int]);
            }
            i = i + 1;
        }
        proof {
            assert(self.balances@.take(n as int) =~= self.balances@);
        }
        CdpEngine {
            config,
            params: Table::new(),
            debit_exchange_rate: Table::new(),
            positions: Table::new(),
            balances,
            total_debits: Table::new(),
            treasury: Treasury::new(),
            dex: Dex::new(1, 100),
            price_source: MockPriceSource::new(Some(FixedU128::one())),
            shutdown: false,
            events: Vec::new(),
        }
    }
}

} // verus!
