//! The treasury model: pools that absorb liquidated collateral and debt.
//!
//! The engine consumes the treasury only through its interface: deposit
//! collateral, recognize debt in the debit pool, recognize stable-asset
//! proceeds in the surplus pool, and schedule collateral auctions. This
//! module keeps those tallies as plain state so every effect of a
//! liquidation or settlement is visible in a contract.

use vstd::prelude::*;
use crate::currency::{Balance, CurrencyId};
use crate::store::{table_get, Table};

verus! {

/// A scheduled collateral auction: `amount` of `currency` on sale for a
/// stable-asset target of `target`.
#[derive(Clone, Copy, PartialEq, Eq, Structural, Debug)]
pub struct AuctionItem {
    /// The collateral type on sale.
    pub currency: CurrencyId,
    /// The amount of collateral on sale.
    pub amount: Balance,
    /// The stable-asset amount the auction aims to raise.
    pub target: Balance,
}

/// The treasury's pools and auction book.
pub struct Treasury {
    /// Debt the treasury has recognized, in stable-asset units.
    pub debit_pool: Balance,
    /// Stable-asset proceeds the treasury holds.
    pub surplus_pool: Balance,
    /// Collateral the treasury holds, per collateral type.
    pub total_collaterals: Table<CurrencyId, Balance>,
    /// Auctions scheduled and not yet resolved.
    pub auctions: Vec<AuctionItem>,
}

impl Treasury {
    /// An empty treasury.
    pub fn new() -> (r: Self)
        ensures
            r.debit_pool == 0,
            r.surplus_pool == 0,
            r.total_collaterals.entries@ == Seq::<(CurrencyId, Balance)>::empty(),
            r.auctions@ == Seq::<AuctionItem>::empty(),
    {
        Treasury {
            debit_pool: 0,
            surplus_pool: 0,
            total_collaterals: Table::new(),
            auctions: Vec::new(),
        }
    }

    /// The collateral tally for `currency`.
    pub open spec fn spec_total_collaterals(self, currency: CurrencyId) -> Balance {
        match table_get(self.total_collaterals.entries@, currency) {
            Some(b) => b,
            None => 0,
        }
    }

    /// Read the collateral tally for `currency`.
    pub fn get_total_collaterals(&self, currency: CurrencyId) -> (r: Balance)
        ensures
            r == self.spec_total_collaterals(currency),
    {
        match self.total_collaterals.get(currency) {
            Some(b) => b,
            None => 0,
        }
    }
}

} // verus!
