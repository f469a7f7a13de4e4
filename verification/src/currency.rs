//! Asset identifiers and the basic ledger scalar types.

use vstd::prelude::*;

verus! {

/// An account on the ledger.
pub type AccountId = u128;

/// An unsigned amount of some asset.
pub type Balance = u128;

/// A signed adjustment to a balance.
pub type Amount = i128;

/// The asset categories the system recognizes.
#[derive(Clone, Copy, PartialEq, Eq, Structural, Debug)]
pub enum CurrencyId {
    /// A collateral asset.
    BTC,
    /// The stable asset minted against collateral.
    SETUSD,
    /// The native asset; not enabled as collateral.
    SETHEUM,
    /// The reserve asset; not enabled as collateral.
    SETR,
    /// A basket-settled stable asset.
    SETT,
    /// A regional stable asset.
    CHFJ,
    /// A regional stable asset.
    EURJ,
    /// A regional stable asset.
    USDJ,
}

/// A (collateral type, account) key for per-position and per-balance
/// stores.
#[derive(Clone, Copy, PartialEq, Eq, Structural, Debug)]
pub struct AccountCurrency {
    /// The account the entry belongs to.
    pub account: AccountId,
    /// The asset the entry is denominated in.
    pub currency: CurrencyId,
}

} // verus!
