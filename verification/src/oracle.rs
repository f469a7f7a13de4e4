//! A deterministic, settable price source.
//!
//! The engine consumes only the oracle's query contract: a relative price
//! between two assets that may be unavailable. This source holds one
//! settable answer and returns it for every pair, which makes every
//! safety decision of the engine reproducible.

use vstd::prelude::*;
use crate::currency::CurrencyId;
use crate::fixed::Price;

verus! {

/// A price source whose single relative price can be set at will.
pub struct MockPriceSource {
    /// The price reported for every pair; `None` means unavailable.
    pub relative_price: Option<Price>,
}

impl MockPriceSource {
    /// A source reporting `price` for every pair.
    pub fn new(price: Option<Price>) -> (r: Self)
        ensures
            r.relative_price == price,
    {
        MockPriceSource { relative_price: price }
    }

    /// Replace the reported price.
    pub fn set_relative_price(&mut self, price: Option<Price>)
        ensures
            final(self).relative_price == price,
    {
        self.relative_price = price;
    }

    /// The relative price of `_base` in units of `_quote`, if available.
    pub fn get_relative_price(&self, _base: CurrencyId, _quote: CurrencyId) -> (r: Option<Price>)
        ensures
            r == self.relative_price,
    {
        self.relative_price
    }
}

} // verus!
