//! Laws the engine obeys, stated and proved once for all inputs.

use vstd::prelude::*;
use crate::currency::{AccountId, Balance, CurrencyId};
use crate::engine::{
    spec_apply_changes, spec_params_table_after, spec_stored_params, CdpEngine, Change,
    RiskParams,
};
use crate::fixed::{Rate, Ratio};
use crate::store::{lemma_table_get_set_same, lemma_table_set_unchanged, table_set};

verus! {

/// A zero adjustment is always rejected, whatever the account, the
/// position, or the rest of the engine state.
pub proof fn lemma_zero_adjustment_rejected(e: CdpEngine, who: AccountId, c: CurrencyId)
    ensures
        e.spec_adjust_error(who, c, 0, 0) is Some,
{
}

/// For a fixed position and price, raising the effective liquidation
/// ratio can only move the position from safe to unsafe, never the
/// reverse; read contrapositively, lowering it can only move the
/// position from unsafe to safe.
pub proof fn lemma_safety_monotonic(
    e1: CdpEngine,
    e2: CdpEngine,
    c: CurrencyId,
    collateral: Balance,
    debit: Balance,
)
    requires
        e1.price_source.relative_price == e2.price_source.relative_price,
        e1.spec_debit_exchange_rate(c) == e2.spec_debit_exchange_rate(c),
        e1.spec_liquidation_ratio(c).inner <= e2.spec_liquidation_ratio(c).inner,
    ensures
        e1.spec_is_cdp_unsafe(c, collateral, debit) ==> e2.spec_is_cdp_unsafe(
            c,
            collateral,
            debit,
        ),
{
}

/// Repeated identical parameter updates are idempotent on the stored
/// state: updating a parameter table that one such update produced,
/// with the same four directives, returns the table unchanged. Each
/// call still emits its change notifications; only the stored state is
/// a fixed point.
pub proof fn lemma_set_collateral_params_idempotent(
    t: Seq<(CurrencyId, RiskParams)>,
    c: CurrencyId,
    liquidation_ratio: Change<Option<Ratio>>,
    liquidation_penalty: Change<Option<Rate>>,
    required_collateral_ratio: Change<Option<Ratio>>,
    maximum_total_debit_value: Change<Balance>,
)
    ensures
        spec_params_table_after(
            spec_params_table_after(
                t,
                c,
                liquidation_ratio,
                liquidation_penalty,
                required_collateral_ratio,
                maximum_total_debit_value,
            ),
            c,
            liquidation_ratio,
            liquidation_penalty,
            required_collateral_ratio,
            maximum_total_debit_value,
        ) == spec_params_table_after(
            t,
            c,
            liquidation_ratio,
            liquidation_penalty,
            required_collateral_ratio,
            maximum_total_debit_value,
        ),
{
    let record = spec_apply_changes(
        spec_stored_params(t, c),
        liquidation_ratio,
        liquidation_penalty,
        required_collateral_ratio,
        maximum_total_debit_value,
    );
    let t1 = table_set(t, c, record);
    lemma_table_get_set_same(t, c, record);
    assert(spec_stored_params(t1, c) == record);
    assert(spec_apply_changes(
        record,
        liquidation_ratio,
        liquidation_penalty,
        required_collateral_ratio,
        maximum_total_debit_value,
    ) == record);
    lemma_table_set_unchanged(t1, c, record);
}

} // verus!
