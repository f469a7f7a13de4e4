//! The engine's behavior end to end: parameters, validation, adjustment,
//! liquidation, settlement, and the exchange-close path.

use cdp_engine::builder::{ExtBuilder, ALICE, CAROL};
use cdp_engine::currency::{AccountId, CurrencyId};
use cdp_engine::engine::{CdpEngine, Change, Error, Event, LiquidationStrategy, Origin};
use cdp_engine::fixed::{FixedU128, Price, Rate, Ratio};

const BTC: CurrencyId = CurrencyId::BTC;
const SETUSD: CurrencyId = CurrencyId::SETUSD;
const SETHEUM: CurrencyId = CurrencyId::SETHEUM;
const SETR: CurrencyId = CurrencyId::SETR;

fn is_user_unsafe(w: &CdpEngine, currency_id: CurrencyId, who: AccountId) -> bool {
    let position = w.positions(currency_id, who);
    w.is_cdp_unsafe(currency_id, position.collateral, position.debit)
}

#[test]
fn is_cdp_unsafe_work() {
    let mut w = ExtBuilder::default().build();
    assert_eq!(
        w.set_collateral_params(
            Origin::Signed(1),
            BTC,
            Change::NewValue(Some(Ratio::saturating_from_rational(3, 2))),
            Change::NewValue(Some(Rate::saturating_from_rational(2, 10))),
            Change::NewValue(Some(Ratio::saturating_from_rational(9, 5))),
            Change::NewValue(10000),
        ),
        Ok(())
    );
    assert_eq!(is_user_unsafe(&w, BTC, ALICE), false);
    assert_eq!(w.adjust_position(ALICE, BTC, 100, 50), Ok(()));
    assert_eq!(is_user_unsafe(&w, BTC, ALICE), false);
    assert_eq!(
        w.set_collateral_params(
            Origin::Signed(1),
            BTC,
            Change::NewValue(Some(Ratio::saturating_from_rational(3, 1))),
            Change::NoChange,
            Change::NoChange,
            Change::NoChange,
        ),
        Ok(())
    );
    assert_eq!(is_user_unsafe(&w, BTC, ALICE), true);
}

#[test]
fn get_debit_exchange_rate_work() {
    let w = ExtBuilder::default().build();
    assert_eq!(w.get_debit_exchange_rate(BTC), FixedU128::one());
}

#[test]
fn get_liquidation_penalty_work() {
    let mut w = ExtBuilder::default().build();
    assert_eq!(
        w.get_liquidation_penalty(BTC),
        Rate::saturating_from_rational(1, 10)
    );
    assert_eq!(
        w.set_collateral_params(
            Origin::Signed(1),
            BTC,
            Change::NewValue(Some(Ratio::saturating_from_rational(5, 2))),
            Change::NewValue(Some(Rate::saturating_from_rational(2, 10))),
            Change::NewValue(Some(Ratio::saturating_from_rational(9, 5))),
            Change::NewValue(10000),
        ),
        Ok(())
    );
    assert_eq!(
        w.get_liquidation_penalty(BTC),
        Rate::saturating_from_rational(2, 10)
    );
}

#[test]
fn get_liquidation_ratio_work() {
    let mut w = ExtBuilder::default().build();
    assert_eq!(
        w.get_liquidation_ratio(BTC),
        Ratio::saturating_from_rational(3, 2)
    );
    assert_eq!(
        w.set_collateral_params(
            Origin::Signed(1),
            BTC,
            Change::NewValue(Some(Ratio::saturating_from_rational(5, 2))),
            Change::NewValue(Some(Rate::saturating_from_rational(2, 10))),
            Change::NewValue(Some(Ratio::saturating_from_rational(9, 5))),
            Change::NewValue(10000),
        ),
        Ok(())
    );
    assert_eq!(
        w.get_liquidation_ratio(BTC),
        Ratio::saturating_from_rational(5, 2)
    );
}

#[test]
fn set_collateral_params_work() {
    let mut w = ExtBuilder::default().build();
    assert_eq!(
        w.set_collateral_params(
            Origin::Signed(1),
            SETR,
            Change::NoChange,
            Change::NoChange,
            Change::NoChange,
            Change::NoChange,
        ),
        Err(Error::InvalidCollateralType)
    );

    assert_eq!(
        w.set_collateral_params(
            Origin::Signed(5),
            BTC,
            Change::NewValue(Some(Ratio::saturating_from_rational(3, 2))),
            Change::NewValue(Some(Rate::saturating_from_rational(2, 10))),
            Change::NewValue(Some(Ratio::saturating_from_rational(9, 5))),
            Change::NewValue(10000),
        ),
        Err(Error::Unauthorized)
    );
    assert_eq!(
        w.set_collateral_params(
            Origin::Signed(1),
            BTC,
            Change::NewValue(Some(Ratio::saturating_from_rational(3, 2))),
            Change::NewValue(Some(Rate::saturating_from_rational(2, 10))),
            Change::NewValue(Some(Ratio::saturating_from_rational(9, 5))),
            Change::NewValue(10000),
        ),
        Ok(())
    );
    assert!(w.events.contains(&Event::LiquidationRatioUpdated(
        BTC,
        Some(Ratio::saturating_from_rational(3, 2))
    )));
    assert!(w.events.contains(&Event::LiquidationPenaltyUpdated(
        BTC,
        Some(Rate::saturating_from_rational(2, 10))
    )));
    assert!(w.events.contains(&Event::RequiredCollateralRatioUpdated(
        BTC,
        Some(Ratio::saturating_from_rational(9, 5))
    )));
    assert!(w
        .events
        .contains(&Event::MaximumTotalDebitValueUpdated(BTC, 10000)));

    assert_eq!(
        w.set_collateral_params(
            Origin::Signed(1),
            BTC,
            Change::NewValue(Some(Ratio::saturating_from_rational(3, 2))),
            Change::NewValue(Some(Rate::saturating_from_rational(2, 10))),
            Change::NewValue(Some(Ratio::saturating_from_rational(9, 5))),
            Change::NewValue(10000),
        ),
        Ok(())
    );

    let new_collateral_params = w.collateral_params(BTC);

    assert_eq!(
        new_collateral_params.liquidation_ratio,
        Some(Ratio::saturating_from_rational(3, 2))
    );
    assert_eq!(
        new_collateral_params.liquidation_penalty,
        Some(Rate::saturating_from_rational(2, 10))
    );
    assert_eq!(
        new_collateral_params.required_collateral_ratio,
        Some(Ratio::saturating_from_rational(9, 5))
    );
    assert_eq!(new_collateral_params.maximum_total_debit_value, 10000);
}

#[test]
fn calculate_collateral_ratio_work() {
    let mut w = ExtBuilder::default().build();
    assert_eq!(
        w.set_collateral_params(
            Origin::Signed(1),
            BTC,
            Change::NewValue(Some(Ratio::saturating_from_rational(3, 2))),
            Change::NewValue(Some(Rate::saturating_from_rational(2, 10))),
            Change::NewValue(Some(Ratio::saturating_from_rational(9, 5))),
            Change::NewValue(10000),
        ),
        Ok(())
    );
    assert_eq!(
        w.calculate_collateral_ratio(BTC, 100, 50, Price::saturating_from_rational(1, 1)),
        Ratio::saturating_from_rational(100, 50)
    );
}

#[test]
fn check_debit_cap_work() {
    let mut w = ExtBuilder::default().build();
    assert_eq!(
        w.set_collateral_params(
            Origin::Signed(1),
            BTC,
            Change::NewValue(Some(Ratio::saturating_from_rational(3, 2))),
            Change::NewValue(Some(Rate::saturating_from_rational(2, 10))),
            Change::NewValue(Some(Ratio::saturating_from_rational(9, 5))),
            Change::NewValue(10000),
        ),
        Ok(())
    );
    assert_eq!(w.check_debit_cap(BTC, 9999), Ok(()));
    assert_eq!(
        w.check_debit_cap(BTC, 10001),
        Err(Error::ExceedDebitValueHardCap)
    );
}

#[test]
fn check_position_valid_work() {
    let mut w = ExtBuilder::default().build();
    assert_eq!(
        w.set_collateral_params(
            Origin::Signed(1),
            BTC,
            Change::NewValue(Some(Ratio::saturating_from_rational(1, 1))),
            Change::NewValue(Some(Rate::saturating_from_rational(2, 10))),
            Change::NewValue(Some(Ratio::saturating_from_rational(3, 2))),
            Change::NewValue(10000),
        ),
        Ok(())
    );

    w.price_source.set_relative_price(None);
    assert_eq!(
        w.check_position_valid(BTC, 100, 50),
        Err(Error::InvalidFeedPrice)
    );
    w.price_source.set_relative_price(Some(Price::one()));

    assert_eq!(w.check_position_valid(BTC, 100, 50), Ok(()));
}

#[test]
fn check_position_valid_failed_when_remain_debit_value_too_small() {
    let mut w = ExtBuilder::default().build();
    assert_eq!(
        w.set_collateral_params(
            Origin::Signed(1),
            BTC,
            Change::NewValue(Some(Ratio::saturating_from_rational(1, 1))),
            Change::NewValue(Some(Rate::saturating_from_rational(2, 10))),
            Change::NewValue(Some(Ratio::saturating_from_rational(3, 2))),
            Change::NewValue(10000),
        ),
        Ok(())
    );
    assert_eq!(
        w.check_position_valid(BTC, 2, 1),
        Err(Error::RemainDebitValueTooSmall)
    );
}

#[test]
fn check_position_valid_ratio_below_liquidate_ratio() {
    let mut w = ExtBuilder::default().build();
    assert_eq!(
        w.set_collateral_params(
            Origin::Signed(1),
            BTC,
            Change::NewValue(Some(Ratio::saturating_from_rational(10, 2))),
            Change::NewValue(Some(Rate::saturating_from_rational(2, 10))),
            Change::NewValue(Some(Ratio::saturating_from_rational(9, 5))),
            Change::NewValue(10000),
        ),
        Ok(())
    );
    assert_eq!(
        w.check_position_valid(BTC, 91, 50),
        Err(Error::BelowLiquidationRatio)
    );
}

#[test]
fn check_position_valid_ratio_below_required_ratio() {
    let mut w = ExtBuilder::default().build();
    assert_eq!(
        w.set_collateral_params(
            Origin::Signed(1),
            BTC,
            Change::NewValue(Some(Ratio::saturating_from_rational(3, 2))),
            Change::NewValue(Some(Rate::saturating_from_rational(2, 10))),
            Change::NewValue(Some(Ratio::saturating_from_rational(9, 5))),
            Change::NewValue(10000),
        ),
        Ok(())
    );
    assert_eq!(
        w.check_position_valid(BTC, 89, 50),
        Err(Error::BelowRequiredCollateralRatio)
    );
}

#[test]
fn adjust_position_work() {
    let mut w = ExtBuilder::default().build();
    assert_eq!(
        w.set_collateral_params(
            Origin::Signed(1),
            BTC,
            Change::NewValue(Some(Ratio::saturating_from_rational(3, 2))),
            Change::NewValue(Some(Rate::saturating_from_rational(2, 10))),
            Change::NewValue(Some(Ratio::saturating_from_rational(9, 5))),
            Change::NewValue(10000),
        ),
        Ok(())
    );
    assert_eq!(
        w.adjust_position(ALICE, SETHEUM, 100, 50),
        Err(Error::InvalidCollateralType)
    );
    assert_eq!(w.free_balance(BTC, ALICE), 1000);
    assert_eq!(w.free_balance(SETUSD, ALICE), 0);
    assert_eq!(w.positions(BTC, ALICE).debit, 0);
    assert_eq!(w.positions(BTC, ALICE).collateral, 0);
    assert_eq!(w.adjust_position(ALICE, BTC, 100, 50), Ok(()));
    assert_eq!(w.free_balance(BTC, ALICE), 900);
    assert_eq!(w.free_balance(SETUSD, ALICE), 50);
    assert_eq!(w.positions(BTC, ALICE).debit, 50);
    assert_eq!(w.positions(BTC, ALICE).collateral, 100);
    assert_eq!(w.adjust_position(ALICE, BTC, 0, 20).is_ok(), false);
    assert_eq!(w.adjust_position(ALICE, BTC, 0, -20), Ok(()));
    assert_eq!(w.free_balance(BTC, ALICE), 900);
    assert_eq!(w.free_balance(SETUSD, ALICE), 30);
    assert_eq!(w.positions(BTC, ALICE).debit, 30);
    assert_eq!(w.positions(BTC, ALICE).collateral, 100);
}

#[test]
fn remain_debit_value_too_small_check() {
    let mut w = ExtBuilder::default().build();
    assert_eq!(
        w.set_collateral_params(
            Origin::Signed(1),
            BTC,
            Change::NewValue(Some(Ratio::saturating_from_rational(3, 2))),
            Change::NewValue(Some(Rate::saturating_from_rational(2, 10))),
            Change::NewValue(Some(Ratio::saturating_from_rational(9, 5))),
            Change::NewValue(10000),
        ),
        Ok(())
    );
    assert_eq!(w.adjust_position(ALICE, BTC, 100, 50), Ok(()));
    assert_eq!(w.adjust_position(ALICE, BTC, 0, -49).is_ok(), false);
    assert_eq!(w.adjust_position(ALICE, BTC, -100, -50), Ok(()));
}

#[test]
fn liquidate_unsafe_cdp_by_collateral_auction() {
    let mut w = ExtBuilder::default().build();
    assert_eq!(
        w.set_collateral_params(
            Origin::Signed(1),
            BTC,
            Change::NewValue(Some(Ratio::saturating_from_rational(3, 2))),
            Change::NewValue(Some(Rate::saturating_from_rational(2, 10))),
            Change::NewValue(Some(Ratio::saturating_from_rational(9, 5))),
            Change::NewValue(10000),
        ),
        Ok(())
    );
    assert_eq!(w.adjust_position(ALICE, BTC, 100, 50), Ok(()));
    assert_eq!(w.free_balance(BTC, ALICE), 900);
    assert_eq!(w.free_balance(SETUSD, ALICE), 50);
    assert_eq!(w.positions(BTC, ALICE).debit, 50);
    assert_eq!(w.positions(BTC, ALICE).collateral, 100);
    assert_eq!(
        w.liquidate_unsafe_cdp(ALICE, BTC),
        Err(Error::MustBeUnsafe)
    );
    assert_eq!(
        w.set_collateral_params(
            Origin::Signed(1),
            BTC,
            Change::NewValue(Some(Ratio::saturating_from_rational(3, 1))),
            Change::NoChange,
            Change::NoChange,
            Change::NoChange,
        ),
        Ok(())
    );
    assert_eq!(w.liquidate_unsafe_cdp(ALICE, BTC), Ok(()));
    assert!(w.events.contains(&Event::LiquidateUnsafeCDP(
        BTC,
        ALICE,
        100,
        50,
        LiquidationStrategy::Auction,
    )));
    assert_eq!(w.debit_pool(), 50);
    assert_eq!(w.free_balance(BTC, ALICE), 900);
    assert_eq!(w.free_balance(SETUSD, ALICE), 50);
    assert_eq!(w.positions(BTC, ALICE).debit, 0);
    assert_eq!(w.positions(BTC, ALICE).collateral, 0);

    w.declare_shutdown();
    assert_eq!(
        w.liquidate(Origin::Unsigned, BTC, ALICE),
        Err(Error::AlreadyShutdown)
    );
}

#[test]
fn settle_cdp_has_debit_work() {
    let mut w = ExtBuilder::default().build();
    assert_eq!(
        w.set_collateral_params(
            Origin::Signed(1),
            BTC,
            Change::NewValue(Some(Ratio::saturating_from_rational(3, 2))),
            Change::NewValue(Some(Rate::saturating_from_rational(2, 10))),
            Change::NewValue(Some(Ratio::saturating_from_rational(9, 5))),
            Change::NewValue(10000),
        ),
        Ok(())
    );
    assert_eq!(w.adjust_position(ALICE, BTC, 100, 0), Ok(()));
    assert_eq!(w.free_balance(BTC, ALICE), 900);
    assert_eq!(w.positions(BTC, ALICE).debit, 0);
    assert_eq!(w.positions(BTC, ALICE).collateral, 100);
    assert_eq!(
        w.settle_cdp_has_debit(ALICE, BTC),
        Err(Error::NoDebitValue)
    );
    assert_eq!(w.adjust_position(ALICE, BTC, 0, 50), Ok(()));
    assert_eq!(w.positions(BTC, ALICE).debit, 50);
    assert_eq!(w.debit_pool(), 0);
    assert_eq!(w.total_collaterals(BTC), 0);
    assert_eq!(w.settle_cdp_has_debit(ALICE, BTC), Ok(()));
    assert!(w.events.contains(&Event::SettleCDPInDebit(BTC, ALICE)));
    assert_eq!(w.positions(BTC, ALICE).debit, 0);
    assert_eq!(w.debit_pool(), 50);
    assert_eq!(w.total_collaterals(BTC), 50);

    assert_eq!(
        w.settle(Origin::Unsigned, BTC, ALICE),
        Err(Error::MustAfterShutdown)
    );
}

#[test]
fn close_cdp_has_debit_by_dex_work() {
    let mut w = ExtBuilder::default().build();
    assert_eq!(
        w.add_liquidity(Origin::Signed(CAROL), BTC, SETUSD, 100, 1000, 0, false),
        Ok(())
    );
    assert_eq!(
        w.set_collateral_params(
            Origin::Signed(1),
            BTC,
            Change::NewValue(Some(Ratio::saturating_from_rational(3, 2))),
            Change::NewValue(Some(Rate::saturating_from_rational(2, 10))),
            Change::NewValue(Some(Ratio::saturating_from_rational(9, 5))),
            Change::NewValue(10000),
        ),
        Ok(())
    );

    assert_eq!(w.adjust_position(ALICE, BTC, 100, 0), Ok(()));
    assert_eq!(w.free_balance(BTC, ALICE), 900);
    assert_eq!(w.free_balance(SETUSD, ALICE), 0);
    assert_eq!(w.positions(BTC, ALICE).debit, 0);
    assert_eq!(w.positions(BTC, ALICE).collateral, 100);

    assert_eq!(
        w.close_cdp_has_debit_by_dex(ALICE, BTC, None),
        Err(Error::NoDebitValue)
    );

    assert_eq!(w.adjust_position(ALICE, BTC, 0, 50), Ok(()));
    assert_eq!(w.free_balance(BTC, ALICE), 900);
    assert_eq!(w.free_balance(SETUSD, ALICE), 50);
    assert_eq!(w.positions(BTC, ALICE).debit, 50);
    assert_eq!(w.positions(BTC, ALICE).collateral, 100);
    assert_eq!(w.get_surplus_pool(), 0);
    assert_eq!(w.get_debit_pool(), 0);

    assert_eq!(
        w.set_collateral_params(
            Origin::Signed(1),
            BTC,
            Change::NewValue(Some(Ratio::saturating_from_rational(5, 2))),
            Change::NoChange,
            Change::NoChange,
            Change::NoChange,
        ),
        Ok(())
    );
    assert_eq!(
        w.close_cdp_has_debit_by_dex(ALICE, BTC, None),
        Err(Error::IsUnsafe)
    );

    assert_eq!(
        w.set_collateral_params(
            Origin::Signed(1),
            BTC,
            Change::NewValue(Some(Ratio::saturating_from_rational(3, 2))),
            Change::NoChange,
            Change::NoChange,
            Change::NoChange,
        ),
        Ok(())
    );
    assert_eq!(w.close_cdp_has_debit_by_dex(ALICE, BTC, None), Ok(()));
    assert!(w
        .events
        .contains(&Event::CloseCDPInDebitByDEX(BTC, ALICE, 6, 94, 50)));
    assert_eq!(w.free_balance(BTC, ALICE), 994);
    assert_eq!(w.free_balance(SETUSD, ALICE), 50);
    assert_eq!(w.positions(BTC, ALICE).debit, 0);
    assert_eq!(w.positions(BTC, ALICE).collateral, 0);
    assert_eq!(w.get_surplus_pool(), 50);
    assert_eq!(w.get_debit_pool(), 50);
}
