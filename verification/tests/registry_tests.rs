use pawnshop::engine::{GenesisConfig, Module};
use pawnshop::error::Error;
use pawnshop::loan::Event;
use pawnshop::mock::{
    new_test_ext, ALICE, LIQUIDATION_ACCOUNT, PAWN_SHOP, PROFIT_POOL, SBTC_ASSET_ID, TBD_ASSET_ID,
};
use pawnshop::package::LoanPackageStatus;
use pawnshop::system::Origin;

fn genesis() -> GenesisConfig {
    GenesisConfig {
        current_btc_price: 8000_0000,
        collateral_asset_id: SBTC_ASSET_ID,
        loan_asset_id: TBD_ASSET_ID,
        global_ltv_limit: 6500,
        global_liquidation_threshold: 9000,
        global_warning_threshold: 8000,
        next_loan_id: 1,
        next_loan_package_id: 1,
        pawn_shop: PAWN_SHOP,
        profit_pool: PROFIT_POOL,
        penalty_rate: 200,
        liquidation_account: LIQUIDATION_ACCOUNT,
        minimum_collateral: 2_000_0000,
        liquidation_penalty: 1300,
    }
}

#[test]
fn a_new_engine_has_its_genesis_values() {
    let m = Module::new(genesis());
    assert_eq!(m.current_btc_price(), 8000_0000);
    assert_eq!(m.collateral_asset_id(), SBTC_ASSET_ID);
    assert_eq!(m.loan_asset_id(), TBD_ASSET_ID);
    assert_eq!(m.global_ltv_limit(), 6500);
    assert_eq!(m.global_liquidation_threshold(), 9000);
    assert_eq!(m.global_warning_threshold(), 8000);
    assert_eq!(m.next_loan_id(), 1);
    assert_eq!(m.next_loan_package_id(), 1);
    assert_eq!(m.pawn_shop(), PAWN_SHOP);
    assert_eq!(m.profit_pool(), PROFIT_POOL);
    assert_eq!(m.penalty_rate(), 200);
    assert_eq!(m.liquidation_account(), LIQUIDATION_ACCOUNT);
    assert_eq!(m.minimum_collateral(), 2_000_0000);
    assert_eq!(m.liquidation_penalty(), 1300);
    assert_eq!(m.loan_cap(), None);
    assert_eq!(m.paused(), false);
    assert_eq!(m.total_loan(), 0);
    assert_eq!(m.total_collateral(), 0);
    assert_eq!(m.total_profit(), 0);
    assert!(m.liquidating_loans().is_empty());
    assert!(m.loans_by_account(&ALICE).is_empty());
    assert!(m.is_well_formed());
    assert!(m.is_collateral_reconciled());
    assert_eq!(m, new_test_ext().loan);
}

#[test]
fn setters_take_root_only() {
    let mut m = Module::new(genesis());
    let before = m.clone();
    let alice = Origin::Signed(ALICE);
    assert_eq!(m.pause(alice), Err(Error::RequireRootOrigin));
    assert_eq!(m.resume(alice), Err(Error::RequireRootOrigin));
    assert_eq!(m.set_collateral_asset_id(alice, 1), Err(Error::RequireRootOrigin));
    assert_eq!(m.set_loan_asset_id(alice, 1), Err(Error::RequireRootOrigin));
    assert_eq!(m.set_global_ltv_limit(alice, 1), Err(Error::RequireRootOrigin));
    assert_eq!(m.set_global_liquidation_threshold(alice, 1), Err(Error::RequireRootOrigin));
    assert_eq!(m.set_global_warning_threshold(alice, 1), Err(Error::RequireRootOrigin));
    assert_eq!(m.set_loan_cap(alice, 1), Err(Error::RequireRootOrigin));
    assert_eq!(m.set_liquidation_account(alice, 1), Err(Error::RequireRootOrigin));
    assert_eq!(m.set_penalty_rate(alice, 1), Err(Error::RequireRootOrigin));
    assert_eq!(m.set_price(Origin::Unsigned, 1), Err(Error::RequireRootOrigin));
    assert_eq!(m, before);
}

#[test]
fn setters_set_what_they_name() {
    let mut m = Module::new(genesis());
    assert_eq!(m.set_collateral_asset_id(Origin::Root, 3), Ok(()));
    assert_eq!(m.collateral_asset_id(), 3);
    assert_eq!(m.set_loan_asset_id(Origin::Root, 4), Ok(()));
    assert_eq!(m.loan_asset_id(), 4);
    assert_eq!(m.set_global_ltv_limit(Origin::Root, 7000), Ok(()));
    assert_eq!(m.global_ltv_limit(), 7000);
    assert_eq!(m.set_global_liquidation_threshold(Origin::Root, 9500), Ok(()));
    assert_eq!(m.global_liquidation_threshold(), 9500);
    assert_eq!(m.global_warning_threshold(), 8000);
    assert_eq!(m.set_global_warning_threshold(Origin::Root, 8500), Ok(()));
    assert_eq!(m.global_warning_threshold(), 8500);
    assert_eq!(m.global_liquidation_threshold(), 9500);
    assert_eq!(m.set_liquidation_account(Origin::Root, 77), Ok(()));
    assert_eq!(m.liquidation_account(), 77);
    assert_eq!(m.set_penalty_rate(Origin::Root, 300), Ok(()));
    assert_eq!(m.penalty_rate(), 300);
    assert_eq!(m.set_price(Origin::Root, 1), Ok(()));
    assert_eq!(m.current_btc_price(), 1);
    m.on_change(9000_0000);
    assert_eq!(m.current_btc_price(), 9000_0000);
    assert_eq!(m.pawn_shop(), PAWN_SHOP);
    assert!(m.is_well_formed());
}

#[test]
fn a_loan_cap_of_zero_is_no_cap() {
    let mut m = Module::new(genesis());
    assert_eq!(m.set_loan_cap(Origin::Root, 500), Ok(()));
    assert_eq!(m.loan_cap(), Some(500));
    assert_eq!(m.set_loan_cap(Origin::Root, 0), Ok(()));
    assert_eq!(m.loan_cap(), None);
}

#[test]
fn packages_get_rising_ids() {
    let mut m = Module::new(genesis());
    assert_eq!(m.create_package(Origin::Root, 10, 100, 1), Ok(Event::PackageCreated(1)));
    assert_eq!(m.set_collateral_asset_id(Origin::Root, 3), Ok(()));
    assert_eq!(m.create_loan_package(20, 200, 5), Ok(Event::PackageCreated(2)));
    assert_eq!(m.next_loan_package_id(), 3);
    let first = m.loan_package(1);
    assert_eq!(first.id, 1);
    assert_eq!(first.status, LoanPackageStatus::Active);
    assert_eq!(first.terms, 10);
    assert_eq!(first.interest_rate_hourly, 100);
    assert_eq!(first.min, 1);
    assert_eq!(first.collateral_asset_id, SBTC_ASSET_ID);
    assert_eq!(first.loan_asset_id, TBD_ASSET_ID);
    let second = m.active_loan_packages(2);
    assert_eq!(second.id, 2);
    assert_eq!(second.terms, 20);
    assert_eq!(second.collateral_asset_id, 3);
    assert_eq!(m.loan_package(3).terms, 0);
    assert!(m.is_well_formed());
}

#[test]
fn a_package_needs_positive_terms_rate_and_minimum() {
    let mut m = Module::new(genesis());
    let before = m.clone();
    assert_eq!(m.create_package(Origin::Root, 0, 100, 1), Err(Error::InvalidParameter));
    assert_eq!(m.create_package(Origin::Root, 10, 0, 1), Err(Error::InvalidParameter));
    assert_eq!(m.create_package(Origin::Root, 10, 100, 0), Err(Error::InvalidParameter));
    assert_eq!(m.create_package(Origin::Root, 10, 100_000_000, 1), Err(Error::InvalidParameter));
    assert_eq!(m.create_package(Origin::Root, 10, u32::MAX, 1), Err(Error::InvalidParameter));
    assert_eq!(m, before);
    assert_eq!(m.create_package(Origin::Root, 1, 99_999_999, 1), Ok(Event::PackageCreated(1)));
}

#[test]
fn the_registry_stops_at_the_last_id() {
    let mut config = genesis();
    config.next_loan_package_id = u64::MAX;
    let mut m = Module::new(config);
    assert_eq!(m.create_package(Origin::Root, 10, 100, 1), Err(Error::Overflow));
    assert_eq!(m.next_loan_package_id(), u64::MAX);
}

#[test]
fn the_registry_heeds_pause_then_origin() {
    let mut m = Module::new(genesis());
    assert_eq!(m.create_package(Origin::Signed(ALICE), 0, 0, 0), Err(Error::RequireRootOrigin));
    assert_eq!(m.disable_package(Origin::Signed(ALICE), 1), Err(Error::RequireRootOrigin));
    assert_eq!(m.pause(Origin::Root), Ok(()));
    assert_eq!(m.create_package(Origin::Root, 10, 100, 1), Err(Error::Paused));
    assert_eq!(m.create_package(Origin::Signed(ALICE), 10, 100, 1), Err(Error::Paused));
    assert_eq!(m.disable_package(Origin::Root, 1), Err(Error::Paused));
    assert_eq!(m.next_loan_package_id(), 1);
    assert_eq!(m.resume(Origin::Root), Ok(()));
    assert_eq!(m.create_package(Origin::Root, 10, 100, 1), Ok(Event::PackageCreated(1)));
}

#[test]
fn disabling_is_for_good() {
    let mut m = Module::new(genesis());
    assert_eq!(m.disable_package(Origin::Root, 1), Err(Error::PackageNotFound));
    assert!(m.create_package(Origin::Root, 10, 100, 1).is_ok());
    assert!(m.create_package(Origin::Root, 11, 101, 2).is_ok());
    assert_eq!(m.disable_package(Origin::Root, 1), Ok(Event::PackageDisabled(1)));
    assert_eq!(m.loan_package(1).status, LoanPackageStatus::Inactive);
    assert_eq!(m.loan_package(1).terms, 10);
    assert_eq!(m.active_loan_packages(1).terms, 0);
    assert_eq!(m.active_loan_packages(2).terms, 11);
    assert_eq!(m.disable_loan_package(1), Ok(Event::PackageDisabled(1)));
    assert_eq!(m.loan_package(1).status, LoanPackageStatus::Inactive);
    assert_eq!(m.disable_loan_package(3), Err(Error::PackageNotFound));
    assert!(m.is_well_formed());
}

#[test]
fn a_state_out_of_order_is_told() {
    let mut m = Module::new(genesis());
    assert!(m.create_package(Origin::Root, 10, 100, 1).is_ok());
    assert!(m.is_well_formed());
    let good = m.clone();
    m.next_loan_package_id = 1;
    assert!(!m.is_well_formed());
    m = good.clone();
    m.loan_packages.push(m.loan_packages[0]);
    assert!(!m.is_well_formed());
    m = good.clone();
    m.loan_packages[0].terms = 0;
    assert!(!m.is_well_formed());
    m = good.clone();
    m.total_loan = 1;
    assert!(!m.is_well_formed());
    m = good.clone();
    m.liquidating_loans.push(1);
    assert!(!m.is_well_formed());
    m = good.clone();
    m.total_collateral = 1;
    assert!(m.is_well_formed());
    assert!(!m.is_collateral_reconciled());
}
