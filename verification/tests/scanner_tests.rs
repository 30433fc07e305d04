use pawnshop::engine::Params;
use pawnshop::error::Error;
use pawnshop::health::{check_loan_health, expire_loan, scan_loan, LoanScan};
use pawnshop::loan::{Event, Loan, LoanHealth};
use pawnshop::mock::{
    new_test_ext, next_block, TestRuntime, ALICE, BOB, PAWN_SHOP, PROFIT_POOL, SBTC_ASSET_ID,
    TBD_ASSET_ID,
};
use pawnshop::package::{LoanPackage, LoanPackageStatus};
use pawnshop::scanner::{ScanReport, Sweep};
use pawnshop::system::Origin;

const COLLATERAL: u128 = 1_00000000;
const LOAN: u128 = 4000_00000000;
const DUE: u64 = 864_000_000;
const DUE_EXTEND: u64 = 1_036_800_000;

/// A runtime in which ALICE holds loan 1, made at time zero.
fn borrowed() -> TestRuntime {
    let mut t = new_test_ext();
    assert!(t.loan.create_package(Origin::Root, 10, 100, 1).is_ok());
    assert!(t.assets.mint(Origin::Root, SBTC_ASSET_ID, ALICE, COLLATERAL).is_ok());
    assert!(t.loan.apply(&mut t.assets, Origin::signed(ALICE), COLLATERAL, LOAN, 1, 0).is_ok());
    t
}

fn package() -> LoanPackage {
    LoanPackage {
        id: 1,
        status: LoanPackageStatus::Active,
        terms: 10,
        min: 1,
        interest_rate_hourly: 100,
        collateral_asset_id: SBTC_ASSET_ID,
        loan_asset_id: TBD_ASSET_ID,
    }
}

fn loan() -> Loan {
    Loan {
        id: 1,
        package_id: 1,
        who: ALICE,
        due: DUE,
        due_extend: DUE_EXTEND,
        collateral_balance_original: COLLATERAL,
        collateral_balance_available: COLLATERAL,
        loan_balance_total: LOAN,
        status: LoanHealth::Well,
    }
}

fn params(price: u128) -> Params {
    let mut p = new_test_ext().loan.params;
    p.current_btc_price = price;
    p
}

#[test]
fn health_goes_by_ratio_then_by_date() {
    let l = loan();
    assert_eq!(check_loan_health(&l, 0, 8000_0000, 9000, 8000), Ok(LoanHealth::Well));
    assert_eq!(check_loan_health(&l, DUE - 1, 8000_0000, 9000, 8000), Ok(LoanHealth::Well));
    assert_eq!(check_loan_health(&l, DUE, 8000_0000, 9000, 8000), Ok(LoanHealth::Extended));
    assert_eq!(
        check_loan_health(&l, DUE_EXTEND - 1, 8000_0000, 9000, 8000),
        Ok(LoanHealth::Extended)
    );
    assert_eq!(check_loan_health(&l, DUE_EXTEND, 8000_0000, 9000, 8000), Ok(LoanHealth::Expired));
    assert_eq!(check_loan_health(&l, u64::MAX, 8000_0000, 9000, 8000), Ok(LoanHealth::Expired));
    // the ratio comes before the dates, and the thresholds count from themselves on
    assert_eq!(
        check_loan_health(&l, u64::MAX, 5000_0000, 9000, 8000),
        Ok(LoanHealth::Warning(8000))
    );
    assert_eq!(check_loan_health(&l, 0, 50_000_001, 9000, 8000), Ok(LoanHealth::Well));
    assert_eq!(check_loan_health(&l, 0, 44_444_445, 9000, 8000), Ok(LoanHealth::Warning(8999)));
    assert_eq!(
        check_loan_health(&l, 0, 44_444_444, 9000, 8000),
        Ok(LoanHealth::Liquidating(9000))
    );
    assert_eq!(
        check_loan_health(&l, u64::MAX, 1, 9000, 8000),
        Ok(LoanHealth::Liquidating(400_000_000_000))
    );
    // liquidation comes before the warning
    assert_eq!(check_loan_health(&l, 0, 8000_0000, 5000, 5000), Ok(LoanHealth::Liquidating(5000)));
    assert_eq!(check_loan_health(&l, 0, 0, 9000, 8000), Err(Error::DivisionByZero));
}

#[test]
fn a_scan_of_a_sound_loan_changes_nothing() {
    let l = loan();
    let s = scan_loan(&params(8000_0000), &l, &package(), 0);
    assert_eq!(s, LoanScan { loan: l, liquidate: false, fee: 0, event: None });
    let s = scan_loan(&params(0), &l, &package(), u64::MAX);
    assert_eq!(s, LoanScan { loan: l, liquidate: false, fee: 0, event: None });
}

#[test]
fn a_scan_marks_warning_extended_and_liquidating() {
    let l = loan();
    let s = scan_loan(&params(5000_0000), &l, &package(), 0);
    assert_eq!(s.loan, Loan { status: LoanHealth::Warning(8000), ..l });
    assert_eq!((s.liquidate, s.fee, s.event), (false, 0, Some(Event::Warning(1, 8000))));
    let s = scan_loan(&params(8000_0000), &l, &package(), DUE);
    assert_eq!(s.loan, Loan { status: LoanHealth::Extended, ..l });
    assert_eq!((s.liquidate, s.fee, s.event), (false, 0, Some(Event::Extended(1, ALICE))));
    let s = scan_loan(&params(1), &l, &package(), 0);
    assert_eq!(s.loan, Loan { status: LoanHealth::Liquidating(400_000_000_000), ..l });
    assert_eq!(
        (s.liquidate, s.fee, s.event),
        (true, 0, Some(Event::Liquidating(1, ALICE, COLLATERAL, LOAN)))
    );
}

#[test]
fn an_expired_loan_is_extended_against_a_fee() {
    let l = loan();
    let s = scan_loan(&params(8000_0000), &l, &package(), DUE_EXTEND);
    assert_eq!(s, expire_loan(&params(8000_0000), &l, &package(), DUE_EXTEND));
    assert_eq!(
        s.loan,
        Loan {
            collateral_balance_available: 97_988_000,
            due: DUE_EXTEND + DUE,
            due_extend: DUE_EXTEND + DUE_EXTEND,
            ..l
        }
    );
    assert_eq!((s.liquidate, s.fee, s.event), (false, 2_012_000, Some(Event::Expired(1, ALICE))));
}

#[test]
fn an_expired_loan_may_stall_at_a_warning() {
    let l = loan();
    let s = scan_loan(&params(50_000_001), &l, &package(), DUE_EXTEND);
    assert_eq!(s.loan, l);
    assert_eq!((s.liquidate, s.fee, s.event), (false, 2_019_199, Some(Event::Warning(1, 8164))));
}

#[test]
fn an_expired_loan_may_be_handed_over() {
    let l = loan();
    let mut p = params(50_000_001);
    p.penalty_rate = 1500;
    let s = scan_loan(&p, &l, &package(), DUE_EXTEND);
    assert_eq!(s.loan, Loan { status: LoanHealth::Liquidating(9413), ..l });
    assert_eq!(
        (s.liquidate, s.fee, s.event),
        (true, 15_019_199, Some(Event::Liquidating(1, ALICE, COLLATERAL, LOAN)))
    );
}

#[test]
fn an_expired_loan_that_cannot_be_assessed_is_passed_over() {
    let l = loan();
    let untouched = LoanScan { loan: l, liquidate: false, fee: 0, event: None };
    // the new dates do not fit
    assert_eq!(expire_loan(&params(8000_0000), &l, &package(), u64::MAX), untouched);
    // the fee eats all the collateral, so no ratio is left
    let mut p = params(8000_0000);
    p.penalty_rate = 10_000;
    assert_eq!(expire_loan(&p, &l, &package(), DUE_EXTEND), untouched);
    // no price
    assert_eq!(expire_loan(&params(0), &l, &package(), DUE_EXTEND), untouched);
}

#[test]
fn a_falling_price_sends_a_loan_to_liquidation() {
    let mut t = borrowed();
    assert_eq!(t.loan.get_loan_by_id(&1).status, LoanHealth::Well);
    assert!(t.loan.set_price(Origin::Root, 1).is_ok());
    let report = next_block(&mut t);
    assert_eq!(report.events, vec![Event::Liquidating(1, ALICE, COLLATERAL, LOAN)]);
    assert_eq!(report.sweep, Sweep::Idle);
    assert_eq!(t.loan.liquidating_loans(), vec![1]);
    assert!(t.loan.check_loan_in_liquidation(&1));
    assert!(!t.loan.check_loan_in_liquidation(&2));
    assert_eq!(t.loan.get_loan_by_id(&1).status, LoanHealth::Liquidating(400_000_000_000));
    assert_eq!(t.loan.total_loan(), LOAN);
    assert_eq!(t.loan.total_collateral(), COLLATERAL);
    assert_eq!(t.block_number, 1);
    assert!(t.loan.is_well_formed());
    assert!(t.loan.is_collateral_reconciled());
    // the loan is passed over from now on
    let again = t.loan.clone();
    assert!(next_block(&mut t).events.is_empty());
    assert_eq!(t.loan, again);
    assert_eq!(t.block_number, 2);
}

#[test]
fn a_scan_raises_a_warning_each_time() {
    let mut t = borrowed();
    assert!(t.loan.set_price(Origin::Root, 5000_0000).is_ok());
    assert_eq!(next_block(&mut t).events, vec![Event::Warning(1, 8000)]);
    assert_eq!(t.loan.get_loan_by_id(&1).status, LoanHealth::Warning(8000));
    assert!(t.loan.liquidating_loans().is_empty());
    let again = t.loan.clone();
    assert_eq!(next_block(&mut t).events, vec![Event::Warning(1, 8000)]);
    assert_eq!(t.loan, again);
    // back in good health the loan keeps its last mark
    assert!(t.loan.set_price(Origin::Root, 8000_0000).is_ok());
    assert!(next_block(&mut t).events.is_empty());
    assert_eq!(t.loan.get_loan_by_id(&1).status, LoanHealth::Warning(8000));
}

#[test]
fn a_scan_marks_a_late_loan() {
    let mut t = borrowed();
    t.set_timestamp(DUE);
    assert_eq!(next_block(&mut t).events, vec![Event::Extended(1, ALICE)]);
    assert_eq!(t.loan.get_loan_by_id(&1).status, LoanHealth::Extended);
    assert_eq!(t.loan.get_loan_by_id(&1).collateral_balance_available, COLLATERAL);
    assert_eq!(t.assets.free_balance(&SBTC_ASSET_ID, &PROFIT_POOL), 0);
}

#[test]
fn a_scan_extends_an_expired_loan_once() {
    let mut t = borrowed();
    t.set_timestamp(DUE_EXTEND);
    assert_eq!(
        next_block(&mut t),
        ScanReport { events: vec![Event::Expired(1, ALICE)], sweep: Sweep::Made(2_012_000) }
    );
    let loan = t.loan.get_loan_by_id(&1);
    assert_eq!(loan.collateral_balance_available, 97_988_000);
    assert_eq!(loan.collateral_balance_original, COLLATERAL);
    assert_eq!(loan.due, DUE_EXTEND + DUE);
    assert_eq!(loan.due_extend, DUE_EXTEND + DUE_EXTEND);
    assert_eq!(loan.status, LoanHealth::Well);
    assert_eq!(t.loan.total_collateral(), 97_988_000);
    assert_eq!(t.loan.total_loan(), LOAN);
    assert_eq!(t.loan.total_profit(), 96_000_000 + 2_012_000);
    assert_eq!(t.assets.free_balance(&SBTC_ASSET_ID, &PAWN_SHOP), 97_988_000);
    assert_eq!(t.assets.free_balance(&SBTC_ASSET_ID, &PROFIT_POOL), 2_012_000);
    assert!(t.loan.is_well_formed());
    assert!(t.loan.is_collateral_reconciled());
    // a second scan at the same time charges nothing and changes nothing
    let again = t.loan.clone();
    assert_eq!(next_block(&mut t), ScanReport { events: vec![], sweep: Sweep::Idle });
    assert_eq!(t.loan, again);
    assert_eq!(t.assets.free_balance(&SBTC_ASSET_ID, &PAWN_SHOP), 97_988_000);
    assert_eq!(t.assets.free_balance(&SBTC_ASSET_ID, &PROFIT_POOL), 2_012_000);
}

#[test]
fn a_stalled_loan_is_charged_at_every_scan() {
    let mut t = borrowed();
    assert!(t.loan.set_price(Origin::Root, 50_000_001).is_ok());
    t.set_timestamp(DUE_EXTEND);
    assert_eq!(
        next_block(&mut t),
        ScanReport { events: vec![Event::Warning(1, 8164)], sweep: Sweep::Made(2_019_199) }
    );
    let loan = t.loan.get_loan_by_id(&1);
    assert_eq!(loan.collateral_balance_available, COLLATERAL);
    assert_eq!(loan.due_extend, DUE_EXTEND);
    assert_eq!(t.loan.total_collateral(), COLLATERAL - 2_019_199);
    assert_eq!(t.assets.free_balance(&SBTC_ASSET_ID, &PROFIT_POOL), 2_019_199);
    assert!(t.loan.is_well_formed());
    assert!(!t.loan.is_collateral_reconciled());
    assert_eq!(next_block(&mut t).events, vec![Event::Warning(1, 8164)]);
    assert_eq!(t.loan.get_loan_by_id(&1), loan);
    assert_eq!(t.loan.total_collateral(), COLLATERAL - 2 * 2_019_199);
    assert_eq!(t.assets.free_balance(&SBTC_ASSET_ID, &PROFIT_POOL), 2 * 2_019_199);
}

#[test]
fn a_sweep_that_the_books_do_not_cover_is_left_out() {
    let mut t = borrowed();
    t.loan.total_collateral = 2_011_999;
    t.set_timestamp(DUE_EXTEND);
    assert_eq!(
        next_block(&mut t),
        ScanReport { events: vec![Event::Expired(1, ALICE)], sweep: Sweep::Skipped }
    );
    assert_eq!(t.loan.get_loan_by_id(&1).collateral_balance_available, 97_988_000);
    assert_eq!(t.loan.total_collateral(), 2_011_999);
    assert_eq!(t.loan.total_profit(), 96_000_000);
    assert_eq!(t.assets.free_balance(&SBTC_ASSET_ID, &PAWN_SHOP), COLLATERAL);
    assert_eq!(t.assets.free_balance(&SBTC_ASSET_ID, &PROFIT_POOL), 0);
}

#[test]
fn a_sweep_that_the_ledger_refuses_is_left_out() {
    let mut t = borrowed();
    assert!(t.assets.burn(Origin::Root, SBTC_ASSET_ID, PAWN_SHOP, COLLATERAL).is_ok());
    t.set_timestamp(DUE_EXTEND);
    assert_eq!(
        next_block(&mut t),
        ScanReport { events: vec![Event::Expired(1, ALICE)], sweep: Sweep::Skipped }
    );
    assert_eq!(t.loan.get_loan_by_id(&1).collateral_balance_available, 97_988_000);
    assert_eq!(t.loan.total_collateral(), COLLATERAL);
    assert_eq!(t.assets.free_balance(&SBTC_ASSET_ID, &PROFIT_POOL), 0);
    assert!(!t.loan.is_collateral_reconciled());
}

#[test]
fn a_paused_module_does_not_scan() {
    let mut t = borrowed();
    assert!(t.loan.set_price(Origin::Root, 1).is_ok());
    assert!(t.loan.pause(Origin::Root).is_ok());
    let before = t.loan.clone();
    assert_eq!(next_block(&mut t), ScanReport { events: vec![], sweep: Sweep::Idle });
    assert_eq!(t.loan, before);
    assert_eq!(t.block_number, 1);
    assert!(t.loan.resume(Origin::Root).is_ok());
    assert_eq!(t.loan.on_initialize(&mut t.assets, 2, 0).events.len(), 1);
    assert_eq!(t.loan.liquidating_loans(), vec![1]);
}

#[test]
fn a_scan_takes_each_loan_for_itself() {
    let mut t = borrowed();
    assert!(t.assets.mint(Origin::Root, SBTC_ASSET_ID, BOB, 4 * COLLATERAL).is_ok());
    // BOB borrows the same against four times the collateral, half a term later
    assert!(t
        .loan
        .apply(&mut t.assets, Origin::signed(BOB), 4 * COLLATERAL, LOAN, 1, 43_200_000)
        .is_ok());
    assert!(t.assets.mint(Origin::Root, SBTC_ASSET_ID, ALICE, COLLATERAL).is_ok());
    assert!(t.loan.apply(&mut t.assets, Origin::signed(ALICE), COLLATERAL, LOAN, 1, 0).is_ok());
    // at a price of 2500 ALICE's loans stand at 16000, BOB's at 4000
    assert!(t.loan.set_price(Origin::Root, 2500_0000).is_ok());
    t.set_timestamp(DUE);
    let events = t.loan.on_each_block(&mut t.assets, DUE).events;
    assert_eq!(
        events,
        vec![
            Event::Liquidating(1, ALICE, COLLATERAL, LOAN),
            Event::Liquidating(3, ALICE, COLLATERAL, LOAN),
        ]
    );
    assert_eq!(t.loan.liquidating_loans(), vec![1, 3]);
    assert_eq!(t.loan.get_loan_by_id(&2).status, LoanHealth::Well);
    let events = t.loan.on_each_block(&mut t.assets, DUE + 43_200_000).events;
    assert_eq!(events, vec![Event::Extended(2, BOB)]);
    assert_eq!(t.loan.total_loan(), 3 * LOAN);
    assert_eq!(t.loan.total_collateral(), 6 * COLLATERAL);
    assert!(t.loan.is_well_formed());
    assert!(t.loan.is_collateral_reconciled());
}

#[test]
fn after_an_extension_the_thresholds_count_from_themselves_on() {
    let l = loan();
    // with the fee cut the ratio is 8164
    let mut p = params(50_000_001);
    p.global_warning_threshold = 8164;
    let s = scan_loan(&p, &l, &package(), DUE_EXTEND);
    assert_eq!(s.loan, l);
    assert_eq!((s.liquidate, s.fee, s.event), (false, 2_019_199, Some(Event::Warning(1, 8164))));
    p.global_warning_threshold = 8165;
    let s = scan_loan(&p, &l, &package(), DUE_EXTEND);
    assert_eq!(s.loan.collateral_balance_available, 97_980_801);
    assert_eq!(s.loan.due, DUE_EXTEND + DUE);
    assert_eq!((s.liquidate, s.fee, s.event), (false, 2_019_199, Some(Event::Expired(1, ALICE))));
    p.global_liquidation_threshold = 8164;
    let s = scan_loan(&p, &l, &package(), DUE_EXTEND);
    assert_eq!(s.loan, Loan { status: LoanHealth::Liquidating(8164), ..l });
    assert!(s.liquidate);
    assert_eq!(s.fee, 2_019_199);
}

#[test]
fn the_books_follow_every_step() {
    let mut t = new_test_ext();
    let sums = |t: &TestRuntime| {
        let mut loan = 0u128;
        let mut collateral = 0u128;
        for l in &t.loan.loans {
            assert!(l.collateral_balance_available <= l.collateral_balance_original);
            loan += l.loan_balance_total;
            collateral += l.collateral_balance_available;
        }
        (loan, collateral)
    };
    let in_order = |t: &TestRuntime| {
        assert!(t.loan.is_well_formed());
        assert!(t.loan.is_collateral_reconciled());
        assert_eq!(sums(t), (t.loan.total_loan(), t.loan.total_collateral()));
    };
    in_order(&t);
    assert!(t.loan.create_package(Origin::Root, 10, 100, 1).is_ok());
    assert!(t.assets.mint(Origin::Root, SBTC_ASSET_ID, ALICE, 3 * COLLATERAL).is_ok());
    assert!(t.assets.mint(Origin::Root, SBTC_ASSET_ID, BOB, 3 * COLLATERAL).is_ok());
    in_order(&t);
    assert!(t.loan.apply(&mut t.assets, Origin::signed(ALICE), COLLATERAL, LOAN, 1, 0).is_ok());
    in_order(&t);
    assert!(t.loan.apply(&mut t.assets, Origin::signed(BOB), 2 * COLLATERAL, 0, 1, 0).is_ok());
    in_order(&t);
    assert!(t.loan.apply(&mut t.assets, Origin::signed(ALICE), 0, LOAN, 1, 7).is_ok());
    in_order(&t);
    assert_eq!(sums(&t), (4000_00000000 + 10400_00000000 + 4000_00000000, 376_923_076));
    assert!(t.loan.draw(&mut t.assets, Origin::signed(ALICE), 1, 500_00000000).is_ok());
    in_order(&t);
    assert!(t.loan.add_collateral(&mut t.assets, Origin::signed(ALICE), 3, COLLATERAL).is_ok());
    in_order(&t);
    // a failed call in between changes nothing
    assert!(t.loan.repay(&mut t.assets, Origin::signed(ALICE), 2).is_err());
    in_order(&t);
    t.set_timestamp(DUE);
    assert_eq!(next_block(&mut t).events.len(), 2);
    in_order(&t);
    t.set_timestamp(DUE_EXTEND + 7);
    assert_eq!(next_block(&mut t).events.len(), 3);
    in_order(&t);
    assert!(t.loan.total_collateral() < 476_923_076);
    assert!(t.assets.mint(Origin::Root, TBD_ASSET_ID, BOB, 10400_00000000).is_ok());
    assert!(t.loan.repay(&mut t.assets, Origin::signed(BOB), 2).is_ok());
    in_order(&t);
    assert!(t.loan.set_price(Origin::Root, 1).is_ok());
    assert_eq!(next_block(&mut t).events.len(), 2);
    in_order(&t);
    assert!(t.assets.mint(Origin::Root, TBD_ASSET_ID, 8, 9000_00000000).is_ok());
    assert!(t.loan.mark_liquidated(&mut t.assets, Origin::signed(8), 1, 4500_00000000).is_ok());
    in_order(&t);
    assert!(t.loan.mark_liquidated(&mut t.assets, Origin::signed(8), 3, 4500_00000000).is_ok());
    in_order(&t);
    assert_eq!(sums(&t), (0, 0));
    assert!(t.loan.loans.is_empty());
    assert!(t.loan.liquidating_loans().is_empty());
}

#[test]
fn a_sweep_that_the_profit_has_no_room_for_is_left_out() {
    let mut t = borrowed();
    t.loan.total_profit = u128::MAX - 2_011_999;
    t.set_timestamp(DUE_EXTEND);
    assert_eq!(next_block(&mut t).sweep, Sweep::Skipped);
    assert_eq!(t.loan.total_profit(), u128::MAX - 2_011_999);
    assert_eq!(t.loan.total_collateral(), COLLATERAL);
    assert_eq!(t.assets.free_balance(&SBTC_ASSET_ID, &PROFIT_POOL), 0);
}
