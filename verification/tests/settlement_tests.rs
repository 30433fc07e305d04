use pawnshop::error::{Error, ErrorKind};
use pawnshop::loan::{Event, Loan};
use pawnshop::mock::{
    new_test_ext, next_block, TestRuntime, ALICE, BOB, LIQUIDATION_ACCOUNT, PAWN_SHOP,
    PROFIT_POOL, SBTC_ASSET_ID, TBD_ASSET_ID,
};
use pawnshop::settlement::{split_auction, Split};
use pawnshop::system::Origin;

const COLLATERAL: u128 = 1_00000000;
const LOAN: u128 = 4000_00000000;

/// A runtime in which loan 1 of ALICE waits for its settlement.
fn liquidating() -> TestRuntime {
    let mut t = new_test_ext();
    assert!(t.loan.create_package(Origin::Root, 10, 100, 1).is_ok());
    assert!(t.assets.mint(Origin::Root, SBTC_ASSET_ID, ALICE, COLLATERAL).is_ok());
    assert!(t.loan.apply(&mut t.assets, Origin::signed(ALICE), COLLATERAL, LOAN, 1, 0).is_ok());
    assert!(t.loan.set_price(Origin::Root, 1).is_ok());
    next_block(&mut t);
    assert_eq!(t.loan.liquidating_loans(), vec![1]);
    t
}

fn balances(t: &TestRuntime) -> Vec<u128> {
    let mut v = Vec::new();
    for asset in [SBTC_ASSET_ID, TBD_ASSET_ID] {
        for who in [ALICE, BOB, PAWN_SHOP, PROFIT_POOL, LIQUIDATION_ACCOUNT] {
            v.push(t.assets.free_balance(&asset, &who));
        }
    }
    v
}

#[test]
fn the_proceeds_are_split_by_the_penalty_rate() {
    assert_eq!(
        split_auction(5000_00000000, LOAN, 1300),
        Ok(Split { payoff: LOAN, penalty: 130_00000000, refund: 870_00000000 })
    );
    assert_eq!(split_auction(LOAN, LOAN, 1300), Ok(Split { payoff: LOAN, penalty: 0, refund: 0 }));
    assert_eq!(split_auction(1, LOAN, 1300), Ok(Split { payoff: LOAN, penalty: 0, refund: 0 }));
    assert_eq!(split_auction(LOAN + 7, LOAN, 1300), Ok(Split { payoff: LOAN, penalty: 0, refund: 7 }));
    assert_eq!(split_auction(LOAN + 8, LOAN, 1300), Ok(Split { payoff: LOAN, penalty: 1, refund: 7 }));
    assert_eq!(
        split_auction(LOAN + 8, LOAN, 10_000),
        Ok(Split { payoff: LOAN, penalty: 8, refund: 0 })
    );
    assert_eq!(split_auction(LOAN + 8, LOAN, 0), Ok(Split { payoff: LOAN, penalty: 0, refund: 8 }));
    assert_eq!(
        split_auction(LOAN + 8, LOAN, 10_001),
        Ok(Split { payoff: LOAN, penalty: 8, refund: 0 })
    );
    assert_eq!(split_auction(LOAN + 8, LOAN, 11_250), Err(Error::InvalidParameter));
    assert_eq!(split_auction(u128::MAX, 0, 2), Err(Error::Overflow));
}

#[test]
fn a_settlement_with_a_surplus_pays_everyone() {
    let mut t = liquidating();
    assert!(t.assets.mint(Origin::Root, TBD_ASSET_ID, LIQUIDATION_ACCOUNT, 5000_00000000).is_ok());
    let alice = t.assets.free_balance(&TBD_ASSET_ID, &ALICE);
    let pool = t.assets.free_balance(&TBD_ASSET_ID, &PROFIT_POOL);
    let r = t.loan.mark_liquidated(
        &mut t.assets,
        Origin::signed(LIQUIDATION_ACCOUNT),
        1,
        5000_00000000,
    );
    assert_eq!(r, Ok(Event::Liquidated(1, COLLATERAL, COLLATERAL, 5000_00000000, LOAN)));
    assert_eq!(t.assets.free_balance(&TBD_ASSET_ID, &LIQUIDATION_ACCOUNT), 0);
    assert_eq!(t.assets.free_balance(&TBD_ASSET_ID, &PAWN_SHOP), LOAN);
    assert_eq!(t.assets.free_balance(&TBD_ASSET_ID, &PROFIT_POOL), pool + 130_00000000);
    assert_eq!(t.assets.free_balance(&TBD_ASSET_ID, &ALICE), alice + 870_00000000);
    assert_eq!(130_00000000u128 + 870_00000000, 5000_00000000 - LOAN);
    assert_eq!(t.loan.get_loan_by_id(&1), Loan::default());
    assert!(t.loan.loans_by_account(&ALICE).is_empty());
    assert!(t.loan.liquidating_loans().is_empty());
    assert_eq!(t.loan.total_loan(), 0);
    assert_eq!(t.loan.total_collateral(), 0);
    assert_eq!(t.loan.total_profit(), 96_000_000 + 130_00000000);
    assert!(t.loan.is_well_formed());
    assert!(t.loan.is_collateral_reconciled());
}

#[test]
fn a_settlement_without_a_surplus_pays_the_loan_off() {
    let mut t = liquidating();
    assert!(t.assets.mint(Origin::Root, TBD_ASSET_ID, BOB, LOAN).is_ok());
    let loan = t.loan.get_loan_by_id(&1);
    let alice = t.assets.free_balance(&TBD_ASSET_ID, &ALICE);
    let r = t.loan.mark_loan_liquidated(&mut t.assets, &loan, BOB, 3000_00000000);
    assert_eq!(r, Ok(Event::Liquidated(1, COLLATERAL, COLLATERAL, 3000_00000000, LOAN)));
    assert_eq!(t.assets.free_balance(&TBD_ASSET_ID, &BOB), 0);
    assert_eq!(t.assets.free_balance(&TBD_ASSET_ID, &PAWN_SHOP), LOAN);
    assert_eq!(t.assets.free_balance(&TBD_ASSET_ID, &ALICE), alice);
    assert_eq!(t.assets.free_balance(&TBD_ASSET_ID, &PROFIT_POOL), 96_000_000);
    assert_eq!(t.loan.total_profit(), 96_000_000);
    assert!(t.loan.liquidating_loans().is_empty());
}

#[test]
fn a_settlement_is_for_the_liquidation_account() {
    let mut t = liquidating();
    assert!(t.assets.mint(Origin::Root, TBD_ASSET_ID, BOB, 5000_00000000).is_ok());
    let before = t.loan.clone();
    let held = balances(&t);
    let r = t.loan.mark_liquidated(&mut t.assets, Origin::signed(BOB), 1, 5000_00000000);
    assert_eq!(r, Err(Error::NotLiquidationAccount));
    assert_eq!(r.unwrap_err().kind(), ErrorKind::Authorization);
    assert_eq!(
        t.loan.mark_liquidated(&mut t.assets, Origin::Root, 1, 5000_00000000),
        Err(Error::RequireSignedOrigin)
    );
    assert_eq!(
        t.loan.mark_liquidated(&mut t.assets, Origin::signed(LIQUIDATION_ACCOUNT), 9, 0),
        Err(Error::LoanNotFound)
    );
    assert_eq!(t.loan, before);
    assert_eq!(balances(&t), held);
}

#[test]
fn a_settlement_needs_the_proceeds_in_hand() {
    let mut t = liquidating();
    assert!(t.assets.mint(Origin::Root, TBD_ASSET_ID, LIQUIDATION_ACCOUNT, LOAN).is_ok());
    let before = t.loan.clone();
    let held = balances(&t);
    let agent = Origin::signed(LIQUIDATION_ACCOUNT);
    assert_eq!(
        t.loan.mark_liquidated(&mut t.assets, agent, 1, LOAN + 1),
        Err(Error::InsufficientBalance)
    );
    assert_eq!(t.loan, before);
    assert_eq!(balances(&t), held);
    // the agent holds the proceeds, yet not the loan balance
    assert!(t.assets.burn(Origin::Root, TBD_ASSET_ID, LIQUIDATION_ACCOUNT, 1).is_ok());
    let held = balances(&t);
    assert_eq!(
        t.loan.mark_liquidated(&mut t.assets, agent, 1, LOAN - 1),
        Err(Error::InsufficientBalance)
    );
    assert_eq!(t.loan, before);
    assert_eq!(balances(&t), held);
}

#[test]
fn a_settlement_is_for_a_loan_under_liquidation() {
    let mut t = new_test_ext();
    assert!(t.loan.create_package(Origin::Root, 10, 100, 1).is_ok());
    assert!(t.assets.mint(Origin::Root, SBTC_ASSET_ID, ALICE, COLLATERAL).is_ok());
    assert!(t.loan.apply(&mut t.assets, Origin::signed(ALICE), COLLATERAL, LOAN, 1, 0).is_ok());
    assert!(t.assets.mint(Origin::Root, TBD_ASSET_ID, LIQUIDATION_ACCOUNT, LOAN).is_ok());
    let before = t.loan.clone();
    let r = t.loan.mark_liquidated(&mut t.assets, Origin::signed(LIQUIDATION_ACCOUNT), 1, LOAN);
    assert_eq!(r, Err(Error::LoanNotInLiquidation));
    assert_eq!(r.unwrap_err().kind(), ErrorKind::LoanState);
    assert_eq!(t.loan, before);
}

#[test]
fn a_failed_refund_puts_the_payoff_and_the_penalty_back() {
    let mut t = liquidating();
    assert!(t.assets.mint(Origin::Root, TBD_ASSET_ID, LIQUIDATION_ACCOUNT, 5000_00000000).is_ok());
    // ALICE has no room for her refund
    let room = u128::MAX - t.assets.free_balance(&TBD_ASSET_ID, &ALICE);
    assert!(t.assets.mint(Origin::Root, TBD_ASSET_ID, ALICE, room - 10).is_ok());
    let before = t.loan.clone();
    let held = balances(&t);
    let r = t.loan.mark_liquidated(
        &mut t.assets,
        Origin::signed(LIQUIDATION_ACCOUNT),
        1,
        5000_00000000,
    );
    assert_eq!(r, Err(Error::Overflow));
    assert_eq!(t.loan, before);
    assert_eq!(balances(&t), held);
    assert_eq!(t.loan.liquidating_loans(), vec![1]);
}

#[test]
fn a_settlement_strikes_one_loan_from_the_set() {
    let mut t = liquidating();
    assert!(t.loan.set_price(Origin::Root, 8000_0000).is_ok());
    assert!(t.assets.mint(Origin::Root, SBTC_ASSET_ID, BOB, 2 * COLLATERAL).is_ok());
    assert!(t.loan.apply(&mut t.assets, Origin::signed(BOB), COLLATERAL, LOAN, 1, 0).is_ok());
    assert!(t.loan.apply(&mut t.assets, Origin::signed(BOB), COLLATERAL, LOAN, 1, 0).is_ok());
    assert!(t.loan.set_price(Origin::Root, 1).is_ok());
    next_block(&mut t);
    assert_eq!(t.loan.liquidating_loans(), vec![1, 2, 3]);
    assert!(t.assets.mint(Origin::Root, TBD_ASSET_ID, LIQUIDATION_ACCOUNT, LOAN).is_ok());
    let agent = Origin::signed(LIQUIDATION_ACCOUNT);
    assert!(t.loan.mark_liquidated(&mut t.assets, agent, 2, LOAN).is_ok());
    assert_eq!(t.loan.liquidating_loans(), vec![1, 3]);
    assert_eq!(t.loan.loans_by_account(&BOB), vec![3]);
    assert_eq!(t.loan.loans_by_account(&ALICE), vec![1]);
    assert_eq!(t.loan.total_loan(), 2 * LOAN);
    assert_eq!(t.loan.total_collateral(), 2 * COLLATERAL);
    assert!(t.loan.is_well_formed());
    assert!(t.loan.is_collateral_reconciled());
}
