use pawnshop::assets::{Event, Module};
use pawnshop::error::Error;
use pawnshop::mock::{new_test_ext, ALICE, BOB, ROOT, SBTC_ASSET_ID, TBD_ASSET_ID};
use pawnshop::saga::{run_saga, LedgerAction};
use pawnshop::system::Origin;

#[test]
fn a_new_ledger_is_empty() {
    let m = Module::new(ROOT, 9);
    assert_eq!(m.get_current_asset_id(), 9);
    assert_eq!(m.free_balance(&1, &ALICE), 0);
    assert!(!m.asset_exists(&1));
}

#[test]
fn the_test_ledger_knows_its_assets() {
    let t = new_test_ext();
    for id in 1..=8u32 {
        assert!(t.assets.asset_exists(&id));
    }
    assert!(!t.assets.asset_exists(&0));
    assert!(!t.assets.asset_exists(&9));
    assert_eq!(t.assets.get_current_asset_id(), 9);
    assert_eq!(t.assets.symbols.get(&SBTC_ASSET_ID).unwrap().as_slice(), "SBTC".as_bytes());
    assert_eq!(t.assets.symbols.get(&TBD_ASSET_ID).unwrap().as_slice(), "TBD".as_bytes());
}

#[test]
fn register_records_a_symbol() {
    let mut m = Module::new(ROOT, 0);
    m.register(3, vec![65, 66]);
    assert!(m.asset_exists(&3));
    assert!(!m.asset_exists(&2));
    m.register(3, vec![67]);
    assert_eq!(m.symbols.get(&3).unwrap().as_slice(), &[67u8]);
    assert_eq!(m.free_balance(&3, &ROOT), 0);
}

#[test]
fn create_takes_root_and_gives_the_next_id() {
    let mut m = Module::new(ROOT, 9);
    assert_eq!(m.create(Origin::Signed(ROOT), 5, vec![65]), Err(Error::RequireRootOrigin));
    assert_eq!(m.create(Origin::Root, 5, vec![65]), Ok(Event::Created(9, ROOT, 5)));
    assert!(m.asset_exists(&9));
    assert_eq!(m.free_balance(&9, &ROOT), 5);
    assert_eq!(m.get_current_asset_id(), 10);
    assert_eq!(m.create(Origin::Root, 0, vec![]), Ok(Event::Created(10, ROOT, 0)));
}

#[test]
fn create_stops_at_the_last_id() {
    let mut m = Module::new(ROOT, u32::MAX);
    assert_eq!(m.create(Origin::Root, 5, vec![65]), Err(Error::Overflow));
    assert!(!m.asset_exists(&u32::MAX));
    assert_eq!(m.get_current_asset_id(), u32::MAX);
}

#[test]
fn ensure_signed_root_wants_the_root_account() {
    let m = Module::new(ROOT, 9);
    assert_eq!(m.ensure_signed_root(Origin::Signed(ROOT)), Ok(ROOT));
    assert_eq!(m.ensure_signed_root(Origin::Signed(ALICE)), Err(Error::RequireRootOrigin));
    assert_eq!(m.ensure_signed_root(Origin::Root), Err(Error::RequireSignedOrigin));
    assert_eq!(m.ensure_signed_root(Origin::Unsigned), Err(Error::RequireSignedOrigin));
}

#[test]
fn mint_and_burn_take_root() {
    let mut m = Module::new(ROOT, 9);
    assert_eq!(m.mint(Origin::Signed(ALICE), 1, ALICE, 10), Err(Error::RequireRootOrigin));
    assert_eq!(m.mint(Origin::Root, 1, ALICE, 10), Ok(Event::Minted(1, ALICE, 10)));
    assert_eq!(m.free_balance(&1, &ALICE), 10);
    assert_eq!(m.free_balance(&2, &ALICE), 0);
    assert_eq!(m.free_balance(&1, &BOB), 0);
    assert_eq!(m.burn(Origin::Unsigned, 1, ALICE, 4), Err(Error::RequireRootOrigin));
    assert_eq!(m.burn(Origin::Root, 1, ALICE, 4), Ok(Event::Burned(1, ALICE, 4)));
    assert_eq!(m.free_balance(&1, &ALICE), 6);
    assert_eq!(m.burn(Origin::Root, 1, ALICE, 7), Err(Error::InsufficientBalance));
    assert_eq!(m.free_balance(&1, &ALICE), 6);
}

#[test]
fn mint_stops_at_the_largest_balance() {
    let mut m = Module::new(ROOT, 9);
    assert!(m.mint(Origin::Root, 1, ALICE, u128::MAX).is_ok());
    assert_eq!(m.mint(Origin::Root, 1, ALICE, 1), Err(Error::Overflow));
    assert_eq!(m.free_balance(&1, &ALICE), u128::MAX);
    assert_eq!(m.mint_free(&1, &ALICE, 0), Ok(()));
}

#[test]
fn transfer_moves_what_is_held() {
    let mut m = Module::new(ROOT, 9);
    assert!(m.mint(Origin::Root, 1, ALICE, 10).is_ok());
    assert_eq!(m.transfer(Origin::Root, 1, BOB, 3), Err(Error::RequireSignedOrigin));
    assert_eq!(
        m.transfer(Origin::Signed(ALICE), 1, BOB, 3),
        Ok(Event::Transferred(1, ALICE, BOB, 3))
    );
    assert_eq!(m.free_balance(&1, &ALICE), 7);
    assert_eq!(m.free_balance(&1, &BOB), 3);
    assert_eq!(m.transfer(Origin::Signed(ALICE), 1, BOB, 8), Err(Error::InsufficientBalance));
    assert_eq!(m.make_transfer(&1, &ALICE, &BOB, 7), Ok(()));
    assert_eq!(m.free_balance(&1, &ALICE), 0);
    assert_eq!(m.free_balance(&1, &BOB), 10);
    assert_eq!(
        m.make_transfer_with_event(&1, &BOB, &ALICE, 1),
        Ok(Event::Transferred(1, BOB, ALICE, 1))
    );
    assert_eq!(m.make_transfer_with_event(&2, &BOB, &ALICE, 1), Err(Error::InsufficientBalance));
}

#[test]
fn a_transfer_to_oneself_changes_nothing() {
    let mut m = Module::new(ROOT, 9);
    assert!(m.mint(Origin::Root, 1, ALICE, u128::MAX).is_ok());
    assert_eq!(m.make_transfer(&1, &ALICE, &ALICE, u128::MAX), Ok(()));
    assert_eq!(m.free_balance(&1, &ALICE), u128::MAX);
    assert_eq!(m.make_transfer(&1, &BOB, &BOB, 1), Err(Error::InsufficientBalance));
}

#[test]
fn a_transfer_stops_at_a_full_receiver() {
    let mut m = Module::new(ROOT, 9);
    assert!(m.mint(Origin::Root, 1, ALICE, 10).is_ok());
    assert!(m.mint(Origin::Root, 1, BOB, u128::MAX - 5).is_ok());
    assert_eq!(m.make_transfer(&1, &ALICE, &BOB, 6), Err(Error::Overflow));
    assert_eq!(m.free_balance(&1, &ALICE), 10);
    assert_eq!(m.free_balance(&1, &BOB), u128::MAX - 5);
    assert_eq!(m.make_transfer(&1, &ALICE, &BOB, 5), Ok(()));
    assert_eq!(m.free_balance(&1, &BOB), u128::MAX);
}

#[test]
fn accounts_of_different_assets_do_not_meet() {
    let mut m = Module::new(ROOT, 9);
    assert!(m.mint(Origin::Root, 0, u64::MAX, 1).is_ok());
    assert!(m.mint(Origin::Root, 1, 0, 2).is_ok());
    assert!(m.mint(Origin::Root, u32::MAX, u64::MAX, 3).is_ok());
    assert_eq!(m.free_balance(&0, &u64::MAX), 1);
    assert_eq!(m.free_balance(&1, &0), 2);
    assert_eq!(m.free_balance(&u32::MAX, &u64::MAX), 3);
    assert_eq!(m.free_balance(&0, &0), 0);
    assert_eq!(m.free_balance(&1, &u64::MAX), 0);
}

#[test]
fn every_step_has_its_compensation() {
    let t = LedgerAction::Transfer { asset_id: 1, from: ALICE, to: BOB, amount: 5 };
    assert_eq!(
        t.compensation(),
        LedgerAction::Transfer { asset_id: 1, from: BOB, to: ALICE, amount: 5 }
    );
    let m = LedgerAction::Mint { asset_id: 1, to: BOB, amount: 5 };
    assert_eq!(m.compensation(), LedgerAction::Burn { asset_id: 1, from: BOB, amount: 5 });
    let b = LedgerAction::Burn { asset_id: 1, from: BOB, amount: 5 };
    assert_eq!(b.compensation(), LedgerAction::Mint { asset_id: 1, to: BOB, amount: 5 });
}

#[test]
fn a_step_is_performed_or_refused() {
    let mut m = Module::new(ROOT, 9);
    assert_eq!(LedgerAction::Mint { asset_id: 1, to: BOB, amount: 5 }.perform(&mut m), Ok(()));
    assert_eq!(
        LedgerAction::Transfer { asset_id: 1, from: BOB, to: ALICE, amount: 2 }.perform(&mut m),
        Ok(())
    );
    assert_eq!(
        LedgerAction::Burn { asset_id: 1, from: BOB, amount: 4 }.perform(&mut m),
        Err(Error::InsufficientBalance)
    );
    assert_eq!(LedgerAction::Burn { asset_id: 1, from: BOB, amount: 3 }.perform(&mut m), Ok(()));
    assert_eq!(m.free_balance(&1, &BOB), 0);
    assert_eq!(m.free_balance(&1, &ALICE), 2);
}

#[test]
fn a_saga_that_goes_through_applies_every_step() {
    let mut m = Module::new(ROOT, 9);
    assert!(m.mint(Origin::Root, 1, ALICE, 10).is_ok());
    let steps = vec![
        LedgerAction::Transfer { asset_id: 1, from: ALICE, to: BOB, amount: 4 },
        LedgerAction::Mint { asset_id: 2, to: ALICE, amount: 7 },
        LedgerAction::Burn { asset_id: 1, from: BOB, amount: 1 },
    ];
    assert_eq!(run_saga(&mut m, &steps), Ok(()));
    assert_eq!(m.free_balance(&1, &ALICE), 6);
    assert_eq!(m.free_balance(&1, &BOB), 3);
    assert_eq!(m.free_balance(&2, &ALICE), 7);
    assert_eq!(run_saga(&mut m, &vec![]), Ok(()));
}

#[test]
fn a_saga_that_fails_leaves_the_ledger_as_it_was() {
    let mut m = Module::new(ROOT, 9);
    assert!(m.mint(Origin::Root, 1, ALICE, 10).is_ok());
    assert!(m.mint(Origin::Root, 2, BOB, u128::MAX - 1).is_ok());
    // fails at the last step
    let steps = vec![
        LedgerAction::Transfer { asset_id: 1, from: ALICE, to: BOB, amount: 4 },
        LedgerAction::Mint { asset_id: 2, to: ALICE, amount: 7 },
        LedgerAction::Burn { asset_id: 1, from: BOB, amount: 1 },
        LedgerAction::Burn { asset_id: 1, from: BOB, amount: 4 },
    ];
    assert_eq!(run_saga(&mut m, &steps), Err(Error::InsufficientBalance));
    assert_eq!(m.free_balance(&1, &ALICE), 10);
    assert_eq!(m.free_balance(&1, &BOB), 0);
    assert_eq!(m.free_balance(&2, &ALICE), 0);
    assert_eq!(m.free_balance(&2, &BOB), u128::MAX - 1);
    // fails in the middle, with the error of the step that failed
    let steps = vec![
        LedgerAction::Transfer { asset_id: 1, from: ALICE, to: BOB, amount: 4 },
        LedgerAction::Mint { asset_id: 2, to: BOB, amount: 2 },
        LedgerAction::Transfer { asset_id: 1, from: ALICE, to: BOB, amount: 100 },
    ];
    assert_eq!(run_saga(&mut m, &steps), Err(Error::Overflow));
    assert_eq!(m.free_balance(&1, &ALICE), 10);
    assert_eq!(m.free_balance(&1, &BOB), 0);
    assert_eq!(m.free_balance(&2, &BOB), u128::MAX - 1);
    // fails at once
    let steps = vec![LedgerAction::Transfer { asset_id: 1, from: BOB, to: ALICE, amount: 1 }];
    assert_eq!(run_saga(&mut m, &steps), Err(Error::InsufficientBalance));
    assert_eq!(m.free_balance(&1, &ALICE), 10);
}
