//! A small runtime for trying the engine out: an asset ledger, a loan engine
//! and a clock, started from fixed values.
use vstd::prelude::*;
use crate::assets;
use crate::assets::LedgerView;
use crate::engine::{GenesisConfig, Module, State};
use crate::loan::Event;
use crate::scanner::{ScanReport, Sweep};
use crate::primitives::{AccountId, AssetId, Balance, Moment};

verus! {

/// One whole unit of an asset, in its smallest unit.
pub const DECIMALS: Balance = 100_000_000;

pub const ROOT: AccountId = 1;

pub const ALICE: AccountId = 2;

pub const BOB: AccountId = 3;

pub const CHRIS: AccountId = 4;

pub const DAVE: AccountId = 5;

pub const TEAM: AccountId = 6;

pub const PROFIT_POOL: AccountId = 7;

pub const LIQUIDATION_ACCOUNT: AccountId = 8;

pub const PAWN_SHOP: AccountId = 888;

pub const COLLECTION_ACCOUNT_ID: AccountId = 999;

pub const RBTC_ASSET_ID: AssetId = 1;

pub const RSC1_ASSET_ID: AssetId = 2;

pub const RSC2_ASSET_ID: AssetId = 3;

pub const RSC3_ASSET_ID: AssetId = 4;

pub const RSC4_ASSET_ID: AssetId = 5;

pub const RSC5_ASSET_ID: AssetId = 6;

pub const SBTC_ASSET_ID: AssetId = 7;

pub const TBD_ASSET_ID: AssetId = 8;

/// The values that the engine of the test runtime starts with.
pub open spec fn test_genesis() -> GenesisConfig {
    GenesisConfig {
        current_btc_price: 80_000_000,
        collateral_asset_id: SBTC_ASSET_ID,
        loan_asset_id: TBD_ASSET_ID,
        global_ltv_limit: 6500,
        global_liquidation_threshold: 9000,
        global_warning_threshold: 8000,
        next_loan_id: 1,
        next_loan_package_id: 1,
        pawn_shop: PAWN_SHOP,
        profit_pool: PROFIT_POOL,
        penalty_rate: 200,
        liquidation_account: LIQUIDATION_ACCOUNT,
        minimum_collateral: 20_000_000,
        liquidation_penalty: 1300,
    }
}

/// The symbols that the ledger of the test runtime starts with.
pub open spec fn test_symbols() -> Map<AssetId, Seq<u8>> {
    map![
        SBTC_ASSET_ID => seq![83u8, 66u8, 84u8, 67u8],
        RBTC_ASSET_ID => seq![82u8, 66u8, 84u8, 67u8],
        RSC1_ASSET_ID => seq![82u8, 83u8, 67u8, 49u8],
        RSC2_ASSET_ID => seq![82u8, 83u8, 67u8, 50u8],
        RSC3_ASSET_ID => seq![82u8, 83u8, 67u8, 51u8],
        RSC4_ASSET_ID => seq![82u8, 83u8, 67u8, 52u8],
        RSC5_ASSET_ID => seq![82u8, 83u8, 67u8, 53u8],
        TBD_ASSET_ID => seq![84u8, 66u8, 68u8],
    ]
}

/// An asset ledger, a loan engine, a block counter and a clock.
#[derive(Clone, Debug)]
pub struct TestRuntime {
    pub assets: assets::Module,
    pub loan: Module,
    pub block_number: u64,
    /// The time that the next block starts at.
    pub timestamp: Moment,
}

impl TestRuntime {
    /// The invariant of the engine holds.
    pub open spec fn wf(&self) -> bool {
        self.loan@.wf()
    }

    /// Sets the time that the next block starts at.
    pub fn set_timestamp(&mut self, now: Moment)
        ensures
            final(self).timestamp == now,
            final(self).block_number == old(self).block_number,
            final(self).assets == old(self).assets,
            final(self).loan == old(self).loan,
    {
        self.timestamp = now;
    }
}

/// Builds the test runtime.
pub struct ExtBuilder {}

impl Default for ExtBuilder {
    fn default() -> (b: Self) {
        ExtBuilder {  }
    }
}

impl ExtBuilder {
    /// The test runtime at its start.
    pub fn build(self) -> (t: TestRuntime)
        ensures
            t.wf(),
            t.loan@ == State::genesis(test_genesis()),
            t.loan@.collateral_reconciled(),
            t.assets@.root_key == ROOT,
            t.assets@.next_asset_id == 9,
            t.assets@.symbols == test_symbols(),
            forall|a: AssetId, w: AccountId| t.assets@.balances[(a, w)] == 0,
            t.block_number == 0,
            t.timestamp == 0,
    {
        new_test_ext()
    }
}

/// The four bytes as a vector.
fn symbol4(a: u8, b: u8, c: u8, d: u8) -> (v: Vec<u8>)
    ensures
        v@ == seq![a, b, c, d],
{
    let mut v: Vec<u8> = Vec::new();
    v.push(a);
    v.push(b);
    v.push(c);
    v.push(d);
    assert(v@ =~= seq![a, b, c, d]);
    v
}

/// The three bytes as a vector.
fn symbol3(a: u8, b: u8, c: u8) -> (v: Vec<u8>)
    ensures
        v@ == seq![a, b, c],
{
    let mut v: Vec<u8> = Vec::new();
    v.push(a);
    v.push(b);
    v.push(c);
    assert(v@ =~= seq![a, b, c]);
    v
}

/// The test runtime at its start: eight registered assets, no balance, no
/// package, no loan, block zero at time zero.
pub fn new_test_ext() -> (t: TestRuntime)
    ensures
        t.wf(),
        t.loan@ == State::genesis(test_genesis()),
        t.loan@.collateral_reconciled(),
        t.assets@.root_key == ROOT,
        t.assets@.next_asset_id == 9,
        t.assets@.symbols == test_symbols(),
        forall|a: AssetId, w: AccountId| t.assets@.balances[(a, w)] == 0,
        t.block_number == 0,
        t.timestamp == 0,
{
    let mut ledger = assets::Module::new(ROOT, 9);
    ledger.register(SBTC_ASSET_ID, symbol4(83, 66, 84, 67));
    ledger.register(RBTC_ASSET_ID, symbol4(82, 66, 84, 67));
    ledger.register(RSC1_ASSET_ID, symbol4(82, 83, 67, 49));
    ledger.register(RSC2_ASSET_ID, symbol4(82, 83, 67, 50));
    ledger.register(RSC3_ASSET_ID, symbol4(82, 83, 67, 51));
    ledger.register(RSC4_ASSET_ID, symbol4(82, 83, 67, 52));
    ledger.register(RSC5_ASSET_ID, symbol4(82, 83, 67, 53));
    ledger.register(TBD_ASSET_ID, symbol3(84, 66, 68));
    assert(ledger@.symbols =~= test_symbols());
    let loan = Module::new(
        GenesisConfig {
            current_btc_price: 80_000_000,
            collateral_asset_id: SBTC_ASSET_ID,
            loan_asset_id: TBD_ASSET_ID,
            global_ltv_limit: 6500,
            global_liquidation_threshold: 9000,
            global_warning_threshold: 8000,
            next_loan_id: 1,
            next_loan_package_id: 1,
            pawn_shop: PAWN_SHOP,
            profit_pool: PROFIT_POOL,
            penalty_rate: 200,
            liquidation_account: LIQUIDATION_ACCOUNT,
            minimum_collateral: 20_000_000,
            liquidation_penalty: 1300,
        },
    );
    TestRuntime { assets: ledger, loan, block_number: 0, timestamp: 0 }
}

/// Starts the next block: the counter goes up by one, as far as it can, and
/// the engine is told, which scans the loans at the time of the clock unless
/// it is paused.
pub fn next_block(runtime: &mut TestRuntime) -> (report: ScanReport)
    requires
        old(runtime).wf(),
    ensures
        final(runtime).wf(),
        final(runtime).timestamp == old(runtime).timestamp,
        final(runtime).block_number == (if old(runtime).block_number < u64::MAX {
            (old(runtime).block_number + 1) as u64
        } else {
            old(runtime).block_number
        }),
        old(runtime).loan@.params.paused ==> final(runtime).loan@ == old(runtime).loan@ && final(runtime).assets@ == old(runtime).assets@ && report.events@ == Seq::<Event>::empty()
            && report.sweep == Sweep::Idle,
        !old(runtime).loan@.params.paused ==> final(runtime).loan@ == old(runtime).loan@.scan_outcome(old(runtime).assets@.balances, old(runtime).timestamp).0 && final(runtime).assets@ == (LedgerView {
            balances: old(runtime).loan@.scan_outcome(
                old(runtime).assets@.balances,
                old(runtime).timestamp,
            ).1,
            ..old(runtime).assets@
        }) && report.events@ == old(runtime).loan@.scan_outcome(
            old(runtime).assets@.balances,
            old(runtime).timestamp,
        ).2 && report.sweep == old(runtime).loan@.sweep_report(
            old(runtime).assets@.balances,
            old(runtime).timestamp,
        ),
{
    runtime.block_number = runtime.block_number.saturating_add(1);
    runtime.loan.on_initialize(&mut runtime.assets, runtime.block_number, runtime.timestamp)
}

} // verus!
