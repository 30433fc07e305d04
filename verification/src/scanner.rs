//! The scan that runs once per block over every open loan, and the sweep of
//! the fees it charged from the pawn shop to the profit pool.
use vstd::prelude::*;
use vstd::seq_lib::lemma_seq_contains_after_push;
use crate::assets;
use crate::assets::{Balances, LedgerView};
use crate::engine::{loan_balances, Module, State};
use crate::health::{lemma_scan_of_keeps, scan_loan, scan_of, untouched, LoanScan};
use crate::loan::{Event, Loan};
use crate::primitives::{Balance, LoanId, Moment};
use crate::laws::law_scan_collateral_books;
use crate::saga::LedgerAction;
use crate::sums::sum;

verus! {

/// What became of the fees of a scan.
#[derive(Clone, Copy, Debug, PartialEq, Eq, Structural)]
pub enum Sweep {
    /// No fee was charged.
    Idle,
    /// The fees moved from the pawn shop to the profit pool.
    Made(Balance),
    /// Fees were charged and stay where they are: the total collateral does
    /// not cover them, the total profit has no room for them, or the ledger
    /// refused the transfer.
    Skipped,
}

/// What a scan has to tell.
#[derive(Clone, Debug, PartialEq, Eq)]
pub struct ScanReport {
    /// What happened to the loans, in the order of the loan table.
    pub events: Vec<Event>,
    /// What became of the fees.
    pub sweep: Sweep,
}

impl State {
    /// What a scan at `now` makes of the loan at place `i`: a loan under
    /// liquidation is passed over.
    pub open spec fn scan_at(self, i: int, now: Moment) -> LoanScan {
        let loan = self.loans[i];
        if self.is_liquidating(loan.id) {
            untouched(loan)
        } else {
            scan_of(self.params, loan, self.package(loan.package_id), now)
        }
    }

    /// The loans after a scan at `now`.
    pub open spec fn scanned_loans(self, now: Moment) -> Seq<Loan> {
        Seq::new(self.loans.len(), |i: int| self.scan_at(i, now).loan)
    }

    /// The liquidating set once the first `n` loans are scanned: the loans
    /// handed over join it in the order of the loan table.
    pub open spec fn scanned_liquidating(self, now: Moment, n: nat) -> Seq<LoanId>
        decreases n,
    {
        if n == 0 {
            self.liquidating
        } else {
            let before = self.scanned_liquidating(now, (n - 1) as nat);
            if self.scan_at(n - 1, now).liquidate {
                before.push(self.loans[n - 1].id)
            } else {
                before
            }
        }
    }

    /// The fees charged for the first `n` loans.
    pub open spec fn scanned_fees(self, now: Moment, n: nat) -> int
        decreases n,
    {
        if n == 0 {
            0
        } else {
            self.scanned_fees(now, (n - 1) as nat) + self.scan_at(n - 1, now).fee
        }
    }

    /// What the scan reports of the first `n` loans, in the order of the loan
    /// table.
    pub open spec fn scanned_events(self, now: Moment, n: nat) -> Seq<Event>
        decreases n,
    {
        if n == 0 {
            Seq::empty()
        } else {
            let before = self.scanned_events(now, (n - 1) as nat);
            match self.scan_at(n - 1, now).event {
                Some(ev) => before.push(ev),
                None => before,
            }
        }
    }

    /// The transfer that moves all fees of a scan from the pawn shop to the
    /// profit pool, in the collateral asset of the moment.
    pub open spec fn sweep(self, now: Moment) -> LedgerAction {
        LedgerAction::Transfer {
            asset_id: self.params.collateral_asset_id,
            from: self.params.pawn_shop,
            to: self.params.profit_pool,
            amount: self.scanned_fees(now, self.loans.len()) as Balance,
        }
    }

    /// Whether the sweep is made: there are fees, the total collateral covers
    /// them, the total profit has room for them, and the ledger takes the
    /// transfer.
    pub open spec fn sweeps(self, b: Balances, now: Moment) -> bool {
        let fees = self.scanned_fees(now, self.loans.len());
        fees > 0 && fees <= self.total_collateral && self.total_profit + fees <= u128::MAX
            && self.sweep(now).allowed(b)
    }

    /// What becomes of the fees of a scan at `now`.
    pub open spec fn sweep_report(self, b: Balances, now: Moment) -> Sweep {
        let fees = self.scanned_fees(now, self.loans.len());
        if fees == 0 {
            Sweep::Idle
        } else if self.sweeps(b, now) {
            Sweep::Made(fees as Balance)
        } else {
            Sweep::Skipped
        }
    }

    /// A scan as a whole: every loan that is not under liquidation is
    /// assessed, the loans handed over join the liquidating set, and the fees
    /// are swept, which moves the total collateral down and the total profit
    /// up by them, or, where they cannot be, left where they are.
    pub open spec fn scan_outcome(self, b: Balances, now: Moment) -> (State, Balances, Seq<Event>) {
        let n = self.loans.len();
        (
            State {
                loans: self.scanned_loans(now),
                liquidating: self.scanned_liquidating(now, n),
                total_collateral: if self.sweeps(b, now) {
                    (self.total_collateral - self.scanned_fees(now, n)) as Balance
                } else {
                    self.total_collateral
                },
                total_profit: if self.sweeps(b, now) {
                    (self.total_profit + self.scanned_fees(now, n)) as Balance
                } else {
                    self.total_profit
                },
                ..self
            },
            if self.sweeps(b, now) {
                self.sweep(now).effect(b)
            } else {
                b
            },
            self.scanned_events(now, n),
        )
    }
}

/// No fee is negative.
pub proof fn lemma_scanned_fees_grow(s: State, now: Moment, n: nat)
    ensures
        0 <= s.scanned_fees(now, n),
        n > 0 ==> s.scanned_fees(now, (n - 1) as nat) <= s.scanned_fees(now, n),
    decreases n,
{
    if n > 0 {
        lemma_scanned_fees_grow(s, now, (n - 1) as nat);
    }
}

/// A scan of what is at place `i` keeps what identifies the loan and what it
/// owes, and never adds collateral.
pub proof fn lemma_scan_at_keeps(s: State, i: int, now: Moment)
    ensures
        s.scan_at(i, now).loan.id == s.loans[i].id,
        s.scan_at(i, now).loan.who == s.loans[i].who,
        s.scan_at(i, now).loan.package_id == s.loans[i].package_id,
        s.scan_at(i, now).loan.loan_balance_total == s.loans[i].loan_balance_total,
        s.scan_at(i, now).loan.collateral_balance_original
            == s.loans[i].collateral_balance_original,
        s.scan_at(i, now).loan.collateral_balance_available
            <= s.loans[i].collateral_balance_available,
        s.scan_at(i, now).liquidate ==> !s.is_liquidating(s.loans[i].id),
{
    lemma_scan_of_keeps(s.params, s.loans[i], s.package(s.loans[i].package_id), now);
}

/// The liquidating set during a scan: it holds no id twice, only ids of open
/// loans, all it held before, and of the open loans those it held before and
/// those that the scan has handed over so far.
pub proof fn lemma_scanned_liquidating(s: State, now: Moment, n: nat)
    requires
        s.wf(),
        n <= s.loans.len(),
    ensures
        s.scanned_liquidating(now, n).no_duplicates(),
        forall|id: LoanId| #[trigger]
            s.scanned_liquidating(now, n).contains(id) ==> s.has_loan(id),
        forall|id: LoanId|
            s.liquidating.contains(id) ==> #[trigger] s.scanned_liquidating(now, n).contains(id),
        forall|i: int|
            0 <= i < s.loans.len() ==> (s.scanned_liquidating(now, n).contains(
                (#[trigger] s.loans[i]).id,
            ) <==> s.liquidating.contains(s.loans[i].id) || (i < n && s.scan_at(
                i,
                now,
            ).liquidate)),
    decreases n,
{
    if n == 0 {
        assert forall|id: LoanId| #[trigger] s.liquidating.contains(id) implies s.has_loan(id) by {
            let k = choose|k: int| 0 <= k < s.liquidating.len() && s.liquidating[k] == id;
            assert(s.has_loan(s.liquidating[k]));
        }
    } else {
        lemma_scanned_liquidating(s, now, (n - 1) as nat);
        let before = s.scanned_liquidating(now, (n - 1) as nat);
        let id = s.loans[n - 1].id;
        if s.scan_at(n - 1, now).liquidate {
            lemma_scan_at_keeps(s, n - 1, now);
            assert(!before.contains(s.loans[n - 1].id));
            let after = before.push(id);
            assert forall|x: LoanId| #[trigger] after.contains(x) <==> (x == id || before.contains(
                x,
            )) by {
                lemma_seq_contains_after_push(before, id, x);
            }
            assert(after.no_duplicates()) by {
                assert forall|p: int, q: int| 0 <= p < after.len() && 0 <= q < after.len() && p
                    != q implies after[p] != after[q] by {
                    if p < before.len() {
                        assert(before.contains(before[p]));
                    }
                    if q < before.len() {
                        assert(before.contains(before[q]));
                    }
                }
            }
            assert(s.has_loan(id));
        }
    }
}

/// A scan keeps the invariant of the engine.
pub proof fn lemma_scan_keeps_wf(s: State, b: Balances, now: Moment)
    requires
        s.wf(),
    ensures
        s.scan_outcome(b, now).0.wf(),
{
    let t = s.scan_outcome(b, now).0;
    let n = s.loans.len();
    lemma_scanned_liquidating(s, now, n);
    assert forall|i: int| 0 <= i < n implies {
        &&& (#[trigger] t.loans[i]).id == s.loans[i].id
        &&& t.loans[i].package_id == s.loans[i].package_id
        &&& t.loans[i].loan_balance_total == s.loans[i].loan_balance_total
        &&& t.loans[i].collateral_balance_available <= t.loans[i].collateral_balance_original
    } by {
        lemma_scan_at_keeps(s, i, now);
    }
    assert(loan_balances(t.loans) =~= loan_balances(s.loans));
    assert forall|i: int| 0 <= i < t.loans.len() implies t.has_package(
        (#[trigger] t.loans[i]).package_id,
    ) by {
        assert(s.has_package(s.loans[i].package_id));
    }
    assert forall|k: int| 0 <= k < t.liquidating.len() implies t.has_loan(
        #[trigger] t.liquidating[k],
    ) by {
        let id = t.liquidating[k];
        assert(t.liquidating.contains(id));
        assert(s.has_loan(id));
        let w = choose|w: int| 0 <= w < s.loans.len() && #[trigger] s.loans[w].id == id;
        assert(t.loans[w].id == id);
    }
}

impl Module {
    /// Scans every open loan at `now` and sweeps the fees charged. A loan under
    /// liquidation is passed over, and so is one whose ratio or fee cannot be
    /// computed. The sweep is left out where the total collateral does not
    /// cover the fees, the total profit has no room for them, or the ledger
    /// refuses the transfer. Nothing here fails.
    pub fn on_each_block(&mut self, ledger: &mut assets::Module, now: Moment) -> (report: ScanReport)
        requires
            old(self)@.wf(),
        ensures
            final(self)@.wf(),
            final(self)@ == old(self)@.scan_outcome(old(ledger)@.balances, now).0,
            final(ledger)@ == (LedgerView {
                balances: old(self)@.scan_outcome(old(ledger)@.balances, now).1,
                ..old(ledger)@
            }),
            report.events@ == old(self)@.scan_outcome(old(ledger)@.balances, now).2,
            report.sweep == old(self)@.sweep_report(old(ledger)@.balances, now),
            old(self)@.collateral_reconciled() ==> (final(self)@.collateral_reconciled() <==> sum(
                old(self)@.deductions(now),
            ) == old(self)@.swept(old(ledger)@.balances, now)),
    {
        let ghost s = self@;
        let n = self.loans.len();
        let mut events: Vec<Event> = Vec::new();
        let mut fees: Balance = 0;
        let mut over: bool = false;
        let mut i: usize = 0;
        while i < n
            invariant
                s == old(self)@,
                s.wf(),
                n == s.loans.len(),
                i <= n,
                self@ == (State {
                    loans: self@.loans,
                    liquidating: s.scanned_liquidating(now, i as nat),
                    ..s
                }),
                self@.loans.len() == n,
                forall|j: int| 0 <= j < i ==> self@.loans[j] == s.scan_at(j, now).loan,
                forall|j: int| i <= j < n ==> self@.loans[j] == s.loans[j],
                over ==> s.scanned_fees(now, i as nat) > u128::MAX,
                !over ==> fees == s.scanned_fees(now, i as nat),
                events@ == s.scanned_events(now, i as nat),
                *ledger == *old(ledger),
            decreases n - i,
        {
            let loan = self.loans[i];
            proof {
                lemma_scanned_liquidating(s, now, i as nat);
                lemma_scanned_fees_grow(s, now, (i + 1) as nat);
            }
            if !self.check_loan_in_liquidation(&loan.id) {
                let package = self.loan_package(loan.package_id);
                assert(package == s.package(loan.package_id));
                let scan = scan_loan(&self.params, &loan, &package, now);
                self.loans.set(i, scan.loan);
                if scan.liquidate {
                    self.liquidating_loans.push(loan.id);
                }
                if !over {
                    match fees.checked_add(scan.fee) {
                        Some(f) => {
                            fees = f;
                        },
                        None => {
                            over = true;
                        },
                    }
                }
                match scan.event {
                    Some(ev) => {
                        events.push(ev);
                    },
                    None => {},
                }
            }
            i = i + 1;
        }
        assert(self@.loans =~= s.scanned_loans(now));
        proof {
            lemma_scanned_fees_grow(s, now, n as nat);
        }
        let mut sweep = if !over && fees == 0 {
            Sweep::Idle
        } else {
            Sweep::Skipped
        };
        if !over && fees > 0 && fees <= self.total_collateral {
            match self.total_profit.checked_add(fees) {
                Some(profit) => {
                    let moved = ledger.make_transfer(
                        &self.params.collateral_asset_id,
                        &self.params.pawn_shop,
                        &self.params.profit_pool,
                        fees,
                    );
                    if moved.is_ok() {
                        self.total_collateral = self.total_collateral - fees;
                        self.total_profit = profit;
                        sweep = Sweep::Made(fees);
                    }
                },
                None => {},
            }
        }
        proof {
            lemma_scan_keeps_wf(s, old(ledger)@.balances, now);
            if s.collateral_reconciled() {
                law_scan_collateral_books(s, old(ledger)@.balances, now);
            }
        }
        ScanReport { events, sweep }
    }

    /// The start of a block at the time `now`: the scan runs unless the
    /// module is paused.
    pub fn on_initialize(&mut self, ledger: &mut assets::Module, _height: u64, now: Moment) -> (report:
        ScanReport)
        requires
            old(self)@.wf(),
        ensures
            final(self)@.wf(),
            old(self)@.params.paused ==> final(self)@ == old(self)@ && final(ledger)@ == old(ledger)@ && report.events@ == Seq::<Event>::empty() && report.sweep == Sweep::Idle,
            !old(self)@.params.paused ==> final(self)@ == old(self)@.scan_outcome(
                old(ledger)@.balances,
                now,
            ).0 && final(ledger)@ == (LedgerView {
                balances: old(self)@.scan_outcome(old(ledger)@.balances, now).1,
                ..old(ledger)@
            }) && report.events@ == old(self)@.scan_outcome(old(ledger)@.balances, now).2
                && report.sweep == old(self)@.sweep_report(old(ledger)@.balances, now),
    {
        if self.params.paused {
            return ScanReport { events: Vec::new(), sweep: Sweep::Idle };
        }
        self.on_each_block(ledger, now)
    }
}

} // verus!
