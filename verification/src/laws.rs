//! What holds of the engine across operations: the books of the scan, what a
//! second scan at the same moment does, and what each operation that goes
//! through moves on the ledger.
use vstd::prelude::*;
use crate::assets::Balances;
use crate::primitives::{AccountId, AssetId, Balance, LoanId, LoanPackageId};
use crate::saga::{lemma_saga_one, lemma_saga_three, lemma_saga_two};
use crate::engine::{collaterals, loan_balances, State};
use crate::health::{health_of, scan_of};
use crate::loan::{Event, LoanHealth};
use crate::primitives::Moment;
use crate::scanner::{lemma_scan_at_keeps, lemma_scan_keeps_wf, lemma_scanned_liquidating};
use crate::sums::{lemma_sum_difference, sum};

verus! {

impl State {
    /// What a scan at `now` cuts from the collateral of each loan.
    pub open spec fn deductions(self, now: Moment) -> Seq<int> {
        Seq::new(
            self.loans.len(),
            |i: int|
                self.loans[i].collateral_balance_available - self.scan_at(
                    i,
                    now,
                ).loan.collateral_balance_available,
        )
    }

    /// What a scan at `now` moves from the pawn shop to the profit pool.
    pub open spec fn swept(self, b: Balances, now: Moment) -> int {
        if self.sweeps(b, now) {
            self.scanned_fees(now, self.loans.len())
        } else {
            0
        }
    }

    /// Whether the loan at place `i` is charged a fee by a scan at `now` and
    /// yet stays as it is: it is past its grace window, and with the fee cut
    /// its ratio would lie at or above the warning threshold and below the
    /// liquidation threshold.
    pub open spec fn stalls(self, i: int, now: Moment) -> bool {
        let r = self.scan_at(i, now);
        r.fee > 0 && !r.liquidate && r.loan == self.loans[i]
    }
}

/// In a well-formed state the total loan is the sum of the balances of the
/// open loans, and no open loan has more collateral available than was locked
/// for it.
pub proof fn law_loan_books(s: State)
    requires
        s.wf(),
    ensures
        s.total_loan == sum(loan_balances(s.loans)),
        forall|i: int|
            0 <= i < s.loans.len() ==> (#[trigger] s.loans[i]).collateral_balance_available
                <= s.loans[i].collateral_balance_original,
{
}

/// A scan keeps the total collateral equal to the sum of the available
/// collateral of the open loans exactly when what it cuts from the loans is
/// what it sweeps to the profit pool.
pub proof fn law_scan_collateral_books(s: State, b: Balances, now: Moment)
    requires
        s.wf(),
        s.collateral_reconciled(),
    ensures
        s.scan_outcome(b, now).0.collateral_reconciled() <==> sum(s.deductions(now)) == s.swept(
            b,
            now,
        ),
{
    let t = s.scan_outcome(b, now).0;
    lemma_sum_difference(collaterals(s.loans), collaterals(t.loans), s.deductions(now));
}

/// In a well-formed state every package stands at the place of its id.
pub proof fn lemma_package_at(s: State, k: int)
    requires
        s.wf(),
        0 <= k < s.packages.len(),
    ensures
        s.is_package_index(s.packages[k].id, k),
        s.package(s.packages[k].id) == s.packages[k],
{
    assert(s.is_package_index(s.packages[k].id, k));
    crate::engine::lemma_package_index(s, s.packages[k].id, k);
}

/// A loan that stalls is past its grace window, is not under liquidation,
/// and draws a warning at a ratio from the warning threshold up to, but not
/// at, the liquidation threshold.
pub proof fn law_stalled_loan(s: State, now: Moment, i: int)
    requires
        0 <= i < s.loans.len(),
        s.stalls(i, now),
    ensures
        !s.is_liquidating(s.loans[i].id),
        health_of(
            s.loans[i],
            now,
            s.params.current_btc_price,
            s.params.global_liquidation_threshold,
            s.params.global_warning_threshold,
        ) == Ok::<LoanHealth, crate::error::Error>(LoanHealth::Expired),
        s.scan_at(i, now).event matches Some(Event::Warning(id, ltv)) && id == s.loans[i].id
            && s.params.global_warning_threshold <= ltv < s.params.global_liquidation_threshold,
{
}

/// A second scan at the same moment leaves each loan as the first left it and
/// hands none over; it charges a fee only for a loan that stalls.
pub proof fn lemma_rescan_at(s: State, b: Balances, now: Moment, i: int)
    requires
        s.wf(),
        0 <= i < s.loans.len(),
    ensures
        ({
            let t = s.scan_outcome(b, now).0;
            let again = t.scan_at(i, now);
            &&& again.loan == t.loans[i]
            &&& !again.liquidate
            &&& again.fee == (if s.stalls(i, now) {
                s.scan_at(i, now).fee
            } else {
                0
            })
        }),
{
    let t = s.scan_outcome(b, now).0;
    let loan = s.loans[i];
    let first = s.scan_at(i, now);
    lemma_scanned_liquidating(s, now, s.loans.len());
    lemma_scan_at_keeps(s, i, now);
    assert(t.loans[i] == first.loan);
    assert(t.is_liquidating(loan.id) <==> s.is_liquidating(loan.id) || first.liquidate);
    if !s.is_liquidating(loan.id) && !first.liquidate {
        assert(s.has_package(loan.package_id));
        let k = choose|k: int|
            0 <= k < s.packages.len() && #[trigger] s.packages[k].id == loan.package_id;
        lemma_package_at(s, k);
        let package = s.package(loan.package_id);
        assert(package.valid());
        assert(t.package(first.loan.package_id) == package);
        assert(t.scan_at(i, now) == scan_of(s.params, first.loan, package, now));
    }
}

/// A second scan at the same moment adds nothing to the liquidating set.
pub proof fn lemma_rescan_liquidating(s: State, b: Balances, now: Moment, n: nat)
    requires
        s.wf(),
        n <= s.loans.len(),
    ensures
        ({
            let t = s.scan_outcome(b, now).0;
            t.scanned_liquidating(now, n) == t.liquidating
        }),
    decreases n,
{
    if n > 0 {
        lemma_rescan_liquidating(s, b, now, (n - 1) as nat);
        lemma_rescan_at(s, b, now, n - 1);
    }
}

/// Where no loan stalls, a second scan at the same moment charges no fee.
pub proof fn lemma_rescan_fees(s: State, b: Balances, now: Moment, n: nat)
    requires
        s.wf(),
        n <= s.loans.len(),
        forall|i: int| 0 <= i < s.loans.len() ==> !s.stalls(i, now),
    ensures
        ({
            let t = s.scan_outcome(b, now).0;
            t.scanned_fees(now, n) == 0
        }),
    decreases n,
{
    if n > 0 {
        lemma_rescan_fees(s, b, now, (n - 1) as nat);
        lemma_rescan_at(s, b, now, n - 1);
    }
}

/// A scan run twice at the same moment, with the same price and parameters:
/// the second run changes no loan and hands none over, so no loan is charged
/// or extended twice. It changes nothing at all exactly when it sweeps
/// nothing, and it sweeps nothing where no loan stalls.
pub proof fn law_scan_twice(s: State, b: Balances, now: Moment)
    requires
        s.wf(),
    ensures
        ({
            let (t, c, _) = s.scan_outcome(b, now);
            let (u, d, _) = t.scan_outcome(c, now);
            &&& u == (State {
                total_collateral: u.total_collateral,
                total_profit: u.total_profit,
                ..t
            })
            &&& (u == t && d == c) <==> !t.sweeps(c, now)
            &&& (forall|i: int| 0 <= i < s.loans.len() ==> !s.stalls(i, now)) ==> !t.sweeps(c, now)
        }),
{
    let (t, c, _) = s.scan_outcome(b, now);
    let (u, d, _) = t.scan_outcome(c, now);
    let n = s.loans.len();
    lemma_scan_keeps_wf(s, b, now);
    lemma_rescan_liquidating(s, b, now, n);
    assert forall|i: int| 0 <= i < n implies t.scan_at(i, now).loan == t.loans[i] by {
        lemma_rescan_at(s, b, now, i);
    }
    assert(u.loans =~= t.loans);
    if forall|i: int| 0 <= i < s.loans.len() ==> !s.stalls(i, now) {
        lemma_rescan_fees(s, b, now, n);
    }
}

/// An application that goes through, where the borrower, the pawn shop and the
/// profit pool are three accounts and the collateral is another asset than the
/// loan: the borrower gives the collateral to the pawn shop and gets the loan
/// less the interest, the profit pool gets the interest, and no other balance
/// moves.
pub proof fn law_application_moves(
    s: State,
    b: Balances,
    who: AccountId,
    package_id: LoanPackageId,
    collateral: Balance,
    loan: Balance,
    now: Moment,
)
    requires
        s.apply_outcome(b, who, package_id, collateral, loan, now) is Ok,
        who != s.params.pawn_shop,
        who != s.params.profit_pool,
        s.package(package_id).collateral_asset_id != s.package(package_id).loan_asset_id,
    ensures
        ({
            let t = s.apply_terms(who, package_id, collateral, loan, now)->Ok_0;
            let after = s.apply_outcome(b, who, package_id, collateral, loan, now)->Ok_0.1;
            let locked = t.loan.collateral_balance_original;
            let lent = t.loan.loan_balance_total;
            let c = t.package.collateral_asset_id;
            let l = t.package.loan_asset_id;
            &&& t.interest < lent
            &&& after[(c, who)] == b[(c, who)] - locked
            &&& after[(c, s.params.pawn_shop)] == b[(c, s.params.pawn_shop)] + locked
            &&& after[(l, s.params.profit_pool)] == b[(l, s.params.profit_pool)] + t.interest
            &&& after[(l, who)] == b[(l, who)] + lent - t.interest
            &&& forall|k: (AssetId, AccountId)|
                k != (c, who) && k != (c, s.params.pawn_shop) && k != (l, s.params.profit_pool)
                    && k != (l, who) ==> after[k] == b[k]
        }),
{
    let t = s.apply_terms(who, package_id, collateral, loan, now)->Ok_0;
    let steps = s.apply_steps(t);
    assert(steps =~= seq![steps[0], steps[1], steps[2]]);
    lemma_saga_three(b, steps[0], steps[1], steps[2]);
}

/// A draw that goes through, where the borrower is not the profit pool: the
/// profit pool gets the interest on the amount, the borrower the rest, and no
/// other balance moves.
pub proof fn law_draw_moves(s: State, b: Balances, who: AccountId, loan_id: LoanId, amount: Balance)
    requires
        s.draw_outcome(b, who, loan_id, amount) is Ok,
        who != s.params.profit_pool,
    ensures
        ({
            let interest = s.draw_terms(who, loan_id, amount)->Ok_0;
            let after = s.draw_outcome(b, who, loan_id, amount)->Ok_0.1;
            let l = s.package(s.loan(loan_id).package_id).loan_asset_id;
            &&& interest <= amount
            &&& after[(l, s.params.profit_pool)] == b[(l, s.params.profit_pool)] + interest
            &&& after[(l, who)] == b[(l, who)] + amount - interest
            &&& forall|k: (AssetId, AccountId)|
                k != (l, s.params.profit_pool) && k != (l, who) ==> after[k] == b[k]
        }),
{
    let interest = s.draw_terms(who, loan_id, amount)->Ok_0;
    let steps = s.draw_steps(loan_id, amount, interest);
    assert(steps =~= seq![steps[0], steps[1]]);
    lemma_saga_two(b, steps[0], steps[1]);
}

/// A repayment that goes through, where the borrower is not the pawn shop and
/// the collateral is another asset than the loan: the borrower gives up the
/// loan balance, which is burned, and gets the collateral that is left from
/// the pawn shop; no other balance moves.
pub proof fn law_repayment_moves(s: State, b: Balances, who: AccountId, loan_id: LoanId)
    requires
        s.repay_outcome(b, who, loan_id) is Ok,
        who != s.params.pawn_shop,
        s.package(s.loan(loan_id).package_id).collateral_asset_id != s.package(
            s.loan(loan_id).package_id,
        ).loan_asset_id,
    ensures
        ({
            let after = s.repay_outcome(b, who, loan_id)->Ok_0.1;
            let loan = s.loan(loan_id);
            let c = s.package(loan.package_id).collateral_asset_id;
            let l = s.package(loan.package_id).loan_asset_id;
            &&& after[(l, who)] == b[(l, who)] - loan.loan_balance_total
            &&& after[(c, who)] == b[(c, who)] + loan.collateral_balance_available
            &&& after[(c, s.params.pawn_shop)] == b[(c, s.params.pawn_shop)]
                - loan.collateral_balance_available
            &&& forall|k: (AssetId, AccountId)|
                k != (l, who) && k != (c, who) && k != (c, s.params.pawn_shop) ==> after[k]
                    == b[k]
        }),
{
    let steps = s.repay_steps(loan_id);
    assert(steps =~= seq![steps[0], steps[1], steps[2]]);
    lemma_saga_three(b, steps[0], steps[1], steps[2]);
}

/// Added collateral that goes through, where the payer is not the pawn shop:
/// the amount moves from the payer to the pawn shop, and no other balance
/// moves.
pub proof fn law_added_collateral_moves(
    s: State,
    b: Balances,
    loan_id: LoanId,
    from: AccountId,
    amount: Balance,
)
    requires
        s.add_collateral_outcome(b, loan_id, from, amount) is Ok,
        from != s.params.pawn_shop,
    ensures
        ({
            let after = s.add_collateral_outcome(b, loan_id, from, amount)->Ok_0.1;
            let c = s.package(s.loan(loan_id).package_id).collateral_asset_id;
            &&& after[(c, from)] == b[(c, from)] - amount
            &&& after[(c, s.params.pawn_shop)] == b[(c, s.params.pawn_shop)] + amount
            &&& forall|k: (AssetId, AccountId)|
                k != (c, from) && k != (c, s.params.pawn_shop) ==> after[k] == b[k]
        }),
{
    let steps = s.add_collateral_steps(loan_id, from, amount);
    assert(steps =~= seq![steps[0]]);
    lemma_saga_one(b, steps[0]);
}

/// A settlement that goes through, where the agent, the pawn shop, the profit
/// pool and the borrower are four accounts: the agent pays the loan balance to
/// the pawn shop, the penalty to the profit pool and the refund to the
/// borrower; penalty and refund together are what the auction brought above
/// the loan balance; no other balance moves.
pub proof fn law_settlement_moves(
    s: State,
    b: Balances,
    loan_id: LoanId,
    agent: AccountId,
    auction_balance: Balance,
)
    requires
        s.settlement_outcome(b, loan_id, agent, auction_balance) is Ok,
        agent != s.params.pawn_shop,
        agent != s.params.profit_pool,
        agent != s.loan(loan_id).who,
        s.params.pawn_shop != s.params.profit_pool,
        s.params.pawn_shop != s.loan(loan_id).who,
        s.params.profit_pool != s.loan(loan_id).who,
    ensures
        ({
            let split = s.settlement_terms(b, loan_id, agent, auction_balance)->Ok_0;
            let after = s.settlement_outcome(b, loan_id, agent, auction_balance)->Ok_0.1;
            let loan = s.loan(loan_id);
            let l = s.package(loan.package_id).loan_asset_id;
            &&& split.payoff == loan.loan_balance_total
            &&& split.penalty + split.refund == crate::settlement::leftover(
                auction_balance,
                loan.loan_balance_total,
            )
            &&& after[(l, agent)] == b[(l, agent)] - split.payoff - split.penalty - split.refund
            &&& after[(l, s.params.pawn_shop)] == b[(l, s.params.pawn_shop)] + split.payoff
            &&& after[(l, s.params.profit_pool)] == b[(l, s.params.profit_pool)] + split.penalty
            &&& after[(l, loan.who)] == b[(l, loan.who)] + split.refund
            &&& forall|k: (AssetId, AccountId)|
                k != (l, agent) && k != (l, s.params.pawn_shop) && k != (l, s.params.profit_pool)
                    && k != (l, loan.who) ==> after[k] == b[k]
        }),
{
    let split = s.settlement_terms(b, loan_id, agent, auction_balance)->Ok_0;
    let steps = s.settlement_steps(loan_id, agent, split);
    if split.penalty + split.refund > 0 {
        assert(steps =~= seq![steps[0], steps[1], steps[2]]);
        lemma_saga_three(b, steps[0], steps[1], steps[2]);
    } else {
        assert(steps =~= seq![steps[0]]);
        lemma_saga_one(b, steps[0]);
    }
}

} // verus!
