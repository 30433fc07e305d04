//! How the invariant and the collateral books follow the loan table when a
//! loan is added, changed or taken out.
use vstd::prelude::*;
use crate::engine::{collaterals, loan_balances, State};
use crate::loan::Loan;
use crate::sums::{lemma_sum_bounds, lemma_sum_push, lemma_sum_remove, lemma_sum_update};

verus! {

/// No open loan has a balance above the total loan.
pub proof fn lemma_balance_within_total(s: State, i: int)
    requires
        s.wf(),
        0 <= i < s.loans.len(),
    ensures
        s.loans[i].loan_balance_total <= s.total_loan,
{
    lemma_sum_bounds(loan_balances(s.loans), i);
}

/// A new loan with a fresh id, a known package and counters raised by its
/// amounts keeps the invariant and the collateral books.
pub proof fn lemma_loan_added(s: State, t: State, l: Loan)
    requires
        s.wf(),
        t.loans == s.loans.push(l),
        t.packages == s.packages,
        t.liquidating == s.liquidating,
        t.next_loan_package_id == s.next_loan_package_id,
        l.id == s.next_loan_id,
        t.next_loan_id == s.next_loan_id + 1,
        s.has_package(l.package_id),
        l.collateral_balance_available <= l.collateral_balance_original,
        t.total_loan == s.total_loan + l.loan_balance_total,
    ensures
        t.wf(),
        s.collateral_reconciled() && t.total_collateral == s.total_collateral
            + l.collateral_balance_available ==> t.collateral_reconciled(),
{
    assert(loan_balances(t.loans) =~= loan_balances(s.loans).push(l.loan_balance_total as int));
    lemma_sum_push(loan_balances(s.loans), l.loan_balance_total as int);
    assert(collaterals(t.loans) =~= collaterals(s.loans).push(
        l.collateral_balance_available as int,
    ));
    lemma_sum_push(collaterals(s.loans), l.collateral_balance_available as int);
    assert forall|i: int| 0 <= i < t.loans.len() implies t.has_package(
        (#[trigger] t.loans[i]).package_id,
    ) by {
        if i < s.loans.len() {
            assert(s.has_package(s.loans[i].package_id));
        }
    }
    assert forall|k: int| 0 <= k < t.liquidating.len() implies t.has_loan(
        #[trigger] t.liquidating[k],
    ) by {
        assert(s.has_loan(s.liquidating[k]));
        let w = choose|w: int| 0 <= w < s.loans.len() && #[trigger] s.loans[w].id == s.liquidating[k];
        assert(t.loans[w].id == s.liquidating[k]);
    }
}

/// A loan changed in place, with its id and package kept and the total loan
/// moved with its balance, keeps the invariant and the collateral books.
pub proof fn lemma_loan_changed(s: State, t: State, i: int, l: Loan)
    requires
        s.wf(),
        0 <= i < s.loans.len(),
        t.loans == s.loans.update(i, l),
        t.packages == s.packages,
        t.liquidating == s.liquidating,
        t.next_loan_package_id == s.next_loan_package_id,
        t.next_loan_id == s.next_loan_id,
        l.id == s.loans[i].id,
        l.package_id == s.loans[i].package_id,
        l.collateral_balance_available <= l.collateral_balance_original,
        t.total_loan == s.total_loan - s.loans[i].loan_balance_total + l.loan_balance_total,
    ensures
        t.wf(),
        s.collateral_reconciled() && t.total_collateral == s.total_collateral
            - s.loans[i].collateral_balance_available + l.collateral_balance_available
            ==> t.collateral_reconciled(),
{
    assert(loan_balances(t.loans) =~= loan_balances(s.loans).update(
        i,
        l.loan_balance_total as int,
    ));
    lemma_sum_update(loan_balances(s.loans), i, l.loan_balance_total as int);
    assert(collaterals(t.loans) =~= collaterals(s.loans).update(
        i,
        l.collateral_balance_available as int,
    ));
    lemma_sum_update(collaterals(s.loans), i, l.collateral_balance_available as int);
    assert forall|k: int| 0 <= k < t.loans.len() implies t.has_package(
        (#[trigger] t.loans[k]).package_id,
    ) by {
        assert(s.has_package(s.loans[k].package_id));
    }
    assert forall|k: int| 0 <= k < t.liquidating.len() implies t.has_loan(
        #[trigger] t.liquidating[k],
    ) by {
        assert(s.has_loan(s.liquidating[k]));
        let w = choose|w: int| 0 <= w < s.loans.len() && #[trigger] s.loans[w].id == s.liquidating[k];
        assert(t.loans[w].id == s.liquidating[k]);
    }
}

/// A loan taken out, with its id struck from the liquidating set and its
/// balance taken off the total loan, keeps the invariant; the collateral books
/// stay reconciled where its collateral is taken off the total too.
pub proof fn lemma_loan_removed(s: State, t: State, i: int)
    requires
        s.wf(),
        0 <= i < s.loans.len(),
        t.loans == s.loans.remove(i),
        t.packages == s.packages,
        t.next_loan_package_id == s.next_loan_package_id,
        t.next_loan_id == s.next_loan_id,
        t.liquidating.no_duplicates(),
        forall|k: int|
            0 <= k < t.liquidating.len() ==> s.liquidating.contains(#[trigger] t.liquidating[k])
                && t.liquidating[k] != s.loans[i].id,
        t.total_loan == s.total_loan - s.loans[i].loan_balance_total,
    ensures
        t.wf(),
        s.collateral_reconciled() ==> s.loans[i].collateral_balance_available
            <= s.total_collateral,
        s.collateral_reconciled() && t.total_collateral == s.total_collateral
            - s.loans[i].collateral_balance_available ==> t.collateral_reconciled(),
{
    assert(loan_balances(t.loans) =~= loan_balances(s.loans).remove(i));
    lemma_sum_remove(loan_balances(s.loans), i);
    assert(collaterals(t.loans) =~= collaterals(s.loans).remove(i));
    lemma_sum_remove(collaterals(s.loans), i);
    if s.collateral_reconciled() {
        lemma_sum_bounds(collaterals(s.loans), i);
    }
    assert forall|k: int| 0 <= k < t.loans.len() implies t.has_package(
        (#[trigger] t.loans[k]).package_id,
    ) by {
        if k < i {
            assert(s.has_package(s.loans[k].package_id));
        } else {
            assert(s.has_package(s.loans[k + 1].package_id));
        }
    }
    assert forall|k: int| 0 <= k < t.liquidating.len() implies t.has_loan(
        #[trigger] t.liquidating[k],
    ) by {
        let id = t.liquidating[k];
        assert(s.liquidating.contains(id));
        let q = choose|q: int| 0 <= q < s.liquidating.len() && s.liquidating[q] == id;
        assert(s.has_loan(s.liquidating[q]));
        let w = choose|w: int| 0 <= w < s.loans.len() && #[trigger] s.loans[w].id == id;
        if w < i {
            assert(t.loans[w].id == id);
        } else {
            assert(w != i);
            assert(t.loans[w - 1].id == id);
        }
    }
}

} // verus!
