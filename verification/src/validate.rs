//! Checking the invariant of an engine at run time, for callers that hold a
//! state they did not get from the engine itself.
use vstd::prelude::*;
use crate::engine::{loan_balances, Module};
use crate::primitives::{Balance, INTEREST_RATE_PREC};
use crate::sums::{lemma_sum_nonnegative, sum};

verus! {

/// The sum of a sequence without negative elements is no smaller than the sum
/// of any of its prefixes, and a prefix grows by the element that follows it.
pub proof fn lemma_sum_prefix(s: Seq<int>, n: int)
    requires
        forall|k: int| 0 <= k < s.len() ==> s[k] >= 0,
        0 <= n <= s.len(),
    ensures
        0 <= sum(s.take(n)) <= sum(s),
        n < s.len() ==> sum(s.take(n + 1)) == sum(s.take(n)) + s[n],
    decreases s.len() - n,
{
    lemma_sum_nonnegative(s.take(n));
    if n < s.len() {
        assert(s.take(n + 1).drop_last() =~= s.take(n));
        lemma_sum_prefix(s, n + 1);
    } else {
        assert(s.take(n) =~= s);
    }
}

impl Module {
    /// Whether no two packages share an id and every package lies within the
    /// bounds of the registry and below the next id.
    fn packages_in_order(&self) -> (b: bool)
        ensures
            b == ((forall|i: int, j: int|
                0 <= i < j < self@.packages.len() ==> self@.packages[i].id
                    != self@.packages[j].id) && (forall|i: int|
                0 <= i < self@.packages.len() ==> (#[trigger] self@.packages[i]).id
                    < self@.next_loan_package_id && self@.packages[i].valid())),
    {
        let n = self.loan_packages.len();
        let mut j: usize = 0;
        while j < n
            invariant
                n == self.loan_packages.len(),
                j <= n,
                forall|p: int, q: int|
                    0 <= p < q < j ==> self@.packages[p].id != self@.packages[q].id,
                forall|p: int|
                    0 <= p < j ==> (#[trigger] self@.packages[p]).id < self@.next_loan_package_id
                        && self@.packages[p].valid(),
            decreases n - j,
        {
            let package = self.loan_packages[j];
            if package.id >= self.next_loan_package_id || package.terms == 0
                || package.interest_rate_hourly == 0 || package.interest_rate_hourly
                >= INTEREST_RATE_PREC || package.min == 0 {
                return false;
            }
            let mut i: usize = 0;
            while i < j
                invariant
                    n == self.loan_packages.len(),
                    i <= j < n,
                    package == self@.packages[j as int],
                    forall|p: int| 0 <= p < i ==> self@.packages[p].id != package.id,
                decreases j - i,
            {
                if self.loan_packages[i].id == package.id {
                    return false;
                }
                i = i + 1;
            }
            j = j + 1;
        }
        true
    }

    /// Whether no two loans share an id, every loan lies below the next id and
    /// names a package, and none has more collateral available than locked.
    fn loans_in_order(&self) -> (b: bool)
        ensures
            b == ((forall|i: int, j: int|
                0 <= i < j < self@.loans.len() ==> self@.loans[i].id != self@.loans[j].id) && (
            forall|i: int|
                0 <= i < self@.loans.len() ==> {
                    &&& (#[trigger] self@.loans[i]).id < self@.next_loan_id
                    &&& self@.has_package(self@.loans[i].package_id)
                    &&& self@.loans[i].collateral_balance_available
                        <= self@.loans[i].collateral_balance_original
                })),
    {
        let n = self.loans.len();
        let mut j: usize = 0;
        while j < n
            invariant
                n == self.loans.len(),
                j <= n,
                forall|p: int, q: int| 0 <= p < q < j ==> self@.loans[p].id != self@.loans[q].id,
                forall|p: int|
                    0 <= p < j ==> {
                        &&& (#[trigger] self@.loans[p]).id < self@.next_loan_id
                        &&& self@.has_package(self@.loans[p].package_id)
                        &&& self@.loans[p].collateral_balance_available
                            <= self@.loans[p].collateral_balance_original
                    },
            decreases n - j,
        {
            let loan = self.loans[j];
            if loan.id >= self.next_loan_id || loan.collateral_balance_available
                > loan.collateral_balance_original || self.find_package(loan.package_id).is_none() {
                return false;
            }
            let mut i: usize = 0;
            while i < j
                invariant
                    n == self.loans.len(),
                    i <= j < n,
                    loan == self@.loans[j as int],
                    forall|p: int| 0 <= p < i ==> self@.loans[p].id != loan.id,
                decreases j - i,
            {
                if self.loans[i].id == loan.id {
                    return false;
                }
                i = i + 1;
            }
            j = j + 1;
        }
        true
    }

    /// Whether the liquidating set names open loans, each once.
    fn liquidating_in_order(&self) -> (b: bool)
        ensures
            b == (self@.liquidating.no_duplicates() && (forall|k: int|
                0 <= k < self@.liquidating.len() ==> self@.has_loan(
                    #[trigger] self@.liquidating[k],
                ))),
    {
        let n = self.liquidating_loans.len();
        let mut j: usize = 0;
        while j < n
            invariant
                n == self.liquidating_loans.len(),
                j <= n,
                forall|p: int, q: int|
                    0 <= p < q < j ==> self@.liquidating[p] != self@.liquidating[q],
                forall|k: int| 0 <= k < j ==> self@.has_loan(#[trigger] self@.liquidating[k]),
            decreases n - j,
        {
            let id = self.liquidating_loans[j];
            if self.find_loan(id).is_none() {
                return false;
            }
            let mut i: usize = 0;
            while i < j
                invariant
                    n == self.liquidating_loans.len(),
                    i <= j < n,
                    id == self@.liquidating[j as int],
                    forall|p: int| 0 <= p < i ==> self@.liquidating[p] != id,
                decreases j - i,
            {
                if self.liquidating_loans[i] == id {
                    return false;
                }
                i = i + 1;
            }
            j = j + 1;
        }
        true
    }

    /// Whether the total loan is the sum of the balances of the open loans.
    fn total_loan_reconciles(&self) -> (b: bool)
        ensures
            b == (self@.total_loan == sum(loan_balances(self@.loans))),
    {
        let ghost balances = loan_balances(self@.loans);
        let n = self.loans.len();
        let mut total: Balance = 0;
        let mut i: usize = 0;
        while i < n
            invariant
                n == self.loans.len(),
                i <= n,
                balances == loan_balances(self@.loans),
                total == sum(balances.take(i as int)),
            decreases n - i,
        {
            proof {
                lemma_sum_prefix(balances, i as int);
                lemma_sum_prefix(balances, i + 1);
            }
            match total.checked_add(self.loans[i].loan_balance_total) {
                Some(t) => {
                    total = t;
                },
                None => {
                    return false;
                },
            }
            i = i + 1;
        }
        assert(balances.take(n as int) =~= balances);
        total == self.total_loan
    }

    /// Whether the invariant of the engine holds.
    pub fn is_well_formed(&self) -> (b: bool)
        ensures
            b == self@.wf(),
    {
        self.packages_in_order() && self.loans_in_order() && self.liquidating_in_order()
            && self.total_loan_reconciles()
    }

    /// Whether the total collateral is the sum of the available collateral of
    /// the open loans.
    pub fn is_collateral_reconciled(&self) -> (b: bool)
        ensures
            b == self@.collateral_reconciled(),
    {
        let ghost locked = crate::engine::collaterals(self@.loans);
        let n = self.loans.len();
        let mut total: Balance = 0;
        let mut i: usize = 0;
        while i < n
            invariant
                n == self.loans.len(),
                i <= n,
                locked == crate::engine::collaterals(self@.loans),
                total == sum(locked.take(i as int)),
            decreases n - i,
        {
            proof {
                lemma_sum_prefix(locked, i as int);
                lemma_sum_prefix(locked, i + 1);
            }
            match total.checked_add(self.loans[i].collateral_balance_available) {
                Some(t) => {
                    total = t;
                },
                None => {
                    return false;
                },
            }
            i = i + 1;
        }
        assert(locked.take(n as int) =~= locked);
        total == self.total_collateral
    }
}

} // verus!
