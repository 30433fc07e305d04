//! Making a loan: the collateral is locked, the interest goes to the profit
//! pool and the rest of the loan to the borrower, or nothing happens at all.
use vstd::prelude::*;
use crate::assets;
use crate::assets::{Balances, LedgerView};
use crate::books::lemma_loan_added;
use crate::engine::{Module, State};
use crate::error::Error;
use crate::loan::{
    get_ltv_ratio, ltv_ratio, max_loan_for_collateral, required_collateral, CollateralLoan, Event,
    Loan, LoanHealth,
};
use crate::math::{mul3_div, mul_div_by_product};
use crate::package::{LoanPackage, LoanPackageStatus};
use crate::primitives::{AccountId, Balance, LoanId, LoanPackageId, Moment};
use crate::saga::{run_saga, saga_error, saga_result, LedgerAction};
use crate::system::{ensure_signed, Origin};

verus! {

/// What the validation of an application hands to the ledger steps.
#[derive(Clone, Copy, Debug, PartialEq, Eq, Structural)]
pub struct Terms {
    /// The loan as it will be recorded.
    pub loan: Loan,
    /// The interest taken up front.
    pub interest: Balance,
    /// The package of the loan.
    pub package: LoanPackage,
}

impl State {
    /// The collateral and the loan of an application in which one of the two
    /// may be zero, to be computed from the other at the global limit. Both
    /// zero is `InvalidParameter`; both given and a ratio above the limit is
    /// `OverLtvLimit`.
    pub open spec fn collateral_loan(self, collateral: Balance, loan: Balance) -> Result<
        CollateralLoan,
        Error,
    > {
        let limit = self.params.global_ltv_limit;
        let price = self.params.current_btc_price;
        if collateral == 0 && loan == 0 {
            Err(Error::InvalidParameter)
        } else if collateral == 0 {
            match required_collateral(loan, limit, price) {
                Ok(c) => Ok(CollateralLoan { collateral_amount: c, loan_amount: loan }),
                Err(e) => Err(e),
            }
        } else if loan == 0 {
            match max_loan_for_collateral(collateral, limit, price) {
                Ok(l) => Ok(CollateralLoan { collateral_amount: collateral, loan_amount: l }),
                Err(e) => Err(e),
            }
        } else {
            match ltv_ratio(collateral, loan, price) {
                Ok(v) => if v > limit {
                    Err(Error::OverLtvLimit)
                } else {
                    Ok(CollateralLoan { collateral_amount: collateral, loan_amount: loan })
                },
                Err(e) => Err(e),
            }
        }
    }

    /// The checks on an application, in the order in which they are made, and
    /// the loan that passes them.
    pub open spec fn apply_terms(
        self,
        who: AccountId,
        package_id: LoanPackageId,
        collateral: Balance,
        loan: Balance,
        now: Moment,
    ) -> Result<Terms, Error> {
        let package = self.package(package_id);
        if collateral == 0 && loan == 0 {
            Err(Error::InvalidParameter)
        } else if !self.has_package(package_id) {
            Err(Error::PackageNotFound)
        } else if package.status is Inactive {
            Err(Error::PackageInactive)
        } else {
            match self.collateral_loan(collateral, loan) {
                Err(e) => Err(e),
                Ok(pair) => if pair.loan_amount < package.min {
                    Err(Error::BelowMinimumLoan)
                } else if pair.collateral_amount < self.params.minimum_collateral {
                    Err(Error::BelowMinimumCollateral)
                } else if self.params.loan_cap is Some && self.total_loan + pair.loan_amount
                    > self.params.loan_cap->0 {
                    Err(Error::LoanCapReached)
                } else {
                    match package.interest(pair.loan_amount) {
                        Err(e) => Err(e),
                        Ok(interest) => if interest >= pair.loan_amount {
                            Err(Error::InterestTooHigh)
                        } else {
                            match package.dues(now) {
                                Err(e) => Err(e),
                                Ok((due, due_extend)) => if self.next_loan_id == u64::MAX
                                    || self.total_loan + pair.loan_amount > u128::MAX
                                    || self.total_collateral + pair.collateral_amount > u128::MAX
                                    || self.total_profit + interest > u128::MAX {
                                    Err(Error::Overflow)
                                } else {
                                    Ok(
                                        Terms {
                                            loan: Loan {
                                                id: self.next_loan_id,
                                                package_id,
                                                who,
                                                due,
                                                due_extend,
                                                collateral_balance_original: pair.collateral_amount,
                                                collateral_balance_available: pair.collateral_amount,
                                                loan_balance_total: pair.loan_amount,
                                                status: LoanHealth::Well,
                                            },
                                            interest,
                                            package,
                                        },
                                    )
                                },
                            }
                        },
                    }
                },
            }
        }
    }

    /// The ledger steps of an application: the collateral from the borrower to
    /// the pawn shop, the interest to the profit pool, the rest of the loan to
    /// the borrower.
    pub open spec fn apply_steps(self, t: Terms) -> Seq<LedgerAction> {
        seq![
            LedgerAction::Transfer {
                asset_id: t.package.collateral_asset_id,
                from: t.loan.who,
                to: self.params.pawn_shop,
                amount: t.loan.collateral_balance_original,
            },
            LedgerAction::Mint {
                asset_id: t.package.loan_asset_id,
                to: self.params.profit_pool,
                amount: t.interest,
            },
            LedgerAction::Mint {
                asset_id: t.package.loan_asset_id,
                to: t.loan.who,
                amount: (t.loan.loan_balance_total - t.interest) as Balance,
            },
        ]
    }

    /// The engine once the loan of `t` is open.
    pub open spec fn with_new_loan(self, t: Terms) -> State {
        State {
            loans: self.loans.push(t.loan),
            next_loan_id: (self.next_loan_id + 1) as LoanId,
            total_loan: (self.total_loan + t.loan.loan_balance_total) as Balance,
            total_collateral: (self.total_collateral
                + t.loan.collateral_balance_original) as Balance,
            total_profit: (self.total_profit + t.interest) as Balance,
            ..self
        }
    }

    /// An application as a whole: the checks, then the ledger steps on
    /// balances `b`. An error from either leaves the engine and the ledger as
    /// they were.
    pub open spec fn apply_outcome(
        self,
        b: Balances,
        who: AccountId,
        package_id: LoanPackageId,
        collateral: Balance,
        loan: Balance,
        now: Moment,
    ) -> Result<(State, Balances, Event), Error> {
        match self.apply_terms(who, package_id, collateral, loan, now) {
            Err(e) => Err(e),
            Ok(t) => match saga_error(b, self.apply_steps(t)) {
                Some(e) => Err(e),
                None => Ok(
                    (
                        self.with_new_loan(t),
                        saga_result(b, self.apply_steps(t)),
                        Event::LoanCreated(t.loan),
                    ),
                ),
            },
        }
    }
}

impl Module {
    /// The collateral and the loan of an application in which one of the two
    /// may be zero.
    pub fn get_collateral_loan(&self, collateral_amount: Balance, loan_amount: Balance) -> (r:
        Result<CollateralLoan, Error>)
        ensures
            r == self@.collateral_loan(collateral_amount, loan_amount),
    {
        let limit = self.params.global_ltv_limit;
        let price = self.params.current_btc_price;
        if collateral_amount == 0 && loan_amount == 0 {
            return Err(Error::InvalidParameter);
        }
        if collateral_amount == 0 {
            return match mul_div_by_product(loan_amount, 100_000_000, price, limit as u128) {
                Ok(c) => Ok(CollateralLoan { collateral_amount: c, loan_amount }),
                Err(e) => Err(e),
            };
        }
        if loan_amount == 0 {
            return match mul3_div(collateral_amount, price, limit as u128, 100_000_000) {
                Ok(l) => Ok(CollateralLoan { collateral_amount, loan_amount: l }),
                Err(e) => Err(e),
            };
        }
        match get_ltv_ratio(collateral_amount, loan_amount, price) {
            Ok(v) => if v > limit as u128 {
                Err(Error::OverLtvLimit)
            } else {
                Ok(CollateralLoan { collateral_amount, loan_amount })
            },
            Err(e) => Err(e),
        }
    }

    /// Makes the checks on an application.
    fn check_application(
        &self,
        who: AccountId,
        package_id: LoanPackageId,
        collateral_amount: Balance,
        loan_amount: Balance,
        now: Moment,
    ) -> (r: Result<Terms, Error>)
        ensures
            r == self@.apply_terms(who, package_id, collateral_amount, loan_amount, now),
    {
        if collateral_amount == 0 && loan_amount == 0 {
            return Err(Error::InvalidParameter);
        }
        let package = match self.find_package(package_id) {
            None => {
                return Err(Error::PackageNotFound);
            },
            Some(i) => self.loan_packages[i],
        };
        match package.status {
            LoanPackageStatus::Inactive => {
                return Err(Error::PackageInactive);
            },
            LoanPackageStatus::Active => {},
        }
        let pair = self.get_collateral_loan(collateral_amount, loan_amount)?;
        if pair.loan_amount < package.min {
            return Err(Error::BelowMinimumLoan);
        }
        if pair.collateral_amount < self.params.minimum_collateral {
            return Err(Error::BelowMinimumCollateral);
        }
        let new_total = self.total_loan.checked_add(pair.loan_amount);
        match self.params.loan_cap {
            Some(cap) => {
                match new_total {
                    Some(t) => if t > cap {
                        return Err(Error::LoanCapReached);
                    },
                    None => {
                        return Err(Error::LoanCapReached);
                    },
                }
            },
            None => {},
        }
        let interest = package.get_interest(pair.loan_amount)?;
        if interest >= pair.loan_amount {
            return Err(Error::InterestTooHigh);
        }
        let (due, due_extend) = package.get_dues(now)?;
        if self.next_loan_id == u64::MAX || new_total.is_none() || self.total_collateral.checked_add(
            pair.collateral_amount,
        ).is_none() || self.total_profit.checked_add(interest).is_none() {
            return Err(Error::Overflow);
        }
        Ok(
            Terms {
                loan: Loan {
                    id: self.next_loan_id,
                    package_id,
                    who,
                    due,
                    due_extend,
                    collateral_balance_original: pair.collateral_amount,
                    collateral_balance_available: pair.collateral_amount,
                    loan_balance_total: pair.loan_amount,
                    status: LoanHealth::Well,
                },
                interest,
                package,
            },
        )
    }

    /// `who` applies for a loan from an active package at the time `now`. One
    /// of the two amounts may be zero: it is then computed from the other at
    /// the global limit. On success the collateral is with the pawn shop, the
    /// interest with the profit pool, the rest of the loan with `who`, and the
    /// loan is open. On any error the engine and the ledger are as before.
    pub fn apply_for_loan(
        &mut self,
        ledger: &mut assets::Module,
        who: AccountId,
        package_id: LoanPackageId,
        collateral_amount: Balance,
        loan_amount: Balance,
        now: Moment,
    ) -> (r: Result<Event, Error>)
        requires
            old(self)@.wf(),
        ensures
            final(self)@.wf(),
            old(self)@.collateral_reconciled() ==> final(self)@.collateral_reconciled(),
            match old(self)@.apply_outcome(
                old(ledger)@.balances,
                who,
                package_id,
                collateral_amount,
                loan_amount,
                now,
            ) {
                Ok((s, b, ev)) => r == Ok::<Event, Error>(ev) && final(self)@ == s && final(ledger)@ == (LedgerView { balances: b, ..old(ledger)@ }),
                Err(e) => r == Err::<Event, Error>(e) && final(self)@ == old(self)@ && final(ledger)@ == old(ledger)@,
            },
    {
        let terms = self.check_application(who, package_id, collateral_amount, loan_amount, now)?;
        let mut steps: Vec<LedgerAction> = Vec::new();
        steps.push(
            LedgerAction::Transfer {
                asset_id: terms.package.collateral_asset_id,
                from: who,
                to: self.params.pawn_shop,
                amount: terms.loan.collateral_balance_original,
            },
        );
        steps.push(
            LedgerAction::Mint {
                asset_id: terms.package.loan_asset_id,
                to: self.params.profit_pool,
                amount: terms.interest,
            },
        );
        steps.push(
            LedgerAction::Mint {
                asset_id: terms.package.loan_asset_id,
                to: who,
                amount: terms.loan.loan_balance_total - terms.interest,
            },
        );
        assert(steps@ =~= old(self)@.apply_steps(terms));
        run_saga(ledger, &steps)?;
        self.loans.push(terms.loan);
        self.next_loan_id = self.next_loan_id + 1;
        self.total_loan = self.total_loan + terms.loan.loan_balance_total;
        self.total_collateral = self.total_collateral + terms.loan.collateral_balance_original;
        self.total_profit = self.total_profit + terms.interest;
        proof {
            lemma_loan_added(old(self)@, self@, terms.loan);
        }
        Ok(Event::LoanCreated(terms.loan))
    }

    /// A signed caller applies for a loan, unless the module is paused.
    pub fn apply(
        &mut self,
        ledger: &mut assets::Module,
        origin: Origin,
        collateral_amount: Balance,
        loan_amount: Balance,
        package_id: LoanPackageId,
        now: Moment,
    ) -> (r: Result<Event, Error>)
        requires
            old(self)@.wf(),
        ensures
            final(self)@.wf(),
            old(self)@.collateral_reconciled() ==> final(self)@.collateral_reconciled(),
            match old(self)@.user_gate(origin) {
                Err(e) => r == Err::<Event, Error>(e) && final(self)@ == old(self)@ && final(ledger)@ == old(ledger)@,
                Ok(who) => match old(self)@.apply_outcome(
                    old(ledger)@.balances,
                    who,
                    package_id,
                    collateral_amount,
                    loan_amount,
                    now,
                ) {
                    Ok((s, b, ev)) => r == Ok::<Event, Error>(ev) && final(self)@ == s && final(ledger)@ == (LedgerView { balances: b, ..old(ledger)@ }),
                    Err(e) => r == Err::<Event, Error>(e) && final(self)@ == old(self)@ && final(ledger)@ == old(ledger)@,
                },
            },
    {
        if self.params.paused {
            return Err(Error::Paused);
        }
        let who = ensure_signed(origin)?;
        self.apply_for_loan(ledger, who, package_id, collateral_amount, loan_amount, now)
    }
}

} // verus!
