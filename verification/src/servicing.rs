//! What a borrower does with an open loan: draw more, add collateral, repay.
//! A loan that waits for the settlement of its liquidation takes none of these.
use vstd::prelude::*;
use crate::assets;
use crate::assets::{Balances, LedgerView};
use crate::books::{lemma_balance_within_total, lemma_loan_changed, lemma_loan_removed};
use crate::engine::{Module, State};
use crate::error::Error;
use crate::loan::{max_loan_for_collateral, Event, Loan};
use crate::math::mul3_div;
use crate::primitives::{AccountId, Balance, LoanId};
use crate::saga::{run_saga, saga_error, saga_result, LedgerAction};
use crate::system::{ensure_signed, Origin};

verus! {

/// The sequence without `id`, where it stood in it.
pub open spec fn without_id(s: Seq<LoanId>, id: LoanId) -> Seq<LoanId> {
    if s.contains(id) {
        s.remove(s.index_of(id))
    } else {
        s
    }
}

impl State {
    /// The checks on a draw, in the order in which they are made, and the
    /// interest on the amount drawn. The amount may not pass the credit left:
    /// `collateral * price * limit / (LTV_PREC * PRICE_PREC)` less the balance.
    pub open spec fn draw_terms(self, who: AccountId, loan_id: LoanId, amount: Balance) -> Result<
        Balance,
        Error,
    > {
        let loan = self.loan(loan_id);
        if !self.has_loan(loan_id) {
            Err(Error::LoanNotFound)
        } else if loan.who != who {
            Err(Error::NotLoanOwner)
        } else if self.is_liquidating(loan_id) {
            Err(Error::LoanInLiquidation)
        } else {
            match max_loan_for_collateral(
                loan.collateral_balance_available,
                self.params.global_ltv_limit,
                self.params.current_btc_price,
            ) {
                Err(e) => Err(e),
                Ok(most) => if loan.loan_balance_total + amount > most {
                    Err(Error::InsufficientCredit)
                } else {
                    match self.package(loan.package_id).interest(amount) {
                        Err(e) => Err(e),
                        Ok(interest) => if interest > amount {
                            Err(Error::InterestTooHigh)
                        } else if self.total_loan + amount > u128::MAX || self.total_profit
                            + interest > u128::MAX {
                            Err(Error::Overflow)
                        } else {
                            Ok(interest)
                        },
                    }
                },
            }
        }
    }

    /// The ledger steps of a draw: the interest to the profit pool, the rest
    /// to the borrower.
    pub open spec fn draw_steps(self, loan_id: LoanId, amount: Balance, interest: Balance) -> Seq<
        LedgerAction,
    > {
        let loan = self.loan(loan_id);
        let asset_id = self.package(loan.package_id).loan_asset_id;
        seq![
            LedgerAction::Mint { asset_id, to: self.params.profit_pool, amount: interest },
            LedgerAction::Mint {
                asset_id,
                to: loan.who,
                amount: (amount - interest) as Balance,
            },
        ]
    }

    /// The engine once `amount` is drawn from the loan.
    pub open spec fn after_draw(self, loan_id: LoanId, amount: Balance, interest: Balance) -> State {
        let loan = self.loan(loan_id);
        State {
            loans: self.loans.update(
                self.loan_index(loan_id),
                Loan { loan_balance_total: (loan.loan_balance_total + amount) as Balance, ..loan },
            ),
            total_loan: (self.total_loan + amount) as Balance,
            total_profit: (self.total_profit + interest) as Balance,
            ..self
        }
    }

    /// A draw as a whole: the checks, then the ledger steps on balances `b`.
    pub open spec fn draw_outcome(self, b: Balances, who: AccountId, loan_id: LoanId, amount: Balance) -> Result<
        (State, Balances, Event),
        Error,
    > {
        match self.draw_terms(who, loan_id, amount) {
            Err(e) => Err(e),
            Ok(interest) => match saga_error(b, self.draw_steps(loan_id, amount, interest)) {
                Some(e) => Err(e),
                None => Ok(
                    (
                        self.after_draw(loan_id, amount, interest),
                        saga_result(b, self.draw_steps(loan_id, amount, interest)),
                        Event::LoanDrawn(loan_id, amount),
                    ),
                ),
            },
        }
    }

    /// Why a repayment is turned down before the ledger is touched: the loan
    /// must be open, the caller's, and not under liquidation; the caller must
    /// hold the loan balance and the pawn shop the collateral.
    pub open spec fn repay_refusal(self, b: Balances, who: AccountId, loan_id: LoanId) -> Option<
        Error,
    > {
        let loan = self.loan(loan_id);
        let package = self.package(loan.package_id);
        if !self.has_loan(loan_id) {
            Some(Error::LoanNotFound)
        } else if loan.who != who {
            Some(Error::NotLoanOwner)
        } else if self.is_liquidating(loan_id) {
            Some(Error::LoanInLiquidation)
        } else if b[(package.loan_asset_id, who)] < loan.loan_balance_total {
            Some(Error::InsufficientBalance)
        } else if b[(package.collateral_asset_id, self.params.pawn_shop)]
            < loan.collateral_balance_available {
            Some(Error::InsufficientBalance)
        } else {
            None
        }
    }

    /// The ledger steps of a repayment: the loan balance from the borrower to
    /// the pawn shop, the collateral back to the borrower, the loan balance
    /// burned at the pawn shop.
    pub open spec fn repay_steps(self, loan_id: LoanId) -> Seq<LedgerAction> {
        let loan = self.loan(loan_id);
        let package = self.package(loan.package_id);
        seq![
            LedgerAction::Transfer {
                asset_id: package.loan_asset_id,
                from: loan.who,
                to: self.params.pawn_shop,
                amount: loan.loan_balance_total,
            },
            LedgerAction::Transfer {
                asset_id: package.collateral_asset_id,
                from: self.params.pawn_shop,
                to: loan.who,
                amount: loan.collateral_balance_available,
            },
            LedgerAction::Burn {
                asset_id: package.loan_asset_id,
                from: self.params.pawn_shop,
                amount: loan.loan_balance_total,
            },
        ]
    }

    /// The engine once the loan is closed: the loan is gone and the totals
    /// are lower by its amounts, the total collateral never below zero.
    pub open spec fn without_loan(self, loan_id: LoanId) -> State {
        let loan = self.loan(loan_id);
        State {
            loans: self.loans.remove(self.loan_index(loan_id)),
            liquidating: without_id(self.liquidating, loan_id),
            total_loan: (self.total_loan - loan.loan_balance_total) as Balance,
            total_collateral: if self.total_collateral >= loan.collateral_balance_available {
                (self.total_collateral - loan.collateral_balance_available) as Balance
            } else {
                0
            },
            ..self
        }
    }

    /// A repayment as a whole.
    pub open spec fn repay_outcome(self, b: Balances, who: AccountId, loan_id: LoanId) -> Result<
        (State, Balances, Event),
        Error,
    > {
        match self.repay_refusal(b, who, loan_id) {
            Some(e) => Err(e),
            None => match saga_error(b, self.repay_steps(loan_id)) {
                Some(e) => Err(e),
                None => Ok(
                    (
                        self.without_loan(loan_id),
                        saga_result(b, self.repay_steps(loan_id)),
                        Event::LoanRepaid(loan_id),
                    ),
                ),
            },
        }
    }

    /// Why added collateral is turned down before the ledger is touched.
    pub open spec fn add_collateral_refusal(self, loan_id: LoanId, amount: Balance) -> Option<
        Error,
    > {
        let loan = self.loan(loan_id);
        if !self.has_loan(loan_id) {
            Some(Error::LoanNotFound)
        } else if self.is_liquidating(loan_id) {
            Some(Error::LoanInLiquidation)
        } else if loan.collateral_balance_original + amount > u128::MAX || self.total_collateral
            + amount > u128::MAX {
            Some(Error::Overflow)
        } else {
            None
        }
    }

    /// The one ledger step of added collateral: from the payer to the pawn shop.
    pub open spec fn add_collateral_steps(self, loan_id: LoanId, from: AccountId, amount: Balance) -> Seq<
        LedgerAction,
    > {
        seq![
            LedgerAction::Transfer {
                asset_id: self.package(self.loan(loan_id).package_id).collateral_asset_id,
                from,
                to: self.params.pawn_shop,
                amount,
            },
        ]
    }

    /// The engine once `amount` of collateral is added to the loan.
    pub open spec fn with_more_collateral(self, loan_id: LoanId, amount: Balance) -> State {
        let loan = self.loan(loan_id);
        State {
            loans: self.loans.update(
                self.loan_index(loan_id),
                Loan {
                    collateral_balance_original: (loan.collateral_balance_original
                        + amount) as Balance,
                    collateral_balance_available: (loan.collateral_balance_available
                        + amount) as Balance,
                    ..loan
                },
            ),
            total_collateral: (self.total_collateral + amount) as Balance,
            ..self
        }
    }

    /// Added collateral as a whole.
    pub open spec fn add_collateral_outcome(
        self,
        b: Balances,
        loan_id: LoanId,
        from: AccountId,
        amount: Balance,
    ) -> Result<(State, Balances, Event), Error> {
        match self.add_collateral_refusal(loan_id, amount) {
            Some(e) => Err(e),
            None => match saga_error(b, self.add_collateral_steps(loan_id, from, amount)) {
                Some(e) => Err(e),
                None => Ok(
                    (
                        self.with_more_collateral(loan_id, amount),
                        saga_result(b, self.add_collateral_steps(loan_id, from, amount)),
                        Event::AddCollateral(loan_id, amount),
                    ),
                ),
            },
        }
    }
}

impl Module {
    /// Makes the checks on a draw.
    fn check_draw(&self, who: AccountId, loan_id: LoanId, amount: Balance) -> (r: Result<
        (usize, Balance),
        Error,
    >)
        requires
            self@.wf(),
        ensures
            match r {
                Ok((i, interest)) => self@.draw_terms(who, loan_id, amount) == Ok::<Balance, Error>(
                    interest,
                ) && i == self@.loan_index(loan_id) && i < self@.loans.len() && self@.loans[i as int]
                    == self@.loan(loan_id),
                Err(e) => self@.draw_terms(who, loan_id, amount) == Err::<Balance, Error>(e),
            },
    {
        let i = match self.find_loan(loan_id) {
            None => {
                return Err(Error::LoanNotFound);
            },
            Some(i) => i,
        };
        let loan = self.loans[i];
        if loan.who != who {
            return Err(Error::NotLoanOwner);
        }
        if self.check_loan_in_liquidation(&loan_id) {
            return Err(Error::LoanInLiquidation);
        }
        let most = mul3_div(
            loan.collateral_balance_available,
            self.params.current_btc_price,
            self.params.global_ltv_limit as u128,
            100_000_000,
        )?;
        match loan.loan_balance_total.checked_add(amount) {
            None => {
                return Err(Error::InsufficientCredit);
            },
            Some(owed) => if owed > most {
                return Err(Error::InsufficientCredit);
            },
        }
        let interest = self.loan_package(loan.package_id).get_interest(amount)?;
        if interest > amount {
            return Err(Error::InterestTooHigh);
        }
        if self.total_loan.checked_add(amount).is_none() || self.total_profit.checked_add(
            interest,
        ).is_none() {
            return Err(Error::Overflow);
        }
        Ok((i, interest))
    }

    /// `who` draws `amount` more from an open loan of theirs, as far as the
    /// collateral backs it at the global limit. The interest on the amount
    /// goes to the profit pool, the rest to `who`. On any error the engine and
    /// the ledger are as before.
    pub fn draw_from_loan(
        &mut self,
        ledger: &mut assets::Module,
        who: AccountId,
        loan_id: LoanId,
        amount: Balance,
    ) -> (r: Result<Event, Error>)
        requires
            old(self)@.wf(),
        ensures
            final(self)@.wf(),
            old(self)@.collateral_reconciled() ==> final(self)@.collateral_reconciled(),
            match old(self)@.draw_outcome(old(ledger)@.balances, who, loan_id, amount) {
                Ok((s, b, ev)) => r == Ok::<Event, Error>(ev) && final(self)@ == s
                    && final(ledger)@ == (LedgerView { balances: b, ..old(ledger)@ }),
                Err(e) => r == Err::<Event, Error>(e) && final(self)@ == old(self)@
                    && final(ledger)@ == old(ledger)@,
            },
    {
        let (i, interest) = self.check_draw(who, loan_id, amount)?;
        let mut loan = self.loans[i];
        let asset_id = self.loan_package(loan.package_id).loan_asset_id;
        let mut steps: Vec<LedgerAction> = Vec::new();
        steps.push(LedgerAction::Mint { asset_id, to: self.params.profit_pool, amount: interest });
        steps.push(LedgerAction::Mint { asset_id, to: who, amount: amount - interest });
        assert(steps@ =~= old(self)@.draw_steps(loan_id, amount, interest));
        run_saga(ledger, &steps)?;
        loan.loan_balance_total = loan.loan_balance_total + amount;
        self.loans.set(i, loan);
        self.total_loan = self.total_loan + amount;
        self.total_profit = self.total_profit + interest;
        proof {
            lemma_loan_changed(old(self)@, self@, i as int, loan);
        }
        Ok(Event::LoanDrawn(loan_id, amount))
    }

    /// `who` repays an open loan of theirs in full and gets the collateral
    /// that is left. On any error the engine and the ledger are as before.
    pub fn repay_loan(&mut self, ledger: &mut assets::Module, who: AccountId, loan_id: LoanId) -> (r:
        Result<Event, Error>)
        requires
            old(self)@.wf(),
        ensures
            final(self)@.wf(),
            old(self)@.collateral_reconciled() ==> final(self)@.collateral_reconciled(),
            match old(self)@.repay_outcome(old(ledger)@.balances, who, loan_id) {
                Ok((s, b, ev)) => r == Ok::<Event, Error>(ev) && final(self)@ == s
                    && final(ledger)@ == (LedgerView { balances: b, ..old(ledger)@ }),
                Err(e) => r == Err::<Event, Error>(e) && final(self)@ == old(self)@
                    && final(ledger)@ == old(ledger)@,
            },
    {
        let i = match self.find_loan(loan_id) {
            None => {
                return Err(Error::LoanNotFound);
            },
            Some(i) => i,
        };
        let loan = self.loans[i];
        if loan.who != who {
            return Err(Error::NotLoanOwner);
        }
        if self.check_loan_in_liquidation(&loan_id) {
            return Err(Error::LoanInLiquidation);
        }
        let package = self.loan_package(loan.package_id);
        if ledger.free_balance(&package.loan_asset_id, &who) < loan.loan_balance_total {
            return Err(Error::InsufficientBalance);
        }
        if ledger.free_balance(&package.collateral_asset_id, &self.params.pawn_shop)
            < loan.collateral_balance_available {
            return Err(Error::InsufficientBalance);
        }
        let mut steps: Vec<LedgerAction> = Vec::new();
        steps.push(
            LedgerAction::Transfer {
                asset_id: package.loan_asset_id,
                from: who,
                to: self.params.pawn_shop,
                amount: loan.loan_balance_total,
            },
        );
        steps.push(
            LedgerAction::Transfer {
                asset_id: package.collateral_asset_id,
                from: self.params.pawn_shop,
                to: who,
                amount: loan.collateral_balance_available,
            },
        );
        steps.push(
            LedgerAction::Burn {
                asset_id: package.loan_asset_id,
                from: self.params.pawn_shop,
                amount: loan.loan_balance_total,
            },
        );
        assert(steps@ =~= old(self)@.repay_steps(loan_id));
        run_saga(ledger, &steps)?;
        proof {
            lemma_balance_within_total(self@, i as int);
        }
        self.loans.remove(i);
        self.total_loan = self.total_loan - loan.loan_balance_total;
        self.total_collateral = self.total_collateral.saturating_sub(
            loan.collateral_balance_available,
        );
        proof {
            lemma_loan_removed(old(self)@, self@, i as int);
        }
        Ok(Event::LoanRepaid(loan_id))
    }

    /// `from` adds `amount` of collateral to the open loan with the id of
    /// `loan`. On any error the engine and the ledger are as before.
    pub fn add_loan_collateral(
        &mut self,
        ledger: &mut assets::Module,
        loan: &Loan,
        from: AccountId,
        amount: Balance,
    ) -> (r: Result<Event, Error>)
        requires
            old(self)@.wf(),
        ensures
            final(self)@.wf(),
            old(self)@.collateral_reconciled() ==> final(self)@.collateral_reconciled(),
            match old(self)@.add_collateral_outcome(old(ledger)@.balances, loan.id, from, amount) {
                Ok((s, b, ev)) => r == Ok::<Event, Error>(ev) && final(self)@ == s
                    && final(ledger)@ == (LedgerView { balances: b, ..old(ledger)@ }),
                Err(e) => r == Err::<Event, Error>(e) && final(self)@ == old(self)@
                    && final(ledger)@ == old(ledger)@,
            },
    {
        let i = match self.find_loan(loan.id) {
            None => {
                return Err(Error::LoanNotFound);
            },
            Some(i) => i,
        };
        let mut open = self.loans[i];
        if self.check_loan_in_liquidation(&loan.id) {
            return Err(Error::LoanInLiquidation);
        }
        if open.collateral_balance_original.checked_add(amount).is_none()
            || self.total_collateral.checked_add(amount).is_none() {
            return Err(Error::Overflow);
        }
        let mut steps: Vec<LedgerAction> = Vec::new();
        steps.push(
            LedgerAction::Transfer {
                asset_id: self.loan_package(open.package_id).collateral_asset_id,
                from,
                to: self.params.pawn_shop,
                amount,
            },
        );
        assert(steps@ =~= old(self)@.add_collateral_steps(loan.id, from, amount));
        run_saga(ledger, &steps)?;
        open.collateral_balance_original = open.collateral_balance_original + amount;
        open.collateral_balance_available = open.collateral_balance_available + amount;
        self.loans.set(i, open);
        self.total_collateral = self.total_collateral + amount;
        proof {
            lemma_loan_changed(old(self)@, self@, i as int, open);
        }
        Ok(Event::AddCollateral(loan.id, amount))
    }

    /// A signed caller draws from a loan, unless the module is paused.
    pub fn draw(&mut self, ledger: &mut assets::Module, origin: Origin, loan_id: LoanId, amount: Balance) -> (r:
        Result<Event, Error>)
        requires
            old(self)@.wf(),
        ensures
            final(self)@.wf(),
            old(self)@.collateral_reconciled() ==> final(self)@.collateral_reconciled(),
            match old(self)@.user_gate(origin) {
                Err(e) => r == Err::<Event, Error>(e) && final(self)@ == old(self)@
                    && final(ledger)@ == old(ledger)@,
                Ok(who) => match old(self)@.draw_outcome(
                    old(ledger)@.balances,
                    who,
                    loan_id,
                    amount,
                ) {
                    Ok((s, b, ev)) => r == Ok::<Event, Error>(ev) && final(self)@ == s
                        && final(ledger)@ == (LedgerView { balances: b, ..old(ledger)@ }),
                    Err(e) => r == Err::<Event, Error>(e) && final(self)@ == old(self)@
                        && final(ledger)@ == old(ledger)@,
                },
            },
    {
        if self.params.paused {
            return Err(Error::Paused);
        }
        let who = ensure_signed(origin)?;
        self.draw_from_loan(ledger, who, loan_id, amount)
    }

    /// A signed caller repays a loan, unless the module is paused.
    pub fn repay(&mut self, ledger: &mut assets::Module, origin: Origin, loan_id: LoanId) -> (r: Result<
        Event,
        Error,
    >)
        requires
            old(self)@.wf(),
        ensures
            final(self)@.wf(),
            old(self)@.collateral_reconciled() ==> final(self)@.collateral_reconciled(),
            match old(self)@.user_gate(origin) {
                Err(e) => r == Err::<Event, Error>(e) && final(self)@ == old(self)@
                    && final(ledger)@ == old(ledger)@,
                Ok(who) => match old(self)@.repay_outcome(old(ledger)@.balances, who, loan_id) {
                    Ok((s, b, ev)) => r == Ok::<Event, Error>(ev) && final(self)@ == s
                        && final(ledger)@ == (LedgerView { balances: b, ..old(ledger)@ }),
                    Err(e) => r == Err::<Event, Error>(e) && final(self)@ == old(self)@
                        && final(ledger)@ == old(ledger)@,
                },
            },
    {
        if self.params.paused {
            return Err(Error::Paused);
        }
        let who = ensure_signed(origin)?;
        self.repay_loan(ledger, who, loan_id)
    }

    /// A signed caller adds collateral to a loan of theirs, unless the module
    /// is paused. An unknown loan is `LoanNotFound`, the loan of another
    /// account `NotLoanOwner`.
    pub fn add_collateral(
        &mut self,
        ledger: &mut assets::Module,
        origin: Origin,
        loan_id: LoanId,
        amount: Balance,
    ) -> (r: Result<Event, Error>)
        requires
            old(self)@.wf(),
        ensures
            final(self)@.wf(),
            old(self)@.collateral_reconciled() ==> final(self)@.collateral_reconciled(),
            match old(self)@.user_gate(origin) {
                Err(e) => r == Err::<Event, Error>(e) && final(self)@ == old(self)@
                    && final(ledger)@ == old(ledger)@,
                Ok(who) => if !old(self)@.has_loan(loan_id) {
                    r == Err::<Event, Error>(Error::LoanNotFound) && final(self)@ == old(self)@
                        && final(ledger)@ == old(ledger)@
                } else if old(self)@.loan(loan_id).who != who {
                    r == Err::<Event, Error>(Error::NotLoanOwner) && final(self)@ == old(self)@
                        && final(ledger)@ == old(ledger)@
                } else {
                    match old(self)@.add_collateral_outcome(
                        old(ledger)@.balances,
                        loan_id,
                        who,
                        amount,
                    ) {
                        Ok((s, b, ev)) => r == Ok::<Event, Error>(ev) && final(self)@ == s
                            && final(ledger)@ == (LedgerView { balances: b, ..old(ledger)@ }),
                        Err(e) => r == Err::<Event, Error>(e) && final(self)@ == old(self)@
                            && final(ledger)@ == old(ledger)@,
                    }
                },
            },
    {
        if self.params.paused {
            return Err(Error::Paused);
        }
        let who = ensure_signed(origin)?;
        let loan = match self.find_loan(loan_id) {
            None => {
                return Err(Error::LoanNotFound);
            },
            Some(i) => self.loans[i],
        };
        if loan.who != who {
            return Err(Error::NotLoanOwner);
        }
        self.add_loan_collateral(ledger, &loan, who, amount)
    }
}

} // verus!
