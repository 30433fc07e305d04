//! Settling a liquidation: the agent pays the loan off out of the proceeds of
//! the auction; what is left over is split between the profit pool and the
//! borrower; the loan is closed.
use vstd::prelude::*;
use crate::assets;
use crate::assets::{Balances, LedgerView};
use crate::books::{lemma_balance_within_total, lemma_loan_removed};
use crate::engine::{Module, State};
use crate::error::Error;
use crate::loan::{Event, Loan};
use crate::math::{mul_div, quotient};
use crate::primitives::{AccountId, Balance, LoanId, LTV_PREC};
use crate::saga::{run_saga, saga_error, saga_result, LedgerAction};
use crate::system::{ensure_signed, Origin};

verus! {

/// How the proceeds of an auction are split.
#[derive(Clone, Copy, Debug, PartialEq, Eq, Structural)]
pub struct Split {
    /// What pays the loan off: its whole balance.
    pub payoff: Balance,
    /// The part of the surplus that goes to the profit pool.
    pub penalty: Balance,
    /// The part of the surplus that goes back to the borrower.
    pub refund: Balance,
}

/// The surplus of an auction over the loan balance, zero where there is none.
pub open spec fn leftover(auction_balance: Balance, loan_balance: Balance) -> int {
    if auction_balance > loan_balance {
        auction_balance - loan_balance
    } else {
        0
    }
}

/// The split of the proceeds: the penalty is
/// `leftover * liquidation_penalty / LTV_PREC`, rounded down, and the refund is
/// the rest of the leftover. A penalty above the leftover is an
/// `InvalidParameter`.
pub open spec fn split_proceeds(auction_balance: Balance, loan_balance: Balance, rate: u32) -> Result<
    Split,
    Error,
> {
    let over = leftover(auction_balance, loan_balance);
    match quotient(over * rate, LTV_PREC as int) {
        Err(e) => Err(e),
        Ok(penalty) => if penalty > over {
            Err(Error::InvalidParameter)
        } else {
            Ok(Split { payoff: loan_balance, penalty, refund: (over - penalty) as Balance })
        },
    }
}

/// Splits the proceeds of an auction over a loan balance.
pub fn split_auction(auction_balance: Balance, loan_balance: Balance, rate: u32) -> (r: Result<
    Split,
    Error,
>)
    ensures
        r == split_proceeds(auction_balance, loan_balance, rate),
        r matches Ok(s) ==> s.penalty + s.refund == leftover(auction_balance, loan_balance),
{
    let over: Balance = if auction_balance > loan_balance {
        auction_balance - loan_balance
    } else {
        0
    };
    let penalty = mul_div(over, rate as u128, LTV_PREC as u128)?;
    if penalty > over {
        return Err(Error::InvalidParameter);
    }
    Ok(Split { payoff: loan_balance, penalty, refund: over - penalty })
}

impl State {
    /// The checks on a settlement, in the order in which they are made, and
    /// the split of the proceeds.
    pub open spec fn settlement_terms(
        self,
        b: Balances,
        loan_id: LoanId,
        agent: AccountId,
        auction_balance: Balance,
    ) -> Result<Split, Error> {
        let loan = self.loan(loan_id);
        if !self.has_loan(loan_id) {
            Err(Error::LoanNotFound)
        } else if !self.is_liquidating(loan_id) {
            Err(Error::LoanNotInLiquidation)
        } else if b[(self.package(loan.package_id).loan_asset_id, agent)] < auction_balance {
            Err(Error::InsufficientBalance)
        } else {
            match split_proceeds(
                auction_balance,
                loan.loan_balance_total,
                self.params.liquidation_penalty,
            ) {
                Err(e) => Err(e),
                Ok(split) => if self.total_profit + split.penalty > u128::MAX {
                    Err(Error::Overflow)
                } else {
                    Ok(split)
                },
            }
        }
    }

    /// The engine once the liquidation is settled: the loan is closed and the
    /// penalty counts as profit.
    pub open spec fn settled(self, loan_id: LoanId, split: Split) -> State {
        State {
            total_profit: (self.total_profit + split.penalty) as Balance,
            ..self.without_loan(loan_id)
        }
    }

    /// The ledger steps of a settlement: the payoff from the agent to the pawn
    /// shop and, where the auction left a surplus, the penalty from the agent
    /// to the profit pool and the refund from the agent to the borrower.
    pub open spec fn settlement_steps(self, loan_id: LoanId, agent: AccountId, split: Split) -> Seq<
        LedgerAction,
    > {
        let loan = self.loan(loan_id);
        let asset_id = self.package(loan.package_id).loan_asset_id;
        let payoff = LedgerAction::Transfer {
            asset_id,
            from: agent,
            to: self.params.pawn_shop,
            amount: split.payoff,
        };
        if split.penalty + split.refund > 0 {
            seq![
                payoff,
                LedgerAction::Transfer {
                    asset_id,
                    from: agent,
                    to: self.params.profit_pool,
                    amount: split.penalty,
                },
                LedgerAction::Transfer { asset_id, from: agent, to: loan.who, amount: split.refund },
            ]
        } else {
            seq![payoff]
        }
    }

    /// A settlement as a whole. On success the loan is gone from the loan
    /// table and from the liquidating set, the total loan and the total
    /// collateral are lower by its amounts, and the total profit is higher by
    /// the penalty.
    pub open spec fn settlement_outcome(
        self,
        b: Balances,
        loan_id: LoanId,
        agent: AccountId,
        auction_balance: Balance,
    ) -> Result<(State, Balances, Event), Error> {
        let loan = self.loan(loan_id);
        match self.settlement_terms(b, loan_id, agent, auction_balance) {
            Err(e) => Err(e),
            Ok(split) => match saga_error(b, self.settlement_steps(loan_id, agent, split)) {
                Some(e) => Err(e),
                None => Ok(
                    (
                        self.settled(loan_id, split),
                        saga_result(b, self.settlement_steps(loan_id, agent, split)),
                        Event::Liquidated(
                            loan_id,
                            loan.collateral_balance_original,
                            loan.collateral_balance_available,
                            auction_balance,
                            loan.loan_balance_total,
                        ),
                    ),
                ),
            },
        }
    }
}

/// In a sequence without duplicates an element is found where it stands.
pub proof fn lemma_index_of_unique(s: Seq<LoanId>, k: int)
    requires
        s.no_duplicates(),
        0 <= k < s.len(),
    ensures
        s.contains(s[k]),
        s.index_of(s[k]) == k,
        s.remove(k).no_duplicates(),
        forall|q: int|
            0 <= q < s.remove(k).len() ==> s.contains(#[trigger] s.remove(k)[q]) && s.remove(k)[q]
                != s[k],
{
    let c = s.index_of(s[k]);
    assert(0 <= c < s.len() && s[c] == s[k]);
    assert forall|q: int| 0 <= q < s.remove(k).len() implies s.contains(#[trigger] s.remove(k)[q])
        && s.remove(k)[q] != s[k] by {
        if q < k {
            assert(s.remove(k)[q] == s[q]);
        } else {
            assert(s.remove(k)[q] == s[q + 1]);
        }
    }
}

impl Module {
    /// The place of a loan in the liquidating set.
    fn find_liquidating(&self, loan_id: LoanId) -> (r: Option<usize>)
        ensures
            match r {
                Some(k) => k < self@.liquidating.len() && self@.liquidating[k as int] == loan_id,
                None => !self@.is_liquidating(loan_id),
            },
    {
        let mut k: usize = 0;
        while k < self.liquidating_loans.len()
            invariant
                k <= self.liquidating_loans.len(),
                forall|j: int| 0 <= j < k ==> self.liquidating_loans@[j] != loan_id,
            decreases self.liquidating_loans.len() - k,
        {
            if self.liquidating_loans[k] == loan_id {
                return Some(k);
            }
            k = k + 1;
        }
        None
    }

    /// `liquidation_account` settles the liquidation of the open loan with the
    /// id of `loan`, having sold its collateral for `auction_balance`. It pays
    /// the loan balance to the pawn shop; of a surplus, the penalty goes to
    /// the profit pool and the rest to the borrower. On success the loan is
    /// closed. On any error the engine and the ledger are as before.
    pub fn mark_loan_liquidated(
        &mut self,
        ledger: &mut assets::Module,
        loan: &Loan,
        liquidation_account: AccountId,
        auction_balance: Balance,
    ) -> (r: Result<Event, Error>)
        requires
            old(self)@.wf(),
        ensures
            final(self)@.wf(),
            old(self)@.collateral_reconciled() ==> final(self)@.collateral_reconciled(),
            match old(self)@.settlement_outcome(
                old(ledger)@.balances,
                loan.id,
                liquidation_account,
                auction_balance,
            ) {
                Ok((s, b, ev)) => r == Ok::<Event, Error>(ev) && final(self)@ == s
                    && final(ledger)@ == (LedgerView { balances: b, ..old(ledger)@ }),
                Err(e) => r == Err::<Event, Error>(e) && final(self)@ == old(self)@
                    && final(ledger)@ == old(ledger)@,
            },
    {
        let i = match self.find_loan(loan.id) {
            None => {
                return Err(Error::LoanNotFound);
            },
            Some(i) => i,
        };
        let open = self.loans[i];
        let k = match self.find_liquidating(loan.id) {
            None => {
                return Err(Error::LoanNotInLiquidation);
            },
            Some(k) => k,
        };
        let asset_id = self.loan_package(open.package_id).loan_asset_id;
        if ledger.free_balance(&asset_id, &liquidation_account) < auction_balance {
            return Err(Error::InsufficientBalance);
        }
        let split = split_auction(
            auction_balance,
            open.loan_balance_total,
            self.params.liquidation_penalty,
        )?;
        let profit = match self.total_profit.checked_add(split.penalty) {
            Some(p) => p,
            None => {
                return Err(Error::Overflow);
            },
        };
        let mut steps: Vec<LedgerAction> = Vec::new();
        steps.push(
            LedgerAction::Transfer {
                asset_id,
                from: liquidation_account,
                to: self.params.pawn_shop,
                amount: split.payoff,
            },
        );
        if split.penalty > 0 || split.refund > 0 {
            steps.push(
                LedgerAction::Transfer {
                    asset_id,
                    from: liquidation_account,
                    to: self.params.profit_pool,
                    amount: split.penalty,
                },
            );
            steps.push(
                LedgerAction::Transfer {
                    asset_id,
                    from: liquidation_account,
                    to: open.who,
                    amount: split.refund,
                },
            );
        }
        assert(steps@ =~= old(self)@.settlement_steps(loan.id, liquidation_account, split));
        run_saga(ledger, &steps)?;
        proof {
            lemma_balance_within_total(self@, i as int);
            lemma_index_of_unique(self@.liquidating, k as int);
        }
        self.loans.remove(i);
        self.liquidating_loans.remove(k);
        self.total_loan = self.total_loan - open.loan_balance_total;
        self.total_collateral = self.total_collateral.saturating_sub(
            open.collateral_balance_available,
        );
        self.total_profit = profit;
        proof {
            lemma_loan_removed(old(self)@, self@, i as int);
        }
        Ok(
            Event::Liquidated(
                loan.id,
                open.collateral_balance_original,
                open.collateral_balance_available,
                auction_balance,
                open.loan_balance_total,
            ),
        )
    }

    /// The liquidation account reports the proceeds of an auction, unless the
    /// module is paused. Another caller is `NotLiquidationAccount`, an unknown
    /// loan `LoanNotFound`.
    pub fn mark_liquidated(
        &mut self,
        ledger: &mut assets::Module,
        origin: Origin,
        loan_id: LoanId,
        auction_balance: Balance,
    ) -> (r: Result<Event, Error>)
        requires
            old(self)@.wf(),
        ensures
            final(self)@.wf(),
            old(self)@.collateral_reconciled() ==> final(self)@.collateral_reconciled(),
            match old(self)@.user_gate(origin) {
                Err(e) => r == Err::<Event, Error>(e) && final(self)@ == old(self)@
                    && final(ledger)@ == old(ledger)@,
                Ok(who) => if who != old(self)@.params.liquidation_account {
                    r == Err::<Event, Error>(Error::NotLiquidationAccount) && final(self)@ == old(self)@ && final(ledger)@ == old(ledger)@
                } else {
                    match old(self)@.settlement_outcome(
                        old(ledger)@.balances,
                        loan_id,
                        who,
                        auction_balance,
                    ) {
                        Ok((s, b, ev)) => r == Ok::<Event, Error>(ev) && final(self)@ == s
                            && final(ledger)@ == (LedgerView { balances: b, ..old(ledger)@ }),
                        Err(e) => r == Err::<Event, Error>(e) && final(self)@ == old(self)@
                            && final(ledger)@ == old(ledger)@,
                    }
                },
            },
    {
        if self.params.paused {
            return Err(Error::Paused);
        }
        let who = ensure_signed(origin)?;
        if who != self.params.liquidation_account {
            return Err(Error::NotLiquidationAccount);
        }
        let loan = match self.find_loan(loan_id) {
            None => {
                return Err(Error::LoanNotFound);
            },
            Some(i) => self.loans[i],
        };
        self.mark_loan_liquidated(ledger, &loan, who, auction_balance)
    }
}

} // verus!
