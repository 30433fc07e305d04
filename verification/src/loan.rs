//! Loans, their health, and the ratios computed on them.
use vstd::prelude::*;
use crate::error::Error;
use crate::math::{mul_div, mul_div_by_product, quotient};
use crate::package::LoanPackage;
use crate::primitives::{
    AccountId, AssetId, Balance, CreditLineId, LoanId, LoanPackageId, Moment, Price, LTV,
    LTV_PREC, PRICE_PREC,
};

verus! {

/// The state of a loan as the last scan left it.
#[derive(Clone, Copy, Debug, PartialEq, Eq, Structural)]
pub enum LoanHealth {
    /// Backed and on time.
    Well,
    /// The ratio has reached the warning threshold.
    Warning(LTV),
    /// The ratio has reached the liquidation threshold; the loan waits for settlement.
    Liquidating(LTV),
    /// Past the due date, inside the grace window.
    Extended,
    /// Past the grace window.
    Expired,
}

impl Default for LoanHealth {
    fn default() -> (h: Self)
        ensures
            h == LoanHealth::Well,
    {
        LoanHealth::Well
    }
}

/// A collateral and the loan it backs.
#[derive(Clone, Copy, Debug, PartialEq, Eq, Structural)]
pub struct CollateralLoan {
    pub collateral_amount: Balance,
    pub loan_amount: Balance,
}

/// An open loan.
#[derive(Clone, Copy, Debug, PartialEq, Eq, Structural)]
pub struct Loan {
    pub id: LoanId,
    pub package_id: LoanPackageId,
    /// The borrower.
    pub who: AccountId,
    /// The due date.
    pub due: Moment,
    /// The end of the grace window.
    pub due_extend: Moment,
    /// The collateral ever locked for this loan.
    pub collateral_balance_original: Balance,
    /// The collateral still locked: what was locked less the fees cut from it.
    pub collateral_balance_available: Balance,
    /// The amount borrowed, interest included.
    pub loan_balance_total: Balance,
    pub status: LoanHealth,
}

impl Default for Loan {
    fn default() -> (l: Self)
        ensures
            l == Loan::void(),
    {
        Loan {
            id: 0,
            package_id: 0,
            who: 0,
            due: 0,
            due_extend: 0,
            collateral_balance_original: 0,
            collateral_balance_available: 0,
            loan_balance_total: 0,
            status: LoanHealth::Well,
        }
    }
}

/// A line of credit opened against an amount of an asset.
#[derive(Clone, Copy, Debug, PartialEq, Eq, Structural)]
pub struct CreditLine {
    pub id: CreditLineId,
    pub ltv: LTV,
    pub amount: Balance,
    pub price: Price,
    pub credit: Balance,
    pub asset_id: AssetId,
}

/// What the loan engine reports when it has changed.
#[derive(Clone, Copy, Debug, PartialEq, Eq, Structural)]
pub enum Event {
    PackageCreated(LoanPackageId),
    PackageDisabled(LoanPackageId),
    LoanCreated(Loan),
    /// The loan and the amount drawn.
    LoanDrawn(LoanId, Balance),
    LoanRepaid(LoanId),
    /// The loan passed its grace window and was extended against a fee.
    Expired(LoanId, AccountId),
    /// The loan passed its due date.
    Extended(LoanId, AccountId),
    /// The loan and its ratio, at or above the warning threshold.
    Warning(LoanId, LTV),
    /// The loan, its borrower, the collateral still locked and the loan balance.
    Liquidating(LoanId, AccountId, Balance, Balance),
    /// The loan, its original and its remaining collateral, the proceeds of
    /// the auction and the balance that was paid off.
    Liquidated(LoanId, Balance, Balance, Balance, Balance),
    /// The loan and the collateral added.
    AddCollateral(LoanId, Balance),
}

/// The loan-to-value ratio `loan * PRICE_PREC * LTV_PREC / (collateral * price)`,
/// rounded down, as a balance.
pub open spec fn ltv_ratio(collateral: Balance, loan: Balance, price: Price) -> Result<
    Balance,
    Error,
> {
    quotient(loan * PRICE_PREC * LTV_PREC, collateral * price)
}

/// The loan-to-value ratio where it fits an `LTV`.
pub open spec fn ltv_of(collateral: Balance, loan: Balance, price: Price) -> Result<LTV, Error> {
    match ltv_ratio(collateral, loan, price) {
        Ok(v) => if v <= u64::MAX {
            Ok(v as LTV)
        } else {
            Err(Error::Overflow)
        },
        Err(e) => Err(e),
    }
}

/// The collateral that backs `loan` at the ratio `max_ltv`:
/// `loan * LTV_PREC * PRICE_PREC / (price * max_ltv)`, rounded down.
pub open spec fn required_collateral(loan: Balance, max_ltv: LTV, price: Price) -> Result<
    Balance,
    Error,
> {
    quotient(loan * LTV_PREC * PRICE_PREC, price * max_ltv)
}

/// The loan that `collateral` backs at the ratio `max_ltv`:
/// `collateral * price * max_ltv / (LTV_PREC * PRICE_PREC)`, rounded down.
pub open spec fn max_loan_for_collateral(collateral: Balance, max_ltv: LTV, price: Price) -> Result<
    Balance,
    Error,
> {
    quotient(collateral * price * max_ltv, LTV_PREC * PRICE_PREC)
}

/// The loan-to-value ratio as a balance.
pub fn get_ltv_ratio(collateral_amount: Balance, loan_amount: Balance, btc_price: Price) -> (r:
    Result<Balance, Error>)
    ensures
        r == ltv_ratio(collateral_amount, loan_amount, btc_price),
{
    mul_div_by_product(loan_amount, 100_000_000, collateral_amount, btc_price)
}

impl Loan {
    /// The loan that stands for "no loan": every number in it is zero.
    pub open spec fn void() -> Loan {
        Loan {
            id: 0,
            package_id: 0,
            who: 0,
            due: 0,
            due_extend: 0,
            collateral_balance_original: 0,
            collateral_balance_available: 0,
            loan_balance_total: 0,
            status: LoanHealth::Well,
        }
    }

    /// The part of the available collateral cut when the loan expires:
    /// `collateral_balance_available * penalty_rate / LTV_PREC`, rounded down.
    pub open spec fn penalty(self, penalty_rate: u32) -> Result<Balance, Error> {
        quotient(self.collateral_balance_available * penalty_rate, LTV_PREC as int)
    }

    /// The interest on the loan balance for one more duration, in collateral:
    /// `package.interest(loan_balance_total) * PRICE_PREC / price`, rounded down.
    pub open spec fn extension_interest(self, package: LoanPackage, price: Price) -> Result<
        Balance,
        Error,
    > {
        match package.interest(self.loan_balance_total) {
            Ok(i) => quotient(i * PRICE_PREC, price as int),
            Err(e) => Err(e),
        }
    }

    /// The loan once `fee` has been cut from its collateral, down to zero at
    /// most, and its dates count from `now`.
    pub open spec fn extended(self, package: LoanPackage, now: Moment, fee: int) -> Loan {
        Loan {
            collateral_balance_available: if fee <= self.collateral_balance_available {
                (self.collateral_balance_available - fee) as Balance
            } else {
                0
            },
            due: package.due(now) as Moment,
            due_extend: package.due_extend(now) as Moment,
            ..self
        }
    }

    /// The loan-to-value ratio of `loan_amount` against `collateral_amount` at
    /// `btc_price`.
    pub fn get_ltv(collateral_amount: Balance, loan_amount: Balance, btc_price: Price) -> (r:
        Result<LTV, Error>)
        ensures
            r == ltv_of(collateral_amount, loan_amount, btc_price),
    {
        match get_ltv_ratio(collateral_amount, loan_amount, btc_price) {
            Ok(v) => if v <= 0xffff_ffff_ffff_ffff {
                Ok(v as u64)
            } else {
                Err(Error::Overflow)
            },
            Err(e) => Err(e),
        }
    }

    /// The part of the available collateral cut when the loan expires.
    pub fn expiration_penalty(&self, penalty_rate: u32) -> (r: Result<Balance, Error>)
        ensures
            r == self.penalty(penalty_rate),
    {
        mul_div(self.collateral_balance_available, penalty_rate as u128, LTV_PREC as u128)
    }

    /// The interest on the loan balance for one more duration, in collateral.
    pub fn expiration_interest(&self, package: &LoanPackage, btc_price: Price) -> (r: Result<
        Balance,
        Error,
    >)
        ensures
            r == self.extension_interest(*package, btc_price),
    {
        match package.get_interest(self.loan_balance_total) {
            Ok(i) => mul_div(i, PRICE_PREC as u128, btc_price),
            Err(e) => Err(e),
        }
    }

    /// Cuts the penalty and the interest from the available collateral, down
    /// to zero at most, and sets the dates of a loan made at `now`. Where the
    /// new dates do not fit, nothing changes.
    pub fn expire_then_extend(
        &mut self,
        package: &LoanPackage,
        now: Moment,
        expiration_penalty: Balance,
        expiration_interest: Balance,
    ) -> (r: Result<(), Error>)
        ensures
            match r {
                Ok(()) => package.dues(now) is Ok && *final(self) == old(self).extended(
                    *package,
                    now,
                    expiration_interest + expiration_penalty,
                ),
                Err(e) => package.dues(now) == Err::<(Moment, Moment), Error>(e) && *final(self)
                    == *old(self),
            },
    {
        let (due, due_extend) = package.get_dues(now)?;
        let left = self.collateral_balance_available.saturating_sub(expiration_interest);
        self.collateral_balance_available = left.saturating_sub(expiration_penalty);
        self.due = due;
        self.due_extend = due_extend;
        Ok(())
    }
}

} // verus!
