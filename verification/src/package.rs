//! Loan packages: the terms under which loans are made.
use vstd::prelude::*;
use crate::error::Error;
use crate::math::{mul_div, quotient};
use crate::primitives::{
    AssetId, Balance, LoanPackageId, Moment, DUE_EXTEND, HOURS_PER_TERM, INTEREST_RATE_PREC,
    TERMS_UNIT_MS,
};

verus! {

/// Whether new loans can be made from a package.
#[derive(Clone, Copy, Debug, PartialEq, Eq, Structural)]
pub enum LoanPackageStatus {
    /// Open for new loans.
    Active,
    /// Closed for good.
    Inactive,
}

impl Default for LoanPackageStatus {
    fn default() -> (s: Self)
        ensures
            s == LoanPackageStatus::Active,
    {
        LoanPackageStatus::Active
    }
}

/// The terms of a family of loans. But for its status, a package never changes.
#[derive(Clone, Copy, Debug, PartialEq, Eq, Structural)]
pub struct LoanPackage {
    pub id: LoanPackageId,
    pub status: LoanPackageStatus,
    /// The duration of a loan, in terms of one day.
    pub terms: u32,
    /// The smallest loan that can be made.
    pub min: Balance,
    /// The interest per hour, scaled by [`INTEREST_RATE_PREC`].
    pub interest_rate_hourly: u32,
    /// The asset that borrowers lock.
    pub collateral_asset_id: AssetId,
    /// The asset that borrowers get.
    pub loan_asset_id: AssetId,
}

impl Default for LoanPackage {
    fn default() -> (p: Self)
        ensures
            p == LoanPackage::void(),
    {
        LoanPackage {
            id: 0,
            status: LoanPackageStatus::Active,
            terms: 0,
            min: 0,
            interest_rate_hourly: 0,
            collateral_asset_id: 0,
            loan_asset_id: 0,
        }
    }
}

impl LoanPackage {
    /// The package that stands for "no package": every number in it is zero.
    pub open spec fn void() -> LoanPackage {
        LoanPackage {
            id: 0,
            status: LoanPackageStatus::Active,
            terms: 0,
            min: 0,
            interest_rate_hourly: 0,
            collateral_asset_id: 0,
            loan_asset_id: 0,
        }
    }

    /// The bounds that the registry enforces on a new package.
    pub open spec fn valid(self) -> bool {
        &&& self.terms > 0
        &&& 0 < self.interest_rate_hourly < INTEREST_RATE_PREC
        &&& self.min > 0
    }

    /// The interest on `amount` over the whole duration:
    /// `amount * terms * 24 * rate / INTEREST_RATE_PREC`, rounded down.
    pub open spec fn interest(self, amount: Balance) -> Result<Balance, Error> {
        quotient(
            amount * self.terms * HOURS_PER_TERM * self.interest_rate_hourly,
            INTEREST_RATE_PREC as int,
        )
    }

    /// The due date of a loan made at `now`: `now + terms * TERMS_UNIT_MS`.
    pub open spec fn due(self, now: Moment) -> int {
        now + self.terms * TERMS_UNIT_MS
    }

    /// The end of the grace window of a loan made at `now`.
    pub open spec fn due_extend(self, now: Moment) -> int {
        self.due(now) + DUE_EXTEND * TERMS_UNIT_MS
    }

    /// The two dates of a loan made at `now`, where both fit a `Moment`.
    pub open spec fn dues(self, now: Moment) -> Result<(Moment, Moment), Error> {
        if self.due_extend(now) <= u64::MAX {
            Ok((self.due(now) as Moment, self.due_extend(now) as Moment))
        } else {
            Err(Error::Overflow)
        }
    }

    /// The interest on `amount` over the whole duration of a loan.
    pub fn get_interest(&self, amount: Balance) -> (r: Result<Balance, Error>)
        ensures
            r == self.interest(amount),
    {
        let hours: u128 = (self.terms as u128) * (HOURS_PER_TERM as u128);
        assert(hours * self.interest_rate_hourly <= 0x18_0000_0000 * 0x1_0000_0000)
            by (nonlinear_arith)
            requires
                hours <= 0x18_0000_0000,
                self.interest_rate_hourly <= 0x1_0000_0000,
        ;
        let factor: u128 = hours * (self.interest_rate_hourly as u128);
        assert(amount * self.terms * HOURS_PER_TERM * self.interest_rate_hourly == amount * factor)
            by (nonlinear_arith)
            requires
                factor == self.terms * HOURS_PER_TERM * self.interest_rate_hourly,
        ;
        mul_div(amount, factor, INTEREST_RATE_PREC as u128)
    }

    /// The due date and the end of the grace window of a loan made at `now`.
    pub fn get_dues(&self, now: Moment) -> (r: Result<(Moment, Moment), Error>)
        ensures
            r == self.dues(now),
    {
        let length: u64 = (self.terms as u64) * TERMS_UNIT_MS;
        let grace: u64 = (DUE_EXTEND as u64) * TERMS_UNIT_MS;
        match now.checked_add(length) {
            None => Err(Error::Overflow),
            Some(due) => match due.checked_add(grace) {
                None => Err(Error::Overflow),
                Some(due_extend) => Ok((due, due_extend)),
            },
        }
    }
}

} // verus!
