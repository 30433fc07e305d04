//! Scalar types and fixed-point precisions shared by every module.
use vstd::prelude::*;

verus! {

/// Identifies an account on the asset ledger.
pub type AccountId = u64;

/// Identifies a fungible asset.
pub type AssetId = u32;

/// An amount of some asset, in its smallest unit.
pub type Balance = u128;

/// A clock reading in milliseconds.
pub type Moment = u64;

/// An oracle price, scaled by [`PRICE_PREC`].
pub type Price = u128;

/// Identifies a loan package.
pub type LoanPackageId = u64;

/// Identifies a loan.
pub type LoanId = u64;

/// Identifies a credit line.
pub type CreditLineId = u64;

/// A loan-to-value ratio, scaled by [`LTV_PREC`].
pub type LTV = u64;

/// Scale of hourly interest rates: a rate `r` stands for `r / INTEREST_RATE_PREC`.
pub const INTEREST_RATE_PREC: u32 = 100_000_000;

/// Scale of loan-to-value ratios and of penalty rates.
pub const LTV_PREC: u32 = 10_000;

/// Scale of oracle prices.
pub const PRICE_PREC: u32 = 10_000;

/// Length of one term in seconds: one day.
pub const TERMS_UNIT: u32 = 86_400;

/// Grace window after the due date, in terms.
pub const DUE_EXTEND: u32 = 2;

/// Length of one term in milliseconds.
pub const TERMS_UNIT_MS: u64 = 86_400_000;

/// Hours in one term.
pub const HOURS_PER_TERM: u32 = 24;

} // verus!
