//! The errors that the ledger and the loan engine return.
use vstd::prelude::*;

verus! {

/// Why an operation was turned down. Every error is returned before any state
/// has changed, or after what had changed was put back.
#[derive(Clone, Copy, Debug, PartialEq, Eq, Structural)]
pub enum Error {
    /// The module-wide pause flag is set.
    Paused,
    /// An administrative call did not come from the root origin.
    RequireRootOrigin,
    /// A user call did not carry a signed origin.
    RequireSignedOrigin,
    /// A parameter is out of bounds: a zero term, rate or minimum, a rate at
    /// or above the precision, or a collateral and a loan amount both zero.
    InvalidParameter,
    /// The loan is below the package's minimum.
    BelowMinimumLoan,
    /// The collateral is below the global minimum.
    BelowMinimumCollateral,
    /// No package has this id.
    PackageNotFound,
    /// No open loan has this id.
    LoanNotFound,
    /// The caller does not own the loan.
    NotLoanOwner,
    /// The caller is not the designated liquidation account.
    NotLiquidationAccount,
    /// An account holds less than the amount to be taken from it.
    InsufficientBalance,
    /// The implied loan-to-value ratio is above the global limit.
    OverLtvLimit,
    /// The amount drawn is above the credit that the collateral still backs.
    InsufficientCredit,
    /// The interest is not below the loan amount.
    InterestTooHigh,
    /// The global loan cap would be passed.
    LoanCapReached,
    /// The loan is waiting for its liquidation to be settled.
    LoanInLiquidation,
    /// The loan is not waiting for a liquidation.
    LoanNotInLiquidation,
    /// The package has been disabled.
    PackageInactive,
    /// A ratio was asked for with a zero collateral or a zero price.
    DivisionByZero,
    /// A value does not fit its machine type.
    Overflow,
}

/// The families of [`Error`].
#[derive(Clone, Copy, Debug, PartialEq, Eq, Structural)]
pub enum ErrorKind {
    /// Bad parameters, turned down before any mutation.
    Validation,
    /// An unknown package or loan id.
    NotFound,
    /// The wrong owner, a caller that is not root, or not the liquidation agent.
    Authorization,
    /// Reported by the asset ledger.
    InsufficientBalance,
    /// A breach of the lending policy: ratio, credit, interest or cap.
    FinancialPolicy,
    /// The loan or the package is in a state that rules the operation out.
    LoanState,
    /// The module-wide gate.
    Paused,
    /// A ratio without a denominator, or a value beyond its machine type.
    Arithmetic,
}

impl Error {
    /// The family an error belongs to.
    pub open spec fn kind_of(self) -> ErrorKind {
        match self {
            Error::Paused => ErrorKind::Paused,
            Error::RequireRootOrigin | Error::RequireSignedOrigin | Error::NotLoanOwner
            | Error::NotLiquidationAccount => ErrorKind::Authorization,
            Error::InvalidParameter | Error::BelowMinimumLoan | Error::BelowMinimumCollateral =>
                ErrorKind::Validation,
            Error::PackageNotFound | Error::LoanNotFound => ErrorKind::NotFound,
            Error::InsufficientBalance => ErrorKind::InsufficientBalance,
            Error::OverLtvLimit | Error::InsufficientCredit | Error::InterestTooHigh
            | Error::LoanCapReached => ErrorKind::FinancialPolicy,
            Error::LoanInLiquidation | Error::LoanNotInLiquidation | Error::PackageInactive =>
                ErrorKind::LoanState,
            Error::DivisionByZero | Error::Overflow => ErrorKind::Arithmetic,
        }
    }

    /// The family an error belongs to.
    pub fn kind(&self) -> (k: ErrorKind)
        ensures
            k == self.kind_of(),
    {
        match self {
            Error::Paused => ErrorKind::Paused,
            Error::RequireRootOrigin => ErrorKind::Authorization,
            Error::RequireSignedOrigin => ErrorKind::Authorization,
            Error::NotLoanOwner => ErrorKind::Authorization,
            Error::NotLiquidationAccount => ErrorKind::Authorization,
            Error::InvalidParameter => ErrorKind::Validation,
            Error::BelowMinimumLoan => ErrorKind::Validation,
            Error::BelowMinimumCollateral => ErrorKind::Validation,
            Error::PackageNotFound => ErrorKind::NotFound,
            Error::LoanNotFound => ErrorKind::NotFound,
            Error::InsufficientBalance => ErrorKind::InsufficientBalance,
            Error::OverLtvLimit => ErrorKind::FinancialPolicy,
            Error::InsufficientCredit => ErrorKind::FinancialPolicy,
            Error::InterestTooHigh => ErrorKind::FinancialPolicy,
            Error::LoanCapReached => ErrorKind::FinancialPolicy,
            Error::LoanInLiquidation => ErrorKind::LoanState,
            Error::LoanNotInLiquidation => ErrorKind::LoanState,
            Error::PackageInactive => ErrorKind::LoanState,
            Error::DivisionByZero => ErrorKind::Arithmetic,
            Error::Overflow => ErrorKind::Arithmetic,
        }
    }

    /// The text of an error, as a reader of a log would see it.
    pub open spec fn text(self) -> Seq<char> {
        match self {
            Error::Paused => "module is paused"@,
            Error::RequireRootOrigin => "bad origin: expected to be a root origin"@,
            Error::RequireSignedOrigin => "bad origin: expected to be a signed origin"@,
            Error::InvalidParameter => "invalid parameter"@,
            Error::BelowMinimumLoan => "not reach min loan amount"@,
            Error::BelowMinimumCollateral => "not reach min collateral amount"@,
            Error::PackageNotFound => "invalid package id"@,
            Error::LoanNotFound => "invalid loan id"@,
            Error::NotLoanOwner => "not owner of the loan"@,
            Error::NotLiquidationAccount => "liquidation account only"@,
            Error::InsufficientBalance => "balance too low to send amount"@,
            Error::OverLtvLimit => "over LTV limit"@,
            Error::InsufficientCredit => "short of available credit"@,
            Error::InterestTooHigh => "interest is too high"@,
            Error::LoanCapReached => "reach loan limit"@,
            Error::LoanInLiquidation => "loan is in liquidation"@,
            Error::LoanNotInLiquidation => "loan id not in liquidating"@,
            Error::PackageInactive => "package is disabled"@,
            Error::DivisionByZero => "division by zero"@,
            Error::Overflow => "arithmetic overflow"@,
        }
    }

    /// The text of an error.
    pub fn message(&self) -> (s: &'static str)
        ensures
            s@ == self.text(),
    {
        match self {
            Error::Paused => "module is paused",
            Error::RequireRootOrigin => "bad origin: expected to be a root origin",
            Error::RequireSignedOrigin => "bad origin: expected to be a signed origin",
            Error::InvalidParameter => "invalid parameter",
            Error::BelowMinimumLoan => "not reach min loan amount",
            Error::BelowMinimumCollateral => "not reach min collateral amount",
            Error::PackageNotFound => "invalid package id",
            Error::LoanNotFound => "invalid loan id",
            Error::NotLoanOwner => "not owner of the loan",
            Error::NotLiquidationAccount => "liquidation account only",
            Error::InsufficientBalance => "balance too low to send amount",
            Error::OverLtvLimit => "over LTV limit",
            Error::InsufficientCredit => "short of available credit",
            Error::InterestTooHigh => "interest is too high",
            Error::LoanCapReached => "reach loan limit",
            Error::LoanInLiquidation => "loan is in liquidation",
            Error::LoanNotInLiquidation => "loan id not in liquidating",
            Error::PackageInactive => "package is disabled",
            Error::DivisionByZero => "division by zero",
            Error::Overflow => "arithmetic overflow",
        }
    }
}

} // verus!
