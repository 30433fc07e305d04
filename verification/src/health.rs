//! The health of one loan at one moment, and what a scan makes of it.
use vstd::prelude::*;
use crate::engine::Params;
use crate::error::Error;
use crate::loan::{ltv_of, Event, Loan, LoanHealth};
use crate::package::LoanPackage;
use crate::primitives::{Balance, Moment, Price, LTV};

verus! {

/// What a scan makes of one loan.
#[derive(Clone, Copy, Debug, PartialEq, Eq)]
pub struct LoanScan {
    /// The loan as the scan leaves it.
    pub loan: Loan,
    /// Whether the loan joins the liquidating set.
    pub liquidate: bool,
    /// The penalty and interest that the scan charges for this loan.
    pub fee: Balance,
    /// What the scan reports of this loan.
    pub event: Option<Event>,
}

/// The health of a loan at `now`: by its ratio first (liquidation from
/// `liquidation` on, a warning from `warning` on), then by its dates (expired
/// once the grace window has passed, extended once the due date has). There is
/// none where the ratio cannot be computed.
pub open spec fn health_of(loan: Loan, now: Moment, price: Price, liquidation: LTV, warning: LTV) -> Result<
    LoanHealth,
    Error,
> {
    match ltv_of(loan.collateral_balance_available, loan.loan_balance_total, price) {
        Err(e) => Err(e),
        Ok(ltv) => Ok(
            if ltv >= liquidation {
                LoanHealth::Liquidating(ltv)
            } else if ltv >= warning {
                LoanHealth::Warning(ltv)
            } else if loan.due_extend <= now {
                LoanHealth::Expired
            } else if loan.due <= now {
                LoanHealth::Extended
            } else {
                LoanHealth::Well
            },
        ),
    }
}

/// A loan that the scan passes over.
pub open spec fn untouched(loan: Loan) -> LoanScan {
    LoanScan { loan, liquidate: false, fee: 0, event: None }
}

/// A loan that the scan hands over to liquidation at the ratio `ltv`, having
/// charged `fee`. Its collateral and its dates stay as they were.
pub open spec fn handed_over(loan: Loan, ltv: LTV, fee: Balance) -> LoanScan {
    LoanScan {
        loan: Loan { status: LoanHealth::Liquidating(ltv), ..loan },
        liquidate: true,
        fee,
        event: Some(
            Event::Liquidating(
                loan.id,
                loan.who,
                loan.collateral_balance_available,
                loan.loan_balance_total,
            ),
        ),
    }
}

/// What a scan makes of a loan past its grace window. The fee is the penalty
/// plus the interest for one more duration. With the fee cut from the
/// collateral and the dates counted from `now`, the ratio is taken again: at
/// the liquidation threshold the loan is handed over as it was; at the
/// warning threshold a warning is raised and the loan stays as it was; below
/// both the extended loan is kept. The fee is charged in all three cases.
/// Where a number cannot be computed the loan is passed over.
pub open spec fn expiry_of(params: Params, loan: Loan, package: LoanPackage, now: Moment) -> LoanScan {
    match (
        loan.penalty(params.penalty_rate),
        loan.extension_interest(package, params.current_btc_price),
        package.dues(now),
    ) {
        (Ok(penalty), Ok(interest), Ok(_)) => if penalty + interest > u128::MAX {
            untouched(loan)
        } else {
            let fee = (penalty + interest) as Balance;
            let next = loan.extended(package, now, penalty + interest);
            match ltv_of(
                next.collateral_balance_available,
                next.loan_balance_total,
                params.current_btc_price,
            ) {
                Err(_) => untouched(loan),
                Ok(ltv) => if ltv >= params.global_liquidation_threshold {
                    handed_over(loan, ltv, fee)
                } else if ltv >= params.global_warning_threshold {
                    LoanScan {
                        loan,
                        liquidate: false,
                        fee,
                        event: Some(Event::Warning(loan.id, ltv)),
                    }
                } else {
                    LoanScan {
                        loan: next,
                        liquidate: false,
                        fee,
                        event: Some(Event::Expired(loan.id, loan.who)),
                    }
                },
            }
        },
        _ => untouched(loan),
    }
}

/// What a scan at `now` makes of a loan that is not under liquidation.
pub open spec fn scan_of(params: Params, loan: Loan, package: LoanPackage, now: Moment) -> LoanScan {
    match health_of(
        loan,
        now,
        params.current_btc_price,
        params.global_liquidation_threshold,
        params.global_warning_threshold,
    ) {
        Err(_) => untouched(loan),
        Ok(LoanHealth::Well) => untouched(loan),
        Ok(LoanHealth::Warning(ltv)) => LoanScan {
            loan: Loan { status: LoanHealth::Warning(ltv), ..loan },
            liquidate: false,
            fee: 0,
            event: Some(Event::Warning(loan.id, ltv)),
        },
        Ok(LoanHealth::Extended) => LoanScan {
            loan: Loan { status: LoanHealth::Extended, ..loan },
            liquidate: false,
            fee: 0,
            event: Some(Event::Extended(loan.id, loan.who)),
        },
        Ok(LoanHealth::Liquidating(ltv)) => handed_over(loan, ltv, 0),
        Ok(LoanHealth::Expired) => expiry_of(params, loan, package, now),
    }
}

/// A scan keeps what identifies a loan and what it owes, and never adds
/// collateral.
pub proof fn lemma_scan_of_keeps(params: Params, loan: Loan, package: LoanPackage, now: Moment)
    ensures
        scan_of(params, loan, package, now).loan.id == loan.id,
        scan_of(params, loan, package, now).loan.who == loan.who,
        scan_of(params, loan, package, now).loan.package_id == loan.package_id,
        scan_of(params, loan, package, now).loan.loan_balance_total == loan.loan_balance_total,
        scan_of(params, loan, package, now).loan.collateral_balance_original
            == loan.collateral_balance_original,
        scan_of(params, loan, package, now).loan.collateral_balance_available
            <= loan.collateral_balance_available,
{
}

/// The health of a loan at `now`.
pub fn check_loan_health(loan: &Loan, now: Moment, btc_price: Price, liquidation: LTV, warning: LTV) -> (r:
    Result<LoanHealth, Error>)
    ensures
        r == health_of(*loan, now, btc_price, liquidation, warning),
{
    let current_ltv = Loan::get_ltv(
        loan.collateral_balance_available,
        loan.loan_balance_total,
        btc_price,
    )?;
    if current_ltv >= liquidation {
        return Ok(LoanHealth::Liquidating(current_ltv));
    }
    if current_ltv >= warning {
        return Ok(LoanHealth::Warning(current_ltv));
    }
    if loan.due_extend <= now {
        return Ok(LoanHealth::Expired);
    }
    if loan.due <= now {
        return Ok(LoanHealth::Extended);
    }
    Ok(LoanHealth::Well)
}

/// A loan handed over to liquidation.
fn hand_over(loan: &Loan, ltv: LTV, fee: Balance) -> (r: LoanScan)
    ensures
        r == handed_over(*loan, ltv, fee),
{
    let mut flagged = *loan;
    flagged.status = LoanHealth::Liquidating(ltv);
    LoanScan {
        loan: flagged,
        liquidate: true,
        fee,
        event: Some(
            Event::Liquidating(
                loan.id,
                loan.who,
                loan.collateral_balance_available,
                loan.loan_balance_total,
            ),
        ),
    }
}

/// What a scan makes of a loan past its grace window.
pub fn expire_loan(params: &Params, loan: &Loan, package: &LoanPackage, now: Moment) -> (r: LoanScan)
    ensures
        r == expiry_of(*params, *loan, *package, now),
{
    let skip = LoanScan { loan: *loan, liquidate: false, fee: 0, event: None };
    let penalty = match loan.expiration_penalty(params.penalty_rate) {
        Ok(p) => p,
        Err(_) => {
            return skip;
        },
    };
    let interest = match loan.expiration_interest(package, params.current_btc_price) {
        Ok(i) => i,
        Err(_) => {
            return skip;
        },
    };
    let mut next = *loan;
    match next.expire_then_extend(package, now, penalty, interest) {
        Ok(()) => {},
        Err(_) => {
            return skip;
        },
    }
    let fee = match penalty.checked_add(interest) {
        Some(f) => f,
        None => {
            return skip;
        },
    };
    let ltv = match Loan::get_ltv(
        next.collateral_balance_available,
        next.loan_balance_total,
        params.current_btc_price,
    ) {
        Ok(l) => l,
        Err(_) => {
            return skip;
        },
    };
    if ltv >= params.global_liquidation_threshold {
        hand_over(loan, ltv, fee)
    } else if ltv >= params.global_warning_threshold {
        LoanScan { loan: *loan, liquidate: false, fee, event: Some(Event::Warning(loan.id, ltv)) }
    } else {
        LoanScan {
            loan: next,
            liquidate: false,
            fee,
            event: Some(Event::Expired(loan.id, loan.who)),
        }
    }
}

/// What a scan at `now` makes of a loan that is not under liquidation.
pub fn scan_loan(params: &Params, loan: &Loan, package: &LoanPackage, now: Moment) -> (r: LoanScan)
    ensures
        r == scan_of(*params, *loan, *package, now),
{
    let health = check_loan_health(
        loan,
        now,
        params.current_btc_price,
        params.global_liquidation_threshold,
        params.global_warning_threshold,
    );
    match health {
        Err(_) => LoanScan { loan: *loan, liquidate: false, fee: 0, event: None },
        Ok(LoanHealth::Well) => LoanScan { loan: *loan, liquidate: false, fee: 0, event: None },
        Ok(LoanHealth::Warning(ltv)) => {
            let mut warned = *loan;
            warned.status = LoanHealth::Warning(ltv);
            LoanScan {
                loan: warned,
                liquidate: false,
                fee: 0,
                event: Some(Event::Warning(loan.id, ltv)),
            }
        },
        Ok(LoanHealth::Extended) => {
            let mut late = *loan;
            late.status = LoanHealth::Extended;
            LoanScan {
                loan: late,
                liquidate: false,
                fee: 0,
                event: Some(Event::Extended(loan.id, loan.who)),
            }
        },
        Ok(LoanHealth::Liquidating(ltv)) => hand_over(loan, ltv, 0),
        Ok(LoanHealth::Expired) => expire_loan(params, loan, package, now),
    }
}

} // verus!
