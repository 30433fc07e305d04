//! Scaled multiplication and division on balances.
//!
//! Every quotient is the floor of the exact ratio. A numerator that does not
//! fit a `u128` is reported as [`Error::Overflow`], a zero denominator as
//! [`Error::DivisionByZero`]; nothing wraps and nothing saturates.
use vstd::prelude::*;
use crate::error::Error;

verus! {

/// The floor of `num / den` as a balance, or the reason why there is none.
/// A zero denominator is reported before a numerator that is too large.
pub open spec fn quotient(num: int, den: int) -> Result<u128, Error> {
    if den == 0 {
        Err(Error::DivisionByZero)
    } else if num > u128::MAX {
        Err(Error::Overflow)
    } else {
        Ok((num / den) as u128)
    }
}

/// A quotient of naturals is no larger than its numerator.
pub proof fn lemma_quotient_bounds(num: int, den: int)
    requires
        0 <= num,
        0 < den,
    ensures
        0 <= num / den <= num,
{
    assert(0 <= num / den <= num) by (nonlinear_arith)
        requires
            0 <= num,
            0 < den,
    ;
}

/// A product of naturals with a positive factor is no smaller than the rest.
pub proof fn lemma_product_grows(x: int, c: int)
    requires
        0 <= x,
        1 <= c,
    ensures
        x <= x * c,
{
    assert(x <= x * c) by (nonlinear_arith)
        requires
            0 <= x,
            1 <= c,
    ;
}

/// `a * b / d`, rounded down.
pub fn mul_div(a: u128, b: u128, d: u128) -> (r: Result<u128, Error>)
    ensures
        r == quotient(a * b, d as int),
{
    if d == 0 {
        return Err(Error::DivisionByZero);
    }
    match a.checked_mul(b) {
        Some(p) => {
            proof {
                lemma_quotient_bounds(p as int, d as int);
            }
            Ok(p / d)
        },
        None => Err(Error::Overflow),
    }
}

/// `a * b * c / d`, rounded down.
pub fn mul3_div(a: u128, b: u128, c: u128, d: u128) -> (r: Result<u128, Error>)
    ensures
        r == quotient(a * b * c, d as int),
{
    if d == 0 {
        return Err(Error::DivisionByZero);
    }
    if c == 0 {
        assert(a * b * c == 0) by (nonlinear_arith)
            requires
                c == 0,
        ;
        return Ok(0);
    }
    match a.checked_mul(b) {
        Some(p) => match p.checked_mul(c) {
            Some(q) => {
                proof {
                    lemma_quotient_bounds(q as int, d as int);
                }
                Ok(q / d)
            },
            None => Err(Error::Overflow),
        },
        None => {
            proof {
                lemma_product_grows(a * b, c as int);
            }
            Err(Error::Overflow)
        },
    }
}

/// `a * b / (d1 * d2)`, rounded down. A denominator beyond `u128` is no
/// overflow: the quotient is then zero.
pub fn mul_div_by_product(a: u128, b: u128, d1: u128, d2: u128) -> (r: Result<u128, Error>)
    ensures
        r == quotient(a * b, d1 * d2),
{
    if d1 == 0 || d2 == 0 {
        assert(d1 * d2 == 0) by (nonlinear_arith)
            requires
                d1 == 0 || d2 == 0,
        ;
        return Err(Error::DivisionByZero);
    }
    assert(d1 * d2 > 0) by (nonlinear_arith)
        requires
            d1 > 0,
            d2 > 0,
    ;
    match a.checked_mul(b) {
        Some(n) => match d1.checked_mul(d2) {
            Some(d) => {
                proof {
                    lemma_quotient_bounds(n as int, d as int);
                }
                Ok(n / d)
            },
            None => {
                assert((n as int) / (d1 * d2) == 0) by (nonlinear_arith)
                    requires
                        0 <= n < d1 * d2,
                ;
                Ok(0)
            },
        },
        None => Err(Error::Overflow),
    }
}

} // verus!
