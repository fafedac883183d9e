//! Which closed form gives the periodic payment, and which the future value.

use vstd::prelude::*;
use crate::rate::{Rate, RateSign};

verus! {

/// The closed form of the periodic payment that amortises a present value
/// to a future value.
#[derive(Clone, Copy, Debug, PartialEq, Eq, Structural)]
pub enum PaymentFormula {
    /// No periods, so no payment: the result is zero.
    Nil,
    /// No compounding: the negated sum of present and future value, spread
    /// evenly over the periods.
    Linear,
    /// The annuity formula over the growth factor of the whole term. When
    /// `discounted`, the payment falls at the start of each period and the
    /// result is divided once more by one plus the rate.
    Compound { discounted: bool },
}

/// The closed form of the future value of a present value and a stream of
/// equal payments.
#[derive(Clone, Copy, Debug, PartialEq, Eq, Structural)]
pub enum FutureValueFormula {
    /// No compounding: the negated sum of the present value and all payments.
    Linear,
    /// Compounding, with payments at the end of each period.
    Ordinary,
    /// Compounding, with payments at the start of each period: each payment
    /// grows for one period more.
    Due,
}

/// The payment formula for a rate sign, a number of periods and a timing flag.
/// The test for zero periods comes first, the test for a zero rate second;
/// the timing flag matters only once both have failed.
pub open spec fn payment_case(sign: RateSign, nper: int, due: bool) -> PaymentFormula {
    if nper == 0 {
        PaymentFormula::Nil
    } else if sign is Zero {
        PaymentFormula::Linear
    } else {
        PaymentFormula::Compound { discounted: due }
    }
}

/// The future value formula for a rate sign and a timing flag. Only a zero
/// rate is linear; a negative or unordered rate compounds like a positive one.
pub open spec fn future_value_case(sign: RateSign, due: bool) -> FutureValueFormula {
    if sign is Zero {
        FutureValueFormula::Linear
    } else if due {
        FutureValueFormula::Due
    } else {
        FutureValueFormula::Ordinary
    }
}

/// Chooses the formula for the periodic payment over `nper` periods at `rate`,
/// paid at the start of each period when `due` and at its end otherwise.
pub fn payment_formula(rate: Rate, nper: i64, due: bool) -> (formula: PaymentFormula)
    ensures
        formula == payment_case(rate.sign(), nper as int, due),
        nper == 0 ==> formula is Nil,
        nper != 0 && rate.sign() is Zero ==> formula is Linear,
{
    if nper == 0 {
        PaymentFormula::Nil
    } else {
        match rate.sign() {
            RateSign::Zero => PaymentFormula::Linear,
            _ => PaymentFormula::Compound { discounted: due },
        }
    }
}

/// Chooses the formula for the future value at `rate`, with payments at the
/// start of each period when `due` and at its end otherwise.
pub fn future_value_formula(rate: Rate, due: bool) -> (formula: FutureValueFormula)
    ensures
        formula == future_value_case(rate.sign(), due),
{
    match rate.sign() {
        RateSign::Zero => FutureValueFormula::Linear,
        _ => if due {
            FutureValueFormula::Due
        } else {
            FutureValueFormula::Ordinary
        },
    }
}

} // verus!
