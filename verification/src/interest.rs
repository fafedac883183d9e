//! The interest and principal parts of the payment of one period.

use vstd::prelude::*;
use crate::payment::{payment_case, payment_formula, PaymentFormula};
use crate::rate::{Rate, RateSign};

verus! {

/// How the growth factor of the periods already elapsed is computed.
#[derive(Clone, Copy, Debug, PartialEq, Eq, Structural)]
pub enum Growth {
    /// One plus the rate, raised to the number of elapsed periods.
    DirectPower,
    /// The exponential of the number of elapsed periods times the logarithm
    /// of one plus the rate.
    LogExp,
}

/// The closed form of the interest part of one period's payment.
#[derive(Clone, Copy, Debug, PartialEq, Eq, Structural)]
pub enum InterestFormula {
    /// The arguments are out of the domain: the result is zero.
    Nil,
    /// The negated sum of the interest on the grown present value and of the
    /// accrual of the payments made so far.
    Compound {
        /// The formula of the payment that accrues. It is the one for
        /// payments at the end of a period, whatever the timing asked for.
        payment: PaymentFormula,
        /// The form of the growth factor that multiplies the present value.
        /// The accrual factor of the payments is always log-exponential.
        growth: Growth,
        /// The number of periods before this one.
        elapsed: i128,
        /// Whether the sum is divided by one plus the rate at the end, as it
        /// is for payments at the start of a period.
        discounted: bool,
    },
}

/// The closed form of the principal part of one period's payment.
#[derive(Clone, Copy, Debug, PartialEq, Eq, Structural)]
pub enum PrincipalFormula {
    /// The period lies outside the term: the result is zero.
    Nil,
    /// The payment less its interest part.
    Difference { payment: PaymentFormula, interest: InterestFormula },
}

/// The growth form for a rate: a direct power once its absolute value exceeds
/// one half, log-exponential up to there and for an unordered rate.
pub open spec fn growth_case(exceeds_half: bool) -> Growth {
    if exceeds_half {
        Growth::DirectPower
    } else {
        Growth::LogExp
    }
}

/// The interest formula for period `per` of `nper`. A term without periods,
/// period zero and a negative rate are out of the domain; a zero rate is not.
/// The timing flag decides the final discount and nothing else.
pub open spec fn interest_case(
    sign: RateSign,
    exceeds_half: bool,
    per: i64,
    nper: i64,
    due: bool,
) -> InterestFormula {
    if nper == 0 || per == 0 || sign is Negative {
        InterestFormula::Nil
    } else {
        InterestFormula::Compound {
            payment: payment_case(sign, nper as int, false),
            growth: growth_case(exceeds_half),
            elapsed: (per - 1) as i128,
            discounted: due,
        }
    }
}

/// Whether period `per` lies within a term of `nper` periods, counted from one.
pub open spec fn in_term(per: int, nper: int) -> bool {
    1 <= per <= nper
}

/// The principal formula for period `per` of `nper`: nothing outside the
/// term, and inside it the difference of the payment and the interest part
/// that the same arguments select.
pub open spec fn principal_case(
    sign: RateSign,
    exceeds_half: bool,
    per: i64,
    nper: i64,
    due: bool,
) -> PrincipalFormula {
    if in_term(per as int, nper as int) {
        PrincipalFormula::Difference {
            payment: payment_case(sign, nper as int, due),
            interest: interest_case(sign, exceeds_half, per, nper, due),
        }
    } else {
        PrincipalFormula::Nil
    }
}

/// Chooses the formula for the interest part of the payment of period `per`,
/// out of `nper` periods at `rate`, paid at the start of the period when `due`.
pub fn interest_formula(rate: Rate, per: i64, nper: i64, due: bool) -> (formula: InterestFormula)
    ensures
        formula == interest_case(rate.sign(), rate.exceeds_half(), per, nper, due),
        formula is Nil <==> nper == 0 || per == 0 || rate.sign() is Negative,
        formula matches InterestFormula::Compound { elapsed, .. } ==> elapsed == per - 1,
{
    if nper == 0 || per == 0 {
        return InterestFormula::Nil;
    }
    match rate.sign() {
        RateSign::Negative => InterestFormula::Nil,
        _ => {
            let growth = if rate.exceeds_half() {
                Growth::DirectPower
            } else {
                Growth::LogExp
            };
            let elapsed: i128 = per as i128 - 1;
            InterestFormula::Compound {
                payment: payment_formula(rate, nper, false),
                growth,
                elapsed,
                discounted: due,
            }
        },
    }
}

/// Whether period `per` lies within a term of `nper` periods.
pub fn period_in_term(per: i64, nper: i64) -> (inside: bool)
    ensures
        inside == in_term(per as int, nper as int),
        !inside <==> per < 1 || per > nper,
{
    !(per < 1 || per > nper)
}

/// Chooses the formula for the principal part of the payment of period `per`,
/// out of `nper` periods at `rate`, paid at the start of the period when `due`.
pub fn principal_formula(rate: Rate, per: i64, nper: i64, due: bool) -> (formula:
    PrincipalFormula)
    ensures
        formula == principal_case(rate.sign(), rate.exceeds_half(), per, nper, due),
        formula is Nil <==> per < 1 || per > nper,
{
    if period_in_term(per, nper) {
        PrincipalFormula::Difference {
            payment: payment_formula(rate, nper, due),
            interest: interest_formula(rate, per, nper, due),
        }
    } else {
        PrincipalFormula::Nil
    }
}

/// Within the term, the principal part is the difference of exactly the
/// payment and the interest part that the same arguments select on their own.
/// The payment is then never the zero of an empty term, the interest part is
/// out of the domain only through a negative rate, and the periods elapsed
/// before this one are fewer than the term has.
pub proof fn lemma_principal_within_term(
    sign: RateSign,
    exceeds_half: bool,
    per: i64,
    nper: i64,
    due: bool,
)
    requires
        in_term(per as int, nper as int),
    ensures
        principal_case(sign, exceeds_half, per, nper, due) == (PrincipalFormula::Difference {
            payment: payment_case(sign, nper as int, due),
            interest: interest_case(sign, exceeds_half, per, nper, due),
        }),
        !(payment_case(sign, nper as int, due) is Nil),
        interest_case(sign, exceeds_half, per, nper, due) is Nil <==> sign is Negative,
        interest_case(sign, exceeds_half, per, nper, due) matches InterestFormula::Compound {
            elapsed,
            ..
        } ==> 0 <= elapsed < nper,
{
}

/// The timing of the payments changes only the final discount of the
/// interest part: whether it is out of the domain, the payment that accrues
/// in it, the growth form and the periods elapsed are the same for both, and
/// the payment that accrues is the one for payments at the end of a period.
pub proof fn lemma_timing_only_discounts_interest(
    sign: RateSign,
    exceeds_half: bool,
    per: i64,
    nper: i64,
)
    ensures
        interest_case(sign, exceeds_half, per, nper, true) is Nil <==> interest_case(
            sign,
            exceeds_half,
            per,
            nper,
            false,
        ) is Nil,
        interest_case(sign, exceeds_half, per, nper, true) matches InterestFormula::Compound {
            payment,
            growth,
            elapsed,
            discounted,
        } ==> discounted && payment == payment_case(sign, nper as int, false) && interest_case(
            sign,
            exceeds_half,
            per,
            nper,
            false,
        ) == (InterestFormula::Compound { payment, growth, elapsed, discounted: false }),
{
}

} // verus!
