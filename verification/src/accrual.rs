//! The periods over which cumulative interest accrues, and the compounding
//! count with which each of them enters the sum.

use vstd::prelude::*;
use crate::payment::{
    future_value_case, payment_case, payment_formula, FutureValueFormula, PaymentFormula,
};
use crate::rate::{Rate, RateSign};

verus! {

/// The arguments for which cumulative interest is the zero sentinel: a rate
/// that is zero or below, no periods, no positive present value, or a range
/// that does not run upwards from period one or later. An unordered rate is
/// not among them.
pub open spec fn accrual_rejected(
    sign: RateSign,
    nper: int,
    pv: int,
    start: int,
    end: int,
) -> bool {
    ||| sign is Negative
    ||| sign is Zero
    ||| nper <= 0
    ||| pv <= 0
    ||| start < 1
    ||| end < 1
    ||| start > end
}

/// Whether the sum starts from the negated present value in place of a term
/// for period one: so it does for payments at the end of a period, when the
/// range begins with the first.
pub open spec fn seeds_first_period(start: int, due: bool) -> bool {
    start == 1 && !due
}

/// The first period that enters the sum as a term of its own.
pub open spec fn first_accrued(start: int, due: bool) -> int {
    if seeds_first_period(start, due) {
        start + 1
    } else {
        start
    }
}

/// The number of periods over which the balance is compounded for the term of
/// `period`: one fewer than the period for payments at its end, two fewer for
/// payments at its start.
pub open spec fn compounding_count(period: int, due: bool) -> int {
    if due {
        period - 2
    } else {
        period - 1
    }
}

/// The compounding counts of the terms of the sum over `start ..= end`, in the
/// order in which they are added: one for each period from the first accrued
/// up to `end`.
pub open spec fn accrual_counts(start: int, end: int, due: bool) -> Seq<int> {
    let first = first_accrued(start, due);
    let terms = if first <= end {
        (end - first + 1) as nat
    } else {
        0
    };
    Seq::new(terms, |k: int| compounding_count(first + k, due))
}

/// What an [`Accrual`] stands for.
pub ghost struct AccrualView {
    /// Whether the sum starts from the negated present value.
    pub seeded: bool,
    /// Whether payments fall at the start of each period.
    pub due: bool,
    /// The formula of the payment with which every balance is computed.
    pub payment: PaymentFormula,
    /// The compounding counts of the terms still to be added, next one first.
    pub pending: Seq<int>,
}

/// A cumulative interest sum in progress: how it starts, and which terms are
/// still to be added. The caller adds one balance per call of `advance`, and
/// scales the finished sum by the rate.
#[derive(Debug)]
pub struct Accrual {
    seeded: bool,
    due: bool,
    payment: PaymentFormula,
    next: i64,
    last: i64,
    exhausted: bool,
}

impl View for Accrual {
    type V = AccrualView;

    closed spec fn view(&self) -> AccrualView {
        AccrualView {
            seeded: self.seeded,
            due: self.due,
            payment: self.payment,
            pending: if self.exhausted || self.next > self.last {
                Seq::empty()
            } else {
                Seq::new((self.last - self.next + 1) as nat, |k: int| self.next + k)
            },
        }
    }
}

impl Accrual {
    /// Plans the sum of interest over the periods `start ..= end` of a loan of
    /// `pv` over `nper` periods at `rate`. There is no plan exactly for the
    /// arguments whose cumulative interest is zero by convention.
    pub fn plan(
        rate: Rate,
        nper: i64,
        pv: i64,
        start: i64,
        end: i64,
        due: bool,
    ) -> (plan: Option<Accrual>)
        ensures
            plan is None <==> accrual_rejected(
                rate.sign(),
                nper as int,
                pv as int,
                start as int,
                end as int,
            ),
            plan is None <==> (rate.sign() is Negative || rate.sign() is Zero || nper <= 0
                || pv <= 0 || start < 1 || end < 1 || start > end),
            plan matches Some(accrual) ==> accrual@ == (AccrualView {
                seeded: seeds_first_period(start as int, due),
                due,
                payment: payment_case(rate.sign(), nper as int, due),
                pending: accrual_counts(start as int, end as int, due),
            }),
    {
        match rate.sign() {
            RateSign::Negative | RateSign::Zero => {
                return None;
            },
            _ => {},
        }
        if nper <= 0 || pv <= 0 {
            return None;
        }
        if start < 1 || end < 1 || start > end {
            return None;
        }
        let seeded = start == 1 && !due;
        let first: i64 = if seeded {
            2
        } else {
            start
        };
        let shift: i64 = if due {
            2
        } else {
            1
        };
        let accrual = Accrual {
            seeded,
            due,
            payment: payment_formula(rate, nper, due),
            next: first - shift,
            last: end - shift,
            exhausted: first > end,
        };
        assert(accrual@.pending =~= accrual_counts(start as int, end as int, due));
        Some(accrual)
    }

    /// Whether the sum starts from the negated present value.
    pub fn is_seeded(&self) -> (seeded: bool)
        ensures
            seeded == self@.seeded,
    {
        self.seeded
    }

    /// Whether payments fall at the start of each period.
    pub fn is_due(&self) -> (due: bool)
        ensures
            due == self@.due,
    {
        self.due
    }

    /// The formula of the payment with which every balance is computed: the
    /// one for the whole term and the timing of the plan.
    pub fn payment(&self) -> (payment: PaymentFormula)
        ensures
            payment == self@.payment,
    {
        self.payment
    }

    /// Hands out the compounding count of the next term and moves past it, or
    /// reports that the sum is complete and leaves it as it is.
    pub fn advance(&mut self) -> (count: Option<i64>)
        ensures
            old(self)@.pending.len() == 0 ==> count is None && *final(self) == *old(self),
            old(self)@.pending.len() > 0 ==> (count matches Some(c)
                && c == old(self)@.pending.first()),
            old(self)@.pending.len() > 0 ==> final(self)@ == (AccrualView {
                pending: old(self)@.pending.drop_first(),
                ..old(self)@
            }),
    {
        if self.exhausted || self.next > self.last {
            return None;
        }
        let count: i64 = self.next;
        if self.next < self.last {
            self.next = self.next + 1;
        } else {
            self.exhausted = true;
        }
        assert(final(self)@.pending =~= old(self)@.pending.drop_first());
        Some(count)
    }
}

/// Where there is a plan, neither the payment nor any balance of the sum
/// falls back on a degenerate form: the payment compounds over the term, with
/// the timing of the plan, and each balance compounds with that timing too.
pub proof fn lemma_planned_sum_compounds(
    sign: RateSign,
    nper: int,
    pv: int,
    start: int,
    end: int,
    due: bool,
)
    requires
        !accrual_rejected(sign, nper, pv, start, end),
    ensures
        payment_case(sign, nper, due) == (PaymentFormula::Compound { discounted: due }),
        future_value_case(sign, due) == if due {
            FutureValueFormula::Due
        } else {
            FutureValueFormula::Ordinary
        },
{
}

/// Every period of the range enters the sum exactly once: through the seed,
/// if it is the seeded first period, and through a term of its own otherwise.
pub proof fn lemma_each_period_accrues_once(start: int, end: int, due: bool)
    requires
        1 <= start <= end,
    ensures
        accrual_counts(start, end, due).len() + (if seeds_first_period(start, due) {
            1int
        } else {
            0int
        }) == end - start + 1,
{
}

/// The term of an accrued period carries that period's compounding count.
/// The count stays below the period, and is negative for one term only: that
/// of the first period when payments fall at the start.
pub proof fn lemma_term_of_period(start: int, end: int, due: bool, period: int)
    requires
        1 <= start <= end,
        first_accrued(start, due) <= period <= end,
    ensures
        accrual_counts(start, end, due)[period - first_accrued(start, due)] == compounding_count(
            period,
            due,
        ),
        -1 <= compounding_count(period, due) < period,
        compounding_count(period, due) < 0 <==> due && period == 1,
{
}

} // verus!
