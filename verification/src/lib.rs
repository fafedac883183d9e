//! Case analysis and period scheduling for the spreadsheet annuity functions.
//!
//! The five annuity functions (payment, future value, interest part, principal
//! part, cumulative interest) are evaluated in double precision by the caller.
//! What this crate decides, and proves, is everything about them that is not
//! floating-point arithmetic: which closed form applies to which arguments,
//! which arguments yield the zero sentinel, and which periods a cumulative
//! interest sum runs over, with which compounding count each.
//!
//! A rate enters the crate as the bit pattern of its binary64 encoding, so
//! that its comparisons with zero and with one half are integer facts.

pub mod accrual;
pub mod interest;
pub mod payment;
pub mod rate;
