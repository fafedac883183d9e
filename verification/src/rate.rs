//! A periodic interest rate, seen through its binary64 encoding.

use vstd::prelude::*;

verus! {

/// How a rate compares with zero.
#[derive(Clone, Copy, Debug, PartialEq, Eq, Structural)]
pub enum RateSign {
    /// Strictly below zero.
    Negative,
    /// Equal to zero, with either sign bit.
    Zero,
    /// Strictly above zero, positive infinity included.
    Positive,
    /// Not a number: neither below, equal to, nor above zero.
    Unordered,
}

/// The sign field of an encoding: its topmost bit.
pub open spec fn sign_field(bits: u64) -> int {
    bits as int / 0x8000_0000_0000_0000
}

/// The biased exponent field of an encoding: the eleven bits below the sign.
pub open spec fn exponent_field(bits: u64) -> int {
    (bits as int / 0x10_0000_0000_0000) % 0x800
}

/// The fraction field of an encoding: its low fifty-two bits.
pub open spec fn fraction_field(bits: u64) -> int {
    bits as int % 0x10_0000_0000_0000
}

/// An encoding with all exponent bits set and a nonzero fraction is not a number.
pub open spec fn encodes_nan(bits: u64) -> bool {
    exponent_field(bits) == 0x7ff && fraction_field(bits) != 0
}

/// An encoding whose exponent and fraction are both zero is a zero.
pub open spec fn encodes_zero(bits: u64) -> bool {
    exponent_field(bits) == 0 && fraction_field(bits) == 0
}

/// The sign of the number that `bits` encodes.
pub open spec fn sign_of_bits(bits: u64) -> RateSign {
    if encodes_nan(bits) {
        RateSign::Unordered
    } else if encodes_zero(bits) {
        RateSign::Zero
    } else if sign_field(bits) == 1 {
        RateSign::Negative
    } else {
        RateSign::Positive
    }
}

/// Whether the absolute value of the number that `bits` encodes is strictly
/// above one half. One half has biased exponent 1022 and fraction zero, and
/// among numbers the magnitude grows with the pair of exponent and fraction.
pub open spec fn bits_exceed_half(bits: u64) -> bool {
    !encodes_nan(bits) && (exponent_field(bits) > 0x3fe || (exponent_field(bits) == 0x3fe
        && fraction_field(bits) > 0))
}

/// Everything but the sign bit.
pub const MAGNITUDE_MASK: u64 = 0x7fff_ffff_ffff_ffff;

/// The magnitude bits of positive infinity; every larger magnitude is not a number.
pub const INFINITY_MAGNITUDE: u64 = 0x7ff0_0000_0000_0000;

/// The magnitude bits of one half.
pub const HALF_MAGNITUDE: u64 = 0x3fe0_0000_0000_0000;

/// The fields of an encoding, read off its magnitude bits.
pub proof fn lemma_magnitude_fields(bits: u64)
    ensures
        encodes_nan(bits) <==> (bits & MAGNITUDE_MASK) > INFINITY_MAGNITUDE,
        encodes_zero(bits) <==> (bits & MAGNITUDE_MASK) == 0,
        sign_field(bits) == 1 <==> (bits & MAGNITUDE_MASK) != bits,
        sign_field(bits) == 0 || sign_field(bits) == 1,
        bits_exceed_half(bits) <==> HALF_MAGNITUDE < (bits & MAGNITUDE_MASK) <= INFINITY_MAGNITUDE,
{
    let m: u64 = bits & 0x7fff_ffff_ffff_ffff;
    let s: u64 = bits / 0x8000_0000_0000_0000;
    let e: u64 = (bits / 0x10_0000_0000_0000) % 0x800;
    let f: u64 = bits % 0x10_0000_0000_0000;
    assert(s == 0 || s == 1) by (bit_vector)
        requires
            s == bits / 0x8000_0000_0000_0000,
    ;
    assert((s == 1) == (m != bits)) by (bit_vector)
        requires
            s == bits / 0x8000_0000_0000_0000,
            m == bits & 0x7fff_ffff_ffff_ffff,
    ;
    assert(m == e * 0x10_0000_0000_0000 + f && e < 0x800 && f < 0x10_0000_0000_0000)
        by (bit_vector)
        requires
            m == bits & 0x7fff_ffff_ffff_ffff,
            e == (bits / 0x10_0000_0000_0000) % 0x800,
            f == bits % 0x10_0000_0000_0000,
    ;
}

/// A periodic interest rate, held as the bit pattern of its binary64 encoding.
#[derive(Clone, Copy, Debug)]
pub struct Rate {
    bits: u64,
}

impl View for Rate {
    type V = u64;

    closed spec fn view(&self) -> u64 {
        self.bits
    }
}

impl Rate {
    /// The rate whose encoding is `bits`.
    pub fn from_bits(bits: u64) -> (rate: Rate)
        ensures
            rate@ == bits,
    {
        Rate { bits }
    }

    /// The encoding of the rate.
    pub fn to_bits(&self) -> (bits: u64)
        ensures
            bits == self@,
    {
        self.bits
    }

    /// How the rate compares with zero.
    pub open spec fn sign_spec(&self) -> RateSign {
        sign_of_bits(self@)
    }

    /// Whether the rate's absolute value is strictly above one half.
    pub open spec fn exceeds_half_spec(&self) -> bool {
        bits_exceed_half(self@)
    }

    /// How the rate compares with zero.
    #[verifier::when_used_as_spec(sign_spec)]
    pub fn sign(&self) -> (s: RateSign)
        ensures
            s == self.sign_spec(),
    {
        proof {
            lemma_magnitude_fields(self.bits);
        }
        let magnitude: u64 = self.bits & MAGNITUDE_MASK;
        if magnitude > INFINITY_MAGNITUDE {
            RateSign::Unordered
        } else if magnitude == 0 {
            RateSign::Zero
        } else if magnitude != self.bits {
            RateSign::Negative
        } else {
            RateSign::Positive
        }
    }

    /// Whether the rate's absolute value is strictly above one half.
    #[verifier::when_used_as_spec(exceeds_half_spec)]
    pub fn exceeds_half(&self) -> (b: bool)
        ensures
            b == self.exceeds_half_spec(),
    {
        proof {
            lemma_magnitude_fields(self.bits);
        }
        let magnitude: u64 = self.bits & MAGNITUDE_MASK;
        HALF_MAGNITUDE < magnitude && magnitude <= INFINITY_MAGNITUDE
    }
}

} // verus!
