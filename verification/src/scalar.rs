//! Single-precision numbers as IEEE 754 bit patterns.

use vstd::prelude::*;

verus! {

/// Mask of the sign bit of a pattern.
pub const SIGN_BIT: u32 = 0x8000_0000;

/// Pattern of positive infinity; every magnitude above it is a NaN.
pub const INFINITY_BITS: u32 = 0x7f80_0000;

/// A single-precision number, held as its 32-bit pattern.
#[derive(Clone, Copy, Debug, PartialEq, Eq, Structural)]
pub struct Scalar {
    pub bits: u32,
}

impl Scalar {
    /// The pattern without its sign bit.
    pub open spec fn magnitude(self) -> u32 {
        if self.bits >= 0x8000_0000 {
            (self.bits - 0x8000_0000) as u32
        } else {
            self.bits
        }
    }

    /// Whether the sign bit is set.
    pub open spec fn sign(self) -> bool {
        self.bits >= 0x8000_0000
    }

    /// Whether the pattern is a NaN.
    pub open spec fn nan(self) -> bool {
        self.magnitude() > 0x7f80_0000
    }

    /// Whether the pattern is one of the two zeros.
    pub open spec fn zero(self) -> bool {
        self.magnitude() == 0
    }

    /// The pattern with the sign bit flipped: the negated number.
    pub open spec fn neg(self) -> Scalar {
        if self.bits >= 0x8000_0000 {
            Scalar { bits: (self.bits - 0x8000_0000) as u32 }
        } else {
            Scalar { bits: (self.bits + 0x8000_0000) as u32 }
        }
    }

    /// Numeric equality: no NaN equals anything, the two zeros are equal,
    /// and every other number equals only its own pattern.
    pub open spec fn same_number(self, other: Scalar) -> bool {
        !self.nan() && !other.nan() && (self.bits == other.bits || (self.zero() && other.zero()))
    }

    /// Whether the number is strictly below zero.
    pub open spec fn below_zero(self) -> bool {
        self.sign() && !self.zero() && !self.nan()
    }

    /// Whether the number is strictly above zero; positive infinity is.
    pub open spec fn above_zero(self) -> bool {
        !self.sign() && !self.zero() && !self.nan()
    }

    /// Whether the number lies between `-bound` and `bound`, both included,
    /// for a `bound` that is a number and not negative.
    pub open spec fn within(self, bound: Scalar) -> bool {
        !self.nan() && self.magnitude() <= bound.magnitude()
    }

    pub fn from_bits(bits: u32) -> (r: Scalar)
        ensures
            r.bits == bits,
    {
        Scalar { bits }
    }

    pub fn to_bits(self) -> (r: u32)
        ensures
            r == self.bits,
    {
        self.bits
    }

    pub fn is_nan(self) -> (r: bool)
        ensures
            r == self.nan(),
    {
        self.abs_bits() > INFINITY_BITS
    }

    /// The pattern with the sign bit cleared.
    pub fn abs_bits(self) -> (r: u32)
        ensures
            r == self.magnitude(),
    {
        let bits: u32 = self.bits;
        assert(bits & 0x7fff_ffff == if bits >= 0x8000_0000 {
            (bits - 0x8000_0000) as u32
        } else {
            bits
        }) by (bit_vector);
        bits & 0x7fff_ffff
    }

    pub fn is_zero(self) -> (r: bool)
        ensures
            r == self.zero(),
    {
        self.bits == 0 || self.bits == SIGN_BIT
    }

    /// Flips the sign bit.
    pub fn negated(self) -> (r: Scalar)
        ensures
            r == self.neg(),
    {
        let bits: u32 = self.bits;
        assert(bits ^ 0x8000_0000 == if bits >= 0x8000_0000 {
            (bits - 0x8000_0000) as u32
        } else {
            (bits + 0x8000_0000) as u32
        }) by (bit_vector);
        Scalar { bits: bits ^ SIGN_BIT }
    }

    /// Compares two numbers as the hardware does.
    pub fn equals(self, other: Scalar) -> (r: bool)
        ensures
            r == self.same_number(other),
    {
        if self.is_nan() || other.is_nan() {
            false
        } else {
            self.bits == other.bits || (self.is_zero() && other.is_zero())
        }
    }

    /// Tests whether the number is strictly negative.
    pub fn is_negative(self) -> (r: bool)
        ensures
            r == self.below_zero(),
    {
        self.bits > SIGN_BIT && !self.is_nan()
    }

    /// Tests whether the number is strictly positive.
    pub fn is_positive(self) -> (r: bool)
        ensures
            r == self.above_zero(),
    {
        0 < self.bits && self.bits <= INFINITY_BITS
    }
}

/// Negating twice gives the pattern back.
pub proof fn lemma_neg_involution(s: Scalar)
    ensures
        s.neg().neg() == s,
{
}

} // verus!
