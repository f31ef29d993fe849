//! Single-precision quantities carried by their encoding.
//!
//! Positions, radii, time steps and angles pass through this library
//! untouched: it copies them and compares them against zero and one, and
//! never does arithmetic on them. A `Scalar` therefore holds the 32-bit
//! IEEE-754 encoding of the quantity (sign bit, eight exponent bits,
//! twenty-three fraction bits), on which those comparisons are integer tests.

use vstd::prelude::*;

verus! {

/// Encoding of the sign bit alone.
pub const SIGN_BIT: u32 = 0x8000_0000;

/// Encoding of positive infinity; every larger magnitude is not a number.
pub const INFINITY_BITS: u32 = 0x7F80_0000;

/// Encoding of the quantity one.
pub const ONE_BITS: u32 = 0x3F80_0000;

/// Encoding of the quantity minus one.
pub const MINUS_ONE_BITS: u32 = 0xBF80_0000;

/// Encoding of the quantity sixty.
pub const SIXTY_BITS: u32 = 0x4270_0000;

/// A single-precision quantity, held as its 32-bit encoding.
#[derive(Clone, Copy, Debug, PartialEq, Eq)]
pub struct Scalar {
    pub bits: u32,
}

impl Scalar {
    /// The encoding with its sign bit cleared.
    pub open spec fn magnitude(self) -> int {
        if self.bits >= SIGN_BIT {
            self.bits - SIGN_BIT
        } else {
            self.bits as int
        }
    }

    /// The encoding stands for no number at all.
    pub open spec fn is_nan(self) -> bool {
        self.magnitude() > INFINITY_BITS
    }

    /// The quantity is a number strictly below zero.
    pub open spec fn is_negative(self) -> bool {
        self.bits >= SIGN_BIT && 0 < self.magnitude() <= INFINITY_BITS
    }

    /// The quantity is a number strictly above zero.
    pub open spec fn is_positive(self) -> bool {
        self.bits < SIGN_BIT && 0 < self.magnitude() <= INFINITY_BITS
    }

    /// The quantity is a number whose absolute value is strictly below one.
    pub open spec fn is_within_one(self) -> bool {
        self.magnitude() < ONE_BITS
    }

    /// Wraps an encoding.
    pub fn from_bits(bits: u32) -> (r: Scalar)
        ensures
            r.bits == bits,
    {
        Scalar { bits }
    }

    /// The encoding held.
    pub fn to_bits(&self) -> (r: u32)
        ensures
            r == self.bits,
    {
        self.bits
    }

    /// The quantity zero.
    pub fn zero() -> (r: Scalar)
        ensures
            r.bits == 0,
    {
        Scalar { bits: 0 }
    }

    /// The quantity one.
    pub fn one() -> (r: Scalar)
        ensures
            r.bits == ONE_BITS,
    {
        Scalar { bits: ONE_BITS }
    }

    /// The quantity minus one.
    pub fn minus_one() -> (r: Scalar)
        ensures
            r.bits == MINUS_ONE_BITS,
    {
        Scalar { bits: MINUS_ONE_BITS }
    }

    fn magnitude_bits(&self) -> (r: u32)
        ensures
            r == self.magnitude(),
    {
        if self.bits >= SIGN_BIT {
            self.bits - SIGN_BIT
        } else {
            self.bits
        }
    }

    /// Tests whether the quantity is a number strictly below zero.
    pub fn negative(&self) -> (r: bool)
        ensures
            r == self.is_negative(),
    {
        let m: u32 = self.magnitude_bits();
        self.bits >= SIGN_BIT && 0 < m && m <= INFINITY_BITS
    }

    /// Tests whether the quantity is a number strictly above zero.
    pub fn positive(&self) -> (r: bool)
        ensures
            r == self.is_positive(),
    {
        let m: u32 = self.magnitude_bits();
        self.bits < SIGN_BIT && 0 < m && m <= INFINITY_BITS
    }

    /// Tests whether the quantity is a number of absolute value strictly
    /// below one.
    pub fn within_one(&self) -> (r: bool)
        ensures
            r == self.is_within_one(),
    {
        self.magnitude_bits() < ONE_BITS
    }
}

/// No quantity is both below and above zero, and one that is within one of
/// zero is a number.
pub proof fn lemma_scalar_classes(s: Scalar)
    ensures
        !(s.is_negative() && s.is_positive()),
        s.is_within_one() ==> !s.is_nan(),
        s.is_nan() ==> !s.is_negative() && !s.is_positive(),
{
}

} // verus!
