//! Floating-point values, carried by their bit patterns.
use vstd::prelude::*;

verus! {

/// A double-precision value, held as its IEEE 754 bit pattern.
#[derive(Debug, Clone, Copy, PartialEq, Eq, Structural)]
pub struct Double {
    pub bits: u64,
}

/// A single-precision value, held as its IEEE 754 bit pattern.
#[derive(Debug, Clone, Copy, PartialEq, Eq, Structural)]
pub struct Single {
    pub bits: u32,
}

impl Double {
    /// Positive zero.
    pub open spec fn nought() -> Double {
        Double { bits: 0 }
    }

    /// Whether the value is a finite number above zero: the sign bit is clear,
    /// the exponent is not all ones, and not every bit is clear.
    pub open spec fn finite_positive(self) -> bool {
        0 < self.bits < 0x7FF0_0000_0000_0000
    }

    /// One.
    pub open spec fn unit() -> Double {
        Double { bits: 0x3FF0_0000_0000_0000 }
    }

    /// Whether the value is zero, of either sign.
    pub open spec fn zero_of_either_sign(self) -> bool {
        self.bits == 0 || self.bits == 0x8000_0000_0000_0000
    }

    /// One.
    pub fn one() -> (d: Double)
        ensures
            d == Double::unit(),
    {
        Double { bits: 0x3FF0_0000_0000_0000 }
    }

    /// Whether the value is zero, of either sign.
    pub fn is_zero(&self) -> (r: bool)
        ensures
            r == self.zero_of_either_sign(),
    {
        self.bits == 0 || self.bits == 0x8000_0000_0000_0000
    }

    /// The value with the given bit pattern.
    pub fn from_bits(bits: u64) -> (d: Double)
        ensures
            d.bits == bits,
    {
        Double { bits }
    }

    /// Positive zero.
    pub fn zero() -> (d: Double)
        ensures
            d == Double::nought(),
    {
        Double { bits: 0 }
    }

    /// Whether the value is a finite number above zero.
    pub fn is_finite_positive(&self) -> (r: bool)
        ensures
            r == self.finite_positive(),
    {
        0 < self.bits && self.bits < 0x7FF0_0000_0000_0000
    }
}

} // verus!
