//! Single-precision numbers, carried by their bit patterns.

use vstd::prelude::*;

verus! {

/// An IEEE 754 single-precision number, held as its 32 bits. The library
/// stores and hands on such numbers (a point size, a coordinate on a
/// variation axis) and never computes with them. Two values are equal when
/// their bits are.
#[derive(Debug, Copy, Clone, PartialEq, Eq, Structural, Hash)]
pub struct Float {
    /// The bits of the number.
    pub bits: u32,
}

impl Float {
    /// The number with the given bits.
    pub fn from_bits(bits: u32) -> (number: Self)
        ensures
            number.bits == bits,
    {
        Float { bits }
    }

    /// The bits of the number.
    pub fn to_bits(&self) -> (bits: u32)
        ensures
            bits == self.bits,
    {
        self.bits
    }

    /// Positive zero.
    pub fn zero() -> (number: Self)
        ensures
            number.bits == 0,
    {
        Float { bits: 0 }
    }
}

} // verus!
