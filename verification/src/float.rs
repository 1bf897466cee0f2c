use vstd::prelude::*;

verus! {

/// A single-precision IEEE 754 number, carried by its bit pattern.
///
/// The library never computes with such a number: it passes it through from
/// the wire to the catalog. Two values are equal when their bit patterns are,
/// so a NaN equals itself and the two zeros differ.
#[derive(Clone, Copy, Debug, PartialEq, Eq, Hash, Structural)]
pub struct Float32 {
    pub bits: u32,
}

impl Float32 {
    /// Positive zero, which is also the value of a field the wire left out.
    pub open spec fn zero() -> Float32 {
        Float32 { bits: 0 }
    }

    /// The number with the given bit pattern.
    pub fn from_bits(bits: u32) -> (r: Float32)
        ensures
            r.bits == bits,
    {
        Float32 { bits }
    }

    /// The bit pattern of this number.
    pub fn to_bits(self) -> (bits: u32)
        ensures
            bits == self.bits,
    {
        self.bits
    }
}

impl Default for Float32 {
    fn default() -> (r: Float32)
        ensures
            r == Float32::zero(),
    {
        Float32 { bits: 0 }
    }
}

} // verus!
