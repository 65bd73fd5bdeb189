use vstd::prelude::*;

verus! {

/// A real number held as the 64 bits of its IEEE 754 double-precision encoding.
///
/// The library never computes with such a number: it stores it, copies it and
/// hands it back, so that nothing is lost between the two ends. Two of them
/// are equal when their bits are.
#[derive(Debug, Clone, Copy, PartialEq, Eq, Structural)]
pub struct Binary64 {
    pub bits: u64,
}

impl Binary64 {
    /// Wraps an encoded number.
    pub fn from_bits(bits: u64) -> (number: Binary64)
        ensures
            number.bits == bits,
    {
        Binary64 { bits }
    }

    /// The encoded number.
    pub fn to_bits(&self) -> (bits: u64)
        ensures
            bits == self.bits,
    {
        self.bits
    }
}

} // verus!
