//! The access rights asked for when a key is opened or created.

use vstd::prelude::*;

verus! {

/// The access rights that a caller asks for. The library hands the mask to
/// the operating system as it is and never reads a bit of it.
#[derive(Debug, Copy, Clone, PartialEq, Eq, Structural, Hash)]
pub struct Security {
    pub bits: u32,
}

impl Security {
    /// Wraps an access mask.
    pub fn from_bits(bits: u32) -> (sec: Security)
        ensures
            sec.bits == bits,
    {
        Security { bits }
    }

    /// The access mask.
    pub fn bits(&self) -> (bits: u32)
        ensures
            bits == self.bits,
    {
        self.bits
    }
}

} // verus!
