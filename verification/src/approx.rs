//! Opaque approximate numbers.
//!
//! Several source columns hold already-aggregated display metrics whose
//! native representation is an IEEE 754 double. The core never computes
//! with such a number: it only carries it from a result row to the
//! caller. It is therefore held here as its raw 64-bit pattern, which
//! the unverified shell produces and consumes; equality of patterns is
//! exact preservation of the stored value.

use vstd::prelude::*;

verus! {

/// The bit pattern of an IEEE 754 double, carried through unchanged.
#[derive(Clone, Copy, Debug, PartialEq, Eq, Structural)]
pub struct ApproxValue {
    pub bits: u64,
}

impl ApproxValue {
    /// Wraps a raw 64-bit pattern.
    pub fn from_bits(bits: u64) -> (r: ApproxValue)
        ensures
            r.bits == bits,
    {
        ApproxValue { bits }
    }
}

} // verus!
