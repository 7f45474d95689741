//! Exact fixed-point representation of a monetary amount.
//!
//! Currency fields must preserve exact decimal semantics: no binary
//! floating-point rounding may be introduced anywhere between storage
//! and the caller. A `Money` value is therefore a sign, an integer
//! mantissa and a decimal scale, so that it denotes
//! `(-1)^negative * mantissa / 10^scale` exactly. The bounds mirror a
//! 96-bit-mantissa decimal with at most 28 fractional digits, the
//! widest value the surrounding system exchanges.

use vstd::prelude::*;

verus! {

/// One more than the largest mantissa a `Money` may carry (2^96).
pub const MANTISSA_LIMIT: u128 = 0x1000000000000000000000000;

/// The largest decimal scale a `Money` may carry.
pub const SCALE_LIMIT: u32 = 28;

/// An exact decimal amount: `(-1)^negative * mantissa / 10^scale`.
#[derive(Clone, Copy, Debug, PartialEq, Eq, Structural)]
pub struct Money {
    pub negative: bool,
    pub mantissa: u128,
    pub scale: u32,
}

impl Money {
    /// Well-formedness: the mantissa fits in 96 bits and the scale is
    /// at most 28 fractional digits.
    pub open spec fn wf(self) -> bool {
        self.mantissa < MANTISSA_LIMIT && self.scale <= SCALE_LIMIT
    }

    /// Builds an amount from its parts; `None` exactly when the parts
    /// lie outside the representable range.
    pub fn new(negative: bool, mantissa: u128, scale: u32) -> (r: Option<Money>)
        ensures
            r is Some <==> mantissa < MANTISSA_LIMIT && scale <= SCALE_LIMIT,
            r matches Some(m) ==> m == (Money { negative, mantissa, scale }) && m.wf(),
    {
        if mantissa < MANTISSA_LIMIT && scale <= SCALE_LIMIT {
            Some(Money { negative, mantissa, scale })
        } else {
            None
        }
    }
}

} // verus!
