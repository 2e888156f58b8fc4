//! Exact decimal money amounts.
//!
//! Currency arithmetic must not use binary floating point, so an amount is
//! kept as an integer mantissa together with a decimal scale: the value is
//! `mantissa / 10^scale`.  The representation mirrors a 96-bit decimal with
//! at most 28 fractional digits, which is what the store and the aggregator
//! exchange, so every amount round-trips exactly.

use vstd::prelude::*;

verus! {

/// Largest admissible scale (number of fractional digits).
pub const MAX_SCALE: u32 = 28;

/// An exact decimal amount: `mantissa / 10^scale`.
#[derive(Clone, Copy, Debug, PartialEq, Eq, Structural)]
pub struct Amount {
    pub mantissa: i128,
    pub scale: u32,
}

impl Amount {
    /// A well-formed amount: the mantissa fits in 96 bits and the scale is
    /// at most [`MAX_SCALE`], as in the stored column type.
    pub open spec fn wf(&self) -> bool {
        &&& -0x1000000000000000000000000 < self.mantissa < 0x1000000000000000000000000
        &&& self.scale <= MAX_SCALE
    }

    /// Builds an amount from its raw parts.
    pub fn new(mantissa: i128, scale: u32) -> (r: Amount)
        requires
            -0x1000000000000000000000000 < mantissa < 0x1000000000000000000000000,
            scale <= MAX_SCALE,
        ensures
            r == (Amount { mantissa, scale }),
            r.wf(),
    {
        Amount { mantissa, scale }
    }
}

} // verus!
