//! Signed fixed-point scalars with sixteen fractional bits.

use vstd::prelude::*;

verus! {

/// The number of raw units in one whole unit.
pub const SCALE: i32 = 65536;

/// The cube of [`SCALE`]: the unit of a product of three fixed-point numbers.
pub const SCALE_CUBED: i128 = 0x1_0000_0000_0000;

/// A fixed-point number: `raw` counts units of one part in [`SCALE`], so the
/// number that a value stands for is `raw / SCALE`.
#[derive(Clone, Copy, Debug, PartialEq, Eq, Structural)]
pub struct Fixed {
    pub raw: i32,
}

impl View for Fixed {
    type V = int;

    /// The count of raw units.
    open spec fn view(&self) -> int {
        self.raw as int
    }
}

impl Fixed {
    /// The fixed-point number that stands for the whole number `n`.
    pub fn from_int(n: i16) -> (r: Fixed)
        ensures
            r@ == n * SCALE,
    {
        let wide: i32 = n as i32;
        Fixed { raw: wide * SCALE }
    }
}

} // verus!
