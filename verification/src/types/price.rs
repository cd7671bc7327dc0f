//! Prices as fixed-point integers with an explicit number of decimal places.

use vstd::prelude::*;

verus! {

/// A price: a signed fixed-point integer paired with the number of decimal
/// places it is quoted in.
#[derive(Clone, Copy, Debug, PartialEq, Eq, Structural, Hash)]
pub struct Price {
    /// The fixed-point value.
    pub raw: i64,
    /// The number of decimal places the price is quoted in.
    pub precision: u8,
}

impl Price {
    /// Builds a price from its fixed-point value and its decimal places.
    pub fn from_raw(raw: i64, precision: u8) -> (r: Price)
        ensures
            r.raw == raw,
            r.precision == precision,
    {
        Price { raw, precision }
    }
}

} // verus!
