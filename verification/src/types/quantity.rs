//! Quantities as fixed-point integers with an explicit number of decimal
//! places.

use vstd::prelude::*;

verus! {

/// The number of raw steps that make up one whole unit.
pub const FIXED_SCALAR: u64 = 1_000_000_000;

/// The largest whole number of units a quantity can hold.
pub const QUANTITY_MAX: u64 = 18_446_744_073;

/// A quantity: an unsigned fixed-point integer, counted in steps of
/// `1 / FIXED_SCALAR`, paired with the number of decimal places it is
/// traded in.
#[derive(Clone, Copy, Debug, PartialEq, Eq, Structural, Hash)]
pub struct Quantity {
    /// The fixed-point value.
    pub raw: u64,
    /// The number of decimal places the quantity is traded in.
    pub precision: u8,
}

impl Quantity {
    /// Builds a quantity from its fixed-point value and its decimal places.
    pub fn from_raw(raw: u64, precision: u8) -> (r: Quantity)
        ensures
            r.raw == raw,
            r.precision == precision,
    {
        Quantity { raw, precision }
    }

    /// The quantity of `units` whole units, with no decimal places.
    pub open spec fn spec_from_units(units: u64) -> Quantity {
        (Quantity { raw: (units * FIXED_SCALAR) as u64, precision: 0 })
    }

    /// The quantity of `units` whole units, with no decimal places.
    pub fn from_units(units: u64) -> (r: Quantity)
        requires
            units <= QUANTITY_MAX,
        ensures
            r == Quantity::spec_from_units(units),
            r.raw == units * FIXED_SCALAR,
            r.precision == 0,
    {
        Quantity { raw: units * FIXED_SCALAR, precision: 0 }
    }
}

} // verus!
