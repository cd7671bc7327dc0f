//! Structured failures reported by checked operations.

use vstd::prelude::*;

verus! {

/// A value of an instrument definition that a construction check reads.
#[derive(Clone, Copy, Debug, PartialEq, Eq, Structural, Hash)]
pub enum Field {
    /// The declared number of decimal places of prices.
    PricePrecision,
    /// The number of decimal places carried by the price increment.
    PriceIncrementPrecision,
    /// The declared number of decimal places of sizes.
    SizePrecision,
    /// The number of decimal places carried by the size increment.
    SizeIncrementPrecision,
    /// The fixed-point value of the price increment.
    PriceIncrementRaw,
    /// The fixed-point value of the size increment.
    SizeIncrementRaw,
}

impl Field {
    /// The name of the field as it is written in an instrument definition.
    pub open spec fn spec_name(self) -> Seq<char> {
        match self {
            Field::PricePrecision => "price_precision"@,
            Field::PriceIncrementPrecision => "price_increment.precision"@,
            Field::SizePrecision => "size_precision"@,
            Field::SizeIncrementPrecision => "size_increment.precision"@,
            Field::PriceIncrementRaw => "price_increment.raw"@,
            Field::SizeIncrementRaw => "size_increment.raw"@,
        }
    }

    /// The name of the field as it is written in an instrument definition.
    pub fn name(&self) -> (r: &'static str)
        ensures
            r@ == self.spec_name(),
    {
        match self {
            Field::PricePrecision => "price_precision",
            Field::PriceIncrementPrecision => "price_increment.precision",
            Field::SizePrecision => "size_precision",
            Field::SizeIncrementPrecision => "size_increment.precision",
            Field::PriceIncrementRaw => "price_increment.raw",
            Field::SizeIncrementRaw => "size_increment.raw",
        }
    }
}

/// Why an instrument definition was rejected.
#[derive(Clone, Copy, Debug, PartialEq, Eq, Structural, Hash)]
pub enum InstrumentError {
    /// A declared precision disagrees with the precision that an increment
    /// carries.
    PrecisionMismatch { field_a: Field, field_b: Field },
    /// A price or size increment is zero or negative.
    NonPositiveIncrement { field: Field },
}

/// Why an operation on timestamps was rejected.
#[derive(Clone, Copy, Debug, PartialEq, Eq, Structural, Hash)]
pub enum TimestampError {
    /// A subtraction would give a time before the epoch.
    TimestampUnderflow,
}

} // verus!
