//! Arbitrary-precision decimals for fee rates and margin ratios.

use rust_decimal::Decimal;
use vstd::prelude::*;

verus! {

/// `rust_decimal::Decimal`, a 96-bit decimal with a scale. It is carried
/// as an opaque value, so that fee rates and margin ratios keep their full
/// precision: nothing is claimed of what it holds.
#[verifier::external_type_specification]
#[verifier::external_body]
pub struct ExDecimal(Decimal);

} // verus!
