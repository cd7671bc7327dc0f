//! Checks on single values that constructors compose.

use crate::error::{Field, InstrumentError};
use vstd::prelude::*;

verus! {

/// Checks that two precisions agree; `lhs_field` and `rhs_field` say where
/// they were read.
pub fn check_equal_u8(lhs: u8, rhs: u8, lhs_field: Field, rhs_field: Field) -> (r: Result<
    (),
    InstrumentError,
>)
    ensures
        lhs == rhs ==> r == Ok::<(), InstrumentError>(()),
        lhs != rhs ==> r == Err::<(), InstrumentError>(
            InstrumentError::PrecisionMismatch { field_a: lhs_field, field_b: rhs_field },
        ),
{
    if lhs == rhs {
        Ok(())
    } else {
        Err(InstrumentError::PrecisionMismatch { field_a: lhs_field, field_b: rhs_field })
    }
}

/// Checks that a signed value read from `field` is strictly above zero.
pub fn check_positive_i64(value: i64, field: Field) -> (r: Result<(), InstrumentError>)
    ensures
        value > 0 ==> r == Ok::<(), InstrumentError>(()),
        value <= 0 ==> r == Err::<(), InstrumentError>(
            InstrumentError::NonPositiveIncrement { field },
        ),
{
    if value > 0 {
        Ok(())
    } else {
        Err(InstrumentError::NonPositiveIncrement { field })
    }
}

/// Checks that an unsigned value read from `field` is strictly above zero.
pub fn check_positive_u64(value: u64, field: Field) -> (r: Result<(), InstrumentError>)
    ensures
        value > 0 ==> r == Ok::<(), InstrumentError>(()),
        value == 0 ==> r == Err::<(), InstrumentError>(
            InstrumentError::NonPositiveIncrement { field },
        ),
{
    if value > 0 {
        Ok(())
    } else {
        Err(InstrumentError::NonPositiveIncrement { field })
    }
}

} // verus!
