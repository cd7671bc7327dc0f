//! Value types of a trading platform: nanosecond timestamps and validated
//! instrument definitions.

pub mod correctness;
pub mod enums;
pub mod error;
pub mod identifiers;
pub mod instruments;
pub mod nanos;
pub mod types;
