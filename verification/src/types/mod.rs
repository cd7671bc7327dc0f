//! Fixed-point numeric value types consumed by instrument definitions.

pub mod currency;
pub mod decimal;
pub mod money;
pub mod price;
pub mod quantity;
