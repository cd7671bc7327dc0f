//! Currencies in which instruments are denominated.

use crate::enums::CurrencyType;
use ustr::Ustr;
use vstd::prelude::*;

verus! {

/// A currency: its code and name as interned strings, its decimal places,
/// its ISO 4217 number and its kind.
#[derive(Clone, Copy, Debug, Hash)]
pub struct Currency {
    pub code: Ustr,
    pub precision: u8,
    pub iso4217: u16,
    pub name: Ustr,
    pub currency_type: CurrencyType,
}

impl Currency {
    /// Builds a currency from its parts.
    pub fn new(
        code: Ustr,
        precision: u8,
        iso4217: u16,
        name: Ustr,
        currency_type: CurrencyType,
    ) -> (r: Currency)
        ensures
            r.code == code,
            r.precision == precision,
            r.iso4217 == iso4217,
            r.name == name,
            r.currency_type == currency_type,
    {
        Currency { code, precision, iso4217, name, currency_type }
    }
}

} // verus!
