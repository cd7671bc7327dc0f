//! Amounts of money in a given currency.

use crate::types::currency::Currency;
use vstd::prelude::*;

verus! {

/// An amount of money: a signed fixed-point integer in a currency.
#[derive(Clone, Copy, Debug, Hash)]
pub struct Money {
    /// The fixed-point value.
    pub raw: i64,
    /// The currency the amount is denominated in.
    pub currency: Currency,
}

impl Money {
    /// Builds an amount from its fixed-point value and its currency.
    pub fn from_raw(raw: i64, currency: Currency) -> (r: Money)
        ensures
            r.raw == raw,
            r.currency == currency,
    {
        Money { raw, currency }
    }
}

} // verus!
