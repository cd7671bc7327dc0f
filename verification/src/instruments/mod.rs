//! Instrument definitions and the read-only interface they share.

pub mod any;
pub mod crypto_perpetual;

use crate::instruments::any::InstrumentAny;
use crate::enums::{AssetClass, InstrumentClass, OptionKind};
use crate::identifiers::{InstrumentId, Symbol};
use crate::nanos::UnixNanos;
use crate::types::currency::Currency;
use crate::types::money::Money;
use crate::types::price::Price;
use crate::types::quantity::Quantity;
use rust_decimal::Decimal;
use ustr::Ustr;
use vstd::prelude::*;

verus! {

/// What every instrument definition can be asked, without side effects.
///
/// A value that does not apply to a kind of instrument is reported as
/// absent, never as a sentinel.
pub trait Instrument: Sized {
    /// Wraps the definition as one case of the closed set of instruments.
    fn into_any(self) -> InstrumentAny;

    /// The unique identifier of the instrument.
    fn id(&self) -> InstrumentId;

    /// The exchange-native symbol of the instrument.
    fn raw_symbol(&self) -> Symbol;

    /// The asset class of the instrument.
    fn asset_class(&self) -> AssetClass;

    /// The contract shape of the instrument.
    fn instrument_class(&self) -> InstrumentClass;

    /// The underlying reference, where the instrument has one.
    fn underlying(&self) -> Option<Ustr>;

    /// The base currency, where the instrument has one.
    fn base_currency(&self) -> Option<Currency>;

    /// The currency in which prices are quoted.
    fn quote_currency(&self) -> Currency;

    /// The currency in which the instrument settles.
    fn settlement_currency(&self) -> Currency;

    /// The ISIN, where the instrument has one.
    fn isin(&self) -> Option<Ustr>;

    /// Whether an option is a call or a put; absent for other instruments.
    fn option_kind(&self) -> Option<OptionKind>;

    /// The listing exchange, where one is recorded.
    fn exchange(&self) -> Option<Ustr>;

    /// The strike price of an option; absent for other instruments.
    fn strike_price(&self) -> Option<Price>;

    /// When the instrument becomes tradable, where its lifetime is fixed.
    fn activation_ns(&self) -> Option<UnixNanos>;

    /// When the instrument expires, where its lifetime is fixed.
    fn expiration_ns(&self) -> Option<UnixNanos>;

    /// Whether quantities are denominated in the quote or settlement currency rather than the base currency.
    fn is_inverse(&self) -> bool;

    /// The number of decimal places of prices.
    fn price_precision(&self) -> u8;

    /// The number of decimal places of sizes.
    fn size_precision(&self) -> u8;

    /// The smallest step between two valid prices.
    fn price_increment(&self) -> Price;

    /// The smallest step between two valid sizes.
    fn size_increment(&self) -> Quantity;

    /// The contract multiplier.
    fn multiplier(&self) -> Quantity;

    /// The lot size, where the instrument trades in lots.
    fn lot_size(&self) -> Option<Quantity>;

    /// The largest quantity of one order, where it is bounded.
    fn max_quantity(&self) -> Option<Quantity>;

    /// The smallest quantity of one order, where it is bounded.
    fn min_quantity(&self) -> Option<Quantity>;

    /// The largest notional value of one order, where it is bounded.
    fn max_notional(&self) -> Option<Money>;

    /// The smallest notional value of one order, where it is bounded.
    fn min_notional(&self) -> Option<Money>;

    /// The highest valid price, where it is bounded.
    fn max_price(&self) -> Option<Price>;

    /// The lowest valid price, where it is bounded.
    fn min_price(&self) -> Option<Price>;

    /// The initial margin ratio.
    fn margin_init(&self) -> Decimal;

    /// The maintenance margin ratio.
    fn margin_maint(&self) -> Decimal;

    /// The fee rate for orders that add liquidity.
    fn maker_fee(&self) -> Decimal;

    /// The fee rate for orders that take liquidity.
    fn taker_fee(&self) -> Decimal;

    /// When the event that defined the instrument occurred.
    fn ts_event(&self) -> UnixNanos;

    /// When the definition was built locally.
    fn ts_init(&self) -> UnixNanos;
}

} // verus!
