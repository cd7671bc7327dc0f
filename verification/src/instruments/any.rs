//! The closed set of instrument kinds.

use crate::instruments::crypto_perpetual::CryptoPerpetual;
use crate::instruments::Instrument;
use crate::enums::{AssetClass, InstrumentClass, OptionKind};
use crate::identifiers::{InstrumentId, Symbol};
use crate::nanos::UnixNanos;
use crate::types::currency::Currency;
use crate::types::money::Money;
use crate::types::price::Price;
use crate::types::quantity::Quantity;
use rust_decimal::Decimal;
use ustr::Ustr;
use vstd::prelude::*;

verus! {

/// Some instrument: exactly one case for each kind of definition, held by
/// value.
#[derive(Clone, Copy, Debug)]
pub enum InstrumentAny {
    CryptoPerpetual(CryptoPerpetual),
}

impl Instrument for InstrumentAny {
    fn into_any(self) -> (r: InstrumentAny)
        ensures
            r == self,
    {
        self
    }

    fn id(&self) -> (r: InstrumentId)
        ensures
            r == (match *self {
                InstrumentAny::CryptoPerpetual(inst) => inst.id,
            }),
    {
        match self {
            InstrumentAny::CryptoPerpetual(inst) => inst.id(),
        }
    }

    fn raw_symbol(&self) -> (r: Symbol)
        ensures
            r == (match *self {
                InstrumentAny::CryptoPerpetual(inst) => inst.raw_symbol,
            }),
    {
        match self {
            InstrumentAny::CryptoPerpetual(inst) => inst.raw_symbol(),
        }
    }

    fn asset_class(&self) -> (r: AssetClass)
        ensures
            r == (match *self {
                InstrumentAny::CryptoPerpetual(inst) => AssetClass::Cryptocurrency,
            }),
    {
        match self {
            InstrumentAny::CryptoPerpetual(inst) => inst.asset_class(),
        }
    }

    fn instrument_class(&self) -> (r: InstrumentClass)
        ensures
            r == (match *self {
                InstrumentAny::CryptoPerpetual(inst) => InstrumentClass::Swap,
            }),
    {
        match self {
            InstrumentAny::CryptoPerpetual(inst) => inst.instrument_class(),
        }
    }

    fn underlying(&self) -> (r: Option<Ustr>)
        ensures
            r == (match *self {
                InstrumentAny::CryptoPerpetual(inst) => None::<Ustr>,
            }),
    {
        match self {
            InstrumentAny::CryptoPerpetual(inst) => inst.underlying(),
        }
    }

    fn base_currency(&self) -> (r: Option<Currency>)
        ensures
            r == (match *self {
                InstrumentAny::CryptoPerpetual(inst) => Some(inst.base_currency),
            }),
    {
        match self {
            InstrumentAny::CryptoPerpetual(inst) => inst.base_currency(),
        }
    }

    fn quote_currency(&self) -> (r: Currency)
        ensures
            r == (match *self {
                InstrumentAny::CryptoPerpetual(inst) => inst.quote_currency,
            }),
    {
        match self {
            InstrumentAny::CryptoPerpetual(inst) => inst.quote_currency(),
        }
    }

    fn settlement_currency(&self) -> (r: Currency)
        ensures
            r == (match *self {
                InstrumentAny::CryptoPerpetual(inst) => inst.settlement_currency,
            }),
    {
        match self {
            InstrumentAny::CryptoPerpetual(inst) => inst.settlement_currency(),
        }
    }

    fn isin(&self) -> (r: Option<Ustr>)
        ensures
            r == (match *self {
                InstrumentAny::CryptoPerpetual(inst) => None::<Ustr>,
            }),
    {
        match self {
            InstrumentAny::CryptoPerpetual(inst) => inst.isin(),
        }
    }

    fn option_kind(&self) -> (r: Option<OptionKind>)
        ensures
            r == (match *self {
                InstrumentAny::CryptoPerpetual(inst) => None::<OptionKind>,
            }),
    {
        match self {
            InstrumentAny::CryptoPerpetual(inst) => inst.option_kind(),
        }
    }

    fn exchange(&self) -> (r: Option<Ustr>)
        ensures
            r == (match *self {
                InstrumentAny::CryptoPerpetual(inst) => None::<Ustr>,
            }),
    {
        match self {
            InstrumentAny::CryptoPerpetual(inst) => inst.exchange(),
        }
    }

    fn strike_price(&self) -> (r: Option<Price>)
        ensures
            r == (match *self {
                InstrumentAny::CryptoPerpetual(inst) => None::<Price>,
            }),
    {
        match self {
            InstrumentAny::CryptoPerpetual(inst) => inst.strike_price(),
        }
    }

    fn activation_ns(&self) -> (r: Option<UnixNanos>)
        ensures
            r == (match *self {
                InstrumentAny::CryptoPerpetual(inst) => None::<UnixNanos>,
            }),
    {
        match self {
            InstrumentAny::CryptoPerpetual(inst) => inst.activation_ns(),
        }
    }

    fn expiration_ns(&self) -> (r: Option<UnixNanos>)
        ensures
            r == (match *self {
                InstrumentAny::CryptoPerpetual(inst) => None::<UnixNanos>,
            }),
    {
        match self {
            InstrumentAny::CryptoPerpetual(inst) => inst.expiration_ns(),
        }
    }

    fn is_inverse(&self) -> (r: bool)
        ensures
            r == (match *self {
                InstrumentAny::CryptoPerpetual(inst) => inst.is_inverse,
            }),
    {
        match self {
            InstrumentAny::CryptoPerpetual(inst) => inst.is_inverse(),
        }
    }

    fn price_precision(&self) -> (r: u8)
        ensures
            r == (match *self {
                InstrumentAny::CryptoPerpetual(inst) => inst.price_precision,
            }),
    {
        match self {
            InstrumentAny::CryptoPerpetual(inst) => inst.price_precision(),
        }
    }

    fn size_precision(&self) -> (r: u8)
        ensures
            r == (match *self {
                InstrumentAny::CryptoPerpetual(inst) => inst.size_precision,
            }),
    {
        match self {
            InstrumentAny::CryptoPerpetual(inst) => inst.size_precision(),
        }
    }

    fn price_increment(&self) -> (r: Price)
        ensures
            r == (match *self {
                InstrumentAny::CryptoPerpetual(inst) => inst.price_increment,
            }),
    {
        match self {
            InstrumentAny::CryptoPerpetual(inst) => inst.price_increment(),
        }
    }

    fn size_increment(&self) -> (r: Quantity)
        ensures
            r == (match *self {
                InstrumentAny::CryptoPerpetual(inst) => inst.size_increment,
            }),
    {
        match self {
            InstrumentAny::CryptoPerpetual(inst) => inst.size_increment(),
        }
    }

    fn multiplier(&self) -> (r: Quantity)
        ensures
            r == (match *self {
                InstrumentAny::CryptoPerpetual(inst) => Quantity::spec_from_units(1),
            }),
    {
        match self {
            InstrumentAny::CryptoPerpetual(inst) => inst.multiplier(),
        }
    }

    fn lot_size(&self) -> (r: Option<Quantity>)
        ensures
            r == (match *self {
                InstrumentAny::CryptoPerpetual(inst) => Some(inst.lot_size),
            }),
    {
        match self {
            InstrumentAny::CryptoPerpetual(inst) => inst.lot_size(),
        }
    }

    fn max_quantity(&self) -> (r: Option<Quantity>)
        ensures
            r == (match *self {
                InstrumentAny::CryptoPerpetual(inst) => inst.max_quantity,
            }),
    {
        match self {
            InstrumentAny::CryptoPerpetual(inst) => inst.max_quantity(),
        }
    }

    fn min_quantity(&self) -> (r: Option<Quantity>)
        ensures
            r == (match *self {
                InstrumentAny::CryptoPerpetual(inst) => inst.min_quantity,
            }),
    {
        match self {
            InstrumentAny::CryptoPerpetual(inst) => inst.min_quantity(),
        }
    }

    fn max_notional(&self) -> (r: Option<Money>)
        ensures
            r == (match *self {
                InstrumentAny::CryptoPerpetual(inst) => inst.max_notional,
            }),
    {
        match self {
            InstrumentAny::CryptoPerpetual(inst) => inst.max_notional(),
        }
    }

    fn min_notional(&self) -> (r: Option<Money>)
        ensures
            r == (match *self {
                InstrumentAny::CryptoPerpetual(inst) => inst.min_notional,
            }),
    {
        match self {
            InstrumentAny::CryptoPerpetual(inst) => inst.min_notional(),
        }
    }

    fn max_price(&self) -> (r: Option<Price>)
        ensures
            r == (match *self {
                InstrumentAny::CryptoPerpetual(inst) => inst.max_price,
            }),
    {
        match self {
            InstrumentAny::CryptoPerpetual(inst) => inst.max_price(),
        }
    }

    fn min_price(&self) -> (r: Option<Price>)
        ensures
            r == (match *self {
                InstrumentAny::CryptoPerpetual(inst) => inst.min_price,
            }),
    {
        match self {
            InstrumentAny::CryptoPerpetual(inst) => inst.min_price(),
        }
    }

    fn margin_init(&self) -> (r: Decimal)
        ensures
            r == (match *self {
                InstrumentAny::CryptoPerpetual(inst) => inst.margin_init,
            }),
    {
        match self {
            InstrumentAny::CryptoPerpetual(inst) => inst.margin_init(),
        }
    }

    fn margin_maint(&self) -> (r: Decimal)
        ensures
            r == (match *self {
                InstrumentAny::CryptoPerpetual(inst) => inst.margin_maint,
            }),
    {
        match self {
            InstrumentAny::CryptoPerpetual(inst) => inst.margin_maint(),
        }
    }

    fn maker_fee(&self) -> (r: Decimal)
        ensures
            r == (match *self {
                InstrumentAny::CryptoPerpetual(inst) => inst.maker_fee,
            }),
    {
        match self {
            InstrumentAny::CryptoPerpetual(inst) => inst.maker_fee(),
        }
    }

    fn taker_fee(&self) -> (r: Decimal)
        ensures
            r == (match *self {
                InstrumentAny::CryptoPerpetual(inst) => inst.taker_fee,
            }),
    {
        match self {
            InstrumentAny::CryptoPerpetual(inst) => inst.taker_fee(),
        }
    }

    fn ts_event(&self) -> (r: UnixNanos)
        ensures
            r == (match *self {
                InstrumentAny::CryptoPerpetual(inst) => inst.ts_event,
            }),
    {
        match self {
            InstrumentAny::CryptoPerpetual(inst) => inst.ts_event(),
        }
    }

    fn ts_init(&self) -> (r: UnixNanos)
        ensures
            r == (match *self {
                InstrumentAny::CryptoPerpetual(inst) => inst.ts_init,
            }),
    {
        match self {
            InstrumentAny::CryptoPerpetual(inst) => inst.ts_init(),
        }
    }
}

} // verus!
