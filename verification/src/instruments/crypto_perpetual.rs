//! Perpetual swap contracts on crypto assets.

use crate::correctness::{check_equal_u8, check_positive_i64, check_positive_u64};
use crate::error::{Field, InstrumentError};
use crate::enums::{AssetClass, InstrumentClass, OptionKind};
use crate::identifiers::{InstrumentId, Symbol};
use crate::instruments::any::InstrumentAny;
use crate::instruments::Instrument;
use crate::nanos::UnixNanos;
use crate::types::currency::Currency;
use crate::types::money::Money;
use crate::types::price::Price;
use crate::types::quantity::Quantity;
use rust_decimal::Decimal;
use ustr::Ustr;
use vstd::prelude::*;
use vstd::std_specs::cmp::PartialEqSpec;

verus! {

/// The definition of a perpetual swap on a crypto asset.
///
/// Two definitions are the same instrument when their identifiers agree,
/// whatever their other fields hold.
#[derive(Clone, Copy, Debug)]
pub struct CryptoPerpetual {
    pub id: InstrumentId,
    pub raw_symbol: Symbol,
    pub base_currency: Currency,
    pub quote_currency: Currency,
    pub settlement_currency: Currency,
    pub is_inverse: bool,
    pub price_precision: u8,
    pub size_precision: u8,
    pub price_increment: Price,
    pub size_increment: Quantity,
    pub maker_fee: Decimal,
    pub taker_fee: Decimal,
    pub margin_init: Decimal,
    pub margin_maint: Decimal,
    pub lot_size: Quantity,
    pub max_quantity: Option<Quantity>,
    pub min_quantity: Option<Quantity>,
    pub max_notional: Option<Money>,
    pub min_notional: Option<Money>,
    pub max_price: Option<Price>,
    pub min_price: Option<Price>,
    pub ts_event: UnixNanos,
    pub ts_init: UnixNanos,
}

/// The first rule that the precisions and increments of a definition break,
/// in the order in which the rules are checked, or `None` where they keep
/// every rule.
pub open spec fn first_violation(
    price_precision: u8,
    size_precision: u8,
    price_increment: Price,
    size_increment: Quantity,
) -> Option<InstrumentError> {
    if price_precision != price_increment.precision {
        Some(
            InstrumentError::PrecisionMismatch {
                field_a: Field::PricePrecision,
                field_b: Field::PriceIncrementPrecision,
            },
        )
    } else if size_precision != size_increment.precision {
        Some(
            InstrumentError::PrecisionMismatch {
                field_a: Field::SizePrecision,
                field_b: Field::SizeIncrementPrecision,
            },
        )
    } else if price_increment.raw <= 0 {
        Some(InstrumentError::NonPositiveIncrement { field: Field::PriceIncrementRaw })
    } else if size_increment.raw == 0 {
        Some(InstrumentError::NonPositiveIncrement { field: Field::SizeIncrementRaw })
    } else {
        None
    }
}

/// Whether the declared precisions equal those of the increments and both
/// increments are strictly positive.
pub open spec fn increments_consistent(
    price_precision: u8,
    size_precision: u8,
    price_increment: Price,
    size_increment: Quantity,
) -> bool {
    &&& price_precision == price_increment.precision
    &&& size_precision == size_increment.precision
    &&& price_increment.raw > 0
    &&& size_increment.raw > 0
}

/// The lot size of a definition: the one given, or one whole unit.
pub open spec fn lot_size_or_unit(lot_size: Option<Quantity>) -> Quantity {
    match lot_size {
        Some(q) => q,
        None => Quantity::spec_from_units(1),
    }
}

impl CryptoPerpetual {
    /// Whether the definition keeps the rules that tie its precisions to
    /// its increments.
    pub open spec fn is_valid(&self) -> bool {
        increments_consistent(
            self.price_precision,
            self.size_precision,
            self.price_increment,
            self.size_increment,
        )
    }

    /// Builds a definition after checking its precisions and increments.
    ///
    /// Succeeds exactly when the declared precisions equal those of the
    /// increments and both increments are strictly positive; otherwise
    /// reports the first rule that is broken. An absent lot size becomes
    /// one whole unit.
    #[allow(clippy::too_many_arguments)]
    pub fn new_checked(
        id: InstrumentId,
        raw_symbol: Symbol,
        base_currency: Currency,
        quote_currency: Currency,
        settlement_currency: Currency,
        is_inverse: bool,
        price_precision: u8,
        size_precision: u8,
        price_increment: Price,
        size_increment: Quantity,
        maker_fee: Decimal,
        taker_fee: Decimal,
        margin_init: Decimal,
        margin_maint: Decimal,
        lot_size: Option<Quantity>,
        max_quantity: Option<Quantity>,
        min_quantity: Option<Quantity>,
        max_notional: Option<Money>,
        min_notional: Option<Money>,
        max_price: Option<Price>,
        min_price: Option<Price>,
        ts_event: UnixNanos,
        ts_init: UnixNanos,
    ) -> (r: Result<CryptoPerpetual, InstrumentError>)
        ensures
            r is Ok <==> increments_consistent(
                price_precision,
                size_precision,
                price_increment,
                size_increment,
            ),
            r is Err ==> first_violation(
                price_precision,
                size_precision,
                price_increment,
                size_increment,
            ) == Some(r->Err_0),
            r is Ok ==> r->Ok_0.is_valid() && r->Ok_0 == (CryptoPerpetual {
                id,
                raw_symbol,
                base_currency,
                quote_currency,
                settlement_currency,
                is_inverse,
                price_precision,
                size_precision,
                price_increment,
                size_increment,
                maker_fee,
                taker_fee,
                margin_init,
                margin_maint,
                lot_size: lot_size_or_unit(lot_size),
                max_quantity,
                min_quantity,
                max_notional,
                min_notional,
                max_price,
                min_price,
                ts_event,
                ts_init,
            }),
    {
        match check_equal_u8(
            price_precision,
            price_increment.precision,
            Field::PricePrecision,
            Field::PriceIncrementPrecision,
        ) {
            Ok(()) => {},
            Err(e) => {
                return Err(e);
            },
        }
        match check_equal_u8(
            size_precision,
            size_increment.precision,
            Field::SizePrecision,
            Field::SizeIncrementPrecision,
        ) {
            Ok(()) => {},
            Err(e) => {
                return Err(e);
            },
        }
        match check_positive_i64(price_increment.raw, Field::PriceIncrementRaw) {
            Ok(()) => {},
            Err(e) => {
                return Err(e);
            },
        }
        match check_positive_u64(size_increment.raw, Field::SizeIncrementRaw) {
            Ok(()) => {},
            Err(e) => {
                return Err(e);
            },
        }
        let lot_size = match lot_size {
            Some(q) => q,
            None => Quantity::from_units(1),
        };
        Ok(
            CryptoPerpetual {
                id,
                raw_symbol,
                base_currency,
                quote_currency,
                settlement_currency,
                is_inverse,
                price_precision,
                size_precision,
                price_increment,
                size_increment,
                maker_fee,
                taker_fee,
                margin_init,
                margin_maint,
                lot_size,
                max_quantity,
                min_quantity,
                max_notional,
                min_notional,
                max_price,
                min_price,
                ts_event,
                ts_init,
            },
        )
    }

    /// Builds a definition whose precisions and increments the caller has
    /// already made consistent.
    ///
    /// The same checks run as in [`CryptoPerpetual::new_checked`]; the
    /// caller's obligation is that they cannot fail.
    #[allow(clippy::too_many_arguments)]
    pub fn new(
        id: InstrumentId,
        raw_symbol: Symbol,
        base_currency: Currency,
        quote_currency: Currency,
        settlement_currency: Currency,
        is_inverse: bool,
        price_precision: u8,
        size_precision: u8,
        price_increment: Price,
        size_increment: Quantity,
        maker_fee: Decimal,
        taker_fee: Decimal,
        margin_init: Decimal,
        margin_maint: Decimal,
        lot_size: Option<Quantity>,
        max_quantity: Option<Quantity>,
        min_quantity: Option<Quantity>,
        max_notional: Option<Money>,
        min_notional: Option<Money>,
        max_price: Option<Price>,
        min_price: Option<Price>,
        ts_event: UnixNanos,
        ts_init: UnixNanos,
    ) -> (r: CryptoPerpetual)
        requires
            increments_consistent(price_precision, size_precision, price_increment, size_increment),
        ensures
            r.is_valid(),
            r == (CryptoPerpetual {
                id,
                raw_symbol,
                base_currency,
                quote_currency,
                settlement_currency,
                is_inverse,
                price_precision,
                size_precision,
                price_increment,
                size_increment,
                maker_fee,
                taker_fee,
                margin_init,
                margin_maint,
                lot_size: lot_size_or_unit(lot_size),
                max_quantity,
                min_quantity,
                max_notional,
                min_notional,
                max_price,
                min_price,
                ts_event,
                ts_init,
            }),
    {
        match CryptoPerpetual::new_checked(
            id,
            raw_symbol,
            base_currency,
            quote_currency,
            settlement_currency,
            is_inverse,
            price_precision,
            size_precision,
            price_increment,
            size_increment,
            maker_fee,
            taker_fee,
            margin_init,
            margin_maint,
            lot_size,
            max_quantity,
            min_quantity,
            max_notional,
            min_notional,
            max_price,
            min_price,
            ts_event,
            ts_init,
        ) {
            Ok(instrument) => instrument,
            Err(_) => vstd::pervasive::unreached(),
        }
    }
}

impl PartialEq for CryptoPerpetual {
    fn eq(&self, other: &CryptoPerpetual) -> (r: bool) {
        self.id == other.id
    }
}

impl Eq for CryptoPerpetual {}

impl vstd::std_specs::cmp::PartialEqSpecImpl for CryptoPerpetual {
    open spec fn obeys_eq_spec() -> bool {
        true
    }

    open spec fn eq_spec(&self, other: &CryptoPerpetual) -> bool {
        self.id == other.id
    }
}

impl std::hash::Hash for CryptoPerpetual {
    fn hash<H: std::hash::Hasher>(&self, state: &mut H) {
        self.id.hash(state);
    }
}

impl Instrument for CryptoPerpetual {
    fn into_any(self) -> (r: InstrumentAny)
        ensures
            r == InstrumentAny::CryptoPerpetual(self),
    {
        InstrumentAny::CryptoPerpetual(self)
    }

    fn id(&self) -> (r: InstrumentId)
        ensures
            r == self.id,
    {
        self.id
    }

    fn raw_symbol(&self) -> (r: Symbol)
        ensures
            r == self.raw_symbol,
    {
        self.raw_symbol
    }

    fn asset_class(&self) -> (r: AssetClass)
        ensures
            r == AssetClass::Cryptocurrency,
    {
        AssetClass::Cryptocurrency
    }

    fn instrument_class(&self) -> (r: InstrumentClass)
        ensures
            r == InstrumentClass::Swap,
    {
        InstrumentClass::Swap
    }

    fn underlying(&self) -> (r: Option<Ustr>)
        ensures
            r == None::<Ustr>,
    {
        None
    }

    fn base_currency(&self) -> (r: Option<Currency>)
        ensures
            r == Some(self.base_currency),
    {
        Some(self.base_currency)
    }

    fn quote_currency(&self) -> (r: Currency)
        ensures
            r == self.quote_currency,
    {
        self.quote_currency
    }

    fn settlement_currency(&self) -> (r: Currency)
        ensures
            r == self.settlement_currency,
    {
        self.settlement_currency
    }

    fn isin(&self) -> (r: Option<Ustr>)
        ensures
            r == None::<Ustr>,
    {
        None
    }

    fn option_kind(&self) -> (r: Option<OptionKind>)
        ensures
            r == None::<OptionKind>,
    {
        None
    }

    fn exchange(&self) -> (r: Option<Ustr>)
        ensures
            r == None::<Ustr>,
    {
        None
    }

    fn strike_price(&self) -> (r: Option<Price>)
        ensures
            r == None::<Price>,
    {
        None
    }

    fn activation_ns(&self) -> (r: Option<UnixNanos>)
        ensures
            r == None::<UnixNanos>,
    {
        None
    }

    fn expiration_ns(&self) -> (r: Option<UnixNanos>)
        ensures
            r == None::<UnixNanos>,
    {
        None
    }

    fn is_inverse(&self) -> (r: bool)
        ensures
            r == self.is_inverse,
    {
        self.is_inverse
    }

    fn price_precision(&self) -> (r: u8)
        ensures
            r == self.price_precision,
    {
        self.price_precision
    }

    fn size_precision(&self) -> (r: u8)
        ensures
            r == self.size_precision,
    {
        self.size_precision
    }

    fn price_increment(&self) -> (r: Price)
        ensures
            r == self.price_increment,
    {
        self.price_increment
    }

    fn size_increment(&self) -> (r: Quantity)
        ensures
            r == self.size_increment,
    {
        self.size_increment
    }

    fn multiplier(&self) -> (r: Quantity)
        ensures
            r == Quantity::spec_from_units(1),
    {
        Quantity::from_units(1)
    }

    fn lot_size(&self) -> (r: Option<Quantity>)
        ensures
            r == Some(self.lot_size),
    {
        Some(self.lot_size)
    }

    fn max_quantity(&self) -> (r: Option<Quantity>)
        ensures
            r == self.max_quantity,
    {
        self.max_quantity
    }

    fn min_quantity(&self) -> (r: Option<Quantity>)
        ensures
            r == self.min_quantity,
    {
        self.min_quantity
    }

    fn max_notional(&self) -> (r: Option<Money>)
        ensures
            r == self.max_notional,
    {
        self.max_notional
    }

    fn min_notional(&self) -> (r: Option<Money>)
        ensures
            r == self.min_notional,
    {
        self.min_notional
    }

    fn max_price(&self) -> (r: Option<Price>)
        ensures
            r == self.max_price,
    {
        self.max_price
    }

    fn min_price(&self) -> (r: Option<Price>)
        ensures
            r == self.min_price,
    {
        self.min_price
    }

    fn margin_init(&self) -> (r: Decimal)
        ensures
            r == self.margin_init,
    {
        self.margin_init
    }

    fn margin_maint(&self) -> (r: Decimal)
        ensures
            r == self.margin_maint,
    {
        self.margin_maint
    }

    fn maker_fee(&self) -> (r: Decimal)
        ensures
            r == self.maker_fee,
    {
        self.maker_fee
    }

    fn taker_fee(&self) -> (r: Decimal)
        ensures
            r == self.taker_fee,
    {
        self.taker_fee
    }

    fn ts_event(&self) -> (r: UnixNanos)
        ensures
            r == self.ts_event,
    {
        self.ts_event
    }

    fn ts_init(&self) -> (r: UnixNanos)
        ensures
            r == self.ts_init,
    {
        self.ts_init
    }
}

/// Definitions compare by identifier alone: two of them are equal exactly
/// when their identifiers are, and so equality is reflexive, symmetric and
/// transitive whatever the other fields hold.
pub proof fn lemma_equality_is_identity(a: CryptoPerpetual, b: CryptoPerpetual, c: CryptoPerpetual)
    ensures
        a.eq_spec(&b) <==> a.id == b.id,
        a.eq_spec(&a),
        a.eq_spec(&b) ==> b.eq_spec(&a),
        a.eq_spec(&b) && b.eq_spec(&c) ==> a.eq_spec(&c),
{
}

/// A definition is accepted exactly when no rule is broken: the first
/// broken rule is absent if and only if the precisions and increments are
/// consistent.
pub proof fn lemma_no_violation_iff_consistent(
    price_precision: u8,
    size_precision: u8,
    price_increment: Price,
    size_increment: Quantity,
)
    ensures
        first_violation(price_precision, size_precision, price_increment, size_increment)
            is None <==> increments_consistent(
            price_precision,
            size_precision,
            price_increment,
            size_increment,
        ),
{
}

} // verus!
