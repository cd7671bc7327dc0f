use nautilus_model::correctness::{check_equal_u8, check_positive_i64, check_positive_u64};
use nautilus_model::enums::{AssetClass, CurrencyType, InstrumentClass};
use nautilus_model::error::{Field, InstrumentError};
use nautilus_model::identifiers::{InstrumentId, Symbol, Venue};
use nautilus_model::instruments::any::InstrumentAny;
use nautilus_model::instruments::crypto_perpetual::CryptoPerpetual;
use nautilus_model::instruments::Instrument;
use nautilus_model::nanos::UnixNanos;
use nautilus_model::types::currency::Currency;
use nautilus_model::types::money::Money;
use nautilus_model::types::price::Price;
use nautilus_model::types::quantity::{Quantity, FIXED_SCALAR, QUANTITY_MAX};
use rust_decimal::Decimal;
use std::collections::hash_map::DefaultHasher;
use std::hash::{Hash, Hasher};
use ustr::ustr;

fn eth() -> Currency {
    Currency::new(ustr("ETH"), 8, 0, ustr("Ethereum"), CurrencyType::Crypto)
}

fn usdt() -> Currency {
    Currency::new(ustr("USDT"), 8, 0, ustr("Tether"), CurrencyType::Crypto)
}

fn ethusdt_id() -> InstrumentId {
    InstrumentId::new(Symbol::new(ustr("ETHUSDT-PERP")), Venue::new(ustr("BINANCE")))
}

fn build(
    price_precision: u8,
    size_precision: u8,
    price_increment: Price,
    size_increment: Quantity,
    lot_size: Option<Quantity>,
) -> Result<CryptoPerpetual, InstrumentError> {
    CryptoPerpetual::new_checked(
        ethusdt_id(),
        Symbol::new(ustr("ETHUSDT")),
        eth(),
        usdt(),
        usdt(),
        false,
        price_precision,
        size_precision,
        price_increment,
        size_increment,
        Decimal::new(2, 4),
        Decimal::new(4, 4),
        Decimal::new(1, 0),
        Decimal::new(35, 2),
        lot_size,
        Some(Quantity::from_raw(10_000_000_000_000, 3)),
        Some(Quantity::from_raw(1_000_000, 3)),
        None,
        Some(Money::from_raw(10_000_000_000, usdt())),
        Some(Price::from_raw(15_000_000_000_000, 2)),
        Some(Price::from_raw(1_000_000_000, 2)),
        UnixNanos::from(1),
        UnixNanos::from(2),
    )
}

fn crypto_perpetual_ethusdt() -> CryptoPerpetual {
    CryptoPerpetual::new(
        ethusdt_id(),
        Symbol::new(ustr("ETHUSDT")),
        eth(),
        usdt(),
        usdt(),
        false,
        2,
        3,
        Price::from_raw(10_000_000, 2),
        Quantity::from_raw(1_000_000, 3),
        Decimal::new(2, 4),
        Decimal::new(4, 4),
        Decimal::new(1, 0),
        Decimal::new(35, 2),
        None,
        Some(Quantity::from_raw(10_000_000_000_000, 3)),
        Some(Quantity::from_raw(1_000_000, 3)),
        None,
        Some(Money::from_raw(10_000_000_000, usdt())),
        Some(Price::from_raw(15_000_000_000_000, 2)),
        Some(Price::from_raw(1_000_000_000, 2)),
        UnixNanos::from(0),
        UnixNanos::from(0),
    )
}

fn hash_of<T: Hash>(value: &T) -> u64 {
    let mut hasher = DefaultHasher::new();
    value.hash(&mut hasher);
    hasher.finish()
}

#[test]
fn test_equality() {
    let instrument = crypto_perpetual_ethusdt();
    let cloned = instrument;
    assert_eq!(instrument, cloned);
}

#[test]
fn test_new_checked_accepts_consistent_definition() {
    let instrument = build(
        2,
        3,
        Price::from_raw(10_000_000, 2),
        Quantity::from_raw(1_000_000, 3),
        Some(Quantity::from_raw(5_000_000, 3)),
    )
    .unwrap();
    assert!(instrument.id == ethusdt_id());
    assert!(instrument.raw_symbol == Symbol::new(ustr("ETHUSDT")));
    assert_eq!(instrument.base_currency.code, ustr("ETH"));
    assert_eq!(instrument.quote_currency.code, ustr("USDT"));
    assert_eq!(instrument.settlement_currency.code, ustr("USDT"));
    assert!(!instrument.is_inverse);
    assert_eq!(instrument.price_precision, 2);
    assert_eq!(instrument.size_precision, 3);
    assert_eq!(instrument.price_increment, Price::from_raw(10_000_000, 2));
    assert_eq!(instrument.size_increment, Quantity::from_raw(1_000_000, 3));
    assert_eq!(instrument.maker_fee, Decimal::new(2, 4));
    assert_eq!(instrument.taker_fee, Decimal::new(4, 4));
    assert_eq!(instrument.margin_init, Decimal::new(1, 0));
    assert_eq!(instrument.margin_maint, Decimal::new(35, 2));
    assert_eq!(instrument.lot_size, Quantity::from_raw(5_000_000, 3));
    assert_eq!(instrument.max_quantity, Some(Quantity::from_raw(10_000_000_000_000, 3)));
    assert_eq!(instrument.min_quantity, Some(Quantity::from_raw(1_000_000, 3)));
    assert!(instrument.max_notional.is_none());
    assert_eq!(instrument.min_notional.unwrap().raw, 10_000_000_000);
    assert_eq!(instrument.max_price, Some(Price::from_raw(15_000_000_000_000, 2)));
    assert_eq!(instrument.min_price, Some(Price::from_raw(1_000_000_000, 2)));
    assert_eq!(instrument.ts_event, UnixNanos::from(1));
    assert_eq!(instrument.ts_init, UnixNanos::from(2));
}

#[test]
fn test_new_checked_price_precision_mismatch() {
    let result = build(
        2,
        3,
        Price::from_raw(1_000_000, 3),
        Quantity::from_raw(1_000_000, 3),
        None,
    );
    assert_eq!(
        result.unwrap_err(),
        InstrumentError::PrecisionMismatch {
            field_a: Field::PricePrecision,
            field_b: Field::PriceIncrementPrecision,
        }
    );
}

#[test]
fn test_new_checked_size_precision_mismatch() {
    let result = build(
        2,
        3,
        Price::from_raw(10_000_000, 2),
        Quantity::from_raw(1_000_000, 4),
        None,
    );
    assert_eq!(
        result.unwrap_err(),
        InstrumentError::PrecisionMismatch {
            field_a: Field::SizePrecision,
            field_b: Field::SizeIncrementPrecision,
        }
    );
}

#[test]
fn test_new_checked_zero_size_increment() {
    let result = build(2, 3, Price::from_raw(10_000_000, 2), Quantity::from_raw(0, 3), None);
    assert_eq!(
        result.unwrap_err(),
        InstrumentError::NonPositiveIncrement { field: Field::SizeIncrementRaw }
    );
}

#[test]
fn test_new_checked_non_positive_price_increment() {
    let zero = build(2, 3, Price::from_raw(0, 2), Quantity::from_raw(1_000_000, 3), None);
    assert_eq!(
        zero.unwrap_err(),
        InstrumentError::NonPositiveIncrement { field: Field::PriceIncrementRaw }
    );
    let negative = build(2, 3, Price::from_raw(-10_000_000, 2), Quantity::from_raw(1_000_000, 3), None);
    assert_eq!(
        negative.unwrap_err(),
        InstrumentError::NonPositiveIncrement { field: Field::PriceIncrementRaw }
    );
}

#[test]
fn test_new_checked_reports_first_broken_rule() {
    let all_broken = build(2, 3, Price::from_raw(0, 5), Quantity::from_raw(0, 7), None);
    assert_eq!(
        all_broken.unwrap_err(),
        InstrumentError::PrecisionMismatch {
            field_a: Field::PricePrecision,
            field_b: Field::PriceIncrementPrecision,
        }
    );
    let size_and_increments = build(2, 3, Price::from_raw(0, 2), Quantity::from_raw(0, 7), None);
    assert_eq!(
        size_and_increments.unwrap_err(),
        InstrumentError::PrecisionMismatch {
            field_a: Field::SizePrecision,
            field_b: Field::SizeIncrementPrecision,
        }
    );
    let both_increments = build(2, 3, Price::from_raw(0, 2), Quantity::from_raw(0, 3), None);
    assert_eq!(
        both_increments.unwrap_err(),
        InstrumentError::NonPositiveIncrement { field: Field::PriceIncrementRaw }
    );
}

#[test]
fn test_new_checked_succeeds_iff_consistent() {
    for price_precision in 0u8..4 {
        for size_precision in 0u8..4 {
            for price_raw in [-1i64, 0, 1] {
                for size_raw in [0u64, 1] {
                    let result = build(
                        price_precision,
                        size_precision,
                        Price::from_raw(price_raw, 2),
                        Quantity::from_raw(size_raw, 3),
                        None,
                    );
                    let expected =
                        price_precision == 2 && size_precision == 3 && price_raw > 0 && size_raw > 0;
                    assert_eq!(result.is_ok(), expected);
                }
            }
        }
    }
}

#[test]
fn test_absent_lot_size_is_one_unit() {
    let instrument = crypto_perpetual_ethusdt();
    assert_eq!(instrument.lot_size, Quantity::from_raw(1_000_000_000, 0));
    assert_eq!(instrument.lot_size, Quantity::from_units(1));
    assert_eq!(Instrument::lot_size(&instrument), Some(Quantity::from_units(1)));
}

#[test]
fn test_same_id_different_fees_are_equal() {
    let a = crypto_perpetual_ethusdt();
    let mut b = crypto_perpetual_ethusdt();
    b.maker_fee = Decimal::new(9, 1);
    b.taker_fee = Decimal::new(8, 1);
    b.is_inverse = true;
    b.ts_init = UnixNanos::from(99);
    assert!(a == b);
    assert_eq!(hash_of(&a), hash_of(&b));
}

#[test]
fn test_different_id_is_not_equal() {
    let a = crypto_perpetual_ethusdt();
    let mut other_symbol = crypto_perpetual_ethusdt();
    other_symbol.id = InstrumentId::new(Symbol::new(ustr("BTCUSDT-PERP")), Venue::new(ustr("BINANCE")));
    assert!(a != other_symbol);
    let mut other_venue = crypto_perpetual_ethusdt();
    other_venue.id = InstrumentId::new(Symbol::new(ustr("ETHUSDT-PERP")), Venue::new(ustr("BYBIT")));
    assert!(a != other_venue);
}

#[test]
fn test_instrument_hash_is_hash_of_id() {
    let instrument = crypto_perpetual_ethusdt();
    assert_eq!(hash_of(&instrument), hash_of(&instrument.id));
}

#[test]
fn test_identifier_equality() {
    assert!(Symbol::new(ustr("ETHUSDT")) == Symbol::new(ustr("ETHUSDT")));
    assert!(Symbol::new(ustr("ETHUSDT")) != Symbol::new(ustr("BTCUSDT")));
    assert!(Venue::new(ustr("BINANCE")) == Venue::new(ustr("BINANCE")));
    assert!(Venue::new(ustr("BINANCE")) != Venue::new(ustr("BYBIT")));
    assert!(ethusdt_id() == ethusdt_id());
    assert_eq!(hash_of(&ethusdt_id()), hash_of(&ethusdt_id()));
}

#[test]
fn test_aggregate_reports_what_the_definition_reports() {
    let instrument = crypto_perpetual_ethusdt();
    let any = instrument.into_any();
    assert_eq!(any.price_precision(), instrument.price_precision());
    assert_eq!(any.price_precision(), 2);
    assert_eq!(any.min_quantity(), instrument.min_quantity());
    assert_eq!(any.min_quantity(), Some(Quantity::from_raw(1_000_000, 3)));
    assert!(any.id() == instrument.id());
    assert!(any.id() == ethusdt_id());
}

#[test]
fn test_into_any_keeps_the_definition() {
    let instrument = crypto_perpetual_ethusdt();
    match instrument.into_any() {
        InstrumentAny::CryptoPerpetual(inner) => {
            assert!(inner == instrument);
            assert_eq!(inner.maker_fee, instrument.maker_fee);
            assert_eq!(inner.ts_init, instrument.ts_init);
        }
    }
    let any = instrument.into_any();
    assert!(any.into_any().id() == instrument.id);
}

#[test]
fn test_capability_interface() {
    let instrument = crypto_perpetual_ethusdt();
    assert!(Instrument::id(&instrument) == ethusdt_id());
    assert!(Instrument::raw_symbol(&instrument) == Symbol::new(ustr("ETHUSDT")));
    assert_eq!(instrument.asset_class(), AssetClass::Cryptocurrency);
    assert_eq!(instrument.instrument_class(), InstrumentClass::Swap);
    assert!(instrument.underlying().is_none());
    assert_eq!(Instrument::base_currency(&instrument).unwrap().code, ustr("ETH"));
    assert_eq!(Instrument::quote_currency(&instrument).code, ustr("USDT"));
    assert_eq!(Instrument::settlement_currency(&instrument).code, ustr("USDT"));
    assert!(instrument.isin().is_none());
    assert!(instrument.option_kind().is_none());
    assert!(instrument.exchange().is_none());
    assert!(instrument.strike_price().is_none());
    assert!(instrument.activation_ns().is_none());
    assert!(instrument.expiration_ns().is_none());
    assert!(!Instrument::is_inverse(&instrument));
    assert_eq!(Instrument::price_precision(&instrument), 2);
    assert_eq!(Instrument::size_precision(&instrument), 3);
    assert_eq!(Instrument::price_increment(&instrument), Price::from_raw(10_000_000, 2));
    assert_eq!(Instrument::size_increment(&instrument), Quantity::from_raw(1_000_000, 3));
    assert_eq!(instrument.multiplier(), Quantity::from_raw(1_000_000_000, 0));
    assert_eq!(
        Instrument::max_quantity(&instrument),
        Some(Quantity::from_raw(10_000_000_000_000, 3))
    );
    assert!(Instrument::max_notional(&instrument).is_none());
    assert_eq!(Instrument::min_notional(&instrument).unwrap().raw, 10_000_000_000);
    assert_eq!(Instrument::max_price(&instrument), Some(Price::from_raw(15_000_000_000_000, 2)));
    assert_eq!(Instrument::min_price(&instrument), Some(Price::from_raw(1_000_000_000, 2)));
    assert_eq!(Instrument::margin_init(&instrument), Decimal::new(1, 0));
    assert_eq!(Instrument::margin_maint(&instrument), Decimal::new(35, 2));
    assert_eq!(Instrument::maker_fee(&instrument), Decimal::new(2, 4));
    assert_eq!(Instrument::taker_fee(&instrument), Decimal::new(4, 4));
    assert_eq!(Instrument::ts_event(&instrument), UnixNanos::from(0));
    assert_eq!(Instrument::ts_init(&instrument), UnixNanos::from(0));
}

#[test]
fn test_aggregate_capability_interface() {
    let instrument = crypto_perpetual_ethusdt();
    let any = instrument.into_any();
    assert_eq!(any.asset_class(), AssetClass::Cryptocurrency);
    assert_eq!(any.instrument_class(), InstrumentClass::Swap);
    assert!(any.underlying().is_none());
    assert!(any.option_kind().is_none());
    assert!(any.expiration_ns().is_none());
    assert_eq!(any.base_currency().unwrap().code, ustr("ETH"));
    assert_eq!(any.size_precision(), 3);
    assert_eq!(any.multiplier(), Quantity::from_units(1));
    assert_eq!(any.lot_size(), Some(Quantity::from_units(1)));
    assert_eq!(any.taker_fee(), Decimal::new(4, 4));
    assert_eq!(any.ts_event(), UnixNanos::from(0));
}

#[test]
fn test_quantity_from_units() {
    assert_eq!(FIXED_SCALAR, 1_000_000_000);
    assert_eq!(Quantity::from_units(0), Quantity::from_raw(0, 0));
    assert_eq!(Quantity::from_units(3), Quantity::from_raw(3_000_000_000, 0));
    assert_eq!(
        Quantity::from_units(QUANTITY_MAX),
        Quantity::from_raw(18_446_744_073_000_000_000, 0)
    );
}

#[test]
fn test_checks() {
    assert_eq!(check_equal_u8(2, 2, Field::PricePrecision, Field::PriceIncrementPrecision), Ok(()));
    assert_eq!(
        check_equal_u8(2, 3, Field::SizePrecision, Field::SizeIncrementPrecision),
        Err(InstrumentError::PrecisionMismatch {
            field_a: Field::SizePrecision,
            field_b: Field::SizeIncrementPrecision,
        })
    );
    assert_eq!(check_positive_i64(1, Field::PriceIncrementRaw), Ok(()));
    assert_eq!(
        check_positive_i64(0, Field::PriceIncrementRaw),
        Err(InstrumentError::NonPositiveIncrement { field: Field::PriceIncrementRaw })
    );
    assert_eq!(
        check_positive_i64(i64::MIN, Field::PriceIncrementRaw),
        Err(InstrumentError::NonPositiveIncrement { field: Field::PriceIncrementRaw })
    );
    assert_eq!(check_positive_u64(u64::MAX, Field::SizeIncrementRaw), Ok(()));
    assert_eq!(
        check_positive_u64(0, Field::SizeIncrementRaw),
        Err(InstrumentError::NonPositiveIncrement { field: Field::SizeIncrementRaw })
    );
}

#[test]
fn test_field_names() {
    assert_eq!(Field::PricePrecision.name(), "price_precision");
    assert_eq!(Field::PriceIncrementPrecision.name(), "price_increment.precision");
    assert_eq!(Field::SizePrecision.name(), "size_precision");
    assert_eq!(Field::SizeIncrementPrecision.name(), "size_increment.precision");
    assert_eq!(Field::PriceIncrementRaw.name(), "price_increment.raw");
    assert_eq!(Field::SizeIncrementRaw.name(), "size_increment.raw");
}
