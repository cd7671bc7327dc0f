//! Closed classifications used by instrument definitions.

use vstd::prelude::*;

verus! {

/// The broad asset class an instrument belongs to.
#[derive(Clone, Copy, Debug, PartialEq, Eq, Structural, Hash)]
pub enum AssetClass {
    FX,
    Equity,
    Commodity,
    Debt,
    Index,
    Cryptocurrency,
    Alternative,
}

/// The contract shape of an instrument.
#[derive(Clone, Copy, Debug, PartialEq, Eq, Structural, Hash)]
pub enum InstrumentClass {
    Spot,
    Swap,
    Future,
    FutureSpread,
    Forward,
    Cfd,
    Bond,
    Option,
    OptionSpread,
    Warrant,
    SportsBetting,
}

/// Whether an option is a call or a put.
#[derive(Clone, Copy, Debug, PartialEq, Eq, Structural, Hash)]
pub enum OptionKind {
    Call,
    Put,
}

/// The kind of money a currency denotes.
#[derive(Clone, Copy, Debug, PartialEq, Eq, Structural, Hash)]
pub enum CurrencyType {
    Crypto,
    Fiat,
    CommodityBacked,
}

} // verus!
