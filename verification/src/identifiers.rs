//! Identifiers of instruments: interned symbol and venue names.

use ustr::Ustr;
use vstd::prelude::*;

verus! {

/// `ustr::Ustr`, a copyable handle to a string in the process-wide string
/// cache. It is carried as an opaque value: nothing is claimed of what it
/// holds.
#[verifier::external_type_specification]
#[verifier::external_body]
pub struct ExUstr(Ustr);

/// Compares two interned strings with `Ustr`'s `==`.
///
/// A `Ustr` is a handle to one entry of the process-wide string cache, and
/// its `==` compares the handles themselves: the result is `true` exactly
/// when the two values are the same handle.
#[verifier::external_body]
pub(crate) fn ustr_eq(a: &Ustr, b: &Ustr) -> (r: bool)
    ensures
        r == (*a == *b),
{
    a == b
}

/// Feeds an interned string to a hasher with `Ustr`'s `Hash` impl, which
/// writes the hash value that the string cache computed for the string.
/// Nothing is claimed of the hasher's state afterwards.
#[verifier::external_body]
pub(crate) fn ustr_hash<H: std::hash::Hasher>(value: &Ustr, state: &mut H) {
    std::hash::Hash::hash(value, state);
}

/// The exchange-native ticker of an instrument.
#[derive(Clone, Copy, Debug)]
pub struct Symbol {
    pub value: Ustr,
}

/// The trading venue on which an instrument is listed.
#[derive(Clone, Copy, Debug)]
pub struct Venue {
    pub value: Ustr,
}

/// The unique identifier of an instrument: its symbol on a venue.
#[derive(Clone, Copy, Debug)]
pub struct InstrumentId {
    pub symbol: Symbol,
    pub venue: Venue,
}

impl Symbol {
    /// Wraps an interned ticker.
    pub fn new(value: Ustr) -> (r: Symbol)
        ensures
            r.value == value,
    {
        Symbol { value }
    }
}

impl Venue {
    /// Wraps an interned venue name.
    pub fn new(value: Ustr) -> (r: Venue)
        ensures
            r.value == value,
    {
        Venue { value }
    }
}

impl InstrumentId {
    /// Pairs a symbol with the venue it trades on.
    pub fn new(symbol: Symbol, venue: Venue) -> (r: InstrumentId)
        ensures
            r.symbol == symbol,
            r.venue == venue,
    {
        InstrumentId { symbol, venue }
    }
}

impl PartialEq for Symbol {
    fn eq(&self, other: &Symbol) -> (r: bool) {
        ustr_eq(&self.value, &other.value)
    }
}

impl Eq for Symbol {}

impl std::hash::Hash for Symbol {
    fn hash<H: std::hash::Hasher>(&self, state: &mut H) {
        ustr_hash(&self.value, state);
    }
}

impl vstd::std_specs::cmp::PartialEqSpecImpl for Symbol {
    open spec fn obeys_eq_spec() -> bool {
        true
    }

    open spec fn eq_spec(&self, other: &Symbol) -> bool {
        *self == *other
    }
}

impl PartialEq for Venue {
    fn eq(&self, other: &Venue) -> (r: bool) {
        ustr_eq(&self.value, &other.value)
    }
}

impl Eq for Venue {}

impl std::hash::Hash for Venue {
    fn hash<H: std::hash::Hasher>(&self, state: &mut H) {
        ustr_hash(&self.value, state);
    }
}

impl vstd::std_specs::cmp::PartialEqSpecImpl for Venue {
    open spec fn obeys_eq_spec() -> bool {
        true
    }

    open spec fn eq_spec(&self, other: &Venue) -> bool {
        *self == *other
    }
}

impl PartialEq for InstrumentId {
    fn eq(&self, other: &InstrumentId) -> (r: bool) {
        self.symbol == other.symbol && self.venue == other.venue
    }
}

impl Eq for InstrumentId {}

impl std::hash::Hash for InstrumentId {
    fn hash<H: std::hash::Hasher>(&self, state: &mut H) {
        self.symbol.hash(state);
        self.venue.hash(state);
    }
}

impl vstd::std_specs::cmp::PartialEqSpecImpl for InstrumentId {
    open spec fn obeys_eq_spec() -> bool {
        true
    }

    open spec fn eq_spec(&self, other: &InstrumentId) -> bool {
        *self == *other
    }
}

} // verus!
