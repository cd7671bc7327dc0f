//! Nanosecond-resolution timestamps counted from the UNIX epoch.

use crate::error::TimestampError;
use std::cmp::Ordering;
use vstd::prelude::*;

verus! {

/// A timestamp in nanoseconds since the UNIX epoch.
#[derive(Clone, Copy, Debug, Hash, Ord)]
pub struct UnixNanos(pub u64);

/// An event timestamp in nanoseconds since the UNIX epoch.
pub type TsEvent = UnixNanos;

/// An initialization timestamp in nanoseconds since the UNIX epoch.
pub type TsInit = UnixNanos;

/// A signed span of time in nanoseconds.
pub type TimedeltaNanos = i64;

impl View for UnixNanos {
    type V = nat;

    /// The number of nanoseconds since the epoch.
    open spec fn view(&self) -> nat {
        self.0 as nat
    }
}

/// The character that writes the digit `d`.
pub open spec fn digit_char(d: nat) -> char {
    seq!['0', '1', '2', '3', '4', '5', '6', '7', '8', '9'][d as int]
}

/// The decimal digits of `n`, the most significant first, with no leading
/// zero but for zero itself.
pub open spec fn decimal_digits(n: nat) -> Seq<char>
    decreases n,
{
    if n < 10 {
        seq![digit_char(n)]
    } else {
        decimal_digits(n / 10).push(digit_char(n % 10))
    }
}

/// Writes an integer in decimal with `u64`'s `ToString`, which gives its
/// digits without sign, padding or leading zeros.
#[verifier::external_body]
fn u64_to_string(value: u64) -> (r: String)
    ensures
        r@ == decimal_digits(value as nat),
{
    value.to_string()
}

/// How `a` stands to `b` in the order of the integers.
pub open spec fn order_of(a: u64, b: u64) -> Ordering {
    if a < b {
        Ordering::Less
    } else if a == b {
        Ordering::Equal
    } else {
        Ordering::Greater
    }
}

/// How a timestamp stands to a count that may be absent: an absent count
/// is below every timestamp.
pub open spec fn order_of_optional(a: u64, b: Option<u64>) -> Ordering {
    match b {
        Some(value) => order_of(a, value),
        None => Ordering::Greater,
    }
}

/// How `a` stands to `b` in the order of the integers.
pub fn order(a: u64, b: u64) -> (r: Ordering)
    ensures
        r == order_of(a, b),
{
    if a < b {
        Ordering::Less
    } else if a == b {
        Ordering::Equal
    } else {
        Ordering::Greater
    }
}

impl UnixNanos {
    /// The count of nanoseconds as a plain integer.
    #[must_use]
    pub fn as_u64(&self) -> (r: u64)
        ensures
            r == self.0,
            r == self@,
    {
        self.0
    }

    /// The count of nanoseconds written in decimal.
    pub fn to_string(&self) -> (r: String)
        ensures
            r@ == decimal_digits(self@),
    {
        u64_to_string(self.0)
    }

    /// The sum of two timestamps, or `None` where it does not fit in 64
    /// bits.
    pub fn checked_add(self, rhs: UnixNanos) -> (r: Option<UnixNanos>)
        ensures
            self@ + rhs@ <= u64::MAX ==> r.is_some() && r.unwrap()@ == self@ + rhs@,
            self@ + rhs@ > u64::MAX ==> r.is_none(),
    {
        if rhs.0 <= u64::MAX - self.0 {
            Some(UnixNanos(self.0 + rhs.0))
        } else {
            None
        }
    }

    /// The difference of two timestamps; taking a later time from an
    /// earlier one is an error, never a wrapped value.
    pub fn checked_sub(self, rhs: UnixNanos) -> (r: Result<UnixNanos, TimestampError>)
        ensures
            r == spec_checked_sub(self, rhs),
    {
        if rhs.0 <= self.0 {
            Ok(UnixNanos(self.0 - rhs.0))
        } else {
            Err(TimestampError::TimestampUnderflow)
        }
    }

    /// Moves the timestamp forward by `other` nanoseconds.
    pub fn add_assign(&mut self, other: u64)
        requires
            old(self)@ + other <= u64::MAX,
        ensures
            final(self)@ == old(self)@ + other,
    {
        self.0 = self.0 + other;
    }

    /// Moves the timestamp back by `other` nanoseconds.
    pub fn sub_assign(&mut self, other: u64)
        requires
            other <= old(self)@,
        ensures
            final(self)@ == old(self)@ - other,
    {
        self.0 = self.0 - other;
    }

    /// Scales the timestamp by `other`.
    pub fn mul_assign(&mut self, other: u64)
        requires
            old(self)@ * other <= u64::MAX,
        ensures
            final(self)@ == old(self)@ * other,
    {
        self.0 = self.0 * other;
    }
}

/// The difference `a - b` where `b` is not after `a`, and the underflow
/// error otherwise.
pub open spec fn spec_checked_sub(a: UnixNanos, b: UnixNanos) -> Result<UnixNanos, TimestampError> {
    if b.0 <= a.0 {
        Ok(UnixNanos((a.0 - b.0) as u64))
    } else {
        Err(TimestampError::TimestampUnderflow)
    }
}

/// Taking an earlier timestamp from a later one always succeeds and gives
/// their distance, which is never negative; taking a later one from a
/// strictly earlier one is the underflow error.
pub proof fn lemma_sub_defined_iff_ordered(t1: UnixNanos, t2: UnixNanos)
    requires
        t1@ <= t2@,
    ensures
        spec_checked_sub(t2, t1) is Ok,
        spec_checked_sub(t2, t1)->Ok_0@ == t2@ - t1@,
        spec_checked_sub(t2, t1)->Ok_0@ >= 0,
        t1@ < t2@ ==> spec_checked_sub(t1, t2) == Err::<UnixNanos, TimestampError>(
            TimestampError::TimestampUnderflow,
        ),
{
}

impl Default for UnixNanos {
    fn default() -> (r: UnixNanos)
        ensures
            r@ == 0,
    {
        UnixNanos(0)
    }
}

impl PartialEq for UnixNanos {
    fn eq(&self, other: &UnixNanos) -> (r: bool) {
        self.0 == other.0
    }
}

impl Eq for UnixNanos {}

impl vstd::std_specs::cmp::PartialEqSpecImpl for UnixNanos {
    open spec fn obeys_eq_spec() -> bool {
        true
    }

    open spec fn eq_spec(&self, other: &UnixNanos) -> bool {
        self.0 == other.0
    }
}

impl PartialOrd for UnixNanos {
    fn partial_cmp(&self, other: &UnixNanos) -> (r: Option<Ordering>) {
        Some(order(self.0, other.0))
    }
}

impl vstd::std_specs::cmp::PartialOrdSpecImpl for UnixNanos {
    open spec fn obeys_partial_cmp_spec() -> bool {
        true
    }

    open spec fn partial_cmp_spec(&self, other: &UnixNanos) -> Option<Ordering> {
        Some(order_of(self.0, other.0))
    }
}

impl PartialEq<u64> for UnixNanos {
    fn eq(&self, other: &u64) -> (r: bool) {
        self.0 == *other
    }
}

impl vstd::std_specs::cmp::PartialEqSpecImpl<u64> for UnixNanos {
    open spec fn obeys_eq_spec() -> bool {
        true
    }

    open spec fn eq_spec(&self, other: &u64) -> bool {
        self.0 == *other
    }
}

impl PartialOrd<u64> for UnixNanos {
    fn partial_cmp(&self, other: &u64) -> (r: Option<Ordering>) {
        Some(order(self.0, *other))
    }
}

impl vstd::std_specs::cmp::PartialOrdSpecImpl<u64> for UnixNanos {
    open spec fn obeys_partial_cmp_spec() -> bool {
        true
    }

    open spec fn partial_cmp_spec(&self, other: &u64) -> Option<Ordering> {
        Some(order_of(self.0, *other))
    }
}

impl PartialEq<Option<u64>> for UnixNanos {
    fn eq(&self, other: &Option<u64>) -> (r: bool) {
        match other {
            Some(value) => self.0 == *value,
            None => false,
        }
    }
}

impl vstd::std_specs::cmp::PartialEqSpecImpl<Option<u64>> for UnixNanos {
    open spec fn obeys_eq_spec() -> bool {
        true
    }

    open spec fn eq_spec(&self, other: &Option<u64>) -> bool {
        *other == Some(self.0)
    }
}

impl PartialOrd<Option<u64>> for UnixNanos {
    fn partial_cmp(&self, other: &Option<u64>) -> (r: Option<Ordering>) {
        match other {
            Some(value) => Some(order(self.0, *value)),
            None => Some(Ordering::Greater),
        }
    }
}

impl vstd::std_specs::cmp::PartialOrdSpecImpl<Option<u64>> for UnixNanos {
    open spec fn obeys_partial_cmp_spec() -> bool {
        true
    }

    open spec fn partial_cmp_spec(&self, other: &Option<u64>) -> Option<Ordering> {
        Some(order_of_optional(self.0, *other))
    }
}

impl From<u64> for UnixNanos {
    fn from(value: u64) -> (r: UnixNanos) {
        UnixNanos(value)
    }
}

impl vstd::std_specs::convert::FromSpecImpl<u64> for UnixNanos {
    open spec fn obeys_from_spec() -> bool {
        true
    }

    open spec fn from_spec(value: u64) -> UnixNanos {
        UnixNanos(value)
    }
}

impl From<UnixNanos> for u64 {
    fn from(value: UnixNanos) -> (r: u64) {
        value.0
    }
}

impl vstd::std_specs::convert::FromSpecImpl<UnixNanos> for u64 {
    open spec fn obeys_from_spec() -> bool {
        true
    }

    open spec fn from_spec(value: UnixNanos) -> u64 {
        value.0
    }
}

impl std::ops::Deref for UnixNanos {
    type Target = u64;

    fn deref(&self) -> (r: &u64)
        ensures
            *r == self.0,
    {
        &self.0
    }
}

impl std::ops::Add for UnixNanos {
    type Output = UnixNanos;

    fn add(self, rhs: UnixNanos) -> (r: UnixNanos) {
        UnixNanos(self.0 + rhs.0)
    }
}

impl vstd::std_specs::ops::AddSpecImpl for UnixNanos {
    open spec fn obeys_add_spec() -> bool {
        true
    }

    open spec fn add_req(self, rhs: UnixNanos) -> bool {
        self.0 + rhs.0 <= u64::MAX
    }

    open spec fn add_spec(self, rhs: UnixNanos) -> UnixNanos {
        UnixNanos((self.0 + rhs.0) as u64)
    }
}

impl std::ops::Sub for UnixNanos {
    type Output = UnixNanos;

    fn sub(self, rhs: UnixNanos) -> (r: UnixNanos) {
        UnixNanos(self.0 - rhs.0)
    }
}

impl vstd::std_specs::ops::SubSpecImpl for UnixNanos {
    open spec fn obeys_sub_spec() -> bool {
        true
    }

    open spec fn sub_req(self, rhs: UnixNanos) -> bool {
        rhs.0 <= self.0
    }

    open spec fn sub_spec(self, rhs: UnixNanos) -> UnixNanos {
        UnixNanos((self.0 - rhs.0) as u64)
    }
}

} // verus!
