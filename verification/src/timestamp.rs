//! Instants, counted in nanoseconds since the Unix epoch.

use k8s_openapi::jiff;
use vstd::prelude::*;

use crate::duration::NANOS_PER_SEC;

verus! {

/// The earliest instant, in nanoseconds since the Unix epoch.
pub const MIN_NANOSECOND: i128 = -377_705_023_201_000_000_000;

/// The latest instant, in nanoseconds since the Unix epoch.
pub const MAX_NANOSECOND: i128 = 253_402_207_200_999_999_999;

/// Whether `nanosecond` nanoseconds since the Unix epoch is a supported instant.
pub open spec fn in_range(nanosecond: int) -> bool {
    MIN_NANOSECOND <= nanosecond <= MAX_NANOSECOND
}

/// An instant in the range that `jiff::Timestamp` supports.
///
/// The view is the number of nanoseconds since the Unix epoch.
#[derive(Clone, Copy, Debug, PartialEq, Eq, Structural)]
pub struct Timestamp {
    nanosecond: i128,
}

impl View for Timestamp {
    type V = int;

    closed spec fn view(&self) -> int {
        self.nanosecond as int
    }
}

impl Timestamp {
    /// Every instant is in range.
    #[verifier::type_invariant]
    pub closed spec fn wf(self) -> bool {
        in_range(self.nanosecond as int)
    }

    /// The instant `nanosecond` nanoseconds after the Unix epoch, if it is in
    /// range.
    pub fn from_nanosecond(nanosecond: i128) -> (res: Option<Self>)
        ensures
            res is Some <==> in_range(nanosecond as int),
            res matches Some(t) ==> t@ == nanosecond,
    {
        if MIN_NANOSECOND <= nanosecond && nanosecond <= MAX_NANOSECOND {
            Some(Timestamp { nanosecond })
        } else {
            None
        }
    }

    /// Nanoseconds since the Unix epoch.
    pub fn as_nanosecond(&self) -> (res: i128)
        ensures
            res == self@,
            in_range(res as int),
    {
        proof {
            use_type_invariant(self);
        }
        self.nanosecond
    }

    /// The instant `seconds` seconds later, if it is in range.
    pub fn checked_add_seconds(&self, seconds: i64) -> (res: Option<Self>)
        ensures
            res is Some <==> in_range(self@ + seconds * NANOS_PER_SEC),
            res matches Some(t) ==> t@ == self@ + seconds * NANOS_PER_SEC,
    {
        proof {
            use_type_invariant(self);
        }
        match nanosecond_checked_add(self.nanosecond, seconds) {
            Some(nanosecond) => Some(Timestamp { nanosecond }),
            None => None,
        }
    }

    /// Whether this instant comes before `other`.
    pub fn is_before(&self, other: &Timestamp) -> (res: bool)
        ensures
            res == (self@ < other@),
    {
        self.nanosecond < other.nanosecond
    }
}

/// Calls `jiff::Timestamp::checked_add` with a `jiff::SignedDuration` of
/// `seconds` whole seconds. The sum is exact, and the call fails only where
/// the sum is outside of `jiff::Timestamp::MIN` and `jiff::Timestamp::MAX`.
#[verifier::external_body]
fn nanosecond_checked_add(nanosecond: i128, seconds: i64) -> (res: Option<i128>)
    requires
        in_range(nanosecond as int),
    ensures
        res is Some <==> in_range(nanosecond + seconds * NANOS_PER_SEC),
        res matches Some(sum) ==> sum == nanosecond + seconds * NANOS_PER_SEC,
{
    let start = jiff::Timestamp::from_nanosecond(nanosecond).ok()?;
    let end = start.checked_add(jiff::SignedDuration::from_secs(seconds)).ok()?;
    Some(end.as_nanosecond())
}

} // verus!
