//! Spans of time, counted in whole nanoseconds.

use vstd::prelude::*;

verus! {

/// Nanoseconds in a second.
pub const NANOS_PER_SEC: u32 = 1_000_000_000;

/// Nanoseconds in a millisecond.
pub const NANOS_PER_MILLI: u32 = 1_000_000;

/// Milliseconds in a second.
pub const MILLIS_PER_SEC: u64 = 1_000;

/// A span of time: whole seconds and the nanoseconds left over.
///
/// The view is the length of the span in nanoseconds.
#[derive(Clone, Copy, Debug, PartialEq, Eq, Structural)]
pub struct Duration {
    secs: u64,
    nanos: u32,
}

impl View for Duration {
    type V = nat;

    closed spec fn view(&self) -> nat {
        self.secs as nat * NANOS_PER_SEC as nat + self.nanos as nat
    }
}

impl Duration {
    /// The leftover nanoseconds never reach a full second.
    #[verifier::type_invariant]
    pub closed spec fn wf(self) -> bool {
        self.nanos < NANOS_PER_SEC
    }

    /// A span of `secs` seconds and `nanos` nanoseconds.
    pub fn new(secs: u64, nanos: u32) -> (res: Self)
        requires
            secs + nanos / NANOS_PER_SEC <= u64::MAX,
        ensures
            res@ == secs * NANOS_PER_SEC + nanos,
    {
        Duration { secs: secs + (nanos / NANOS_PER_SEC) as u64, nanos: nanos % NANOS_PER_SEC }
    }

    /// A span of `secs` seconds.
    pub fn from_secs(secs: u64) -> (res: Self)
        ensures
            res@ == secs * NANOS_PER_SEC,
    {
        Duration { secs, nanos: 0 }
    }

    /// A span of `millis` milliseconds.
    pub fn from_millis(millis: u64) -> (res: Self)
        ensures
            res@ == millis * NANOS_PER_MILLI,
    {
        let secs: u64 = millis / MILLIS_PER_SEC;
        let rest: u64 = millis % MILLIS_PER_SEC;
        Duration { secs, nanos: rest as u32 * NANOS_PER_MILLI }
    }

    /// The whole seconds of the span.
    pub fn as_secs(&self) -> (res: u64)
        ensures
            res == self@ / NANOS_PER_SEC as nat,
    {
        proof {
            use_type_invariant(self);
        }
        self.secs
    }

    /// The nanoseconds left over after the whole seconds.
    pub fn subsec_nanos(&self) -> (res: u32)
        ensures
            res == self@ % NANOS_PER_SEC as nat,
    {
        proof {
            use_type_invariant(self);
        }
        self.nanos
    }

    /// The whole milliseconds of the span.
    pub fn as_millis(&self) -> (res: u128)
        ensures
            res == self@ / NANOS_PER_MILLI as nat,
    {
        proof {
            use_type_invariant(self);
        }
        let rest: u32 = self.nanos / NANOS_PER_MILLI;
        self.secs as u128 * 1_000 + rest as u128
    }

    /// Whether the span is empty.
    pub fn is_zero(&self) -> (res: bool)
        ensures
            res == (self@ == 0),
    {
        self.secs == 0 && self.nanos == 0
    }

    /// Whether the span is at most as long as `other`.
    pub fn at_most(&self, other: &Duration) -> (res: bool)
        ensures
            res == (self@ <= other@),
    {
        proof {
            use_type_invariant(self);
            use_type_invariant(other);
        }
        self.secs < other.secs || (self.secs == other.secs && self.nanos <= other.nanos)
    }

    /// The shorter of two spans.
    pub fn min(self, other: Duration) -> (res: Self)
        ensures
            res == if self@ <= other@ { self } else { other },
    {
        if self.at_most(&other) {
            self
        } else {
            other
        }
    }

    /// A span twice as long.
    pub fn doubled(&self) -> (res: Self)
        requires
            2 * self@ < (u64::MAX + 1) * NANOS_PER_SEC,
        ensures
            res@ == 2 * self@,
    {
        proof {
            use_type_invariant(self);
        }
        let nanos: u32 = 2 * self.nanos;
        if nanos < NANOS_PER_SEC {
            Duration { secs: 2 * self.secs, nanos }
        } else {
            Duration { secs: 2 * self.secs + 1, nanos: nanos - NANOS_PER_SEC }
        }
    }

    /// How the span is written in messages, such as `1.5s` or `500ms`.
    pub open spec fn text(self) -> Seq<char> {
        duration_debug_text(
            (self@ / NANOS_PER_SEC as nat) as u64,
            (self@ % NANOS_PER_SEC as nat) as u32,
        )
    }

    /// The span as it is written in messages.
    pub fn to_text(&self) -> (res: String)
        ensures
            res@ == self.text(),
    {
        let secs: u64 = self.as_secs();
        let nanos: u32 = self.subsec_nanos();
        duration_debug(secs, nanos)
    }
}

/// The text that `{:?}` gives for a `std::time::Duration` of `secs` seconds and
/// `nanos` nanoseconds.
pub uninterp spec fn duration_debug_text(secs: u64, nanos: u32) -> Seq<char>;

/// Formats the `std::time::Duration` of `secs` seconds and `nanos` nanoseconds
/// with its `Debug` impl. The text depends on the two numbers alone; what it
/// reads like is not stated.
#[verifier::external_body]
fn duration_debug(secs: u64, nanos: u32) -> (res: String)
    requires
        nanos < NANOS_PER_SEC,
    ensures
        res@ == duration_debug_text(secs, nanos),
{
    format!("{:?}", std::time::Duration::new(secs, nanos))
}

/// A second has a thousand milliseconds of a million nanoseconds each.
pub proof fn law_units()
    ensures
        NANOS_PER_SEC == 1_000_000_000,
        NANOS_PER_MILLI == 1_000_000,
        MILLIS_PER_SEC == 1_000,
{
}

} // verus!
