//! Points and distances on a monotonic clock, in whole nanoseconds.

use vstd::prelude::*;

verus! {

/// Nanoseconds in one second.
pub const NANOS_PER_SEC: u128 = 1_000_000_000;

/// A reading of a monotonic clock: nanoseconds since an origin that the caller fixes
/// once, such as the moment the monitor was started.
#[derive(Clone, Copy, Debug, PartialEq, Eq, Hash, Structural)]
pub struct Timestamp {
    pub nanos: u128,
}

/// A length of time in nanoseconds.
#[derive(Clone, Copy, Debug, PartialEq, Eq, Hash, Structural)]
pub struct Span {
    pub nanos: u128,
}

/// The time from `earlier` to `later`, or zero where `later` is not after `earlier`.
pub open spec fn elapsed_between(earlier: Timestamp, later: Timestamp) -> Span {
    if later.nanos >= earlier.nanos {
        Span { nanos: (later.nanos - earlier.nanos) as u128 }
    } else {
        Span { nanos: 0 }
    }
}

impl Timestamp {
    /// The reading `nanos` nanoseconds after the clock's origin.
    pub fn from_nanos(nanos: u128) -> (t: Timestamp)
        ensures
            t.nanos == nanos,
    {
        Timestamp { nanos }
    }

    /// The reading `secs` whole seconds after the clock's origin.
    pub fn from_secs(secs: u64) -> (t: Timestamp)
        ensures
            t.nanos == secs * NANOS_PER_SEC,
    {
        Timestamp { nanos: (secs as u128) * NANOS_PER_SEC }
    }

    /// Time that has passed since `earlier`. A clock that stepped back yields zero,
    /// never a negative or wrapped value.
    pub fn saturating_duration_since(&self, earlier: &Timestamp) -> (d: Span)
        ensures
            d == elapsed_between(*earlier, *self),
    {
        if self.nanos >= earlier.nanos {
            Span { nanos: self.nanos - earlier.nanos }
        } else {
            Span { nanos: 0 }
        }
    }
}

impl Span {
    /// A span of `nanos` nanoseconds.
    pub fn from_nanos(nanos: u128) -> (d: Span)
        ensures
            d.nanos == nanos,
    {
        Span { nanos }
    }

    /// A span of `secs` whole seconds.
    pub fn from_secs(secs: u64) -> (d: Span)
        ensures
            d.nanos == secs * NANOS_PER_SEC,
    {
        Span { nanos: (secs as u128) * NANOS_PER_SEC }
    }

    /// The whole seconds in this span.
    pub fn whole_secs(&self) -> (secs: u128)
        ensures
            secs == self.nanos / NANOS_PER_SEC,
    {
        self.nanos / NANOS_PER_SEC
    }

    /// The nanoseconds of this span beyond its whole seconds.
    pub fn subsec_nanos(&self) -> (nanos: u32)
        ensures
            nanos == self.nanos % NANOS_PER_SEC,
    {
        (self.nanos % NANOS_PER_SEC) as u32
    }

    /// Whether this span is strictly longer than `limit`.
    pub fn exceeds(&self, limit: &Span) -> (over: bool)
        ensures
            over == (self.nanos > limit.nanos),
    {
        self.nanos > limit.nanos
    }
}

} // verus!
