//! Points in time and the spans between them, counted in nanoseconds.

use vstd::prelude::*;

verus! {

/// Nanoseconds in one second.
pub const NANOS_PER_SEC: u128 = 1_000_000_000;

/// A point in time: nanoseconds since an origin that the caller fixes (the Unix
/// epoch for wall-clock times, the start of the process for monotonic ones).
#[derive(Clone, Copy, Debug, PartialEq, Eq, Structural)]
pub struct Timestamp {
    pub nanos: u128,
}

/// A span of time in nanoseconds.
#[derive(Clone, Copy, Debug, PartialEq, Eq, Structural)]
pub struct Span {
    pub nanos: u128,
}

impl Timestamp {
    /// The time elapsed from `earlier` to `self`; zero when `earlier` is the later
    /// of the two.
    pub open spec fn elapsed_since(self, earlier: Timestamp) -> Span {
        if self.nanos >= earlier.nanos {
            Span { nanos: (self.nanos - earlier.nanos) as u128 }
        } else {
            Span { nanos: 0 }
        }
    }

    /// The timestamp `secs` seconds and `nanos` nanoseconds after the origin.
    pub fn new(secs: u64, nanos: u32) -> (t: Timestamp)
        ensures
            t.nanos == secs * NANOS_PER_SEC + nanos,
    {
        let whole: u128 = secs as u128 * NANOS_PER_SEC;
        Timestamp { nanos: whole + nanos as u128 }
    }

    /// The time elapsed from `earlier` to `self`, or nothing when `earlier` is the
    /// later of the two.
    pub fn saturating_since(&self, earlier: Timestamp) -> (d: Span)
        ensures
            d == self.elapsed_since(earlier),
    {
        if self.nanos >= earlier.nanos {
            Span { nanos: self.nanos - earlier.nanos }
        } else {
            Span { nanos: 0 }
        }
    }

    /// Whole seconds since the origin.
    pub fn secs(&self) -> (s: u128)
        ensures
            s == self.nanos / NANOS_PER_SEC,
    {
        self.nanos / NANOS_PER_SEC
    }

    /// Nanoseconds past the last whole second.
    pub fn subsec_nanos(&self) -> (n: u32)
        ensures
            n == self.nanos % NANOS_PER_SEC,
    {
        (self.nanos % NANOS_PER_SEC) as u32
    }
}

impl Span {
    /// A span of `secs` whole seconds.
    pub fn from_secs(secs: u64) -> (d: Span)
        ensures
            d.nanos == secs * NANOS_PER_SEC,
    {
        Span { nanos: secs as u128 * NANOS_PER_SEC }
    }

    /// Whole seconds in the span, the remainder dropped.
    pub fn as_secs(&self) -> (s: u128)
        ensures
            s == self.nanos / NANOS_PER_SEC,
    {
        self.nanos / NANOS_PER_SEC
    }
}

} // verus!
