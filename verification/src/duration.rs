//! Spans of time, counted in whole nanoseconds.

use vstd::prelude::*;

verus! {

/// Nanoseconds in one second.
pub const NANOS_PER_SEC: u128 = 1_000_000_000;

/// Nanoseconds in one millisecond.
pub const NANOS_PER_MILLI: u128 = 1_000_000;

/// The longest span: `u64::MAX` seconds and 999,999,999 nanoseconds.
pub const MAX_NANOS: u128 = 18_446_744_073_709_551_615_999_999_999;

/// A span of time. A well-formed one has as many whole seconds as fit a `u64`.
#[derive(Clone, Copy, Debug, PartialEq, Eq, Structural)]
pub struct Duration {
    pub nanos: u128,
}

impl Duration {
    /// The span lies in the range of the standard library's durations.
    pub open spec fn wf(self) -> bool {
        self.nanos <= MAX_NANOS
    }

    /// `secs` seconds and `subsec_nanos` nanoseconds.
    pub fn new(secs: u64, subsec_nanos: u32) -> (span: Self)
        requires
            secs * NANOS_PER_SEC + subsec_nanos <= MAX_NANOS,
        ensures
            span.wf(),
            span.nanos == secs * NANOS_PER_SEC + subsec_nanos,
    {
        Duration { nanos: secs as u128 * NANOS_PER_SEC + subsec_nanos as u128 }
    }

    /// `secs` whole seconds.
    pub fn from_secs(secs: u64) -> (span: Self)
        ensures
            span.wf(),
            span.nanos == secs * NANOS_PER_SEC,
    {
        Duration { nanos: secs as u128 * NANOS_PER_SEC }
    }

    /// `millis` whole milliseconds.
    pub fn from_millis(millis: u64) -> (span: Self)
        ensures
            span.wf(),
            span.nanos == millis * NANOS_PER_MILLI,
    {
        Duration { nanos: millis as u128 * NANOS_PER_MILLI }
    }

    /// The whole seconds of a span.
    pub fn as_secs(&self) -> (secs: u64)
        requires
            self.wf(),
        ensures
            secs == self.nanos / NANOS_PER_SEC,
    {
        (self.nanos / NANOS_PER_SEC) as u64
    }

    /// What a span has beyond its whole seconds, in nanoseconds.
    pub fn subsec_nanos(&self) -> (nanos: u32)
        ensures
            nanos == self.nanos % NANOS_PER_SEC,
    {
        (self.nanos % NANOS_PER_SEC) as u32
    }

    /// The sum of two spans that stays in range.
    pub fn plus(&self, other: Duration) -> (sum: Self)
        requires
            self.nanos + other.nanos <= MAX_NANOS,
        ensures
            sum.wf(),
            sum.nanos == self.nanos + other.nanos,
    {
        Duration { nanos: self.nanos + other.nanos }
    }

    /// What is left of a span after `other`: nothing, if `other` is longer.
    pub fn saturating_sub(&self, other: Duration) -> (rest: Self)
        ensures
            self.wf() ==> rest.wf(),
            rest.nanos == if self.nanos >= other.nanos {
                self.nanos - other.nanos
            } else {
                0
            },
    {
        if self.nanos >= other.nanos {
            Duration { nanos: self.nanos - other.nanos }
        } else {
            Duration { nanos: 0 }
        }
    }

    /// The shorter of two spans.
    pub fn min(&self, other: Duration) -> (shorter: Self)
        ensures
            shorter == if other.nanos < self.nanos {
                other
            } else {
                *self
            },
    {
        if other.nanos < self.nanos {
            other
        } else {
            *self
        }
    }
}

} // verus!
