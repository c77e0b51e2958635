//! Lengths of time with nanosecond precision.

use vstd::prelude::*;

verus! {

/// A length of time: whole seconds and the nanoseconds beyond them.
#[derive(Clone, Copy, Debug, PartialEq, Eq, Structural)]
pub struct TimeSpan {
    /// Whole seconds.
    pub secs: u64,
    /// Nanoseconds beyond the whole seconds.
    pub nanos: u32,
}

impl TimeSpan {
    /// The length in nanoseconds.
    pub open spec fn as_nanos(self) -> int {
        self.secs * 1_000_000_000 + self.nanos
    }

    /// The whole milliseconds of the length.
    pub open spec fn millis(self) -> int {
        self.as_nanos() / 1_000_000
    }

    /// So many seconds.
    pub fn from_secs(secs: u64) -> (r: TimeSpan)
        ensures
            r.as_nanos() == secs * 1_000_000_000,
            r == (TimeSpan { secs, nanos: 0 }),
    {
        TimeSpan { secs, nanos: 0 }
    }

    /// So many milliseconds.
    pub fn from_millis(millis: u64) -> (r: TimeSpan)
        ensures
            r.as_nanos() == millis * 1_000_000,
            r.millis() == millis,
    {
        TimeSpan { secs: millis / 1_000, nanos: ((millis % 1_000) * 1_000_000) as u32 }
    }

    /// So many nanoseconds.
    pub fn from_nanos(nanos: u64) -> (r: TimeSpan)
        ensures
            r.as_nanos() == nanos,
    {
        TimeSpan { secs: nanos / 1_000_000_000, nanos: (nanos % 1_000_000_000) as u32 }
    }

    /// The length in nanoseconds.
    pub fn total_nanos(self) -> (r: u128)
        ensures
            r == self.as_nanos(),
    {
        (self.secs as u128) * 1_000_000_000 + (self.nanos as u128)
    }

    /// Whether this length is no longer than another.
    pub fn at_most(self, other: TimeSpan) -> (r: bool)
        ensures
            r == (self.as_nanos() <= other.as_nanos()),
    {
        self.total_nanos() <= other.total_nanos()
    }

    /// The whole milliseconds of the length.
    pub fn as_millis(self) -> (r: u128)
        ensures
            r == self.millis(),
    {
        self.total_nanos() / 1_000_000
    }

    /// Whether the length is zero.
    pub fn is_zero(self) -> (r: bool)
        ensures
            r == (self.as_nanos() == 0),
    {
        self.secs == 0 && self.nanos == 0
    }
}

} // verus!
