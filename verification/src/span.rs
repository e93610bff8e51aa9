//! Lengths of time, to the nanosecond.
use vstd::prelude::*;

verus! {

/// Nanoseconds in a second.
pub const NANOS_PER_SEC: u128 = 1_000_000_000;

/// Nanoseconds in a millisecond.
pub const NANOS_PER_MILLI: u128 = 1_000_000;

/// The longest length of time that can be waited for: the largest number of seconds that 64 bits
/// hold, and one nanosecond less than another second.
pub const MAX_NANOS: u128 = 18_446_744_073_709_551_615_999_999_999;

/// A length of time.
#[derive(Debug, Clone, Copy, PartialEq, Eq, Structural)]
pub struct Span {
    /// The length in nanoseconds.
    pub nanos: u128,
}

impl Span {
    /// A length of `secs` seconds.
    pub fn from_secs(secs: u64) -> (r: Span)
        ensures
            r.nanos == secs * NANOS_PER_SEC,
            r.nanos <= MAX_NANOS,
    {
        Span { nanos: secs as u128 * NANOS_PER_SEC }
    }

    /// A length of `millis` milliseconds.
    pub fn from_millis(millis: u64) -> (r: Span)
        ensures
            r.nanos == millis * NANOS_PER_MILLI,
            r.nanos <= MAX_NANOS,
    {
        Span { nanos: millis as u128 * NANOS_PER_MILLI }
    }

    /// The whole seconds in this length.
    pub fn as_secs(&self) -> (r: u64)
        requires
            self.nanos <= MAX_NANOS,
        ensures
            r == self.nanos / NANOS_PER_SEC,
    {
        (self.nanos / NANOS_PER_SEC) as u64
    }

    /// The nanoseconds past the last whole second.
    pub fn subsec_nanos(&self) -> (r: u32)
        ensures
            r == self.nanos % NANOS_PER_SEC,
    {
        (self.nanos % NANOS_PER_SEC) as u32
    }
}

} // verus!
