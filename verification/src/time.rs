//! Elapsed time, whole seconds and the nanoseconds past them, as the
//! spinner and the sonar read it.

use vstd::prelude::*;

verus! {

/// A span of time: `secs` seconds and `nanos` (under a second) more.
#[derive(Clone, Copy, Debug, PartialEq, Eq, PartialOrd, Ord, Hash, Structural)]
pub struct Duration {
    secs: u64,
    nanos: u32,
}

impl View for Duration {
    type V = int;

    /// The span in nanoseconds.
    closed spec fn view(&self) -> int {
        self.secs * 1_000_000_000 + self.nanos
    }
}

impl Duration {
    #[verifier::type_invariant]
    spec fn under_a_second(self) -> bool {
        self.nanos < 1_000_000_000
    }

    /// The empty span.
    pub fn zero() -> (d: Duration)
        ensures
            d@ == 0,
    {
        Duration { secs: 0, nanos: 0 }
    }

    /// The span `nanos` nanoseconds long.
    pub fn from_nanos(nanos: u64) -> (d: Duration)
        ensures
            d@ == nanos,
    {
        Duration { secs: nanos / 1_000_000_000, nanos: (nanos % 1_000_000_000) as u32 }
    }

    /// The span `millis` milliseconds long.
    pub fn from_millis(millis: u64) -> (d: Duration)
        ensures
            d@ == millis * 1_000_000,
    {
        Duration { secs: millis / 1000, nanos: ((millis % 1000) * 1_000_000) as u32 }
    }

    /// The span `secs` seconds long.
    pub fn from_secs(secs: u64) -> (d: Duration)
        ensures
            d@ == secs * 1_000_000_000,
    {
        Duration { secs, nanos: 0 }
    }

    /// Whole milliseconds.
    pub fn as_millis(&self) -> (ms: u128)
        ensures
            ms == self@ / 1_000_000,
    {
        proof {
            use_type_invariant(self);
        }
        self.secs as u128 * 1000 + (self.nanos / 1_000_000) as u128
    }

    /// The whole span in nanoseconds.
    pub fn as_nanos(&self) -> (n: u128)
        ensures
            n == self@,
    {
        self.secs as u128 * 1_000_000_000 + self.nanos as u128
    }

    /// Whole seconds.
    pub fn as_secs(&self) -> (s: u64)
        ensures
            s == self@ / 1_000_000_000,
    {
        proof {
            use_type_invariant(self);
        }
        self.secs
    }
}

/// A span is never negative, and never longer than `u64::MAX` seconds
/// and a second.
pub proof fn lemma_duration_range(d: Duration)
    ensures
        0 <= d@ < (u64::MAX + 1) * 1_000_000_000 + 0x1_0000_0000,
{
}

} // verus!
