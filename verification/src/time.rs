//! A monotonic timestamp as a plain value.

use vstd::prelude::*;

verus! {

/// A point on the embedding's monotonic clock, measured in nanoseconds from
/// an arbitrary fixed origin (for instance the moment the waker was built).
/// The native clock's fractional-second representation is left to the
/// embedding; everything here works on whole nanoseconds.
#[derive(Clone, Copy, Debug, PartialEq, Eq, Structural)]
pub struct Instant {
    pub nanos: u64,
}

impl Instant {
    /// The timestamp `nanos` nanoseconds after the clock's origin.
    pub fn from_nanos(nanos: u64) -> (r: Instant)
        ensures
            r.nanos == nanos,
    {
        Instant { nanos }
    }

    /// Whether `self` is no later than `other`.
    pub fn is_at_or_before(&self, other: &Instant) -> (r: bool)
        ensures
            r == (self.nanos <= other.nanos),
    {
        self.nanos <= other.nanos
    }
}

} // verus!
