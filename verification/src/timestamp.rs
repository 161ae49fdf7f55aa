//! Timestamps in the media, in nanoseconds.
use vstd::prelude::*;

verus! {

/// A position in the media, in nanoseconds.
#[derive(Clone, Copy, Debug, Default, PartialEq, Eq, Structural, PartialOrd, Ord, Hash)]
pub struct Timestamp(pub u64);

impl Timestamp {
    pub fn new(nanos: u64) -> (ts: Self)
        ensures
            ts.0 == nanos,
    {
        Timestamp(nanos)
    }

    pub fn as_u64(&self) -> (nanos: u64)
        ensures
            nanos == self.0,
    {
        self.0
    }

    /// The start of the media.
    pub fn zero() -> (ts: Self)
        ensures
            ts.0 == 0,
    {
        Timestamp(0)
    }
}

} // verus!
