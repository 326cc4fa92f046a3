use vstd::prelude::*;

verus! {

/// An elapsed wall-clock interval, kept as a plain nanosecond count.
#[derive(Clone, Copy, Debug)]
pub struct BenchDuration {
    pub nanos: u64,
}

impl BenchDuration {
    pub fn from_nanos(nanos: u64) -> (d: BenchDuration)
        ensures
            d.nanos == nanos,
    {
        BenchDuration { nanos }
    }

    pub fn from_millis(millis: u64) -> (d: BenchDuration)
        requires
            millis * 1_000_000 <= u64::MAX,
        ensures
            d.nanos == millis * 1_000_000,
    {
        BenchDuration { nanos: millis * 1_000_000 }
    }

    pub fn from_secs(secs: u64) -> (d: BenchDuration)
        requires
            secs * 1_000_000_000 <= u64::MAX,
        ensures
            d.nanos == secs * 1_000_000_000,
    {
        BenchDuration { nanos: secs * 1_000_000_000 }
    }

    /// Whole milliseconds of the interval, rounded down.
    pub fn as_millis(&self) -> (ms: u64)
        ensures
            ms == self.nanos / 1_000_000,
    {
        self.nanos / 1_000_000
    }
}

} // verus!
