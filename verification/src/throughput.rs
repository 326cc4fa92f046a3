use vstd::prelude::*;

use crate::duration::BenchDuration;
use crate::measurement;

verus! {

/// What a benchmark processes, with the magnitude it stands for.
#[derive(Clone, Copy, Debug)]
pub enum Throughput {
    Elements(u64),
}

/// The rate string for a throughput over an elapsed interval.
pub open spec fn per_second_spec(t: Throughput, nanos: u64) -> Seq<char> {
    match t {
        Throughput::Elements(e) => measurement::per_second_str(e, nanos),
    }
}

impl Throughput {
    /// The numeric magnitude this throughput carries.
    pub fn value(&self) -> (v: u64)
        ensures
            v == self.value_spec(),
    {
        match self {
            Throughput::Elements(e) => *e,
        }
    }

    pub open spec fn value_spec(&self) -> u64 {
        match self {
            Throughput::Elements(e) => *e,
        }
    }

    /// The name of the unit this throughput counts.
    pub fn units(&self) -> (u: &'static str)
        ensures
            u@ == "elements"@,
    {
        match self {
            Throughput::Elements(_) => "elements",
        }
    }

    /// Renders the throughput itself: its magnitude and its unit name.
    pub fn display_string(&self) -> (s: String)
        ensures
            s@ == measurement::dec_str(self.value_spec() as nat) + " elements"@,
    {
        let mut s = measurement::u64_to_string(self.value());
        s.append(" elements");
        proof {
            assert(s@ =~= measurement::dec_str(self.value_spec() as nat) + " elements"@);
        }
        s
    }

    /// The human-readable rate per second over `duration`,
    /// as `per_second_spec` states.
    pub fn per_second_string(&self, duration: BenchDuration) -> (s: String)
        ensures
            s@ == per_second_spec(*self, duration.nanos),
    {
        match self {
            Throughput::Elements(e) => measurement::elements_per_second(*e, duration.nanos),
        }
    }
}

} // verus!
