use vstd::prelude::*;

use crate::bench_info::BenchInfo;
use crate::bencher::SyncBencher;
use crate::duration::BenchDuration;
use crate::measurement::dec_str;
use crate::throughput::per_second_spec;

verus! {

/// The result of one executed benchmark: its descriptor and the measured
/// elapsed time. Immutable once produced.
pub struct BenchSummary {
    pub bench_info: BenchInfo,
    pub elapsed_time: BenchDuration,
}

/// The two lines that describe a summary: its duration in whole
/// milliseconds, then its throughput rate.
pub open spec fn summary_display_spec(s: BenchSummary) -> Seq<char> {
    "Duration: "@ + dec_str((s.elapsed_time.nanos / 1_000_000) as nat) + "ms\nThroughput: "@
        + per_second_spec(s.bench_info.throughput, s.elapsed_time.nanos)
}

impl BenchSummary {
    pub fn new(bench_info: BenchInfo, elapsed_time: BenchDuration) -> (s: BenchSummary)
        ensures
            s.bench_info == bench_info,
            s.elapsed_time == elapsed_time,
    {
        BenchSummary { bench_info, elapsed_time }
    }

    /// Renders the summary as `summary_display_spec` states.
    pub fn display_string(&self) -> (s: String)
        ensures
            s@ == summary_display_spec(*self),
    {
        let mut s = String::from_str("Duration: ");
        let ms = crate::measurement::u64_to_string(self.elapsed_time.as_millis());
        s.append(ms.as_str());
        s.append("ms\nThroughput: ");
        let rate = self.bench_info.throughput.per_second_string(self.elapsed_time);
        s.append(rate.as_str());
        proof {
            assert(s@ =~= summary_display_spec(*self));
        }
        s
    }
}

/// A deferred benchmark computation: a run-once task, moved into its group
/// at registration and consumed exactly once when the group executes it.
/// `prepare` produces the task's input outside the measured interval;
/// `run` consumes the task and measures with the bencher it is handed.
pub trait BenchRun: Sized {
    type Input;

    fn prepare(&mut self) -> Self::Input;

    fn run(self, bencher: SyncBencher, input: Self::Input) -> BenchDuration;
}

/// A registered, not yet executed benchmark: its descriptor and the deferred
/// computation that will produce its summary.
pub(crate) struct BenchTask<T> {
    pub(crate) bench_info: BenchInfo,
    pub(crate) task: T,
}

} // verus!
