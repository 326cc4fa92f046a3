use vstd::prelude::*;

use crate::duration::BenchDuration;

verus! {

#[verifier::external_type_specification]
#[verifier::external_body]
pub struct ExInstant(std::time::Instant);

/// Relies on std::time::Instant::now: a reading of the monotonic clock.
/// Nothing is assumed about the value read.
#[verifier::external_body]
fn instant_now() -> std::time::Instant {
    std::time::Instant::now()
}

/// Relies on std::time::Instant::elapsed: the wall-clock time since `start`,
/// converted to a plain nanosecond count (truncated to 64 bits, which holds
/// centuries). Nothing is assumed about the value.
#[verifier::external_body]
fn nanos_since(start: &std::time::Instant) -> u64 {
    start.elapsed().as_nanos() as u64
}

/// Drops its argument, so that the teardown cost of a benchmark's result
/// falls inside the measured interval at the call site.
fn discard<T>(t: T) {
}

/// The capability to execute a deferred zero-argument computation once and
/// return the elapsed wall-clock time, with the cost of discarding the
/// computation's result included in the measured interval.
pub trait Bencher<R> {
    fn bench<F: FnOnce() -> R>(&mut self, f: F) -> BenchDuration
        requires
            call_requires(f, ()),
    ;
}

/// Executes a deferred computation directly on the calling thread.
pub struct SyncBencher {}

impl SyncBencher {
    pub fn new() -> (b: SyncBencher) {
        SyncBencher {  }
    }

    /// Upgrades to an asynchronous bencher; there is no way back.
    pub fn to_async(&self) -> (b: AsyncBencher) {
        AsyncBencher::new()
    }
}

impl<R> Bencher<R> for SyncBencher {
    fn bench<F: FnOnce() -> R>(&mut self, f: F) -> BenchDuration {
        let start = instant_now();
        let r = f();
        discard(r);
        BenchDuration::from_nanos(nanos_since(&start))
    }
}

/// Executes a deferred suspending computation on a private, single-shot
/// concurrency driver that is created for the call and torn down afterward.
pub struct AsyncBencher {}

impl AsyncBencher {
    pub fn new() -> (b: AsyncBencher) {
        AsyncBencher {  }
    }
}

impl<FR, R: core::future::Future<Output = FR>> Bencher<R> for AsyncBencher {
    fn bench<F: FnOnce() -> R>(&mut self, f: F) -> BenchDuration {
        block_on_timed(f)
    }
}

/// Relies on tokio::runtime::Runtime: a fresh runtime drives the deferred
/// computation to completion and is dropped before the call returns, so no
/// two benchmarks share concurrency machinery. The produced value is dropped
/// inside the measured interval. A failure to create the runtime aborts the
/// run, as a harness setup failure. Nothing is assumed about the elapsed time.
#[verifier::external_body]
fn block_on_timed<FR, R: core::future::Future<Output = FR>, F: FnOnce() -> R>(f: F) -> BenchDuration
    requires
        call_requires(f, ()),
{
    let runner = tokio::runtime::Runtime::new().unwrap();
    let start = std::time::Instant::now();
    let fut = f();
    let r = runner.block_on(fut);
    drop(r);
    BenchDuration { nanos: start.elapsed().as_nanos() as u64 }
}

} // verus!
