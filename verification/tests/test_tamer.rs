use tamer::bench::BenchRun;
use tamer::bench_info::BenchInfo;
use tamer::bencher::{Bencher, SyncBencher};
use tamer::duration::BenchDuration;
use tamer::tamer::{BenchmarkFilter, Tamer};
use tamer::throughput::Throughput;

async fn sum(a: u64, b: u64) -> u64 {
    a + b
}

struct SumTask {
    a: u64,
    b: u64,
}

impl BenchRun for SumTask {
    type Input = ();

    fn prepare(&mut self) -> () {}

    fn run(self, bencher: SyncBencher, _input: ()) -> BenchDuration {
        let mut b = bencher.to_async();
        let (x, y) = (self.a, self.b);
        b.bench(move || sum(x, y))
    }
}

#[test]
fn test_tamer() {
    let dir = "bench-out".to_string();
    let mut tamer: Tamer<SumTask> = Tamer::new(Some(dir), BenchmarkFilter::AcceptAll);
    let g = tamer.benchmark_group("test_tamer".to_string()).unwrap();
    tamer
        .group_mut(g)
        .with_parameters(vec![format!("{}", "a"), format!("{}", "b")]);

    tamer
        .group_mut(g)
        .bench(
            BenchInfo::new("async_bench".to_string(), Throughput::Elements(1))
                .with_params(vec![format!("{}", 1), format!("{}", 2)]),
            SumTask { a: 1, b: 2 },
        )
        .unwrap();
}

#[test]
fn async_bench_runs_to_completion() {
    let mut tamer: Tamer<SumTask> = Tamer::new(None, BenchmarkFilter::AcceptAll);
    let g = tamer.benchmark_group("test_tamer".to_string()).unwrap();
    tamer
        .group_mut(g)
        .bench(
            BenchInfo::new("async_bench".to_string(), Throughput::Elements(1)),
            SumTask { a: 1, b: 2 },
        )
        .unwrap();
    let outcomes = tamer.benchmark();
    assert_eq!(outcomes.len(), 1);
    assert_eq!(outcomes[0].log.len(), 3);
    assert_eq!(outcomes[0].log[0], "Running group test_tamer:");
    assert_eq!(outcomes[0].log[1], "\tasync_bench:");
    assert!(outcomes[0].log[2].starts_with("\t\tDuration: "));
    // No output root was resolved, so no report document comes out.
    assert!(outcomes[0].report.is_none());
}

#[test]
fn sync_bencher_measures() {
    let mut b = SyncBencher::new();
    let d = b.bench(|| {
        let mut acc: u64 = 0;
        let mut i: u64 = 0;
        while i < 1000 {
            acc = acc.wrapping_add(i);
            i += 1;
        }
        acc
    });
    // A real clock reading: all that is promised is that it is a duration.
    let _ = d.as_millis();
}
