use std::cell::RefCell;
use std::rc::Rc;

use tamer::bench::BenchRun;
use tamer::bench_info::BenchInfo;
use tamer::bencher::SyncBencher;
use tamer::duration::BenchDuration;
use tamer::group::Group;
use tamer::tamer::{BenchmarkFilter, CompiledRegex, Tamer, TamerError};
use tamer::throughput::Throughput;

/// A deferred task that records its own execution and reports a fixed
/// duration.
struct RecordingTask {
    tag: &'static str,
    millis: u64,
    ran: Rc<RefCell<Vec<&'static str>>>,
}

impl BenchRun for RecordingTask {
    type Input = u64;

    fn prepare(&mut self) -> u64 {
        self.millis
    }

    fn run(self, _bencher: SyncBencher, input: u64) -> BenchDuration {
        self.ran.borrow_mut().push(self.tag);
        BenchDuration::from_millis(input)
    }
}

fn recording_task(
    tag: &'static str,
    millis: u64,
    ran: &Rc<RefCell<Vec<&'static str>>>,
) -> RecordingTask {
    RecordingTask { tag, millis, ran: Rc::clone(ran) }
}

fn info(id: &str, elements: u64, params: Vec<String>) -> BenchInfo {
    BenchInfo::new(id.to_string(), Throughput::Elements(elements)).with_params(params)
}

#[test]
fn unmatched_tasks_never_run_and_never_reported() {
    let ran = Rc::new(RefCell::new(Vec::new()));
    let filter = BenchmarkFilter::Exact("g/keep".to_string());
    let mut group: Group<RecordingTask> = Group::new("g".to_string(), Some("root".to_string()));
    group.bench(info("keep", 1, vec![]), recording_task("keep", 4, &ran)).unwrap();
    group.bench(info("drop", 1, vec![]), recording_task("drop", 4, &ran)).unwrap();
    let log = group.benchmark(&filter);
    assert_eq!(*ran.borrow(), vec!["keep"]);
    assert_eq!(log.len(), 3);
    assert_eq!(log[1], "\tkeep:");
    let report = group.report().unwrap();
    assert_eq!(report.rows.len(), 2);
    assert_eq!(report.rows[1][0], "keep");
    for row in &report.rows {
        assert!(row.iter().all(|cell| cell != "drop"));
    }
}

#[test]
fn dropped_tasks_are_not_requeued() {
    let ran = Rc::new(RefCell::new(Vec::new()));
    let mut group: Group<RecordingTask> = Group::new("g".to_string(), None);
    group.bench(info("only", 1, vec![]), recording_task("only", 4, &ran)).unwrap();
    let log = group.benchmark(&BenchmarkFilter::RejectAll);
    assert!(log.is_empty());
    // The unmatched task was dropped for good: a permissive rerun finds nothing.
    let log = group.benchmark(&BenchmarkFilter::AcceptAll);
    assert!(log.is_empty());
    assert!(ran.borrow().is_empty());
}

#[test]
fn report_writes_at_most_once() {
    let ran = Rc::new(RefCell::new(Vec::new()));
    let mut group: Group<RecordingTask> = Group::new("g".to_string(), Some("root".to_string()));
    group.bench(info("a", 1, vec![]), recording_task("a", 4, &ran)).unwrap();
    group.benchmark(&BenchmarkFilter::AcceptAll);
    let first = group.report();
    assert!(first.is_some());
    let second = group.report();
    assert!(second.is_none());
}

#[test]
fn no_matching_task_means_no_report_and_no_group_line() {
    let ran = Rc::new(RefCell::new(Vec::new()));
    let mut group: Group<RecordingTask> = Group::new("g".to_string(), Some("root".to_string()));
    group.bench(info("a", 1, vec![]), recording_task("a", 4, &ran)).unwrap();
    let log = group.benchmark(&BenchmarkFilter::RejectAll);
    assert!(log.is_empty());
    assert!(group.report().is_none());
}

#[test]
fn no_completed_run_means_no_report() {
    let mut group: Group<RecordingTask> =
        Group::new("g".to_string(), Some("root".to_string()));
    assert!(group.report().is_none());
}

#[test]
fn missing_output_root_suppresses_report_only() {
    let ran = Rc::new(RefCell::new(Vec::new()));
    let mut group: Group<RecordingTask> = Group::new("g".to_string(), None);
    group.bench(info("a", 1, vec![]), recording_task("a", 4, &ran)).unwrap();
    let log = group.benchmark(&BenchmarkFilter::AcceptAll);
    assert_eq!(log.len(), 3);
    assert_eq!(*ran.borrow(), vec!["a"]);
    assert!(group.report().is_none());
}

#[test]
fn parameter_count_mismatch_is_fatal_at_registration() {
    let ran = Rc::new(RefCell::new(Vec::new()));
    let mut group: Group<RecordingTask> = Group::new("g".to_string(), None);
    group.with_parameters(vec!["a".to_string(), "b".to_string()]);
    let r = group.bench(info("bad", 1, vec!["1".to_string()]), recording_task("bad", 4, &ran));
    assert_eq!(r, Err(TamerError::ParamCountMismatch));
    // Nothing was registered: a permissive run finds nothing to do.
    let log = group.benchmark(&BenchmarkFilter::AcceptAll);
    assert!(log.is_empty());
    assert!(ran.borrow().is_empty());
}

#[test]
fn duplicate_group_name_is_fatal_before_any_benchmark() {
    let ran = Rc::new(RefCell::new(Vec::new()));
    let mut tamer: Tamer<RecordingTask> = Tamer::new(None, BenchmarkFilter::AcceptAll);
    let g = tamer.benchmark_group("g".to_string()).unwrap();
    tamer
        .group_mut(g)
        .bench(info("a", 1, vec![]), recording_task("a", 4, &ran))
        .unwrap();
    let dup = tamer.benchmark_group("g".to_string());
    assert_eq!(dup, Err(TamerError::DuplicateGroup));
    assert!(ran.borrow().is_empty());
}

#[test]
fn end_to_end_single_sync_benchmark() {
    let ran = Rc::new(RefCell::new(Vec::new()));
    let mut tamer: Tamer<RecordingTask> =
        Tamer::new(Some("root".to_string()), BenchmarkFilter::AcceptAll);
    let g = tamer.benchmark_group("g".to_string()).unwrap();
    tamer.group_mut(g).with_parameters(vec!["a".to_string(), "b".to_string()]);
    tamer
        .group_mut(g)
        .bench(
            info("add", 1, vec!["1".to_string(), "2".to_string()]),
            recording_task("add", 3, &ran),
        )
        .unwrap();
    let outcomes = tamer.benchmark();
    assert_eq!(outcomes.len(), 1);
    assert_eq!(*ran.borrow(), vec!["add"]);
    let console = outcomes[0].log.join("\n");
    assert!(console.contains("add:"));
    assert!(console.contains("Running group g:"));
    let report = outcomes[0].report.as_ref().unwrap();
    assert_eq!(report.dir, "root/tamer/g");
    assert!(report.filename.starts_with("report_"));
    assert!(report.filename.ends_with(".csv"));
    assert_eq!(
        report.rows[0],
        vec!["id", "duration(ms)", "throughput", "a", "b"]
    );
    assert_eq!(report.rows[1], vec!["add", "3", "1", "1", "2"]);
    let text = String::from_utf8(report.bytes.clone()).unwrap();
    assert!(text.contains("id,duration(ms),throughput,a,b"));
    assert!(text.contains("add,3,1,1,2"));
    assert_eq!(
        report.note,
        format!("Writing report to root/tamer/g/{}", report.filename)
    );
    // The timestamp between the fixed prefix and suffix has the documented shape.
    let stamp = &report.filename["report_".len()..report.filename.len() - ".csv".len()];
    assert_eq!(stamp.len(), 19);
    for (i, c) in stamp.chars().enumerate() {
        match i {
            4 | 7 | 13 | 16 => assert_eq!(c, '-'),
            10 => assert_eq!(c, '_'),
            _ => assert!(c.is_ascii_digit()),
        }
    }
}

#[test]
fn groups_can_run_and_flush_one_at_a_time() {
    let ran = Rc::new(RefCell::new(Vec::new()));
    let mut tamer: Tamer<RecordingTask> =
        Tamer::new(Some("root".to_string()), BenchmarkFilter::AcceptAll);
    let g1 = tamer.benchmark_group("first".to_string()).unwrap();
    tamer
        .group_mut(g1)
        .bench(info("one", 1, vec![]), recording_task("one", 1, &ran))
        .unwrap();
    let g2 = tamer.benchmark_group("second".to_string()).unwrap();
    tamer
        .group_mut(g2)
        .bench(info("two", 1, vec![]), recording_task("two", 1, &ran))
        .unwrap();
    assert_eq!(tamer.group_count(), 2);
    // The first group's report is in hand before the second group has run.
    let first = tamer.benchmark_at(0);
    assert!(first.report.is_some());
    assert_eq!(*ran.borrow(), vec!["one"]);
    let second = tamer.benchmark_at(1);
    assert!(second.report.is_some());
    assert_eq!(*ran.borrow(), vec!["one", "two"]);
}

#[test]
fn groups_run_in_creation_order_and_report_once() {
    let ran = Rc::new(RefCell::new(Vec::new()));
    let mut tamer: Tamer<RecordingTask> =
        Tamer::new(Some("root".to_string()), BenchmarkFilter::AcceptAll);
    let g1 = tamer.benchmark_group("first".to_string()).unwrap();
    tamer
        .group_mut(g1)
        .bench(info("one", 1, vec![]), recording_task("one", 1, &ran))
        .unwrap();
    let g2 = tamer.benchmark_group("second".to_string()).unwrap();
    tamer
        .group_mut(g2)
        .bench(info("two", 1, vec![]), recording_task("two", 1, &ran))
        .unwrap();
    let outcomes = tamer.benchmark();
    assert_eq!(*ran.borrow(), vec!["one", "two"]);
    assert!(outcomes[0].report.is_some());
    assert!(outcomes[1].report.is_some());
    // A second top-level run finds no pending work and reports nothing anew.
    let again = tamer.benchmark();
    assert!(again[0].log.is_empty());
    assert!(again[0].report.is_none());
    assert!(again[1].report.is_none());
}

#[test]
fn regex_filter_selects_by_pattern() {
    let re = CompiledRegex::new("^g/a").unwrap();
    let filter = BenchmarkFilter::Regex(re);
    assert!(filter.filter_matches("g/add"));
    assert!(!filter.filter_matches("g/mul"));
    assert!(!filter.filter_matches("other/add"));
}

#[test]
fn invalid_regex_pattern_is_rejected() {
    assert!(CompiledRegex::new("(").is_none());
}

#[test]
fn filter_variants_match_qualified_ids() {
    assert!(BenchmarkFilter::AcceptAll.filter_matches("g/x"));
    assert!(!BenchmarkFilter::RejectAll.filter_matches("g/x"));
    let exact = BenchmarkFilter::Exact("g/x".to_string());
    assert!(exact.filter_matches("g/x"));
    assert!(!exact.filter_matches("g/xy"));
}

#[test]
fn csv_encoding_quotes_embedded_separators() {
    let ran = Rc::new(RefCell::new(Vec::new()));
    let mut group: Group<RecordingTask> = Group::new("g".to_string(), Some("root".to_string()));
    group.with_parameters(vec!["p".to_string()]);
    group
        .bench(info("q", 1, vec!["x,y".to_string()]), recording_task("q", 2, &ran))
        .unwrap();
    group.benchmark(&BenchmarkFilter::AcceptAll);
    let report = group.report().unwrap();
    let text = String::from_utf8(report.bytes.clone()).unwrap();
    // The csv crate must quote the field that holds a separator.
    assert!(text.contains("\"x,y\""));
}

#[test]
fn summary_display_shows_duration_and_rate() {
    let ran = Rc::new(RefCell::new(Vec::new()));
    let mut group: Group<RecordingTask> = Group::new("g".to_string(), None);
    group
        .bench(info("r", 500, vec![]), recording_task("r", 1000, &ran))
        .unwrap();
    let log = group.benchmark(&BenchmarkFilter::AcceptAll);
    assert_eq!(log[2], "\t\tDuration: 1000ms\n\t\tThroughput: 500.00 elem/s");
}
