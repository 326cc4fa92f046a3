use vstd::prelude::*;

use std::io::Write;

use crate::bench::{BenchRun, BenchSummary, BenchTask};
use crate::bench_info::BenchInfo;
use crate::bencher::SyncBencher;
use crate::measurement::dec_str;
use crate::measurement::u64_to_string;
use crate::report::{
    csv_encoding, encode_rows, rows_view, strings_view, timestamp_shape, utc_timestamp, Report,
};
use crate::tamer::{BenchmarkFilter, TamerError};
use crate::throughput::per_second_spec;

verus! {

/// Relies on std::io::Stdout: prints one line to standard output.
#[verifier::external_body]
fn print_line(s: &str) {
    let mut out = std::io::stdout();
    let _ = writeln!(out, "{}", s);
}

/// The fully-qualified id of a bench inside a group, the string filters are
/// matched against.
pub open spec fn qualified_id(group: Seq<char>, id: Seq<char>) -> Seq<char> {
    group + "/"@ + id
}

/// The infos of a sequence of registered tasks, in order.
pub(crate) open spec fn task_infos<T>(tasks: Seq<BenchTask<T>>) -> Seq<BenchInfo> {
    tasks.map_values(|t: BenchTask<T>| t.bench_info)
}

/// The infos, among `infos`, whose qualified id under `name` passes `filter`,
/// in their original order.
pub open spec fn matched_infos(
    name: Seq<char>,
    infos: Seq<BenchInfo>,
    filter: BenchmarkFilter,
) -> Seq<BenchInfo> {
    infos.filter(|info: BenchInfo| filter.spec_matches(qualified_id(name, info.id@)))
}

/// The console line announcing a group run.
pub open spec fn group_header_spec(name: Seq<char>) -> Seq<char> {
    "Running group "@ + name + ":"@
}

/// The console line announcing one task.
pub open spec fn task_id_line_spec(id: Seq<char>) -> Seq<char> {
    "\t"@ + id + ":"@
}

/// The indented console block for one completed task: its duration in whole
/// milliseconds, then its throughput rate.
pub open spec fn task_block_spec(s: BenchSummary) -> Seq<char> {
    "\t\tDuration: "@ + dec_str((s.elapsed_time.nanos / 1_000_000) as nat)
        + "ms\n\t\tThroughput: "@ + per_second_spec(s.bench_info.throughput, s.elapsed_time.nanos)
}

/// The header row of a group's report.
pub open spec fn header_row_spec(param_names: Seq<Seq<char>>) -> Seq<Seq<char>> {
    seq!["id"@, "duration(ms)"@, "throughput"@] + param_names
}

/// The report row for one completed task: id, elapsed whole milliseconds,
/// throughput magnitude, then the parameter values in declared order.
pub open spec fn summary_row_spec(s: BenchSummary) -> Seq<Seq<char>> {
    seq![
        s.bench_info.id@,
        dec_str((s.elapsed_time.nanos / 1_000_000) as nat),
        dec_str(s.bench_info.throughput.value_spec() as nat),
    ] + strings_view(s.bench_info.params@)
}

/// All rows of a group's report: the header, then one row per completed task
/// in execution order.
pub open spec fn report_rows_spec(
    param_names: Seq<Seq<char>>,
    completed: Seq<BenchSummary>,
) -> Seq<Seq<Seq<char>>> {
    seq![header_row_spec(param_names)] + completed.map_values(|s: BenchSummary| summary_row_spec(s))
}

/// A named, ordered collection of deferred benchmarks sharing one declared
/// parameter-name schema. Every registered task and every completed summary
/// carries exactly as many parameter values as the schema has names; that
/// invariant is established at registration and holds for the group's whole
/// life.
pub struct Group<T> {
    name: String,
    output_dir: Option<String>,
    parameters_names: Vec<String>,
    benchers: Vec<BenchTask<T>>,
    benches: Vec<BenchSummary>,
    did_report: bool,
}

impl<T> Group<T> {
    #[verifier::type_invariant]
    spec fn wf(self) -> bool {
        &&& forall|i: int|
            0 <= i < self.benchers@.len() ==> (#[trigger] self.benchers@[i]).bench_info.params@.len()
                == self.parameters_names@.len()
        &&& forall|i: int|
            0 <= i < self.benches@.len() ==> (#[trigger] self.benches@[i]).bench_info.params@.len()
                == self.parameters_names@.len()
    }

    /// The group's name.
    pub closed spec fn name_spec(&self) -> Seq<char> {
        self.name@
    }

    /// Where the group's reports belong, when a location was resolved.
    pub closed spec fn output_dir_spec(&self) -> Option<Seq<char>> {
        match self.output_dir {
            Some(ref p) => Some(p@),
            None => None,
        }
    }

    /// The declared parameter names, in order.
    pub closed spec fn param_names_spec(&self) -> Seq<Seq<char>> {
        strings_view(self.parameters_names@)
    }

    /// The descriptors of the registered, not yet executed tasks, in
    /// registration order.
    pub closed spec fn pending_infos(&self) -> Seq<BenchInfo> {
        task_infos(self.benchers@)
    }

    /// The summaries of the executed tasks, in execution order.
    pub closed spec fn completed_spec(&self) -> Seq<BenchSummary> {
        self.benches@
    }

    /// Whether this group has already emitted its report.
    pub closed spec fn reported_spec(&self) -> bool {
        self.did_report
    }

    /// The group's name.
    pub fn name(&self) -> (n: &String)
        ensures
            n@ == self.name_spec(),
    {
        &self.name
    }

    /// A fresh group under `name`; an output location, when given, is scoped
    /// by the group's name.
    pub fn new(name: String, output_dir: Option<String>) -> (g: Group<T>)
        ensures
            g.name_spec() == name@,
            (match output_dir {
                Some(p) => g.output_dir_spec() == Some(p@ + "/"@ + name@),
                None => g.output_dir_spec() is None,
            }),
            g.param_names_spec() =~= Seq::<Seq<char>>::empty(),
            g.pending_infos() =~= Seq::<BenchInfo>::empty(),
            g.completed_spec() =~= Seq::<BenchSummary>::empty(),
            !g.reported_spec(),
    {
        let output_dir = match output_dir {
            Some(p) => {
                let mut joined = p;
                joined.append("/");
                joined.append(name.as_str());
                Some(joined)
            },
            None => None,
        };
        Group {
            name,
            output_dir,
            parameters_names: Vec::new(),
            benchers: Vec::new(),
            benches: Vec::new(),
            did_report: false,
        }
    }

    /// Declares the parameter-name schema. May be set again before any task
    /// is registered (the last writer wins), never afterwards.
    pub fn with_parameters(&mut self, parameters_names: Vec<String>) -> (r: &mut Self)
        requires
            old(self).pending_infos().len() == 0,
            old(self).completed_spec().len() == 0,
        ensures
            r.name_spec() == old(self).name_spec(),
            r.output_dir_spec() == old(self).output_dir_spec(),
            r.param_names_spec() == strings_view(parameters_names@),
            r.pending_infos().len() == 0,
            r.completed_spec().len() == 0,
            r.reported_spec() == old(self).reported_spec(),
            *final(self) == *final(r),
    {
        self.parameters_names = parameters_names;
        self
    }

    /// Registers a deferred benchmark. The descriptor must carry exactly as
    /// many parameter values as the group's schema has names; a mismatch is a
    /// fatal contract violation, reported without registering anything.
    pub fn bench(&mut self, bench_info: BenchInfo, task: T) -> (r: Result<(), TamerError>)
        ensures
            bench_info.params@.len() == old(self).param_names_spec().len() ==> {
                &&& r is Ok
                &&& final(self).pending_infos() == old(self).pending_infos().push(bench_info)
                &&& final(self).name_spec() == old(self).name_spec()
                &&& final(self).output_dir_spec() == old(self).output_dir_spec()
                &&& final(self).param_names_spec() == old(self).param_names_spec()
                &&& final(self).completed_spec() == old(self).completed_spec()
                &&& final(self).reported_spec() == old(self).reported_spec()
            },
            bench_info.params@.len() != old(self).param_names_spec().len() ==> {
                &&& r == Err::<(), TamerError>(TamerError::ParamCountMismatch)
                &&& *final(self) == *old(self)
            },
    {
        proof {
            use_type_invariant(&*self);
        }
        if bench_info.params.len() != self.parameters_names.len() {
            return Err(TamerError::ParamCountMismatch);
        }
        let mut pending: Vec<BenchTask<T>> = Vec::new();
        core::mem::swap(&mut pending, &mut self.benchers);
        pending.push(BenchTask { bench_info, task });
        core::mem::swap(&mut pending, &mut self.benchers);
        proof {
            assert(final(self).pending_infos() =~= old(self).pending_infos().push(bench_info));
        }
        Ok(())
    }

    /// Registers a deferred benchmark whose `prepare` step produces the input
    /// that is fed, outside the measured interval, to the measured
    /// computation. The same registration contract as `bench`.
    pub fn bench_with_input(&mut self, bench_info: BenchInfo, task: T) -> (r: Result<
        (),
        TamerError,
    >)
        ensures
            bench_info.params@.len() == old(self).param_names_spec().len() ==> {
                &&& r is Ok
                &&& final(self).pending_infos() == old(self).pending_infos().push(bench_info)
                &&& final(self).name_spec() == old(self).name_spec()
                &&& final(self).output_dir_spec() == old(self).output_dir_spec()
                &&& final(self).param_names_spec() == old(self).param_names_spec()
                &&& final(self).completed_spec() == old(self).completed_spec()
                &&& final(self).reported_spec() == old(self).reported_spec()
            },
            bench_info.params@.len() != old(self).param_names_spec().len() ==> {
                &&& r == Err::<(), TamerError>(TamerError::ParamCountMismatch)
                &&& *final(self) == *old(self)
            },
    {
        self.bench(bench_info, task)
    }
}

/// How one run of `Group::benchmark` relates its pre-state, its post-state,
/// and the console lines it prints: the pending tasks whose qualified id
/// passes the filter are executed in registration order and their summaries
/// appended to the completed list; the others are dropped for good; with no
/// match, nothing is printed and nothing else changes.
pub open spec fn benchmark_rel<T>(
    pre: Group<T>,
    filter: BenchmarkFilter,
    post: Group<T>,
    log: Seq<Seq<char>>,
) -> bool {
    let m = matched_infos(pre.name_spec(), pre.pending_infos(), filter);
    &&& post.name_spec() == pre.name_spec()
    &&& post.output_dir_spec() == pre.output_dir_spec()
    &&& post.param_names_spec() == pre.param_names_spec()
    &&& post.reported_spec() == pre.reported_spec()
    &&& post.pending_infos().len() == 0
    &&& post.completed_spec().len() == pre.completed_spec().len() + m.len()
    &&& (forall|i: int|
        0 <= i < pre.completed_spec().len() ==> pre.completed_spec()[i]
            == #[trigger] post.completed_spec()[i])
    &&& (forall|i: int|
        0 <= i < m.len() ==> #[trigger] m[i] == post.completed_spec()[pre.completed_spec().len()
            + i].bench_info)
    &&& (if m.len() == 0 {
        log.len() == 0
    } else {
        &&& log.len() == 1 + 2 * m.len()
        &&& log[0] == group_header_spec(pre.name_spec())
        &&& (forall|i: int|
            0 <= i < m.len() ==> {
                &&& log[1 + 2 * i] == task_id_line_spec((#[trigger] m[i]).id@)
                &&& log[2 + 2 * i] == task_block_spec(
                    post.completed_spec()[pre.completed_spec().len() + i],
                )
            })
    })
}

/// Whether a call to `Group::report` on this state emits a report: it has
/// not reported yet, at least one benchmark ran, and an output location was
/// resolved.
pub open spec fn report_would_emit<T>(g: Group<T>) -> bool {
    &&& !g.reported_spec()
    &&& g.completed_spec().len() > 0
    &&& g.output_dir_spec() is Some
}

/// How one call to `Group::report` relates its pre-state, its post-state,
/// and the emitted document: exactly when `report_would_emit` holds, one
/// report carrying the group's rows comes out and the group is marked as
/// reported; otherwise the call is a no-op.
pub open spec fn report_rel<T>(pre: Group<T>, post: Group<T>, r: Option<Report>) -> bool {
    if report_would_emit(pre) {
        match r {
            Some(rep) => {
                &&& (match pre.output_dir_spec() {
                    Some(d) => rep.dir@ == d,
                    None => false,
                })
                &&& rows_view(rep.rows@) == report_rows_spec(
                    pre.param_names_spec(),
                    pre.completed_spec(),
                )
                &&& rep.bytes@ == csv_encoding(
                    report_rows_spec(pre.param_names_spec(), pre.completed_spec()),
                )
                &&& rep.bytes@.len() > 0
                &&& rep.filename@.len() >= 30
                &&& rep.filename@.subrange(0, 7) == "report_"@
                &&& rep.filename@.subrange(
                    rep.filename@.len() - 4,
                    rep.filename@.len() as int,
                ) == ".csv"@
                &&& timestamp_shape(rep.filename@.subrange(7, rep.filename@.len() - 4))
                &&& rep.note@ == "Writing report to "@ + rep.dir@ + "/"@ + rep.filename@
                &&& post.name_spec() == pre.name_spec()
                &&& post.output_dir_spec() == pre.output_dir_spec()
                &&& post.param_names_spec() == pre.param_names_spec()
                &&& post.pending_infos() == pre.pending_infos()
                &&& post.completed_spec() == pre.completed_spec()
                &&& post.reported_spec()
            },
            None => false,
        }
    } else {
        &&& r is None
        &&& post == pre
    }
}


/// After pushing one info, the matched infos grow by that info exactly when
/// its qualified id passes the filter.
proof fn lemma_matched_infos_push(
    name: Seq<char>,
    infos: Seq<BenchInfo>,
    x: BenchInfo,
    filter: BenchmarkFilter,
)
    ensures
        matched_infos(name, infos.push(x), filter) == (if filter.spec_matches(
            qualified_id(name, x.id@),
        ) {
            matched_infos(name, infos, filter).push(x)
        } else {
            matched_infos(name, infos, filter)
        }),
{
    reveal(Seq::filter);
    assert(infos.push(x).drop_last() =~= infos);
    assert(infos.push(x).last() == x);
}

/// No infos, no matches.
proof fn lemma_matched_infos_empty(name: Seq<char>, filter: BenchmarkFilter)
    ensures
        matched_infos(name, Seq::<BenchInfo>::empty(), filter) == Seq::<BenchInfo>::empty(),
{
    reveal(Seq::filter);
}

fn block_string(s: &BenchSummary) -> (line: String)
    ensures
        line@ == task_block_spec(*s),
{
    let mut line = String::from_str("\t\tDuration: ");
    let ms = u64_to_string(s.elapsed_time.as_millis());
    line.append(ms.as_str());
    line.append("ms\n\t\tThroughput: ");
    let rate = s.bench_info.throughput.per_second_string(s.elapsed_time);
    line.append(rate.as_str());
    proof {
        assert(line@ =~= task_block_spec(*s));
    }
    line
}

impl<T: BenchRun> Group<T> {
    /// Takes ownership of every pending task, drops those whose qualified id
    /// does not pass `filter`, executes the rest in registration order —
    /// printing each line of `log` as it goes — and appends their summaries
    /// to the completed list, as `benchmark_rel` states.
    pub fn benchmark(&mut self, filter: &BenchmarkFilter) -> (log: Vec<String>)
        ensures
            benchmark_rel(*old(self), *filter, *final(self), strings_view(log@)),
    {
        proof {
            use_type_invariant(&*self);
        }
        let ghost pre = *old(self);
        let mut pending: Vec<BenchTask<T>> = Vec::new();
        core::mem::swap(&mut pending, &mut self.benchers);
        let ghost pend0 = pending@;
        let n0 = pending.len();
        proof {
            assert(pend0.len() == n0);
        }
        let mut selected: Vec<BenchTask<T>> = Vec::new();
        let mut j: usize = 0;
        proof {
            assert(task_infos(pend0).subrange(0, 0) =~= Seq::<BenchInfo>::empty());
            lemma_matched_infos_empty(pre.name_spec(), *filter);
            assert(task_infos(selected@) =~= Seq::<BenchInfo>::empty());
        }
        while pending.len() > 0
            invariant
                j <= pend0.len() <= usize::MAX,
                j + pending@.len() == pend0.len(),
                pending@ == pend0.subrange(j as int, pend0.len() as int),
                task_infos(selected@) == matched_infos(
                    pre.name_spec(),
                    task_infos(pend0).subrange(0, j as int),
                    *filter,
                ),
                forall|i: int|
                    0 <= i < selected@.len() ==> (#[trigger] selected@[i]).bench_info.params@.len()
                        == pre.param_names_spec().len(),
                forall|i: int|
                    0 <= i < pend0.len() ==> (#[trigger] pend0[i]).bench_info.params@.len()
                        == pre.param_names_spec().len(),
                self.name@ == pre.name_spec(),
            decreases pending@.len(),
        {
            let ghost selected_infos0 = task_infos(selected@);
            let ghost prefix = task_infos(pend0).subrange(0, j as int);
            let t = pending.remove(0);
            proof {
                assert(t == pend0[j as int]);
                assert(pending@ =~= pend0.subrange(j as int + 1, pend0.len() as int));
            }
            let mut q = self.name.clone();
            q.append("/");
            q.append(t.bench_info.id.as_str());
            proof {
                assert(q@ =~= qualified_id(pre.name_spec(), t.bench_info.id@));
            }
            let matched = filter.filter_matches(q.as_str());
            if matched {
                selected.push(t);
            }
            proof {
                assert(task_infos(pend0).subrange(0, j as int + 1) =~= prefix.push(
                    pend0[j as int].bench_info,
                ));
                lemma_matched_infos_push(
                    pre.name_spec(),
                    prefix,
                    pend0[j as int].bench_info,
                    *filter,
                );
                if matched {
                    assert(task_infos(selected@) =~= selected_infos0.push(
                        pend0[j as int].bench_info,
                    ));
                }
            }
            j += 1;
        }
        proof {
            assert(task_infos(pend0).subrange(0, pend0.len() as int) =~= task_infos(pend0));
            assert(task_infos(pend0) =~= pre.pending_infos());
        }
        let ghost m = matched_infos(pre.name_spec(), pre.pending_infos(), *filter);
        proof {
            assert(task_infos(selected@) == m);
        }
        let mut log: Vec<String> = Vec::new();
        if selected.len() == 0 {
            proof {
                assert(strings_view(log@) =~= Seq::<Seq<char>>::empty());
            }
            return log;
        }
        let mut header_line = String::from_str("Running group ");
        header_line.append(self.name.as_str());
        header_line.append(":");
        proof {
            assert(header_line@ =~= group_header_spec(pre.name_spec()));
        }
        print_line(header_line.as_str());
        log.push(header_line);
        let ghost sel0 = selected@;
        let ns0 = selected.len();
        proof {
            assert(sel0.len() == ns0);
        }
        let mut done: Vec<BenchSummary> = Vec::new();
        core::mem::swap(&mut done, &mut self.benches);
        let ghost done0 = done@;
        let mut k: usize = 0;
        while selected.len() > 0
            invariant
                k <= sel0.len() <= usize::MAX,
                k + selected@.len() == sel0.len(),
                selected@ == sel0.subrange(k as int, sel0.len() as int),
                done@.len() == done0.len() + k,
                forall|i: int| 0 <= i < done0.len() ==> done0[i] == #[trigger] done@[i],
                forall|i: int|
                    0 <= i < k ==> #[trigger] done@[done0.len() + i].bench_info
                        == sel0[i].bench_info,
                forall|i: int|
                    0 <= i < done@.len() ==> (#[trigger] done@[i]).bench_info.params@.len()
                        == pre.param_names_spec().len(),
                forall|i: int|
                    0 <= i < sel0.len() ==> (#[trigger] sel0[i]).bench_info.params@.len()
                        == pre.param_names_spec().len(),
                log@.len() == 1 + 2 * k,
                log@[0]@ == group_header_spec(pre.name_spec()),
                forall|i: int|
                    0 <= i < k ==> {
                        &&& log@[1 + 2 * i]@ == task_id_line_spec(
                            (#[trigger] sel0[i]).bench_info.id@,
                        )
                        &&& log@[2 + 2 * i]@ == task_block_spec(done@[done0.len() + i])
                    },
                self.name@ == pre.name_spec(),
                self.output_dir_spec() == pre.output_dir_spec(),
                self.param_names_spec() == pre.param_names_spec(),
                self.benchers@.len() == 0,
                self.benches@.len() == 0,
                self.did_report == pre.reported_spec(),
            decreases selected@.len(),
        {
            let ghost log0 = log@;
            let ghost donek = done@;
            let t = selected.remove(0);
            proof {
                assert(t == sel0[k as int]);
                assert(selected@ =~= sel0.subrange(k as int + 1, sel0.len() as int));
            }
            let BenchTask { bench_info, task } = t;
            let mut task = task;
            let mut id_line = String::from_str("\t");
            id_line.append(bench_info.id.as_str());
            id_line.append(":");
            proof {
                assert(id_line@ =~= task_id_line_spec(sel0[k as int].bench_info.id@));
            }
            print_line(id_line.as_str());
            log.push(id_line);
            let input = task.prepare();
            let elapsed = task.run(SyncBencher::new(), input);
            let summary = BenchSummary::new(bench_info, elapsed);
            let block = block_string(&summary);
            print_line(block.as_str());
            log.push(block);
            done.push(summary);
            proof {
                let ghost kk = k as int;
                assert forall|i: int| 0 <= i < kk + 1 implies {
                    &&& log@[1 + 2 * i]@ == task_id_line_spec((#[trigger] sel0[i]).bench_info.id@)
                    &&& log@[2 + 2 * i]@ == task_block_spec(done@[done0.len() + i])
                } by {
                    if i < kk {
                        assert(log@[1 + 2 * i] == log0[1 + 2 * i]);
                        assert(log@[2 + 2 * i] == log0[2 + 2 * i]);
                        assert(done@[done0.len() + i] == donek[done0.len() + i]);
                        assert(log0[1 + 2 * i]@ == task_id_line_spec(sel0[i].bench_info.id@));
                        assert(log0[2 + 2 * i]@ == task_block_spec(donek[done0.len() + i]));
                    } else {
                        assert(log@[1 + 2 * kk]@ == task_id_line_spec(sel0[kk].bench_info.id@));
                        assert(done@[done0.len() + kk] == summary);
                        assert(log@[2 + 2 * kk]@ == task_block_spec(summary));
                    }
                }
            }
            k += 1;
        }
        core::mem::swap(&mut done, &mut self.benches);
        proof {
            assert(sel0.subrange(0, sel0.len() as int) =~= sel0);
            assert(m.len() == sel0.len());
            assert forall|i: int| 0 <= i < m.len() implies #[trigger] m[i]
                == final(self).completed_spec()[pre.completed_spec().len() + i].bench_info by {
                assert(m[i] == sel0[i].bench_info);
            }
            assert forall|i: int| 0 <= i < m.len() implies {
                &&& strings_view(log@)[1 + 2 * i] == task_id_line_spec((#[trigger] m[i]).id@)
                &&& strings_view(log@)[2 + 2 * i] == task_block_spec(
                    final(self).completed_spec()[pre.completed_spec().len() + i],
                )
            } by {
                assert(m[i] == sel0[i].bench_info);
                assert(log@[1 + 2 * i]@ == task_id_line_spec(sel0[i].bench_info.id@));
            }
            assert(benchmark_rel(*old(self), *filter, *final(self), strings_view(log@)));
        }
        log
    }
}

impl<T> Group<T> {
    /// Emits this group's report exactly once, as `report_rel` states: the
    /// first call after at least one benchmark ran hands back the rows and
    /// their encoding under a timestamped filename; any other call is a
    /// no-op, and a missing output location leaves only a console note.
    pub fn report(&mut self) -> (r: Option<Report>)
        ensures
            report_rel(*old(self), *final(self), r),
    {
        proof {
            use_type_invariant(&*self);
        }
        if self.did_report {
            return None;
        }
        if self.benches.len() == 0 {
            return None;
        }
        if self.output_dir.is_none() {
            print_line("CARGO_TARGET_DIR not set, skipping report writing");
            return None;
        }
        let ghost pre = *old(self);
        let ghost pnames = pre.param_names_spec();
        let mut rows: Vec<Vec<String>> = Vec::new();
        let mut header: Vec<String> = Vec::new();
        header.push(String::from_str("id"));
        header.push(String::from_str("duration(ms)"));
        header.push(String::from_str("throughput"));
        let mut j: usize = 0;
        while j < self.parameters_names.len()
            invariant
                j <= self.parameters_names@.len(),
                header@.len() == 3 + j,
                header@[0]@ == "id"@,
                header@[1]@ == "duration(ms)"@,
                header@[2]@ == "throughput"@,
                forall|x: int|
                    0 <= x < j ==> header@[3 + x]@ == (#[trigger] self.parameters_names@[x])@,
                *self == pre,
            decreases self.parameters_names@.len() - j,
        {
            let ghost h0 = header@;
            header.push(self.parameters_names[j].clone());
            proof {
                assert forall|x: int| 0 <= x < j + 1 implies header@[3 + x]@ == (
                #[trigger] self.parameters_names@[x])@ by {
                    if x < j {
                        assert(header@[3 + x] == h0[3 + x]);
                    }
                }
            }
            j += 1;
        }
        proof {
            assert forall|x: int| 0 <= x < header@.len() implies strings_view(header@)[x]
                == header_row_spec(pnames)[x] by {
                assert(strings_view(header@)[x] == header@[x]@);
                if x >= 3 {
                    assert(header@[x]@ == self.parameters_names@[x - 3]@);
                    assert(header_row_spec(pnames)[x] == pnames[x - 3]);
                }
            }
            assert(strings_view(header@) =~= header_row_spec(pnames));
            assert(header@.len() == 3 + pnames.len());
        }
        rows.push(header);
        let mut i: usize = 0;
        while i < self.benches.len()
            invariant
                i <= self.benches@.len(),
                rows@.len() == 1 + i,
                strings_view(rows@[0]@) == header_row_spec(pnames),
                rows@[0]@.len() == 3 + pnames.len(),
                forall|x: int|
                    0 <= x < i ==> strings_view(rows@[1 + x]@) == summary_row_spec(
                        #[trigger] pre.completed_spec()[x],
                    ),
                forall|x: int|
                    0 <= x < i ==> (#[trigger] rows@[1 + x])@.len() == 3 + pnames.len(),
                forall|x: int|
                    0 <= x < pre.completed_spec().len()
                        ==> (#[trigger] pre.completed_spec()[x]).bench_info.params@.len()
                        == pnames.len(),
                *self == pre,
            decreases self.benches@.len() - i,
        {
            let ghost rows0 = rows@;
            let summary = &self.benches[i];
            let mut row: Vec<String> = Vec::new();
            row.push(summary.bench_info.id.clone());
            row.push(u64_to_string(summary.elapsed_time.as_millis()));
            row.push(u64_to_string(summary.bench_info.throughput.value()));
            let params = &self.benches[i].bench_info.params;
            let mut p: usize = 0;
            while p < params.len()
                invariant
                    p <= params@.len(),
                    row@.len() == 3 + p,
                    row@[0]@ == pre.completed_spec()[i as int].bench_info.id@,
                    row@[1]@ == dec_str((pre.completed_spec()[i as int].elapsed_time.nanos
                        / 1_000_000) as nat),
                    row@[2]@ == dec_str(
                        pre.completed_spec()[i as int].bench_info.throughput.value_spec() as nat,
                    ),
                    forall|x: int| 0 <= x < p ==> row@[3 + x]@ == (#[trigger] params@[x])@,
                    params@ == pre.completed_spec()[i as int].bench_info.params@,
                    i < pre.completed_spec().len(),
                decreases params@.len() - p,
            {
                let ghost r0 = row@;
                row.push(params[p].clone());
                proof {
                    assert forall|x: int| 0 <= x < p + 1 implies row@[3 + x]@ == (
                    #[trigger] params@[x])@ by {
                        if x < p {
                            assert(row@[3 + x] == r0[3 + x]);
                        }
                    }
                }
                p += 1;
            }
            proof {
                assert forall|x: int| 0 <= x < row@.len() implies strings_view(row@)[x]
                    == summary_row_spec(pre.completed_spec()[i as int])[x] by {
                    assert(strings_view(row@)[x] == row@[x]@);
                    if x >= 3 {
                        assert(row@[x]@ == params@[x - 3]@);
                    }
                }
                assert(strings_view(row@) =~= summary_row_spec(pre.completed_spec()[i as int]));
                assert(row@.len() == 3 + pnames.len());
            }
            rows.push(row);
            proof {
                assert forall|x: int| 0 <= x < i + 1 implies strings_view((#[trigger] rows@[1
                    + x])@) == summary_row_spec(pre.completed_spec()[x]) && rows@[1 + x]@.len()
                    == 3 + pnames.len() by {
                    if x < i {
                        assert(rows@[1 + x] == rows0[1 + x]);
                        assert(strings_view(rows0[1 + x]@) == summary_row_spec(
                            pre.completed_spec()[x],
                        ));
                    }
                }
            }
            i += 1;
        }
        let ghost all_rows = report_rows_spec(pnames, pre.completed_spec());
        proof {
            assert forall|x: int| 0 <= x < rows@.len() implies rows_view(rows@)[x]
                == all_rows[x] by {
                assert(rows_view(rows@)[x] == strings_view(rows@[x]@));
                if x == 0 {
                    assert(all_rows[0] == header_row_spec(pnames));
                } else {
                    assert(all_rows[x] == summary_row_spec(pre.completed_spec()[x - 1]));
                    assert(strings_view(rows@[1 + (x - 1)]@) == summary_row_spec(
                        pre.completed_spec()[x - 1],
                    ));
                }
            }
            assert(rows_view(rows@) =~= all_rows);
            assert forall|x: int| 0 <= x < rows@.len() implies (#[trigger] rows@[x])@.len()
                == rows@[0]@.len() by {
                if x > 0 {
                    assert(rows@[1 + (x - 1)]@.len() == 3 + pnames.len());
                }
            }
        }
        let bytes = encode_rows(&rows);
        let ts = utc_timestamp();
        let mut filename = String::from_str("report_");
        filename.append(ts.as_str());
        filename.append(".csv");
        proof {
            reveal_strlit("report_");
            reveal_strlit(".csv");
            assert(filename@.subrange(0, 7) =~= "report_"@);
            assert(filename@.subrange(filename@.len() - 4, filename@.len() as int) =~= ".csv"@);
            assert(filename@.subrange(7, filename@.len() - 4) =~= ts@);
        }
        let dir = match &self.output_dir {
            Some(d) => d.clone(),
            None => String::new(),
        };
        let mut note = String::from_str("Writing report to ");
        note.append(dir.as_str());
        note.append("/");
        note.append(filename.as_str());
        proof {
            assert(note@ =~= "Writing report to "@ + dir@ + "/"@ + filename@);
        }
        print_line(note.as_str());
        self.did_report = true;
        Some(Report { dir, filename, rows, bytes, note })
    }
}

/// Every info kept by `matched_infos` passes the filter.
proof fn lemma_matched_infos_pred(name: Seq<char>, infos: Seq<BenchInfo>, filter: BenchmarkFilter)
    ensures
        forall|i: int|
            0 <= i < matched_infos(name, infos, filter).len() ==> filter.spec_matches(
                qualified_id(name, (#[trigger] matched_infos(name, infos, filter)[i]).id@),
            ),
    decreases infos.len(),
{
    if infos.len() == 0 {
        assert(infos =~= Seq::<BenchInfo>::empty());
        lemma_matched_infos_empty(name, filter);
    } else {
        let prefix = infos.drop_last();
        lemma_matched_infos_pred(name, prefix, filter);
        assert(prefix.push(infos.last()) =~= infos);
        lemma_matched_infos_push(name, prefix, infos.last(), filter);
    }
}

/// If no info passes the filter, nothing is kept.
proof fn lemma_matched_infos_all_unmatched_empty(
    name: Seq<char>,
    infos: Seq<BenchInfo>,
    filter: BenchmarkFilter,
)
    requires
        forall|i: int|
            0 <= i < infos.len() ==> !filter.spec_matches(
                qualified_id(name, (#[trigger] infos[i]).id@),
            ),
    ensures
        matched_infos(name, infos, filter).len() == 0,
    decreases infos.len(),
{
    if infos.len() == 0 {
        assert(infos =~= Seq::<BenchInfo>::empty());
        lemma_matched_infos_empty(name, filter);
    } else {
        let prefix = infos.drop_last();
        lemma_matched_infos_all_unmatched_empty(name, prefix, filter);
        assert(prefix.push(infos.last()) =~= infos);
        assert(!filter.spec_matches(qualified_id(name, infos[infos.len() - 1].id@)));
        lemma_matched_infos_push(name, prefix, infos.last(), filter);
    }
}

/// Law: only matching tasks run. After a run on a group with no prior
/// results, every completed summary belongs to a task whose qualified id
/// passed the filter, and each data row of the report that would be emitted
/// describes one of those summaries — so a registered task whose qualified
/// id does not match contributes no summary and no row.
pub proof fn lemma_unmatched_tasks_excluded<T>(
    pre: Group<T>,
    filter: BenchmarkFilter,
    post: Group<T>,
    log: Seq<Seq<char>>,
)
    requires
        benchmark_rel(pre, filter, post, log),
        pre.completed_spec().len() == 0,
    ensures
        forall|i: int|
            0 <= i < post.completed_spec().len() ==> filter.spec_matches(
                qualified_id(
                    pre.name_spec(),
                    (#[trigger] post.completed_spec()[i]).bench_info.id@,
                ),
            ),
        forall|i: int|
            0 <= i < post.completed_spec().len() ==> report_rows_spec(
                post.param_names_spec(),
                post.completed_spec(),
            )[i + 1] == summary_row_spec(#[trigger] post.completed_spec()[i]),
{
    let m = matched_infos(pre.name_spec(), pre.pending_infos(), filter);
    lemma_matched_infos_pred(pre.name_spec(), pre.pending_infos(), filter);
    assert forall|i: int| 0 <= i < post.completed_spec().len() implies filter.spec_matches(
        qualified_id(pre.name_spec(), (#[trigger] post.completed_spec()[i]).bench_info.id@),
    ) by {
        assert(m[i] == post.completed_spec()[pre.completed_spec().len() + i].bench_info);
        assert(post.completed_spec()[i].bench_info == m[i]);
    }
}

/// Law: a group reports at most once. Across two consecutive `report` calls
/// at most one document comes out, and once a call has emitted one, any
/// further call changes nothing and emits nothing.
pub proof fn lemma_report_at_most_once<T>(
    g0: Group<T>,
    g1: Group<T>,
    r1: Option<Report>,
    g2: Group<T>,
    r2: Option<Report>,
)
    requires
        report_rel(g0, g1, r1),
        report_rel(g1, g2, r2),
    ensures
        !(r1 is Some && r2 is Some),
        r1 is Some ==> r2 is None && g2 == g1,
{
}

/// Law: a group with zero matching tasks stays silent. A run whose filter
/// matches none of the pending tasks prints no line at all, and on a group
/// with no prior results, the following `report` call creates no document.
pub proof fn lemma_no_match_no_output<T>(
    pre: Group<T>,
    filter: BenchmarkFilter,
    mid: Group<T>,
    log: Seq<Seq<char>>,
    post: Group<T>,
    rep: Option<Report>,
)
    requires
        benchmark_rel(pre, filter, mid, log),
        report_rel(mid, post, rep),
        pre.completed_spec().len() == 0,
        forall|i: int|
            0 <= i < pre.pending_infos().len() ==> !filter.spec_matches(
                qualified_id(pre.name_spec(), (#[trigger] pre.pending_infos()[i]).id@),
            ),
    ensures
        log.len() == 0,
        rep is None,
        post.completed_spec().len() == 0,
        post.pending_infos().len() == 0,
{
    lemma_matched_infos_all_unmatched_empty(pre.name_spec(), pre.pending_infos(), filter);
}

} // verus!
