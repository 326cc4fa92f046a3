use vstd::prelude::*;

use crate::bench::BenchRun;
use crate::group::{benchmark_rel, report_rel, Group};
use crate::report::{strings_view, Report};

verus! {

/// A caller error that the harness treats as a fatal contract violation:
/// the caller is expected to stop the run on it, as on a failed assertion.
#[derive(Clone, Copy, Debug, PartialEq, Eq, Structural)]
pub enum TamerError {
    /// A group was created under a name that already exists in the harness.
    DuplicateGroup,
    /// A descriptor's parameter count differs from the group's declared schema.
    ParamCountMismatch,
}

#[verifier::external_type_specification]
#[verifier::external_body]
pub struct ExRegex(regex::Regex);

/// Whether the regular expression compiled from `pattern` matches somewhere
/// inside `text`: a function of the pattern source and the text alone.
pub uninterp spec fn regex_match(pattern: Seq<char>, text: Seq<char>) -> bool;

/// Whether `pattern` is a valid regular expression under the regex crate's
/// default configuration: a function of the pattern text alone.
pub uninterp spec fn regex_parses(pattern: Seq<char>) -> bool;

/// A compiled regular expression, kept beside the pattern text it was
/// compiled from.
pub struct CompiledRegex {
    pattern: String,
    regex: regex::Regex,
}

impl CompiledRegex {
    /// The pattern text this expression was compiled from.
    pub closed spec fn pattern_spec(&self) -> Seq<char> {
        self.pattern@
    }

    /// Relies on regex::Regex::new: compiles `pattern` and keeps the pattern
    /// text beside the compiled form; `None` exactly when the pattern does
    /// not parse, which — under the crate's fixed default limits — depends on
    /// the pattern text alone.
    #[verifier::external_body]
    pub fn new(pattern: &str) -> (r: Option<CompiledRegex>)
        ensures
            r is Some <==> regex_parses(pattern@),
            r matches Some(c) ==> c.pattern_spec() == pattern@,
    {
        match regex::Regex::new(pattern) {
            Ok(regex) => Some(CompiledRegex { pattern: pattern.to_string(), regex }),
            Err(_) => None,
        }
    }

    /// Relies on regex::Regex::is_match: whether a match exists depends only
    /// on the pattern the expression was compiled from and the text searched.
    #[verifier::external_body]
    pub fn is_match(&self, text: &str) -> (r: bool)
        ensures
            r == regex_match(self.pattern_spec(), text@),
    {
        self.regex.is_match(text)
    }
}

/// Benchmark filtering support: which fully-qualified ids are run.
pub enum BenchmarkFilter {
    /// Run all benchmarks.
    AcceptAll,
    /// Run benchmarks matching this regular expression.
    Regex(CompiledRegex),
    /// Run the benchmark matching this string exactly.
    Exact(String),
    /// Do not run any benchmarks.
    RejectAll,
}

impl BenchmarkFilter {
    /// What this filter accepts.
    pub open spec fn spec_matches(&self, id: Seq<char>) -> bool {
        match self {
            BenchmarkFilter::AcceptAll => true,
            BenchmarkFilter::Regex(regex) => regex_match(regex.pattern_spec(), id),
            BenchmarkFilter::Exact(exact) => id == exact@,
            BenchmarkFilter::RejectAll => false,
        }
    }

    /// Whether the qualified id `id` passes this filter, as `spec_matches`
    /// states.
    pub fn filter_matches(&self, id: &str) -> (r: bool)
        ensures
            r == self.spec_matches(id@),
    {
        match self {
            BenchmarkFilter::AcceptAll => true,
            BenchmarkFilter::Regex(regex) => regex.is_match(id),
            BenchmarkFilter::Exact(exact) => {
                let owned: String = id.to_owned();
                exact.eq(&owned)
            },
            BenchmarkFilter::RejectAll => false,
        }
    }
}

/// The outcome of running one group: the console lines it printed and the
/// report it emitted, if any.
pub struct GroupOutcome {
    pub log: Vec<String>,
    pub report: Option<Report>,
}

/// How one group fares under `Tamer::benchmark`: a `Group::benchmark` run
/// under the harness filter, followed by one `Group::report` call.
pub open spec fn run_and_report_rel<T>(
    pre: Group<T>,
    filter: BenchmarkFilter,
    post: Group<T>,
    log: Seq<Seq<char>>,
    rep: Option<Report>,
) -> bool {
    exists|mid: Group<T>| #[trigger] benchmark_rel(pre, filter, mid, log) && report_rel(
        mid,
        post,
        rep,
    )
}

/// The harness: owns every group, enforces globally unique group names,
/// holds the active filter, and drives "run everything, then flush every
/// group's report" as one top-level action.
pub struct Tamer<T> {
    groups: Vec<Group<T>>,
    output_dir: Option<String>,
    filter: BenchmarkFilter,
}

impl<T> Tamer<T> {
    /// The owned groups, in creation order.
    pub closed spec fn groups_spec(&self) -> Seq<Group<T>> {
        self.groups@
    }

    /// The harness's output root, when one was resolved.
    pub closed spec fn output_dir_spec(&self) -> Option<Seq<char>> {
        match self.output_dir {
            Some(ref p) => Some(p@),
            None => None,
        }
    }

    /// The active filter.
    pub closed spec fn filter_spec(&self) -> BenchmarkFilter {
        self.filter
    }

    /// Whether some owned group carries `name`.
    pub open spec fn has_group_named(&self, name: Seq<char>) -> bool {
        exists|i: int|
            0 <= i < self.groups_spec().len() && (#[trigger] self.groups_spec()[i]).name_spec()
                == name
    }

    /// A fresh harness with no groups; an output root, when given, is scoped
    /// under the harness's own directory.
    pub fn new(output_dir: Option<String>, filter: BenchmarkFilter) -> (t: Tamer<T>)
        ensures
            t.groups_spec().len() == 0,
            t.filter_spec() == filter,
            (match output_dir {
                Some(p) => t.output_dir_spec() == Some(p@ + "/tamer"@),
                None => t.output_dir_spec() is None,
            }),
    {
        let output_dir = match output_dir {
            Some(p) => {
                let mut joined = p;
                joined.append("/tamer");
                Some(joined)
            },
            None => None,
        };
        Tamer { groups: Vec::new(), output_dir, filter }
    }

    /// Only run benchmarks accepted by the given filter.
    pub fn with_benchmark_filter(self, filter: BenchmarkFilter) -> (t: Tamer<T>)
        ensures
            t.groups_spec() == self.groups_spec(),
            t.output_dir_spec() == self.output_dir_spec(),
            t.filter_spec() == filter,
    {
        Tamer { filter, ..self }
    }

    /// Creates a fresh group under `name`, scoped beneath the harness's
    /// output root, and hands back its index, for `group_mut`. A name that
    /// already exists in the harness is a fatal contract violation, reported
    /// without creating anything.
    pub fn benchmark_group(&mut self, name: String) -> (r: Result<usize, TamerError>)
        ensures
            match r {
                Ok(idx) => {
                    &&& !old(self).has_group_named(name@)
                    &&& idx == old(self).groups_spec().len()
                    &&& final(self).groups_spec().len() == old(self).groups_spec().len() + 1
                    &&& (forall|i: int|
                        0 <= i < old(self).groups_spec().len() ==> old(self).groups_spec()[i]
                            == #[trigger] final(self).groups_spec()[i])
                    &&& final(self).groups_spec().last().name_spec() == name@
                    &&& (match old(self).output_dir_spec() {
                        Some(d) => final(self).groups_spec().last().output_dir_spec() == Some(
                            d + "/"@ + name@,
                        ),
                        None => final(self).groups_spec().last().output_dir_spec() is None,
                    })
                    &&& final(self).groups_spec().last().param_names_spec().len() == 0
                    &&& final(self).groups_spec().last().pending_infos().len() == 0
                    &&& final(self).groups_spec().last().completed_spec().len() == 0
                    &&& !final(self).groups_spec().last().reported_spec()
                    &&& final(self).output_dir_spec() == old(self).output_dir_spec()
                    &&& final(self).filter_spec() == old(self).filter_spec()
                },
                Err(e) => {
                    &&& e == TamerError::DuplicateGroup
                    &&& old(self).has_group_named(name@)
                    &&& *final(self) == *old(self)
                },
            },
    {
        let n = self.groups.len();
        let mut i: usize = 0;
        while i < n
            invariant
                i <= n,
                n == self.groups@.len(),
                forall|x: int|
                    0 <= x < i ==> (#[trigger] self.groups@[x]).name_spec() != name@,
            decreases n - i,
        {
            if self.groups[i].name().eq(&name) {
                return Err(TamerError::DuplicateGroup);
            }
            i += 1;
        }
        let output_dir = match &self.output_dir {
            Some(p) => Some(p.clone()),
            None => None,
        };
        let g: Group<T> = Group::new(name, output_dir);
        let idx = self.groups.len();
        self.groups.push(g);
        Ok(idx)
    }

    /// How many groups the harness owns.
    pub fn group_count(&self) -> (n: usize)
        ensures
            n == self.groups_spec().len(),
    {
        self.groups.len()
    }

    /// A handle to the group at `idx`, for configuration and registration.
    pub fn group_mut(&mut self, idx: usize) -> (g: &mut Group<T>)
        requires
            idx < old(self).groups_spec().len(),
        ensures
            *g == old(self).groups_spec()[idx as int],
            final(self).groups_spec() == old(self).groups_spec().update(idx as int, *final(g)),
            final(self).output_dir_spec() == old(self).output_dir_spec(),
            final(self).filter_spec() == old(self).filter_spec(),
    {
        &mut self.groups[idx]
    }
}

impl<T: BenchRun> Tamer<T> {
    /// Runs the group at `idx` against the active filter and then flushes its
    /// report, as `run_and_report_rel` states; no other group is touched. The
    /// harness's own run calls this once per group, in creation order. A
    /// caller that persists each outcome before the next group runs keeps the
    /// finished groups' reports even when a later benchmark aborts the run.
    pub fn benchmark_at(&mut self, idx: usize) -> (o: GroupOutcome)
        requires
            idx < old(self).groups_spec().len(),
        ensures
            final(self).groups_spec().len() == old(self).groups_spec().len(),
            forall|x: int|
                0 <= x < old(self).groups_spec().len() && x != idx ==> old(self).groups_spec()[x]
                    == #[trigger] final(self).groups_spec()[x],
            final(self).output_dir_spec() == old(self).output_dir_spec(),
            final(self).filter_spec() == old(self).filter_spec(),
            run_and_report_rel(
                old(self).groups_spec()[idx as int],
                old(self).filter_spec(),
                final(self).groups_spec()[idx as int],
                strings_view(o.log@),
                o.report,
            ),
    {
        let log = {
            let g = &mut self.groups[idx];
            g.benchmark(&self.filter)
        };
        let ghost mid = self.groups@[idx as int];
        let rep = {
            let g = &mut self.groups[idx];
            g.report()
        };
        proof {
            assert(benchmark_rel(
                old(self).groups_spec()[idx as int],
                old(self).filter_spec(),
                mid,
                strings_view(log@),
            ));
            assert(report_rel(mid, self.groups@[idx as int], rep));
        }
        GroupOutcome { log, report: rep }
    }

    /// Runs every group in creation order against the active filter and then
    /// flushes its report, handing back one outcome per group: what it
    /// printed and what it emitted, as `run_and_report_rel` states.
    pub fn benchmark(&mut self) -> (outcomes: Vec<GroupOutcome>)
        ensures
            final(self).groups_spec().len() == old(self).groups_spec().len(),
            final(self).output_dir_spec() == old(self).output_dir_spec(),
            final(self).filter_spec() == old(self).filter_spec(),
            outcomes@.len() == old(self).groups_spec().len(),
            forall|i: int|
                0 <= i < outcomes@.len() ==> run_and_report_rel(
                    old(self).groups_spec()[i],
                    old(self).filter_spec(),
                    final(self).groups_spec()[i],
                    strings_view((#[trigger] outcomes@[i]).log@),
                    outcomes@[i].report,
                ),
    {
        let mut outcomes: Vec<GroupOutcome> = Vec::new();
        let n = self.groups.len();
        let mut i: usize = 0;
        while i < n
            invariant
                i <= n,
                n == old(self).groups_spec().len(),
                self.groups@.len() == n,
                outcomes@.len() == i,
                self.output_dir_spec() == old(self).output_dir_spec(),
                self.filter_spec() == old(self).filter_spec(),
                forall|x: int|
                    i <= x < n ==> #[trigger] self.groups@[x] == old(self).groups_spec()[x],
                forall|x: int|
                    0 <= x < i ==> run_and_report_rel(
                        old(self).groups_spec()[x],
                        old(self).filter_spec(),
                        self.groups@[x],
                        strings_view((#[trigger] outcomes@[x]).log@),
                        outcomes@[x].report,
                    ),
            decreases n - i,
        {
            let o = self.benchmark_at(i);
            outcomes.push(o);
            i += 1;
        }
        outcomes
    }
}

} // verus!
