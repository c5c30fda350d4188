//! What is decided around the pipeline runs of one dependent, and how the
//! results of all dependents make up the table.

use vstd::prelude::*;
use vstd::string::*;
use crate::api::ReverseDependency;
use crate::cli::CliArgs;
use crate::compile::SourceView;
use crate::error_extract::text_of;
use crate::pipeline::PipelinePlan;
use crate::planner::{
    parse_dependent_spec,
    dependent_spec,
    request_for,
    run_request,
    DependentPlan,
    OverrideSource,
    RunRequest,
    TestedVersion,
    TestedVersionView,
};
use crate::report::{
    format_offered_row_string,
    format_separator_line,
    format_table_footer,
    format_table_header,
    joined_lines,
    row_lines,
    separator_line,
    table_footer,
    table_header,
    TableLayout,
    TableWidths,
};
use crate::results::{rows_of, Error, ErrorView, TestResult};
use crate::rows::{views, OfferedRow, OfferedRowView};
use crate::summary::{
    format_summary,
    results_counted,
    summarize_results,
    summary_text,
    TestSummary,
};
use crate::results::VersionStatus;
use crate::text::{chars_of, owned, same_text, string_of_range};

verus! {

impl DependentPlan {
    /// Entry `index` is the baseline of the plan.
    pub open spec fn baseline_at(self, index: int) -> bool {
        self.has_baseline && index == 0
    }

    /// Whether entry `index` is the baseline of the plan, to be built
    /// without override.
    pub fn is_baseline(&self, index: usize) -> (b: bool)
        ensures
            b == self.baseline_at(index as int),
    {
        self.has_baseline && index == 0
    }

    /// What the pipeline run for entry `index` is given; `None` behind the
    /// end of the plan.
    pub fn request(&self, index: usize) -> (r: Option<RunRequest>)
        ensures
            match r {
                Some(q) => index < self.entries@.len() && (
                    q.source@,
                    text_of(q.expected_version),
                    q.forced,
                ) == request_for(self.entries@[index as int]@, self.baseline_at(index as int)),
                None => index >= self.entries@.len(),
            },
    {
        if index < self.entries.len() {
            Some(run_request(&self.entries[index], self.is_baseline(index)))
        } else {
            None
        }
    }
}

/// How a run is called in the failure log: `baseline`, or the label of the
/// version.
pub open spec fn run_label_text(entry: TestedVersionView, is_baseline: bool) -> Seq<char> {
    if is_baseline {
        "baseline"@
    } else {
        match entry.source {
            SourceView::Published(v) => v,
            SourceView::Local(_) => "this"@,
        }
    }
}

/// The name of a run for the failure log.
pub fn run_label(entry: &TestedVersion, is_baseline: bool) -> (s: String)
    ensures
        s@ == run_label_text(entry@, is_baseline),
{
    if is_baseline {
        owned("baseline")
    } else {
        entry.source.label()
    }
}

/// The plan of the pipeline for a request: an override unless the request
/// is for the baseline, forced as the request says.
pub fn pipeline_plan(request: &RunRequest, skip_check: bool, skip_test: bool) -> (plan:
    PipelinePlan)
    ensures
        plan == (PipelinePlan {
            has_override: !(request.source@ is Baseline),
            forced: request.forced,
            skip_check,
            skip_test,
        }),
{
    let has_override = match &request.source {
        OverrideSource::Baseline => false,
        _ => true,
    };
    PipelinePlan { has_override, forced: request.forced, skip_check, skip_test }
}

/// What is to be said of the version that a run resolved: nothing if it is
/// the expected one or none was expected; a warning if another version was
/// resolved, or if the resolved version could not be found.
pub open spec fn version_note_text(
    expected: Option<Seq<char>>,
    actual: Option<Seq<char>>,
    subject: Seq<char>,
) -> Option<Seq<char>> {
    match (expected, actual) {
        (Some(e), Some(a)) => if a == e {
            None
        } else {
            Some("⚠️  VERSION MISMATCH: Expected "@ + e + " but cargo resolved to "@ + a + "!"@)
        },
        (Some(_), None) => Some(
            "⚠️  Could not verify version for "@ + subject + " (cargo tree failed)"@,
        ),
        (None, _) => None,
    }
}

/// The note on the version that a run resolved, if one is called for.
pub fn version_note(expected: &Option<String>, actual: &Option<String>, subject: &str) -> (r:
    Option<String>)
    ensures
        text_of(r) == version_note_text(text_of(*expected), text_of(*actual), subject@),
{
    match (expected, actual) {
        (Some(e), Some(a)) => {
            if same_text(a.as_str(), e.as_str()) {
                None
            } else {
                let mut s = owned("⚠️  VERSION MISMATCH: Expected ");
                s.append(e.as_str());
                s.append(" but cargo resolved to ");
                s.append(a.as_str());
                s.append("!");
                Some(s)
            }
        },
        (Some(_), None) => {
            let mut s = owned("⚠️  Could not verify version for ");
            s.append(subject);
            s.append(" (cargo tree failed)");
            Some(s)
        },
        (None, _) => None,
    }
}

/// Index of the last `/` of `s` before `end`; `-1` if there is none.
pub open spec fn last_slash(s: Seq<char>, end: int) -> int
    decreases end,
{
    if end <= 0 {
        -1
    } else if s[end - 1] == '/' {
        end - 1
    } else {
        last_slash(s, end - 1)
    }
}

/// Where `s` ends when the slashes at its end are left off.
pub open spec fn trimmed_end(s: Seq<char>, end: int) -> int
    decreases end,
{
    if end <= 0 {
        0
    } else if s[end - 1] == '/' {
        trimmed_end(s, end - 1)
    } else {
        end
    }
}

/// The name of the directory or file that a path leads to: what stands
/// behind the last `/`, slashes at the end left off. A path that leads to
/// nothing with a name of its own (the root, `.` or `..`) has none.
pub open spec fn path_name(path: Seq<char>) -> Option<Seq<char>> {
    let end = trimmed_end(path, path.len() as int);
    let name = path.subrange(last_slash(path, end) + 1, end);
    if name.len() == 0 || name == "."@ || name == ".."@ {
        None
    } else {
        Some(name)
    }
}

/// The name that a path leads to.
pub fn path_file_name(path: &str) -> (r: Option<String>)
    ensures
        text_of(r) == path_name(path@),
{
    let v = chars_of(path);
    let mut end: usize = v.len();
    while end > 0 && v[end - 1] == '/'
        invariant
            end <= v.len(),
            trimmed_end(v@, v@.len() as int) == trimmed_end(v@, end as int),
        decreases end,
    {
        end = end - 1;
    }
    let mut start: usize = end;
    while start > 0 && v[start - 1] != '/'
        invariant
            start <= end <= v.len(),
            last_slash(v@, end as int) == last_slash(v@, start as int),
        decreases start,
    {
        start = start - 1;
    }
    let name = string_of_range(&v, start, end);
    if end == start || same_text(name.as_str(), ".") || same_text(name.as_str(), "..") {
        None
    } else {
        Some(name)
    }
}

/// A dependent to test: its name, and its version if the user named one.
#[derive(Debug, Clone)]
pub struct NamedDependent {
    pub name: String,
    pub version: Option<String>,
}

/// Mathematical value of a [`NamedDependent`].
pub struct NamedDependentView {
    pub name: Seq<char>,
    pub version: Option<Seq<char>>,
}

impl View for NamedDependent {
    type V = NamedDependentView;

    open spec fn view(&self) -> NamedDependentView {
        NamedDependentView { name: self.name@, version: text_of(self.version) }
    }
}

/// The dependents that the first `n` paths name, or the error for the
/// first path that names none.
pub open spec fn dependents_at_paths(paths: Seq<String>, n: int) -> Result<
    Seq<NamedDependentView>,
    ErrorView,
>
    decreases n,
{
    if n <= 0 {
        Ok(Seq::<NamedDependentView>::empty())
    } else {
        match dependents_at_paths(paths, n - 1) {
            Err(e) => Err(e),
            Ok(head) => match path_name(paths[n - 1]@) {
                Some(name) => Ok(head.push(NamedDependentView { name, version: None })),
                None => Err(ErrorView::InvalidPath(paths[n - 1]@)),
            },
        }
    }
}

/// The dependents to test. Paths on disk come first: if any are given,
/// the dependents are those that the paths name. Otherwise the dependents
/// that the user listed, each with its version if it has one. Otherwise
/// the most downloaded dependents that the registry listed.
pub open spec fn selected_dependents(args: CliArgs, top: Seq<ReverseDependency>) -> Result<
    Seq<NamedDependentView>,
    ErrorView,
> {
    if args.dependent_paths@.len() > 0 {
        dependents_at_paths(args.dependent_paths@, args.dependent_paths@.len() as int)
    } else if args.dependents@.len() > 0 {
        Ok(
            Seq::new(
                args.dependents@.len(),
                |i: int|
                    NamedDependentView {
                        name: dependent_spec(args.dependents@[i]@).0,
                        version: dependent_spec(args.dependents@[i]@).1,
                    },
            ),
        )
    } else {
        Ok(Seq::new(top.len(), |i: int| NamedDependentView { name: top[i].name@, version: None }))
    }
}

/// Whether the dependents have to be asked of the registry: when the user
/// named none.
pub fn needs_top_dependents(args: &CliArgs) -> (b: bool)
    ensures
        b == (args.dependent_paths@.len() == 0 && args.dependents@.len() == 0),
{
    args.dependent_paths.len() == 0 && args.dependents.len() == 0
}

proof fn lemma_paths_error_sticks(paths: Seq<String>, i: int, n: int)
    requires
        0 <= i <= n,
        dependents_at_paths(paths, i) is Err,
    ensures
        dependents_at_paths(paths, n) == dependents_at_paths(paths, i),
    decreases n - i,
{
    if i < n {
        lemma_paths_error_sticks(paths, i, n - 1);
    }
}

/// Picks the dependents to test. `top` is what the registry listed, and is
/// looked at only when the user named no dependents.
pub fn select_dependents(args: &CliArgs, top: &Vec<ReverseDependency>) -> (r: Result<
    Vec<NamedDependent>,
    Error,
>)
    ensures
        match r {
            Ok(list) => selected_dependents(*args, top@) == Ok::<
                Seq<NamedDependentView>,
                ErrorView,
            >(views(list@)),
            Err(e) => selected_dependents(*args, top@) == Err::<
                Seq<NamedDependentView>,
                ErrorView,
            >(e@),
        },
{
    let mut list: Vec<NamedDependent> = Vec::new();
    if args.dependent_paths.len() > 0 {
        let mut i: usize = 0;
        assert(views(list@) =~= Seq::<NamedDependentView>::empty());
        while i < args.dependent_paths.len()
            invariant
                i <= args.dependent_paths.len(),
                dependents_at_paths(args.dependent_paths@, i as int) == Ok::<
                    Seq<NamedDependentView>,
                    ErrorView,
                >(views(list@)),
            decreases args.dependent_paths.len() - i,
        {
            let ghost before = views(list@);
            match path_file_name(args.dependent_paths[i].as_str()) {
                Some(name) => {
                    let item = NamedDependent { name, version: None };
                    list.push(item);
                    assert(views(list@) =~= before.push(item@));
                },
                None => {
                    proof {
                        lemma_paths_error_sticks(
                            args.dependent_paths@,
                            i as int + 1,
                            args.dependent_paths@.len() as int,
                        );
                    }
                    return Err(Error::InvalidPath(args.dependent_paths[i].clone()));
                },
            }
            i = i + 1;
        }
        Ok(list)
    } else if args.dependents.len() > 0 {
        let mut i: usize = 0;
        while i < args.dependents.len()
            invariant
                i <= args.dependents.len(),
                list@.len() == i,
                forall|k: int|
                    0 <= k < i ==> (#[trigger] list@[k])@ == (NamedDependentView {
                        name: dependent_spec(args.dependents@[k]@).0,
                        version: dependent_spec(args.dependents@[k]@).1,
                    }),
            decreases args.dependents.len() - i,
        {
            let pair = parse_dependent_spec(args.dependents[i].as_str());
            list.push(NamedDependent { name: pair.0, version: pair.1 });
            i = i + 1;
        }
        assert(views(list@) =~= selected_dependents(*args, top@)->Ok_0);
        Ok(list)
    } else {
        let mut i: usize = 0;
        while i < top.len()
            invariant
                i <= top.len(),
                list@.len() == i,
                forall|k: int|
                    0 <= k < i ==> (#[trigger] list@[k])@ == (NamedDependentView {
                        name: top@[k].name@,
                        version: None,
                    }),
            decreases top.len() - i,
        {
            list.push(NamedDependent { name: top[i].name.clone(), version: None });
            i = i + 1;
        }
        assert(views(list@) =~= selected_dependents(*args, top@)->Ok_0);
        Ok(list)
    }
}

/// Cuts the list of dependents to the hard limit, if one is set: the first
/// `limit` dependents stay.
pub fn cap_dependents(list: Vec<NamedDependent>, limit: Option<usize>) -> (r: Vec<NamedDependent>)
    ensures
        r@ == match limit {
            Some(n) => if list@.len() > n {
                list@.take(n as int)
            } else {
                list@
            },
            None => list@,
        },
{
    let mut list = list;
    match limit {
        Some(n) => {
            if list.len() > n {
                list.truncate(n);
            }
        },
        None => {},
    }
    list
}

/// The lines of the first `n` rows of a dependent, each with its line
/// feed. The last row of the dependent closes the group.
pub open spec fn group_text(rows: Seq<OfferedRowView>, n: int, w: TableLayout) -> Seq<char>
    decreases n,
{
    if n <= 0 {
        Seq::<char>::empty()
    } else {
        let lines = row_lines(rows[n - 1], n == rows.len(), w);
        group_text(rows, n - 1, w) + joined_lines(lines, lines.len() as int)
    }
}

/// The rows of the first `n` results, with a rule behind every dependent
/// but the last of all.
pub open spec fn body_text(results: Seq<TestResult>, n: int, w: TableLayout) -> Seq<char>
    decreases n,
{
    if n <= 0 {
        Seq::<char>::empty()
    } else {
        let rows = rows_of(results[n - 1]);
        body_text(results, n - 1, w) + group_text(rows, rows.len() as int, w) + if n
            < results.len() {
            separator_line(w) + "\n"@
        } else {
            Seq::<char>::empty()
        }
    }
}

fn push_group(out: &mut String, rows: &Vec<OfferedRow>, widths: &TableWidths)
    ensures
        final(out)@ == old(out)@ + group_text(views(rows@), rows@.len() as int, widths@),
{
    let ghost w = widths@;
    let ghost rs = views(rows@);
    let mut j: usize = 0;
    assert(out@ =~= old(out)@ + group_text(rs, 0, w));
    while j < rows.len()
        invariant
            j <= rows.len(),
            w == widths@,
            rs == views(rows@),
            out@ == old(out)@ + group_text(rs, j as int, w),
        decreases rows.len() - j,
    {
        assert(rs[j as int] == rows@[j as int]@);
        let ghost before = out@;
        let text = format_offered_row_string(&rows[j], j + 1 == rows.len(), widths);
        out.append(text.as_str());
        j = j + 1;
        assert(out@ =~= old(out)@ + (group_text(rs, j - 1, w) + text@));
    }
}

fn push_result(out: &mut String, results: &Vec<TestResult>, i: usize, widths: &TableWidths)
    requires
        i < results.len(),
        old(out)@ == body_text(results@, i as int, widths@),
    ensures
        final(out)@ == body_text(results@, i as int + 1, widths@),
{
    let ghost w = widths@;
    let rows = results[i].to_offered_rows();
    push_group(out, &rows, widths);
    let ghost grouped = out@;
    if i + 1 < results.len() {
        let line = format_separator_line(widths);
        out.append(line.as_str());
        out.append("\n");
        assert(out@ =~= grouped + (separator_line(w) + "\n"@));
    } else {
        assert(out@ =~= grouped + Seq::<char>::empty());
    }
}

fn format_body(results: &Vec<TestResult>, widths: &TableWidths) -> (r: String)
    ensures
        r@ == body_text(results@, results@.len() as int, widths@),
{
    let mut out = String::new();
    let mut i: usize = 0;
    while i < results.len()
        invariant
            i <= results.len(),
            out@ == body_text(results@, i as int, widths@),
        decreases results.len() - i,
    {
        push_result(&mut out, results, i, widths);
        i = i + 1;
    }
    out
}

/// What a run prints: the head of the table, the rows of every dependent
/// in the order of `results`, the bottom border, and the summary, in which
/// every dependent counts once, as the worst of its outcomes. It is handed
/// back with the summary, which decides the exit code.
pub fn format_results_table(
    crate_name: &str,
    display_version: &str,
    results: &Vec<TestResult>,
    widths: &TableWidths,
) -> (r: (String, TestSummary))
    ensures
        r.0@ == table_header(crate_name@, display_version@, results@.len() as nat, widths@)
            + body_text(results@, results@.len() as int, widths@) + table_footer(widths@)
            + summary_text(r.1),
        r.1.passed == results_counted(results@, results@.len() as int, VersionStatus::Passed),
        r.1.regressed == results_counted(results@, results@.len() as int, VersionStatus::Regressed),
        r.1.broken == results_counted(results@, results@.len() as int, VersionStatus::Broken),
        r.1.consistent(),
{
    let mut out = format_table_header(crate_name, display_version, results.len(), widths);
    let body = format_body(results, widths);
    out.append(body.as_str());
    out.append(format_table_footer(widths).as_str());
    let summary = summarize_results(results.as_slice());
    out.append(format_summary(&summary).as_str());
    (out, summary)
}

} // verus!
