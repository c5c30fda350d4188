//! Counting the verdicts of a run, and what the counts mean for the exit
//! code.

use vstd::prelude::*;
use vstd::string::*;
use crate::report::{verdict_of, RowVerdict};
use crate::compile::ThreeStepResult;
use crate::results::{
    commands_of, rolled_up_status, row_of, rows_of, status_at, worst_status, RevDep, TestResult,
    TestResultData, VersionStatus, VersionTestOutcome,
};
use crate::rows::{views, OfferedRow, OfferedRowView, TestExecutionView};
use crate::text::{decimal, owned, push_usize};

verus! {

/// How many results passed, regressed and were broken.
#[derive(Debug, Clone, Copy, PartialEq, Eq, Structural)]
pub struct TestSummary {
    pub passed: usize,
    pub regressed: usize,
    pub broken: usize,
    pub total: usize,
}

/// Exit code of a run without regression.
pub const EXIT_CLEAN: i32 = 0;

/// Exit code of a run that cannot start.
pub const EXIT_FATAL: i32 = -1;

/// Exit code of a run in which something regressed.
pub const EXIT_REGRESSED: i32 = -2;

impl TestSummary {
    /// The counts add up.
    pub open spec fn consistent(self) -> bool {
        self.total == self.passed + self.regressed + self.broken
    }

    /// The exit code that the counts call for: that of a regression if
    /// anything regressed, the clean one otherwise.
    pub fn exit_code(&self) -> (code: i32)
        ensures
            code == if self.regressed > 0 {
                EXIT_REGRESSED
            } else {
                EXIT_CLEAN
            },
    {
        if self.regressed > 0 {
            EXIT_REGRESSED
        } else {
            EXIT_CLEAN
        }
    }
}

/// What a row counts as: nothing if no command ran for it; otherwise its
/// verdict, a failure without baseline counting as a broken dependent.
pub open spec fn row_class(row: OfferedRowView) -> Option<VersionStatus> {
    if row.test.commands.len() == 0 {
        None
    } else {
        Some(
            match verdict_of(row) {
                RowVerdict::Passed => VersionStatus::Passed,
                RowVerdict::Regressed => VersionStatus::Regressed,
                RowVerdict::Broken => VersionStatus::Broken,
                RowVerdict::Failed => VersionStatus::Broken,
            },
        )
    }
}

/// The worse of what two rows count as; a row that counts as nothing
/// leaves the other as it is.
pub open spec fn worse_class(a: Option<VersionStatus>, b: Option<VersionStatus>) -> Option<
    VersionStatus,
> {
    match (a, b) {
        (Some(x), Some(y)) => Some(x.worse_of(y)),
        (Some(x), None) => Some(x),
        (None, y) => y,
    }
}

/// What the dependent of row `i` counts as, as far as the rows up to row
/// `i` show: the worst of its rows. The rows of a dependent begin with its
/// baseline row, which offers nothing.
pub open spec fn group_class(rows: Seq<OfferedRowView>, i: int) -> Option<VersionStatus>
    decreases i,
{
    if i <= 0 || rows[i].offered is None {
        row_class(rows[i])
    } else {
        worse_class(group_class(rows, i - 1), row_class(rows[i]))
    }
}

/// Row `i` is the last row of its dependent: no row follows, or a baseline
/// row does.
pub open spec fn ends_group(rows: Seq<OfferedRowView>, i: int) -> bool {
    i + 1 >= rows.len() || rows[i + 1].offered is None
}

/// How many of the dependents whose rows end among the first `n` rows
/// count as `status`.
pub open spec fn rows_counted(rows: Seq<OfferedRowView>, n: int, status: VersionStatus) -> nat
    decreases n,
{
    if n <= 0 {
        0
    } else {
        rows_counted(rows, n - 1, status) + if ends_group(rows, n - 1) && group_class(rows, n - 1)
            == Some(status) {
            1nat
        } else {
            0nat
        }
    }
}

/// What a result counts as: nothing if the dependent was left out, broken
/// if it could not be tested, and otherwise the worst verdict among its
/// outcomes.
pub open spec fn result_class(result: TestResult) -> Option<VersionStatus> {
    match result.data {
        TestResultData::Skipped(_) => None,
        TestResultData::Error(_) => Some(VersionStatus::Broken),
        TestResultData::MultiVersion(outcomes) => Some(
            worst_status(outcomes@, outcomes@.len() as int),
        ),
    }
}

/// How many of the first `n` results count as `status`.
pub open spec fn results_counted(results: Seq<TestResult>, n: int, status: VersionStatus) -> nat
    decreases n,
{
    if n <= 0 {
        0
    } else {
        results_counted(results, n - 1, status) + if result_class(results[n - 1]) == Some(status) {
            1nat
        } else {
            0nat
        }
    }
}

fn class_of_row(row: &OfferedRow) -> (c: Option<VersionStatus>)
    ensures
        c == row_class(row@),
{
    if row.test.commands.len() == 0 {
        return None;
    }
    Some(
        match RowVerdict::of_row(row) {
            RowVerdict::Passed => VersionStatus::Passed,
            RowVerdict::Regressed => VersionStatus::Regressed,
            RowVerdict::Broken => VersionStatus::Broken,
            RowVerdict::Failed => VersionStatus::Broken,
        },
    )
}

fn worse_of_classes(a: Option<VersionStatus>, b: Option<VersionStatus>) -> (r: Option<
    VersionStatus,
>)
    ensures
        r == worse_class(a, b),
{
    match (a, b) {
        (Some(x), Some(y)) => Some(x.worse(y)),
        (Some(x), None) => Some(x),
        (None, y) => y,
    }
}

/// Counts the dependents of the rows by the worst verdict among the rows of
/// each. The rows of a dependent are its baseline row and the rows that
/// follow it up to the next baseline row. A dependent for which no command
/// ran is not counted.
pub fn summarize_offered_rows(rows: &[OfferedRow]) -> (s: TestSummary)
    ensures
        s.passed == rows_counted(views(rows@), rows@.len() as int, VersionStatus::Passed),
        s.regressed == rows_counted(views(rows@), rows@.len() as int, VersionStatus::Regressed),
        s.broken == rows_counted(views(rows@), rows@.len() as int, VersionStatus::Broken),
        s.consistent(),
{
    let mut passed: usize = 0;
    let mut regressed: usize = 0;
    let mut broken: usize = 0;
    let mut group: Option<VersionStatus> = None;
    let mut i: usize = 0;
    let ghost vs = views(rows@);
    while i < rows.len()
        invariant
            i <= rows@.len(),
            vs == views(rows@),
            i > 0 ==> group == group_class(vs, i - 1),
            passed == rows_counted(vs, i as int, VersionStatus::Passed),
            regressed == rows_counted(vs, i as int, VersionStatus::Regressed),
            broken == rows_counted(vs, i as int, VersionStatus::Broken),
            passed + regressed + broken <= i,
        decreases rows@.len() - i,
    {
        assert(vs[i as int] == rows@[i as int]@);
        let class = class_of_row(&rows[i]);
        group = if i == 0 || rows[i].offered.is_none() {
            class
        } else {
            worse_of_classes(group, class)
        };
        let last = if i + 1 < rows.len() {
            assert(vs[i + 1] == rows@[i + 1]@);
            rows[i + 1].offered.is_none()
        } else {
            true
        };
        if last {
            match group {
                Some(VersionStatus::Passed) => {
                    passed = passed + 1;
                },
                Some(VersionStatus::Regressed) => {
                    regressed = regressed + 1;
                },
                Some(VersionStatus::Broken) => {
                    broken = broken + 1;
                },
                None => {},
            }
        }
        i = i + 1;
    }
    TestSummary { passed, regressed, broken, total: passed + regressed + broken }
}

fn class_of_result(result: &TestResult) -> (c: Option<VersionStatus>)
    ensures
        c == result_class(*result),
{
    match &result.data {
        TestResultData::Skipped(_) => None,
        TestResultData::Error(_) => Some(VersionStatus::Broken),
        TestResultData::MultiVersion(outcomes) => Some(rolled_up_status(outcomes)),
    }
}

/// Counts the dependents by the worst verdict among their outcomes.
/// Dependents that were left out are not counted; those that could not be
/// tested count as broken.
pub fn summarize_results(results: &[TestResult]) -> (s: TestSummary)
    ensures
        s.passed == results_counted(results@, results@.len() as int, VersionStatus::Passed),
        s.regressed == results_counted(results@, results@.len() as int, VersionStatus::Regressed),
        s.broken == results_counted(results@, results@.len() as int, VersionStatus::Broken),
        s.consistent(),
{
    let mut passed: usize = 0;
    let mut regressed: usize = 0;
    let mut broken: usize = 0;
    let mut i: usize = 0;
    while i < results.len()
        invariant
            i <= results@.len(),
            passed == results_counted(results@, i as int, VersionStatus::Passed),
            regressed == results_counted(results@, i as int, VersionStatus::Regressed),
            broken == results_counted(results@, i as int, VersionStatus::Broken),
            passed + regressed + broken <= i,
        decreases results@.len() - i,
    {
        match class_of_result(&results[i]) {
            Some(VersionStatus::Passed) => {
                passed = passed + 1;
            },
            Some(VersionStatus::Regressed) => {
                regressed = regressed + 1;
            },
            Some(VersionStatus::Broken) => {
                broken = broken + 1;
            },
            None => {},
        }
        i = i + 1;
    }
    TestSummary { passed, regressed, broken, total: passed + regressed + broken }
}

/// The summary as it is printed after the table.
pub open spec fn summary_text(s: TestSummary) -> Seq<char> {
    "\nSummary:\n"@ + "  ✓ Passed:    "@ + decimal(s.passed as nat) + "\n"@ + "  ✗ Regressed: "@
        + decimal(s.regressed as nat) + "\n"@ + "  ⚠ Broken:    "@ + decimal(s.broken as nat)
        + "\n"@ + "  ━━━━━━━━━━━━━\n"@ + "  Total:       "@ + decimal(s.total as nat) + "\n"@
        + "\n"@
}

/// Writes out the summary.
pub fn format_summary(summary: &TestSummary) -> (s: String)
    ensures
        s@ == summary_text(*summary),
{
    let mut out = owned("\nSummary:\n");
    out.append("  ✓ Passed:    ");
    push_usize(&mut out, summary.passed);
    out.append("\n");
    out.append("  ✗ Regressed: ");
    push_usize(&mut out, summary.regressed);
    out.append("\n");
    out.append("  ⚠ Broken:    ");
    push_usize(&mut out, summary.broken);
    out.append("\n");
    out.append("  ━━━━━━━━━━━━━\n");
    out.append("  Total:       ");
    push_usize(&mut out, summary.total);
    out.append("\n");
    out.append("\n");
    out
}

/// A dependent counts as a regression only if one of its rows offers a
/// version that failed after a baseline that passed.
pub proof fn lemma_row_regression(rows: Seq<OfferedRowView>, i: int)
    requires
        0 <= i < rows.len(),
        group_class(rows, i) == Some(VersionStatus::Regressed),
    ensures
        exists|j: int|
            0 <= j <= i && (#[trigger] rows[j]).offered is Some && rows[j].baseline_passed == Some(
                true,
            ) && !rows[j].test.all_passed(),
    decreases i,
{
    if row_class(rows[i]) == Some(VersionStatus::Regressed) {
        assert(rows[i].offered is Some);
    } else {
        lemma_row_regression(rows, i - 1);
    }
}

/// The rows of the first `n` results, one after the other.
pub open spec fn all_rows(results: Seq<TestResult>, n: int) -> Seq<OfferedRowView>
    decreases n,
{
    if n <= 0 {
        Seq::<OfferedRowView>::empty()
    } else {
        all_rows(results, n - 1) + rows_of(results[n - 1])
    }
}

/// The rows are those of one dependent: a baseline row, and behind it none
/// but rows that offer a version.
pub open spec fn one_group(rows: Seq<OfferedRowView>) -> bool {
    &&& rows.len() >= 1
    &&& rows[0].offered is None
    &&& forall|k: int| 1 <= k < rows.len() ==> (#[trigger] rows[k]).offered is Some
}

/// The commands of a row all passed exactly when every step that ran
/// succeeded.
proof fn lemma_commands_passed(result: ThreeStepResult, dependent: Seq<char>)
    ensures
        commands_of(result, dependent).len() >= 1,
        (TestExecutionView { commands: commands_of(result, dependent) }).all_passed()
            == result.succeeded(),
{
    let cs = commands_of(result, dependent);
    let t = TestExecutionView { commands: cs };
    assert(cs[0].result.passed == result.fetch.success);
    match (result.check, result.test) {
        (Some(c), Some(x)) => {
            assert(cs.len() == 3);
            assert(cs[1].result.passed == c.success);
            assert(cs[2].result.passed == x.success);
        },
        (Some(c), None) => {
            assert(cs.len() == 2);
            assert(cs[1].result.passed == c.success);
        },
        (None, Some(x)) => {
            assert(cs.len() == 2);
            assert(cs[1].result.passed == x.success);
        },
        (None, None) => {
            assert(cs.len() == 1);
        },
    }
}

/// The rows of a dependent that was tested roll up to the worst verdict
/// among its outcomes.
proof fn lemma_outcome_rows(rev_dep: RevDep, outcomes: Seq<VersionTestOutcome>, k: int)
    requires
        0 <= k < outcomes.len(),
    ensures
        group_class(Seq::new(outcomes.len(), |i: int| row_of(rev_dep, outcomes, i)), k) == Some(
            worst_status(outcomes, k + 1),
        ),
        !outcomes[0].result.succeeded() ==> worst_status(outcomes, k + 1) == VersionStatus::Broken,
    decreases k,
{
    let rows = Seq::new(outcomes.len(), |i: int| row_of(rev_dep, outcomes, i));
    lemma_commands_passed(outcomes[k].result, rev_dep.name@);
    assert(rows[k] == row_of(rev_dep, outcomes, k));
    assert(rows[k].test.commands == commands_of(outcomes[k].result, rev_dep.name@));
    if k == 0 {
        assert(worst_status(outcomes, 0) == VersionStatus::Passed);
        assert(worst_status(outcomes, 1) == VersionStatus::Passed.worse_of(status_at(outcomes, 0)));
    } else {
        lemma_outcome_rows(rev_dep, outcomes, k - 1);
        assert(rows[k].offered is Some);
    }
}

/// A result that has a row has the rows of one dependent, which roll up to
/// what the result counts as.
proof fn lemma_result_rows(result: TestResult)
    requires
        rows_of(result).len() >= 1,
    ensures
        one_group(rows_of(result)),
        group_class(rows_of(result), rows_of(result).len() - 1) == result_class(result),
{
    let rows = rows_of(result);
    match result.data {
        TestResultData::MultiVersion(outcomes) => {
            lemma_outcome_rows(result.rev_dep, outcomes@, outcomes@.len() - 1);
            assert(rows[0] == row_of(result.rev_dep, outcomes@, 0));
            assert forall|k: int| 1 <= k < rows.len() implies (#[trigger] rows[k]).offered
                is Some by {
                assert(rows[k] == row_of(result.rev_dep, outcomes@, k));
            }
        },
        TestResultData::Error(_) => {
            assert(rows.len() == 1);
            assert(!rows[0].test.commands[0].result.passed);
        },
        TestResultData::Skipped(_) => {
            assert(rows.len() == 1);
        },
    }
}

/// Rows that stand before the rows of a dependent count as they do by
/// themselves.
proof fn lemma_count_before(
    head: Seq<OfferedRowView>,
    tail: Seq<OfferedRowView>,
    n: int,
    status: VersionStatus,
)
    requires
        one_group(tail),
        0 <= n <= head.len(),
    ensures
        rows_counted(head + tail, n, status) == rows_counted(head, n, status),
        forall|i: int| 0 <= i < n ==> group_class(head + tail, i) == group_class(head, i),
    decreases n,
{
    let all = head + tail;
    if n > 0 {
        lemma_count_before(head, tail, n - 1, status);
        assert(all[n - 1] == head[n - 1]);
        if n < head.len() {
            assert(all[n] == head[n]);
        } else {
            assert(all[n] == tail[0]);
        }
        assert(group_class(all, n - 1) == group_class(head, n - 1)) by {
            if n - 1 > 0 {
                assert(group_class(all, n - 2) == group_class(head, n - 2));
            }
        }
    }
}

/// The rows of a dependent count once behind other rows, as what they roll
/// up to.
proof fn lemma_count_group(
    head: Seq<OfferedRowView>,
    tail: Seq<OfferedRowView>,
    k: int,
    status: VersionStatus,
)
    requires
        one_group(tail),
        0 <= k < tail.len(),
    ensures
        group_class(head + tail, head.len() + k) == group_class(tail, k),
        rows_counted(head + tail, head.len() + k + 1, status) == rows_counted(
            head,
            head.len() as int,
            status,
        ) + if k + 1 == tail.len() && group_class(tail, k) == Some(status) {
            1nat
        } else {
            0nat
        },
    decreases k,
{
    let all = head + tail;
    assert(all[head.len() + k] == tail[k]);
    if k + 1 < tail.len() {
        assert(all[head.len() + k + 1] == tail[k + 1]);
    }
    if k == 0 {
        lemma_count_before(head, tail, head.len() as int, status);
    } else {
        lemma_count_group(head, tail, k - 1, status);
    }
}

/// The counts over the rows of results are the counts over the results:
/// what is written from the rows agrees with what is said of the
/// dependents. A result without rows, which is one that was tested against
/// no version at all, is left out: it counts as a pass and has nothing to
/// show for it.
pub proof fn lemma_rows_count_as_results(results: Seq<TestResult>, n: int, status: VersionStatus)
    requires
        0 <= n <= results.len(),
        forall|i: int| 0 <= i < n ==> rows_of(#[trigger] results[i]).len() >= 1,
    ensures
        rows_counted(all_rows(results, n), all_rows(results, n).len() as int, status)
            == results_counted(results, n, status),
    decreases n,
{
    if n > 0 {
        lemma_rows_count_as_results(results, n - 1, status);
        let head = all_rows(results, n - 1);
        let tail = rows_of(results[n - 1]);
        lemma_result_rows(results[n - 1]);
        lemma_count_group(head, tail, tail.len() - 1, status);
    }
}

} // verus!
