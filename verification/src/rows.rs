//! The rows of the result table, as data.
//!
//! One [`OfferedRow`] stands for one line of the five-column table: a
//! dependent built against one version of the subject. The row that shows
//! the dependent's own resolution is the baseline; it offers no version.

use vstd::prelude::*;
use crate::text::texts_of;

verus! {

/// The values of a sequence of things that have a mathematical value.
pub open spec fn views<T: View>(s: Seq<T>) -> Seq<T::V> {
    Seq::new(s.len(), |i: int| s[i]@)
}

/// Where a resolved version came from.
#[derive(Debug, Clone, Copy, PartialEq, Eq, Structural)]
pub enum VersionSource {
    CratesIo,
    Local,
    Git,
}

/// The kind of command that a step ran.
#[derive(Debug, Clone, Copy, PartialEq, Eq, Structural)]
pub enum CommandType {
    Fetch,
    Check,
    Test,
}

/// A dependency of a dependent on the subject.
#[derive(Debug, Clone)]
pub struct DependencyRef {
    pub dependent_name: String,
    pub dependent_version: String,
    /// The requirement as the dependent states it.
    pub spec: String,
    /// The version that the build tool chose.
    pub resolved_version: String,
    pub resolved_source: VersionSource,
    /// Whether the build tool chose the version that was offered.
    pub used_offered_version: bool,
}

/// A version offered to a dependent.
#[derive(Debug, Clone)]
pub struct OfferedVersion {
    pub version: String,
    /// Whether the version was forced against the dependent's requirement.
    pub forced: bool,
}

/// A crate that failed to build or to pass its tests.
#[derive(Debug, Clone)]
pub struct CrateFailure {
    pub crate_name: String,
    pub error_message: String,
}

/// What a command came to.
#[derive(Debug, Clone)]
pub struct CommandResult {
    pub passed: bool,
    /// Wall-clock time in milliseconds.
    pub duration_ms: u64,
    pub failures: Vec<CrateFailure>,
}

/// One command of a pipeline run.
#[derive(Debug, Clone)]
pub struct TestCommand {
    pub command: CommandType,
    pub features: Vec<String>,
    pub result: CommandResult,
}

/// The commands of a pipeline run, in the order in which they ran.
#[derive(Debug, Clone)]
pub struct TestExecution {
    pub commands: Vec<TestCommand>,
}

/// A dependency on the subject further down the dependency graph.
#[derive(Debug, Clone)]
pub struct TransitiveTest {
    pub dependency: DependencyRef,
    pub depth: usize,
}

/// One row of the result table.
#[derive(Debug, Clone)]
pub struct OfferedRow {
    /// `None` on the baseline row itself; elsewhere whether the baseline of
    /// the same dependent passed.
    pub baseline_passed: Option<bool>,
    pub primary: DependencyRef,
    /// The version offered; `None` on a baseline row.
    pub offered: Option<OfferedVersion>,
    pub test: TestExecution,
    pub transitive: Vec<TransitiveTest>,
}

/// Mathematical value of a [`DependencyRef`].
pub struct DependencyRefView {
    pub dependent_name: Seq<char>,
    pub dependent_version: Seq<char>,
    pub spec: Seq<char>,
    pub resolved_version: Seq<char>,
    pub resolved_source: VersionSource,
    pub used_offered_version: bool,
}

/// Mathematical value of an [`OfferedVersion`].
pub struct OfferedVersionView {
    pub version: Seq<char>,
    pub forced: bool,
}

/// Mathematical value of a [`CrateFailure`].
pub struct CrateFailureView {
    pub crate_name: Seq<char>,
    pub error_message: Seq<char>,
}

/// Mathematical value of a [`CommandResult`].
pub struct CommandResultView {
    pub passed: bool,
    pub duration_ms: nat,
    pub failures: Seq<CrateFailureView>,
}

/// Mathematical value of a [`TestCommand`].
pub struct TestCommandView {
    pub command: CommandType,
    pub features: Seq<Seq<char>>,
    pub result: CommandResultView,
}

/// Mathematical value of a [`TestExecution`].
pub struct TestExecutionView {
    pub commands: Seq<TestCommandView>,
}

/// Mathematical value of a [`TransitiveTest`].
pub struct TransitiveTestView {
    pub dependency: DependencyRefView,
    pub depth: nat,
}

/// Mathematical value of an [`OfferedRow`].
pub struct OfferedRowView {
    pub baseline_passed: Option<bool>,
    pub primary: DependencyRefView,
    pub offered: Option<OfferedVersionView>,
    pub test: TestExecutionView,
    pub transitive: Seq<TransitiveTestView>,
}

impl View for DependencyRef {
    type V = DependencyRefView;

    open spec fn view(&self) -> DependencyRefView {
        DependencyRefView {
            dependent_name: self.dependent_name@,
            dependent_version: self.dependent_version@,
            spec: self.spec@,
            resolved_version: self.resolved_version@,
            resolved_source: self.resolved_source,
            used_offered_version: self.used_offered_version,
        }
    }
}

impl View for OfferedVersion {
    type V = OfferedVersionView;

    open spec fn view(&self) -> OfferedVersionView {
        OfferedVersionView { version: self.version@, forced: self.forced }
    }
}

impl View for CrateFailure {
    type V = CrateFailureView;

    open spec fn view(&self) -> CrateFailureView {
        CrateFailureView { crate_name: self.crate_name@, error_message: self.error_message@ }
    }
}

impl View for CommandResult {
    type V = CommandResultView;

    open spec fn view(&self) -> CommandResultView {
        CommandResultView {
            passed: self.passed,
            duration_ms: self.duration_ms as nat,
            failures: views(self.failures@),
        }
    }
}

impl View for TestCommand {
    type V = TestCommandView;

    open spec fn view(&self) -> TestCommandView {
        TestCommandView {
            command: self.command,
            features: texts_of(self.features@),
            result: self.result@,
        }
    }
}

impl View for TestExecution {
    type V = TestExecutionView;

    open spec fn view(&self) -> TestExecutionView {
        TestExecutionView { commands: views(self.commands@) }
    }
}

impl View for TransitiveTest {
    type V = TransitiveTestView;

    open spec fn view(&self) -> TransitiveTestView {
        TransitiveTestView { dependency: self.dependency@, depth: self.depth as nat }
    }
}

impl View for OfferedRow {
    type V = OfferedRowView;

    open spec fn view(&self) -> OfferedRowView {
        OfferedRowView {
            baseline_passed: self.baseline_passed,
            primary: self.primary@,
            offered: match self.offered {
                Some(o) => Some(o@),
                None => None,
            },
            test: self.test@,
            transitive: views(self.transitive@),
        }
    }
}

impl TestExecutionView {
    /// Every command that ran passed.
    pub open spec fn all_passed(self) -> bool {
        forall|i: int| 0 <= i < self.commands.len() ==> (#[trigger] self.commands[i]).result.passed
    }

    /// The time that the commands took together, in milliseconds.
    pub open spec fn total_ms(self) -> nat {
        total_duration(self.commands, self.commands.len() as int)
    }
}

/// The time that the first `n` commands took together, in milliseconds.
pub open spec fn total_duration(commands: Seq<TestCommandView>, n: int) -> nat
    decreases n,
{
    if n <= 0 {
        0
    } else {
        total_duration(commands, n - 1) + commands[n - 1].result.duration_ms
    }
}

impl TestExecution {
    /// Whether every command that ran passed.
    pub fn all_passed(&self) -> (b: bool)
        ensures
            b == self@.all_passed(),
    {
        let mut i: usize = 0;
        while i < self.commands.len()
            invariant
                i <= self.commands.len(),
                forall|j: int| 0 <= j < i ==> (#[trigger] self@.commands[j]).result.passed,
            decreases self.commands.len() - i,
        {
            if !self.commands[i].result.passed {
                assert(!self@.commands[i as int].result.passed);
                return false;
            }
            i = i + 1;
        }
        true
    }

    /// The time that the commands took together, in milliseconds,
    /// saturating at `u64::MAX`.
    pub fn total_duration_ms(&self) -> (t: u64)
        ensures
            self@.total_ms() <= u64::MAX ==> t == self@.total_ms(),
            self@.total_ms() > u64::MAX ==> t == u64::MAX,
    {
        let mut total: u64 = 0;
        let mut i: usize = 0;
        while i < self.commands.len()
            invariant
                i <= self.commands.len(),
                total_duration(self@.commands, i as int) <= u64::MAX ==> total == total_duration(
                    self@.commands,
                    i as int,
                ),
                total_duration(self@.commands, i as int) > u64::MAX ==> total == u64::MAX,
            decreases self.commands.len() - i,
        {
            let d = self.commands[i].result.duration_ms;
            assert(self@.commands[i as int].result.duration_ms == d);
            if d > u64::MAX - total {
                total = u64::MAX;
            } else {
                total = total + d;
            }
            i = i + 1;
        }
        total
    }
}

} // verus!
