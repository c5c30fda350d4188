//! What testing one dependent came to, and how that is classified.
//!
//! A dependent is built against a list of versions of the subject. The
//! first outcome of the list is the baseline: the dependent with the
//! version that it resolves to by itself. Every other outcome is held
//! against the baseline: a failure after a baseline that passed is a
//! regression, a failure after a baseline that failed shows a dependent that
//! was broken before.

use vstd::prelude::*;
use vstd::string::*;
use crate::compile::{
    CompileResult, SourceView, ThreeStepResult, ThreeStepResultView, VersionSource,
};
use crate::error_extract::{error_summary, extract_error_summary, text_of};
use crate::rows::{
    CommandResult,
    CommandResultView,
    CommandType,
    CrateFailure,
    CrateFailureView,
    DependencyRef,
    DependencyRefView,
    OfferedRow,
    OfferedRowView,
    OfferedVersion,
    OfferedVersionView,
    TestCommand,
    TestCommandView,
    TestExecution,
    TestExecutionView,
    TransitiveTestView,
    views,
};
use crate::text::{chars_of, owned, push_char, same_text};

verus! {

/// The verdict on one version.
#[derive(Debug, Clone, Copy, PartialEq, Eq, PartialOrd, Ord, Structural)]
pub enum VersionStatus {
    Passed,
    Broken,
    Regressed,
}

impl VersionStatus {
    /// How bad a verdict is: a regression is worse than a broken dependent,
    /// which is worse than a pass.
    pub open spec fn severity(self) -> nat {
        match self {
            VersionStatus::Passed => 0,
            VersionStatus::Broken => 1,
            VersionStatus::Regressed => 2,
        }
    }

    /// The worse of two verdicts.
    pub open spec fn worse_of(self, other: VersionStatus) -> VersionStatus {
        if other.severity() > self.severity() {
            other
        } else {
            self
        }
    }

    /// The worse of two verdicts.
    pub fn worse(self, other: VersionStatus) -> (r: VersionStatus)
        ensures
            r == self.worse_of(other),
    {
        match (self, other) {
            (VersionStatus::Regressed, _) => VersionStatus::Regressed,
            (_, VersionStatus::Regressed) => VersionStatus::Regressed,
            (VersionStatus::Broken, _) => VersionStatus::Broken,
            (_, VersionStatus::Broken) => VersionStatus::Broken,
            _ => VersionStatus::Passed,
        }
    }
}

/// The verdict on a version that succeeded or not, held against a baseline
/// that succeeded or not, or against none.
pub open spec fn verdict(success: bool, baseline_success: Option<bool>) -> VersionStatus {
    if success {
        VersionStatus::Passed
    } else if baseline_success == Some(true) {
        VersionStatus::Regressed
    } else {
        VersionStatus::Broken
    }
}

/// The outcome of testing a dependent against one version.
#[derive(Debug, Clone)]
pub struct VersionTestOutcome {
    pub version_source: VersionSource,
    pub result: ThreeStepResult,
}

/// Mathematical value of a [`VersionTestOutcome`].
pub struct VersionTestOutcomeView {
    pub version_source: SourceView,
    pub result: ThreeStepResultView,
}

impl View for VersionTestOutcome {
    type V = VersionTestOutcomeView;

    open spec fn view(&self) -> VersionTestOutcomeView {
        VersionTestOutcomeView { version_source: self.version_source@, result: self.result@ }
    }
}

impl VersionTestOutcome {
    /// Classifies this outcome against the baseline, if there is one.
    pub fn classify(&self, baseline_outcome: Option<&VersionTestOutcome>) -> (s: VersionStatus)
        ensures
            s == verdict(
                self.result.succeeded(),
                match baseline_outcome {
                    Some(b) => Some(b.result.succeeded()),
                    None => None,
                },
            ),
    {
        if self.result.is_success() {
            VersionStatus::Passed
        } else {
            match baseline_outcome {
                Some(b) => {
                    if b.result.is_success() {
                        VersionStatus::Regressed
                    } else {
                        VersionStatus::Broken
                    }
                },
                None => VersionStatus::Broken,
            }
        }
    }
}

/// The verdict on outcome `i` of a dependent: the baseline, which is
/// outcome 0, passed or is broken; every other outcome is held against the
/// baseline.
pub open spec fn status_at(outcomes: Seq<VersionTestOutcome>, i: int) -> VersionStatus {
    if i == 0 {
        verdict(outcomes[0].result.succeeded(), None)
    } else {
        verdict(outcomes[i].result.succeeded(), Some(outcomes[0].result.succeeded()))
    }
}

/// The worst verdict among the first `n` outcomes; a pass if there is
/// none.
pub open spec fn worst_status(outcomes: Seq<VersionTestOutcome>, n: int) -> VersionStatus
    decreases n,
{
    if n <= 0 {
        VersionStatus::Passed
    } else {
        worst_status(outcomes, n - 1).worse_of(status_at(outcomes, n - 1))
    }
}

/// Classifies the outcomes of a dependent, the baseline first.
pub fn classify_outcomes(outcomes: &Vec<VersionTestOutcome>) -> (r: Vec<VersionStatus>)
    ensures
        r@.len() == outcomes@.len(),
        forall|i: int| 0 <= i < r@.len() ==> #[trigger] r@[i] == status_at(outcomes@, i),
{
    let mut r: Vec<VersionStatus> = Vec::new();
    let mut i: usize = 0;
    while i < outcomes.len()
        invariant
            i <= outcomes.len(),
            r@.len() == i,
            forall|k: int| 0 <= k < i ==> #[trigger] r@[k] == status_at(outcomes@, k),
        decreases outcomes.len() - i,
    {
        let status = if i == 0 {
            outcomes[i].classify(None)
        } else {
            outcomes[i].classify(Some(&outcomes[0]))
        };
        r.push(status);
        i = i + 1;
    }
    r
}

/// The verdict on a dependent as a whole: the worst of the verdicts on its
/// outcomes.
pub fn rolled_up_status(outcomes: &Vec<VersionTestOutcome>) -> (s: VersionStatus)
    ensures
        s == worst_status(outcomes@, outcomes@.len() as int),
{
    let mut worst = VersionStatus::Passed;
    let mut i: usize = 0;
    while i < outcomes.len()
        invariant
            i <= outcomes.len(),
            worst == worst_status(outcomes@, i as int),
        decreases outcomes.len() - i,
    {
        let status = if i == 0 {
            outcomes[i].classify(None)
        } else {
            outcomes[i].classify(Some(&outcomes[0]))
        };
        worst = worst.worse(status);
        i = i + 1;
    }
    worst
}

/// An outcome is marked as a regression only if it is not the baseline, it
/// failed, and the baseline succeeded.
pub proof fn lemma_regressed_needs_good_baseline(outcomes: Seq<VersionTestOutcome>, i: int)
    requires
        0 <= i < outcomes.len(),
        status_at(outcomes, i) is Regressed,
    ensures
        i > 0,
        outcomes[0].result.succeeded(),
        !outcomes[i].result.succeeded(),
{
}

/// A dependent is rolled up as a regression only if one of its outcomes
/// other than the baseline failed after a baseline that succeeded.
pub proof fn lemma_rolled_up_regression(outcomes: Seq<VersionTestOutcome>, n: int)
    requires
        0 <= n <= outcomes.len(),
        worst_status(outcomes, n) is Regressed,
    ensures
        outcomes[0].result.succeeded(),
        exists|i: int| 0 < i < n && !(#[trigger] outcomes[i]).result.succeeded(),
    decreases n,
{
    if n > 0 {
        if status_at(outcomes, n - 1) is Regressed {
            assert(!outcomes[n - 1].result.succeeded());
        } else {
            lemma_rolled_up_regression(outcomes, n - 1);
        }
    }
}

/// A dependent under test.
#[derive(Debug, Clone)]
pub struct RevDep {
    pub name: String,
    /// The version of the dependent, as a version number.
    pub vers: String,
    /// The version of the subject that the dependent resolves to by
    /// itself, when that is known.
    pub resolved_version: Option<String>,
}

/// Mathematical value of a [`RevDep`].
pub struct RevDepView {
    pub name: Seq<char>,
    pub vers: Seq<char>,
    pub resolved_version: Option<Seq<char>>,
}

impl View for RevDep {
    type V = RevDepView;

    open spec fn view(&self) -> RevDepView {
        RevDepView {
            name: self.name@,
            vers: self.vers@,
            resolved_version: text_of(self.resolved_version),
        }
    }
}

/// What can go wrong outside the pipeline.
#[derive(Debug, Clone)]
pub enum Error {
    /// The manifest names no package.
    ManifestName,
    /// A version or a requirement could not be read.
    SemverError(String),
    /// A manifest could not be parsed.
    TomlError(String),
    /// The file system failed.
    IoError(String),
    /// A request to the registry failed.
    UreqError(String),
    /// The registry answered with an error.
    CratesIoApiError(String),
    /// A worker ended without sending its result.
    RecvError,
    /// The registry knows no version of the crate.
    NoCrateVersions,
    /// Output of a child process was not UTF-8.
    FromUtf8Error(String),
    /// A child process failed.
    ProcessError(String),
    /// A path given by the user cannot be used.
    InvalidPath(String),
    /// A version given by the user cannot be used.
    InvalidVersion(String),
}

/// Mathematical value of an [`Error`].
pub enum ErrorView {
    ManifestName,
    SemverError(Seq<char>),
    TomlError(Seq<char>),
    IoError(Seq<char>),
    UreqError(Seq<char>),
    CratesIoApiError(Seq<char>),
    RecvError,
    NoCrateVersions,
    FromUtf8Error(Seq<char>),
    ProcessError(Seq<char>),
    InvalidPath(Seq<char>),
    InvalidVersion(Seq<char>),
}

impl View for Error {
    type V = ErrorView;

    open spec fn view(&self) -> ErrorView {
        match *self {
            Error::ManifestName => ErrorView::ManifestName,
            Error::SemverError(e) => ErrorView::SemverError(e@),
            Error::TomlError(e) => ErrorView::TomlError(e@),
            Error::IoError(e) => ErrorView::IoError(e@),
            Error::UreqError(e) => ErrorView::UreqError(e@),
            Error::CratesIoApiError(e) => ErrorView::CratesIoApiError(e@),
            Error::RecvError => ErrorView::RecvError,
            Error::NoCrateVersions => ErrorView::NoCrateVersions,
            Error::FromUtf8Error(e) => ErrorView::FromUtf8Error(e@),
            Error::ProcessError(e) => ErrorView::ProcessError(e@),
            Error::InvalidPath(p) => ErrorView::InvalidPath(p@),
            Error::InvalidVersion(s) => ErrorView::InvalidVersion(s@),
        }
    }
}

impl Error {
    /// The error in words.
    pub open spec fn message_text(self) -> Seq<char> {
        match self {
            Error::ManifestName => "error extracting crate name from manifest"@,
            Error::SemverError(e) => "semver error: "@ + e@,
            Error::TomlError(e) => "TOML parse error: "@ + e@,
            Error::IoError(e) => "IO error: "@ + e@,
            Error::UreqError(e) => "HTTP error: "@ + e@,
            Error::CratesIoApiError(e) => "crates.io API error: "@ + e@,
            Error::RecvError => "receive error: receiving on a closed channel"@,
            Error::NoCrateVersions => "crate has no published versions"@,
            Error::FromUtf8Error(e) => "UTF-8 conversion error: "@ + e@,
            Error::ProcessError(e) => "process error: "@ + e@,
            Error::InvalidPath(p) => "invalid path: "@ + p@,
            Error::InvalidVersion(s) => s@,
        }
    }

    /// The error in words.
    pub fn message(&self) -> (s: String)
        ensures
            s@ == self.message_text(),
    {
        match self {
            Error::ManifestName => owned("error extracting crate name from manifest"),
            Error::SemverError(e) => prefixed("semver error: ", e),
            Error::TomlError(e) => prefixed("TOML parse error: ", e),
            Error::IoError(e) => prefixed("IO error: ", e),
            Error::UreqError(e) => prefixed("HTTP error: ", e),
            Error::CratesIoApiError(e) => prefixed("crates.io API error: ", e),
            Error::RecvError => owned("receive error: receiving on a closed channel"),
            Error::NoCrateVersions => owned("crate has no published versions"),
            Error::FromUtf8Error(e) => prefixed("UTF-8 conversion error: ", e),
            Error::ProcessError(e) => prefixed("process error: ", e),
            Error::InvalidPath(p) => prefixed("invalid path: ", p),
            Error::InvalidVersion(s) => s.clone(),
        }
    }
}

fn prefixed(prefix: &str, rest: &String) -> (s: String)
    ensures
        s@ == prefix@ + rest@,
{
    let mut s = owned(prefix);
    s.append(rest.as_str());
    s
}

/// What testing a dependent came to.
#[derive(Debug)]
pub enum TestResultData {
    /// The dependent was left out, for the reason given.
    Skipped(String),
    /// The dependent could not be tested.
    Error(Error),
    /// The outcomes for each version, the baseline first.
    MultiVersion(Vec<VersionTestOutcome>),
}

/// The result for one dependent.
#[derive(Debug)]
pub struct TestResult {
    pub rev_dep: RevDep,
    pub data: TestResultData,
}

/// Mathematical value of a [`TestResultData`].
pub enum TestResultDataView {
    Skipped(Seq<char>),
    Error(ErrorView),
    MultiVersion(Seq<VersionTestOutcomeView>),
}

/// Mathematical value of a [`TestResult`].
pub struct TestResultView {
    pub rev_dep: RevDepView,
    pub data: TestResultDataView,
}

impl View for TestResultData {
    type V = TestResultDataView;

    open spec fn view(&self) -> TestResultDataView {
        match *self {
            TestResultData::Skipped(reason) => TestResultDataView::Skipped(reason@),
            TestResultData::Error(e) => TestResultDataView::Error(e@),
            TestResultData::MultiVersion(outcomes) => TestResultDataView::MultiVersion(
                views(outcomes@),
            ),
        }
    }
}

impl View for TestResult {
    type V = TestResultView;

    open spec fn view(&self) -> TestResultView {
        TestResultView { rev_dep: self.rev_dep@, data: self.data@ }
    }
}

/// What is shown of a step that failed: the errors that the compiler
/// reported, if it reported any, and behind them what the build tool wrote
/// to its standard error.
pub open spec fn failure_text(r: CompileResult) -> Seq<char> {
    error_summary(r.diagnostics@, r.diagnostics@.len() as int) + r.stderr@
}

/// The command that stands for a step in a row. A step that failed names
/// the dependent as the crate that it failed on, with what is shown of the
/// failure.
pub open spec fn command_of(kind: CommandType, r: CompileResult, dependent: Seq<char>) -> TestCommandView {
    TestCommandView {
        command: kind,
        features: Seq::<Seq<char>>::empty(),
        result: CommandResultView {
            passed: r.success,
            duration_ms: r.duration_ms as nat,
            failures: if r.success {
                Seq::<CrateFailureView>::empty()
            } else {
                seq![CrateFailureView { crate_name: dependent, error_message: failure_text(r) }]
            },
        },
    }
}

/// The commands of a row, from the steps that ran.
pub open spec fn commands_of(result: ThreeStepResult, dependent: Seq<char>) -> Seq<TestCommandView> {
    seq![command_of(CommandType::Fetch, result.fetch, dependent)] + (match result.check {
        Some(c) => seq![command_of(CommandType::Check, c, dependent)],
        None => Seq::<TestCommandView>::empty(),
    }) + (match result.test {
        Some(t) => seq![command_of(CommandType::Test, t, dependent)],
        None => Seq::<TestCommandView>::empty(),
    })
}

/// The text that stands for an unknown value in a cell.
pub open spec fn unknown_text() -> Seq<char> {
    "?"@
}

/// The row for outcome `i` of a dependent. The first row is the baseline
/// and offers nothing. Every other row offers the version that was tested,
/// under its label, and says whether the baseline passed.
pub open spec fn row_of(rev_dep: RevDep, outcomes: Seq<VersionTestOutcome>, i: int) -> OfferedRowView {
    let o = outcomes[i];
    OfferedRowView {
        baseline_passed: if i == 0 {
            None
        } else {
            Some(outcomes[0].result.succeeded())
        },
        primary: DependencyRefView {
            dependent_name: rev_dep.name@,
            dependent_version: rev_dep.vers@,
            spec: match o.result.original_requirement {
                Some(s) => s@,
                None => unknown_text(),
            },
            resolved_version: match o.result.actual_version {
                Some(a) => a@,
                None => match o.result.expected_version {
                    Some(e) => e@,
                    None => unknown_text(),
                },
            },
            resolved_source: match o.version_source {
                VersionSource::Local(_) => crate::rows::VersionSource::Local,
                VersionSource::Published(_) => crate::rows::VersionSource::CratesIo,
            },
            used_offered_version: text_of(o.result.expected_version) == text_of(
                o.result.actual_version,
            ),
        },
        offered: if i == 0 {
            None
        } else {
            Some(
                OfferedVersionView {
                    version: o.version_source.label_text(),
                    forced: o.result.forced_version,
                },
            )
        },
        test: TestExecutionView { commands: commands_of(o.result, rev_dep.name@) },
        transitive: Seq::<TransitiveTestView>::empty(),
    }
}

/// The single row that stands for a dependent that was not tested: `word`
/// in the Spec cell, `note` in the Resolved cell, and the commands given.
pub open spec fn lone_row(
    rev_dep: RevDep,
    word: Seq<char>,
    note: Seq<char>,
    commands: Seq<TestCommandView>,
) -> OfferedRowView {
    OfferedRowView {
        baseline_passed: None,
        primary: DependencyRefView {
            dependent_name: rev_dep.name@,
            dependent_version: rev_dep.vers@,
            spec: word,
            resolved_version: note,
            resolved_source: crate::rows::VersionSource::CratesIo,
            used_offered_version: false,
        },
        offered: None,
        test: TestExecutionView { commands },
        transitive: Seq::<TransitiveTestView>::empty(),
    }
}

/// The rows that stand for a result in the table. A dependent that was
/// tested has a row for each outcome. One that could not be tested has a
/// single row with a failed fetch that carries the error. One that was left
/// out has a single row without commands that carries the reason.
pub open spec fn rows_of(result: TestResult) -> Seq<OfferedRowView> {
    match result.data {
        TestResultData::MultiVersion(outcomes) => Seq::new(
            outcomes@.len(),
            |i: int| row_of(result.rev_dep, outcomes@, i),
        ),
        TestResultData::Error(e) => seq![
            lone_row(
                result.rev_dep,
                "ERROR"@,
                "ERROR"@,
                seq![
                    TestCommandView {
                        command: CommandType::Fetch,
                        features: Seq::<Seq<char>>::empty(),
                        result: CommandResultView {
                            passed: false,
                            duration_ms: 0,
                            failures: seq![
                                CrateFailureView {
                                    crate_name: result.rev_dep.name@,
                                    error_message: e.message_text(),
                                },
                            ],
                        },
                    },
                ],
            ),
        ],
        TestResultData::Skipped(reason) => seq![
            lone_row(result.rev_dep, "SKIPPED"@, reason@, Seq::<TestCommandView>::empty()),
        ],
    }
}

fn same_optional_text(a: &Option<String>, b: &Option<String>) -> (r: bool)
    ensures
        r == (text_of(*a) == text_of(*b)),
{
    match (a, b) {
        (Some(x), Some(y)) => same_text(x.as_str(), y.as_str()),
        (None, None) => true,
        _ => false,
    }
}

fn command_for(kind: CommandType, r: &CompileResult, dependent: &String) -> (c: TestCommand)
    ensures
        c@ == command_of(kind, *r, dependent@),
{
    let mut failures: Vec<CrateFailure> = Vec::new();
    if !r.success {
        let mut error_message = extract_error_summary(r.diagnostics.as_slice());
        error_message.append(r.stderr.as_str());
        failures.push(CrateFailure { crate_name: dependent.clone(), error_message });
    }
    let c = TestCommand {
        command: kind,
        features: Vec::new(),
        result: CommandResult { passed: r.success, duration_ms: r.duration_ms, failures },
    };
    proof {
        assert(c@.features =~= Seq::<Seq<char>>::empty());
        assert(c@.result.failures =~= command_of(kind, *r, dependent@).result.failures);
    }
    c
}

fn commands_for(result: &ThreeStepResult, dependent: &String) -> (t: TestExecution)
    ensures
        t@.commands == commands_of(*result, dependent@),
{
    let mut commands: Vec<TestCommand> = Vec::new();
    commands.push(command_for(CommandType::Fetch, &result.fetch, dependent));
    match &result.check {
        Some(c) => {
            commands.push(command_for(CommandType::Check, c, dependent));
        },
        None => {},
    }
    match &result.test {
        Some(t) => {
            commands.push(command_for(CommandType::Test, t, dependent));
        },
        None => {},
    }
    let t = TestExecution { commands };
    assert(t@.commands =~= commands_of(*result, dependent@));
    t
}

fn lone_row_for(rev_dep: &RevDep, word: &str, note: String, commands: Vec<TestCommand>) -> (row:
    OfferedRow)
    ensures
        row@ == lone_row(*rev_dep, word@, note@, views(commands@)),
{
    let row = OfferedRow {
        baseline_passed: None,
        primary: DependencyRef {
            dependent_name: rev_dep.name.clone(),
            dependent_version: rev_dep.vers.clone(),
            spec: owned(word),
            resolved_version: note,
            resolved_source: crate::rows::VersionSource::CratesIo,
            used_offered_version: false,
        },
        offered: None,
        test: TestExecution { commands },
        transitive: Vec::new(),
    };
    assert(row@.transitive =~= Seq::<TransitiveTestView>::empty());
    row
}

impl TestResult {
    /// The result for a dependent that was left out.
    pub fn skipped(rev_dep: RevDep, reason: String) -> (r: TestResult)
        ensures
            r.rev_dep == rev_dep,
            r.data == TestResultData::Skipped(reason),
    {
        TestResult { rev_dep, data: TestResultData::Skipped(reason) }
    }

    /// The result for a dependent that could not be tested.
    pub fn error(rev_dep: RevDep, e: Error) -> (r: TestResult)
        ensures
            r.rev_dep == rev_dep,
            r.data == TestResultData::Error(e),
    {
        TestResult { rev_dep, data: TestResultData::Error(e) }
    }

    fn row_for(&self, outcomes: &Vec<VersionTestOutcome>, i: usize) -> (row: OfferedRow)
        requires
            i < outcomes.len(),
        ensures
            row@ == row_of(self.rev_dep, outcomes@, i as int),
    {
        let o = &outcomes[i];
        let baseline_passed = if i == 0 {
            None
        } else {
            Some(outcomes[0].result.is_success())
        };
        let spec = match &o.result.original_requirement {
            Some(s) => s.clone(),
            None => owned("?"),
        };
        let resolved_version = match &o.result.actual_version {
            Some(a) => a.clone(),
            None => match &o.result.expected_version {
                Some(e) => e.clone(),
                None => owned("?"),
            },
        };
        let resolved_source = match &o.version_source {
            VersionSource::Local(_) => crate::rows::VersionSource::Local,
            VersionSource::Published(_) => crate::rows::VersionSource::CratesIo,
        };
        let offered = if i == 0 {
            None
        } else {
            Some(OfferedVersion { version: o.version_source.label(), forced: o.result.forced_version })
        };
        let row = OfferedRow {
            baseline_passed,
            primary: DependencyRef {
                dependent_name: self.rev_dep.name.clone(),
                dependent_version: self.rev_dep.vers.clone(),
                spec,
                resolved_version,
                resolved_source,
                used_offered_version: same_optional_text(
                    &o.result.expected_version,
                    &o.result.actual_version,
                ),
            },
            offered,
            test: commands_for(&o.result, &self.rev_dep.name),
            transitive: Vec::new(),
        };
        proof {
            assert(row@.transitive =~= Seq::<TransitiveTestView>::empty());
            assert(row@.test == row_of(self.rev_dep, outcomes@, i as int).test);
        }
        row
    }

    /// The rows that stand for this result in the table.
    pub fn to_offered_rows(&self) -> (rows: Vec<OfferedRow>)
        ensures
            views(rows@) == rows_of(*self),
    {
        match &self.data {
            TestResultData::MultiVersion(outcomes) => {
                let mut rows: Vec<OfferedRow> = Vec::new();
                let mut i: usize = 0;
                while i < outcomes.len()
                    invariant
                        i <= outcomes.len(),
                        rows@.len() == i,
                        forall|k: int|
                            0 <= k < i ==> (#[trigger] rows@[k])@ == row_of(
                                self.rev_dep,
                                outcomes@,
                                k,
                            ),
                    decreases outcomes.len() - i,
                {
                    rows.push(self.row_for(outcomes, i));
                    i = i + 1;
                }
                assert(views(rows@) =~= rows_of(*self));
                rows
            },
            TestResultData::Error(e) => {
                let mut failures: Vec<CrateFailure> = Vec::new();
                failures.push(
                    CrateFailure {
                        crate_name: self.rev_dep.name.clone(),
                        error_message: e.message(),
                    },
                );
                let command = TestCommand {
                    command: CommandType::Fetch,
                    features: Vec::new(),
                    result: CommandResult { passed: false, duration_ms: 0, failures },
                };
                proof {
                    assert(command@.features =~= Seq::<Seq<char>>::empty());
                    assert(command@.result.failures =~= seq![
                        CrateFailureView {
                            crate_name: self.rev_dep.name@,
                            error_message: e.message_text(),
                        },
                    ]);
                }
                let mut commands: Vec<TestCommand> = Vec::new();
                commands.push(command);
                assert(views(commands@) =~= seq![command@]);
                let mut rows: Vec<OfferedRow> = Vec::new();
                rows.push(lone_row_for(&self.rev_dep, "ERROR", owned("ERROR"), commands));
                assert(views(rows@) =~= rows_of(*self));
                rows
            },
            TestResultData::Skipped(reason) => {
                let commands: Vec<TestCommand> = Vec::new();
                assert(views(commands@) =~= Seq::<TestCommandView>::empty());
                let mut rows: Vec<OfferedRow> = Vec::new();
                rows.push(lone_row_for(&self.rev_dep, "SKIPPED", reason.clone(), commands));
                assert(views(rows@) =~= rows_of(*self));
                rows
            },
        }
    }

    /// One word for the result: `skipped`, `error`, or the verdict on the
    /// dependent as a whole.
    pub open spec fn quick_text(self) -> Seq<char> {
        match self.data {
            TestResultData::Skipped(_) => "skipped"@,
            TestResultData::Error(_) => "error"@,
            TestResultData::MultiVersion(outcomes) => match worst_status(
                outcomes@,
                outcomes@.len() as int,
            ) {
                VersionStatus::Regressed => "regressed"@,
                VersionStatus::Broken => "broken"@,
                VersionStatus::Passed => "passed"@,
            },
        }
    }

    /// One word for the result.
    pub fn quick_str(&self) -> (s: &'static str)
        ensures
            s@ == self.quick_text(),
    {
        match &self.data {
            TestResultData::Skipped(_) => "skipped",
            TestResultData::Error(_) => "error",
            TestResultData::MultiVersion(outcomes) => match rolled_up_status(outcomes) {
                VersionStatus::Regressed => "regressed",
                VersionStatus::Broken => "broken",
                VersionStatus::Passed => "passed",
            },
        }
    }

    /// The class of the result in the HTML report.
    pub fn html_class(&self) -> (s: &'static str)
        ensures
            s@ == self.quick_text(),
    {
        self.quick_str()
    }

    /// The anchor of the result in the HTML report: name and version of the
    /// dependent, made fit for a link.
    pub fn html_anchor(&self) -> (s: String)
        ensures
            s@ == link_text(self.rev_dep.name@ + "-"@ + self.rev_dep.vers@),
    {
        let mut raw = self.rev_dep.name.clone();
        raw.append("-");
        raw.append(self.rev_dep.vers.as_str());
        sanitize_link(raw.as_str())
    }
}

/// The first character of the lowercase form of `c`, as
/// `char::to_lowercase` yields it.
pub uninterp spec fn lowercase_head(c: char) -> char;

/// The first character of the lowercase mapping of `c`.
///
/// Wraps `char::to_lowercase`, whose iterator yields at least one
/// character for every input. Nothing is claimed about the character beyond
/// its name.
#[verifier::external_body]
fn lower_head(c: char) -> (r: char)
    ensures
        r == lowercase_head(c),
{
    c.to_lowercase().next().unwrap_or(c)
}

/// A character in lower case: ASCII capitals become their small letters,
/// other ASCII characters stay, and for the rest the first character of the
/// Unicode lowercase mapping is taken.
pub open spec fn lowered(c: char) -> char {
    if 'A' <= c && c <= 'Z' {
        ((c as u8) + 32) as char
    } else if c <= '\u{7f}' {
        c
    } else {
        lowercase_head(c)
    }
}

/// What a character becomes in a link: its lower case if that is a small
/// ASCII letter, a digit or a hyphen, an underscore otherwise.
pub open spec fn link_char(c: char) -> char {
    let l = lowered(c);
    if l == '-' || ('a' <= l && l <= 'z') || ('0' <= l && l <= '9') {
        l
    } else {
        '_'
    }
}

/// A text made fit for a link, character by character.
pub open spec fn link_text(s: Seq<char>) -> Seq<char> {
    Seq::new(s.len(), |i: int| link_char(s[i]))
}

fn lower(c: char) -> (r: char)
    ensures
        r == lowered(c),
{
    if 'A' <= c && c <= 'Z' {
        ((c as u8) + 32) as char
    } else if c <= '\u{7f}' {
        c
    } else {
        lower_head(c)
    }
}

/// Makes a text fit for a link: small letters, digits and hyphens stay,
/// capitals become small, everything else becomes an underscore.
pub fn sanitize_link(s: &str) -> (r: String)
    ensures
        r@ == link_text(s@),
{
    let v = chars_of(s);
    let mut out = String::new();
    let mut i: usize = 0;
    while i < v.len()
        invariant
            i <= v.len(),
            v@ == s@,
            out@ == link_text(s@).take(i as int),
        decreases v.len() - i,
    {
        let l = lower(v[i]);
        let c = if l == '-' || ('a' <= l && l <= 'z') || ('0' <= l && l <= '9') {
            l
        } else {
            '_'
        };
        push_char(&mut out, c);
        i = i + 1;
        assert(out@ =~= link_text(s@).take(i as int));
    }
    assert(link_text(s@).take(v.len() as int) =~= link_text(s@));
    out
}

} // verus!
