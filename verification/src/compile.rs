//! The three-step build pipeline: fetch, check, test.
//!
//! The pipeline itself runs the build tool and touches the staging
//! directory, which is the caller's business. What is decided here is the
//! order of the steps: [`PipelineState::step`] takes what happened last and
//! answers with what to do next, and ends by handing out a
//! [`ThreeStepResult`].

use vstd::prelude::*;
use vstd::string::*;
use crate::error_extract::{text_of, Diagnostic, DiagnosticView};
use crate::rows::views;
use crate::text::{decimal, owned, push_char, push_repeated, repeated, texts_of};

verus! {

/// One step of the pipeline.
#[derive(Debug, Clone, Copy, PartialEq, Eq, Structural)]
pub enum CompileStep {
    /// Download the dependencies.
    Fetch,
    /// Compile without generating code.
    Check,
    /// Build and run the test suite.
    Test,
}

impl CompileStep {
    /// The word for the step, which is also the subcommand of the build tool
    /// that carries it out.
    pub open spec fn name(self) -> Seq<char> {
        match self {
            CompileStep::Fetch => "fetch"@,
            CompileStep::Check => "check"@,
            CompileStep::Test => "test"@,
        }
    }

    pub fn as_str(&self) -> (s: &'static str)
        ensures
            s@ == self.name(),
    {
        match self {
            CompileStep::Fetch => "fetch",
            CompileStep::Check => "check",
            CompileStep::Test => "test",
        }
    }

    pub fn cargo_subcommand(&self) -> (s: &'static str)
        ensures
            s@ == self.name(),
    {
        match self {
            CompileStep::Fetch => "fetch",
            CompileStep::Check => "check",
            CompileStep::Test => "test",
        }
    }

    /// Whether the build tool is asked for structured diagnostics in this
    /// step: in every step but the fetch.
    pub fn wants_structured_output(&self) -> (b: bool)
        ensures
            b == !(*self is Fetch),
    {
        match self {
            CompileStep::Fetch => false,
            _ => true,
        }
    }
}

/// What one step of the pipeline came to.
#[derive(Debug, Clone)]
pub struct CompileResult {
    pub step: CompileStep,
    pub success: bool,
    pub stdout: String,
    pub stderr: String,
    /// Wall-clock time of the step in milliseconds.
    pub duration_ms: u64,
    pub diagnostics: Vec<Diagnostic>,
}

/// Mathematical value of a [`CompileResult`].
pub struct CompileResultView {
    pub step: CompileStep,
    pub success: bool,
    pub stdout: Seq<char>,
    pub stderr: Seq<char>,
    pub duration_ms: u64,
    pub diagnostics: Seq<DiagnosticView>,
}

impl View for CompileResult {
    type V = CompileResultView;

    open spec fn view(&self) -> CompileResultView {
        CompileResultView {
            step: self.step,
            success: self.success,
            stdout: self.stdout@,
            stderr: self.stderr@,
            duration_ms: self.duration_ms,
            diagnostics: views(self.diagnostics@),
        }
    }
}

/// The value of a step that may not have run.
pub open spec fn step_view(r: Option<CompileResult>) -> Option<CompileResultView> {
    match r {
        Some(c) => Some(c@),
        None => None,
    }
}

impl CompileResult {
    pub fn failed(&self) -> (b: bool)
        ensures
            b == !self.success,
    {
        !self.success
    }
}

/// Where a version of the subject comes from.
#[derive(Debug, Clone, PartialEq, Eq)]
pub enum VersionSource {
    /// A version published in the registry.
    Published(String),
    /// The work in progress, at a path on disk.
    Local(String),
}

/// Mathematical value of a [`VersionSource`].
pub enum SourceView {
    Published(Seq<char>),
    Local(Seq<char>),
}

impl View for VersionSource {
    type V = SourceView;

    open spec fn view(&self) -> SourceView {
        match *self {
            VersionSource::Published(v) => SourceView::Published(v@),
            VersionSource::Local(p) => SourceView::Local(p@),
        }
    }
}

impl VersionSource {
    /// How the version is called in the report: a published version by its
    /// number, the local one `this`.
    pub open spec fn label_text(self) -> Seq<char> {
        match self {
            VersionSource::Published(v) => v@,
            VersionSource::Local(_) => "this"@,
        }
    }

    pub fn label(&self) -> (s: String)
        ensures
            s@ == self.label_text(),
    {
        match self {
            VersionSource::Published(v) => v.clone(),
            VersionSource::Local(_) => owned("this"),
        }
    }

    pub fn is_local(&self) -> (b: bool)
        ensures
            b == (*self is Local),
    {
        match self {
            VersionSource::Local(_) => true,
            _ => false,
        }
    }
}

/// The outcome of one pipeline run.
#[derive(Debug, Clone)]
pub struct ThreeStepResult {
    /// The fetch, which always runs.
    pub fetch: CompileResult,
    /// The check; absent when it was skipped or the fetch failed.
    pub check: Option<CompileResult>,
    /// The test; absent when it was skipped or an earlier step failed.
    pub test: Option<CompileResult>,
    /// The version that the build tool resolved, when that could be found.
    pub actual_version: Option<String>,
    /// The version that was offered.
    pub expected_version: Option<String>,
    /// Whether the version was forced on the dependent against its
    /// requirement.
    pub forced_version: bool,
    /// The dependent's requirement as its manifest states it.
    pub original_requirement: Option<String>,
}

/// Mathematical value of a [`ThreeStepResult`].
pub struct ThreeStepResultView {
    pub fetch: CompileResultView,
    pub check: Option<CompileResultView>,
    pub test: Option<CompileResultView>,
    pub actual_version: Option<Seq<char>>,
    pub expected_version: Option<Seq<char>>,
    pub forced_version: bool,
    pub original_requirement: Option<Seq<char>>,
}

impl View for ThreeStepResult {
    type V = ThreeStepResultView;

    open spec fn view(&self) -> ThreeStepResultView {
        ThreeStepResultView {
            fetch: self.fetch@,
            check: step_view(self.check),
            test: step_view(self.test),
            actual_version: text_of(self.actual_version),
            expected_version: text_of(self.expected_version),
            forced_version: self.forced_version,
            original_requirement: text_of(self.original_requirement),
        }
    }
}

impl ThreeStepResultView {
    /// Every step that ran succeeded.
    pub open spec fn succeeded(self) -> bool {
        &&& self.fetch.success
        &&& self.check matches Some(c) ==> c.success
        &&& self.test matches Some(t) ==> t.success
    }
}

/// Mark of a step that succeeded.
pub const MARK_PASSED: char = '✓';

/// Mark of a step that failed.
pub const MARK_FAILED: char = '✗';

/// Mark of a step that did not run.
pub const MARK_NOT_RUN: char = '-';

/// The mark for a step that may not have run.
pub open spec fn step_mark(r: Option<CompileResult>) -> char {
    match r {
        Some(c) => if c.success {
            MARK_PASSED
        } else {
            MARK_FAILED
        },
        None => MARK_NOT_RUN,
    }
}

fn mark_of(r: &Option<CompileResult>) -> (c: char)
    ensures
        c == step_mark(*r),
{
    match r {
        Some(c) => if c.success {
            MARK_PASSED
        } else {
            MARK_FAILED
        },
        None => MARK_NOT_RUN,
    }
}

impl ThreeStepResult {
    /// Every step that ran succeeded.
    pub open spec fn succeeded(self) -> bool {
        &&& self.fetch.success
        &&& self.check matches Some(c) ==> c.success
        &&& self.test matches Some(t) ==> t.success
    }

    /// The earliest step that failed, if any did.
    pub open spec fn first_failed(self) -> Option<CompileResult> {
        if !self.fetch.success {
            Some(self.fetch)
        } else if self.check is Some && !self.check->0.success {
            self.check
        } else if self.test is Some && !self.test->0.success {
            self.test
        } else {
            None
        }
    }

    /// The steps that are present are those that the pipeline runs: the
    /// check only after a successful fetch, the test only after a successful
    /// fetch and a check that succeeded or was left out.
    pub open spec fn well_formed(self) -> bool {
        &&& self.check is Some ==> self.fetch.success
        &&& self.test is Some ==> self.fetch.success && (self.check matches Some(c) ==> c.success)
    }

    /// The three marks for fetch, check and test. After the first failure
    /// the remaining steps show as not run.
    pub open spec fn ict_marks(self) -> Seq<char> {
        if !self.fetch.success {
            seq![MARK_FAILED, MARK_NOT_RUN, MARK_NOT_RUN]
        } else if self.check is Some && !self.check->0.success {
            seq![MARK_PASSED, MARK_FAILED, MARK_NOT_RUN]
        } else {
            seq![MARK_PASSED, step_mark(self.check), step_mark(self.test)]
        }
    }

    /// Whether all steps that ran succeeded.
    pub fn is_success(&self) -> (b: bool)
        ensures
            b == self.succeeded(),
    {
        if !self.fetch.success {
            return false;
        }
        match &self.check {
            Some(c) => {
                if !c.success {
                    return false;
                }
            },
            None => {},
        }
        match &self.test {
            Some(t) => t.success,
            None => true,
        }
    }

    /// The first step that failed, if any.
    pub fn first_failure(&self) -> (r: Option<&CompileResult>)
        ensures
            match r {
                Some(c) => self.first_failed() == Some(*c),
                None => self.first_failed() is None,
            },
            r is None <==> self.succeeded(),
    {
        if !self.fetch.success {
            return Some(&self.fetch);
        }
        match &self.check {
            Some(c) => {
                if !c.success {
                    return Some(c);
                }
            },
            None => {},
        }
        match &self.test {
            Some(t) => {
                if !t.success {
                    return Some(t);
                }
            },
            None => {},
        }
        None
    }

    /// The marks of the three steps, for display.
    pub fn format_ict_marks(&self) -> (s: String)
        ensures
            s@ == self.ict_marks(),
            s@.len() == 3,
    {
        let mut s = String::new();
        if !self.fetch.success {
            push_char(&mut s, MARK_FAILED);
            push_char(&mut s, MARK_NOT_RUN);
            push_char(&mut s, MARK_NOT_RUN);
            assert(s@ =~= seq![MARK_FAILED, MARK_NOT_RUN, MARK_NOT_RUN]);
            return s;
        }
        push_char(&mut s, MARK_PASSED);
        let check_mark = mark_of(&self.check);
        push_char(&mut s, check_mark);
        if check_mark == MARK_FAILED {
            push_char(&mut s, MARK_NOT_RUN);
            assert(s@ =~= seq![MARK_PASSED, MARK_FAILED, MARK_NOT_RUN]);
            return s;
        }
        push_char(&mut s, mark_of(&self.test));
        assert(s@ =~= seq![MARK_PASSED, step_mark(self.check), step_mark(self.test)]);
        s
    }
}

/// The outcome of testing a dependent against one version.
#[derive(Debug, Clone)]
pub struct VersionTestResult {
    pub version_source: VersionSource,
    pub result: ThreeStepResult,
}

/// The argument that redirects the subject to a directory without touching
/// any file: `patch.crates-io.<name>.path="<directory>"`.
pub open spec fn patch_fragment(subject: Seq<char>, directory: Seq<char>) -> Seq<char> {
    "patch.crates-io."@ + subject + ".path=\""@ + directory + "\""@
}

/// Builds the value of the build tool's `--config` option that makes it take
/// the subject from `directory`.
pub fn patch_config(subject: &str, directory: &str) -> (s: String)
    ensures
        s@ == patch_fragment(subject@, directory@),
{
    let mut s = owned("patch.crates-io.");
    s.append(subject);
    s.append(".path=\"");
    s.append(directory);
    s.append("\"");
    s
}

/// The arguments of the build tool for a step: the subcommand, the request
/// for structured output in every step but the fetch, and the override when
/// there is one.
pub open spec fn step_arguments(step: CompileStep, fragment: Option<Seq<char>>) -> Seq<
    Seq<char>,
> {
    seq![step.name()] + (if step is Fetch {
        Seq::<Seq<char>>::empty()
    } else {
        seq!["--message-format=json"@]
    }) + (match fragment {
        Some(f) => seq!["--config"@, f],
        None => Seq::<Seq<char>>::empty(),
    })
}

/// Builds the arguments of the build tool for `step`. `patch` is the pair of
/// subject name and directory when the subject is redirected by a patch.
pub fn cargo_arguments(step: CompileStep, patch: Option<(&str, &str)>) -> (args: Vec<String>)
    ensures
        texts_of(args@) == step_arguments(
            step,
            match patch {
                Some(p) => Some(patch_fragment(p.0@, p.1@)),
                None => None,
            },
        ),
{
    let mut args: Vec<String> = Vec::new();
    args.push(owned(step.cargo_subcommand()));
    if step.wants_structured_output() {
        args.push(owned("--message-format=json"));
    }
    match patch {
        Some(p) => {
            args.push(owned("--config"));
            args.push(patch_config(p.0, p.1));
        },
        None => {},
    }
    assert(texts_of(args@) =~= step_arguments(
        step,
        match patch {
            Some(p) => Some(patch_fragment(p.0@, p.1@)),
            None => None,
        },
    ));
    args
}

/// Width of the rules that frame a record of the failure log.
pub const LOG_RULE_WIDTH: usize = 100;

/// How an exit code shows in the failure log.
pub open spec fn exit_code_text(code: Option<i32>) -> Seq<char> {
    match code {
        Some(c) => if c < 0 {
            seq!['-'] + decimal((-(c as int)) as nat)
        } else {
            decimal(c as nat)
        },
        None => "N/A"@,
    }
}

/// One record of the failure log: a rule, the headline with the time, the
/// dependent, the subject and the label of the offered version, a rule, the
/// command with its exit code, the captured output, and a closing rule.
pub open spec fn failure_record(
    timestamp: Seq<char>,
    dependent: Seq<char>,
    dependent_version: Seq<char>,
    subject: Seq<char>,
    label: Seq<char>,
    command: Seq<char>,
    exit_code: Option<i32>,
    stdout: Seq<char>,
    stderr: Seq<char>,
) -> Seq<char> {
    let rule = repeated('=', LOG_RULE_WIDTH as nat) + "\n"@;
    "\n"@ + rule + "["@ + timestamp + "] FAILURE: "@ + dependent + " "@ + dependent_version
        + " testing "@ + subject + " "@ + label + "\n"@ + rule + "Command: "@ + command + "\n"@
        + "Exit code: "@ + exit_code_text(exit_code) + "\n"@ + "\n--- STDOUT ---\n"@ + stdout
        + "\n"@ + "\n--- STDERR ---\n"@ + stderr + "\n"@ + rule
}

fn push_exit_code(out: &mut String, code: Option<i32>)
    ensures
        final(out)@ == old(out)@ + exit_code_text(code),
{
    match code {
        Some(c) => {
            if c < 0 {
                push_char(out, '-');
                let magnitude: u64 = (-(c as i64)) as u64;
                crate::text::push_decimal(out, magnitude);
                assert(out@ =~= old(out)@ + (seq!['-'] + decimal((-(c as int)) as nat)));
            } else {
                crate::text::push_decimal(out, c as u64);
            }
        },
        None => {
            out.append("N/A");
        },
    }
}

fn push_rule(out: &mut String)
    ensures
        final(out)@ == old(out)@ + (repeated('=', LOG_RULE_WIDTH as nat) + "\n"@),
{
    push_repeated(out, '=', LOG_RULE_WIDTH);
    out.append("\n");
    assert(out@ =~= old(out)@ + (repeated('=', LOG_RULE_WIDTH as nat) + "\n"@));
}

/// Writes out the record of one failed step for the failure log.
///
/// `label` names the offered version (`baseline`, `this` or a version
/// number), `command` the command that failed. The caller supplies the time
/// and appends the record to the log.
pub fn format_failure_record(
    timestamp: &str,
    dependent: &str,
    dependent_version: &str,
    subject: &str,
    label: &str,
    command: &str,
    exit_code: Option<i32>,
    stdout: &str,
    stderr: &str,
) -> (r: String)
    ensures
        r@ == failure_record(
            timestamp@,
            dependent@,
            dependent_version@,
            subject@,
            label@,
            command@,
            exit_code,
            stdout@,
            stderr@,
        ),
{
    let ghost rule = repeated('=', LOG_RULE_WIDTH as nat) + "\n"@;
    let mut out = owned("\n");
    push_rule(&mut out);
    out.append("[");
    out.append(timestamp);
    out.append("] FAILURE: ");
    out.append(dependent);
    out.append(" ");
    out.append(dependent_version);
    out.append(" testing ");
    out.append(subject);
    out.append(" ");
    out.append(label);
    out.append("\n");
    push_rule(&mut out);
    out.append("Command: ");
    out.append(command);
    out.append("\n");
    out.append("Exit code: ");
    push_exit_code(&mut out, exit_code);
    out.append("\n");
    out.append("\n--- STDOUT ---\n");
    out.append(stdout);
    out.append("\n");
    out.append("\n--- STDERR ---\n");
    out.append(stderr);
    out.append("\n");
    push_rule(&mut out);
    out
}

/// Where failures are logged, once that is set up.
#[derive(Debug, Clone)]
pub struct FailureLog {
    /// The file that records are appended to; `None` until the log is set
    /// up.
    pub path: Option<String>,
}

/// A failure log that is not set up: nothing is logged.
pub fn no_failure_log() -> (log: FailureLog)
    ensures
        log.path is None,
{
    FailureLog { path: None }
}

/// Sets up the failure log at a path.
pub fn init_failure_log(log_path: String) -> (log: FailureLog)
    ensures
        log.path == Some(log_path),
{
    FailureLog { path: Some(log_path) }
}

/// What is to be appended to which file for a step that failed: the path
/// of the log and the record. Nothing when the log is not set up. The
/// caller supplies the time, and appends the record under an exclusive lock
/// on the file.
pub fn log_failure(
    log: &FailureLog,
    timestamp: &str,
    dependent: &str,
    dependent_version: &str,
    base_crate: &str,
    test_label: &str,
    command: &str,
    exit_code: Option<i32>,
    stdout: &str,
    stderr: &str,
) -> (r: Option<(String, String)>)
    ensures
        match r {
            Some(entry) => log.path == Some(entry.0) && entry.1@ == failure_record(
                timestamp@,
                dependent@,
                dependent_version@,
                base_crate@,
                test_label@,
                command@,
                exit_code,
                stdout@,
                stderr@,
            ),
            None => log.path is None,
        },
{
    match &log.path {
        Some(path) => Some(
            (
                path.clone(),
                format_failure_record(
                    timestamp,
                    dependent,
                    dependent_version,
                    base_crate,
                    test_label,
                    command,
                    exit_code,
                    stdout,
                    stderr,
                ),
            ),
        ),
        None => None,
    }
}

/// The command that a step runs, as the failure log names it.
pub open spec fn step_command(step: CompileStep) -> Seq<char> {
    "cargo "@ + step.name()
}

/// The command of a step, for the failure log.
pub fn command_line(step: CompileStep) -> (s: String)
    ensures
        s@ == step_command(step),
{
    let mut s = owned("cargo ");
    s.append(step.as_str());
    s
}

} // verus!
