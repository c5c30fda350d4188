//! Sequencing of one pipeline run against a staging entry.
//!
//! The caller owns the staging directory and the build tool. It creates a
//! [`PipelineState`], feeds it [`PipelineEvent::Start`], carries out the
//! action that comes back, reports what happened with the next event, and
//! goes on until the answer is [`PipelineAction::Finish`] or
//! [`PipelineAction::Abort`].
//!
//! The order is: restore the manifest from its backup, remove the lockfile,
//! rewrite the manifest when the version is forced, fetch, look up the
//! version that was resolved, check, test. A step that fails ends the run
//! after one record for the failure log. Whatever way the run ends, a
//! rewritten manifest is restored first.

use vstd::prelude::*;
use crate::compile::{CompileResult, CompileStep, ThreeStepResult};

verus! {

/// What a run is asked to do.
#[derive(Debug, Clone, Copy, PartialEq, Eq, Structural)]
pub struct PipelinePlan {
    /// Whether the subject is redirected to another source. Without an
    /// override the dependent is built as it stands: the baseline.
    pub has_override: bool,
    /// Whether the dependent's requirement is bypassed by rewriting its
    /// manifest. Without this an override is applied as a patch, which the
    /// build tool rejects when the version does not meet the requirement.
    pub forced: bool,
    pub skip_check: bool,
    pub skip_test: bool,
}

impl PipelinePlan {
    /// The manifest is rewritten for this run.
    pub open spec fn rewrites(self) -> bool {
        self.has_override && self.forced
    }

    /// The steps of this run carry a patch argument.
    pub open spec fn patches(self) -> bool {
        self.has_override && !self.forced
    }
}

/// Where a run stands. Each phase but the first and the last two waits for
/// the outcome of the action that was answered last.
#[derive(Debug, Clone, Copy, PartialEq, Eq, Structural)]
pub enum PipelinePhase {
    Created,
    Restoring,
    Purging,
    Rewriting,
    Fetching,
    Verifying,
    Checking,
    Testing,
    Logging,
    Cleaning,
    Finished,
    Aborted,
}

/// What the caller reports.
#[derive(Debug)]
pub enum PipelineEvent {
    /// The run begins.
    Start,
    /// The action that was asked for is done and has nothing to report.
    Done,
    /// The step that was asked for has run.
    StageFinished(CompileResult),
    /// The resolved version was looked up; `None` when it could not be
    /// found, which does not stop the run.
    VersionFound(Option<String>),
    /// The action that was asked for could not be carried out.
    Failed(String),
}

/// What the caller is to do next.
#[derive(Debug)]
pub enum PipelineAction {
    /// Copy the manifest backup over the manifest.
    RestoreManifest,
    /// Delete the lockfile if there is one.
    PurgeLockfile,
    /// Rewrite the subject's entries in the manifest to the override path.
    RewriteManifest,
    /// Run a step of the build tool, with the patch argument if `patch`.
    RunStage { step: CompileStep, patch: bool },
    /// Ask the build tool which version of the subject it resolved.
    VerifyVersion,
    /// Append a record for the failed step to the failure log.
    LogFailure { step: CompileStep },
    /// Copy the manifest backup over the rewritten manifest.
    RestoreRewritten,
    /// The run is over; here is its outcome.
    Finish(ThreeStepResult),
    /// The run was given up for the reason stated.
    Abort(String),
    /// The event was not expected and changed nothing.
    Ignore,
}

/// The step among the three that failed first, if any.
pub open spec fn failing_step(
    fetch: Option<CompileResult>,
    check: Option<CompileResult>,
    test: Option<CompileResult>,
) -> Option<CompileStep> {
    if fetch is Some && !fetch->0.success {
        Some(CompileStep::Fetch)
    } else if check is Some && !check->0.success {
        Some(CompileStep::Check)
    } else if test is Some && !test->0.success {
        Some(CompileStep::Test)
    } else {
        None
    }
}

/// The steps that are present are exactly those that a run with `plan`
/// makes: the check if and only if the fetch succeeded and the check is not
/// skipped; the test if and only if the fetch succeeded, the check
/// succeeded or was skipped, and the test is not skipped.
pub open spec fn complete_for(
    plan: PipelinePlan,
    fetch: CompileResult,
    check: Option<CompileResult>,
    test: Option<CompileResult>,
) -> bool {
    &&& check is Some <==> fetch.success && !plan.skip_check
    &&& test is Some <==> fetch.success && !plan.skip_test && (check matches Some(c) ==> c.success)
}

/// The progress of one run, as a mathematical value.
pub struct PipelineModel {
    /// What the run was asked to do.
    pub plan: PipelinePlan,
    pub phase: PipelinePhase,
    /// The steps that have run.
    pub fetch: Option<CompileResult>,
    pub check: Option<CompileResult>,
    pub test: Option<CompileResult>,
    /// The version that the build tool resolved.
    pub actual_version: Option<String>,
    pub expected_version: Option<String>,
    pub original_requirement: Option<String>,
    /// Whether the manifest of the staging entry is rewritten at this
    /// point, as far as the run knows.
    pub rewritten: bool,
    /// The step for which a failure record was asked for and written.
    pub logged: Option<CompileStep>,
    /// The reason for which the run is being given up, while the manifest
    /// is restored.
    pub abort: Option<String>,
}

impl PipelineModel {
    /// The step that failed first among those that have run.
    pub open spec fn failing(self) -> Option<CompileStep> {
        failing_step(self.fetch, self.check, self.test)
    }

    /// The steps that ran are tagged as what they are, and ran in order:
    /// nothing follows a failure.
    pub open spec fn orderly(self) -> bool {
        &&& self.fetch matches Some(f) ==> f.step == CompileStep::Fetch
        &&& self.check matches Some(c) ==> c.step == CompileStep::Check
        &&& self.test matches Some(t) ==> t.step == CompileStep::Test
        &&& self.check is Some ==> self.fetch is Some && self.fetch->0.success
            && !self.plan.skip_check
        &&& self.test is Some ==> self.fetch is Some && self.fetch->0.success
            && !self.plan.skip_test && (self.check matches Some(c) ==> c.success) && (self.check is None
            ==> self.plan.skip_check)
        &&& self.actual_version is Some ==> self.fetch is Some && self.fetch->0.success
    }

    /// The run has nothing left to do but to end.
    pub open spec fn complete(self) -> bool {
        self.fetch is Some && complete_for(self.plan, self.fetch->0, self.check, self.test)
    }

    /// Nothing has run, or what has run was handed out.
    pub open spec fn holds_nothing(self) -> bool {
        &&& self.fetch is None
        &&& self.check is None
        &&& self.test is None
        &&& self.actual_version is None
        &&& self.expected_version is None
        &&& self.original_requirement is None
    }

    /// What holds of every state that a run passes through.
    pub open spec fn well_formed(self) -> bool {
        &&& self.rewritten ==> self.plan.rewrites()
        &&& self.orderly()
        &&& match self.phase {
            PipelinePhase::Created | PipelinePhase::Restoring | PipelinePhase::Purging => {
                &&& self.fetch is None
                &&& self.logged is None
                &&& self.abort is None
                &&& !self.rewritten
            },
            PipelinePhase::Rewriting => {
                &&& self.fetch is None
                &&& self.logged is None
                &&& self.abort is None
                &&& self.rewritten
            },
            PipelinePhase::Fetching => {
                &&& self.fetch is None
                &&& self.logged is None
                &&& self.abort is None
                &&& self.rewritten == self.plan.rewrites()
            },
            PipelinePhase::Verifying => {
                &&& self.fetch is Some
                &&& self.fetch->0.success
                &&& self.check is None
                &&& self.test is None
                &&& self.actual_version is None
                &&& self.logged is None
                &&& self.abort is None
                &&& self.rewritten == self.plan.rewrites()
            },
            PipelinePhase::Checking => {
                &&& self.fetch is Some
                &&& self.fetch->0.success
                &&& self.check is None
                &&& self.test is None
                &&& !self.plan.skip_check
                &&& self.logged is None
                &&& self.abort is None
                &&& self.rewritten == self.plan.rewrites()
            },
            PipelinePhase::Testing => {
                &&& self.fetch is Some
                &&& self.fetch->0.success
                &&& self.check is Some <==> !self.plan.skip_check
                &&& self.check matches Some(c) ==> c.success
                &&& self.test is None
                &&& !self.plan.skip_test
                &&& self.logged is None
                &&& self.abort is None
                &&& self.rewritten == self.plan.rewrites()
            },
            PipelinePhase::Logging => {
                &&& self.complete()
                &&& self.failing() is Some
                &&& self.logged is None
                &&& self.abort is None
                &&& self.rewritten == self.plan.rewrites()
            },
            PipelinePhase::Cleaning => {
                &&& self.rewritten
                &&& self.abort is None ==> self.complete() && self.logged == self.failing()
            },
            PipelinePhase::Finished => {
                &&& !self.rewritten
                &&& self.abort is None
                &&& self.holds_nothing()
            },
            PipelinePhase::Aborted => {
                &&& self.abort is None
                &&& self.holds_nothing()
            },
        }
    }

    /// The state in which every run begins.
    pub open spec fn initial(
        plan: PipelinePlan,
        expected_version: Option<String>,
        original_requirement: Option<String>,
    ) -> PipelineModel {
        PipelineModel {
            plan,
            phase: PipelinePhase::Created,
            fetch: None,
            check: None,
            test: None,
            actual_version: None,
            expected_version,
            original_requirement,
            rewritten: false,
            logged: None,
            abort: None,
        }
    }

    /// The outcome that the run has gathered; meaningful once the fetch has
    /// run.
    pub open spec fn outcome(self) -> ThreeStepResult {
        ThreeStepResult {
            fetch: self.fetch->0,
            check: self.check,
            test: self.test,
            actual_version: self.actual_version,
            expected_version: self.expected_version,
            forced_version: self.plan.forced,
            original_requirement: self.original_requirement,
        }
    }

    /// The state in the given phase, with nothing gathered and nothing
    /// pending.
    pub open spec fn cleared(self, phase: PipelinePhase) -> PipelineModel {
        PipelineModel {
            phase,
            fetch: None,
            check: None,
            test: None,
            actual_version: None,
            expected_version: None,
            original_requirement: None,
            abort: None,
            ..self
        }
    }

    /// Hands out the outcome. The manifest is as it was unpacked then.
    pub open spec fn finish(self) -> (PipelineModel, PipelineAction) {
        (
            (PipelineModel { rewritten: false, ..self }).cleared(PipelinePhase::Finished),
            PipelineAction::Finish(self.outcome()),
        )
    }

    /// Ends the run normally: a rewritten manifest is restored first.
    pub open spec fn wrap_up(self) -> (PipelineModel, PipelineAction) {
        if self.rewritten {
            (PipelineModel { phase: PipelinePhase::Cleaning, ..self }, PipelineAction::RestoreRewritten)
        } else {
            self.finish()
        }
    }

    /// Goes on after the check, or after the place of a skipped check.
    pub open spec fn after_check(self) -> (PipelineModel, PipelineAction) {
        if !self.plan.skip_test {
            (
                PipelineModel { phase: PipelinePhase::Testing, ..self },
                PipelineAction::RunStage { step: CompileStep::Test, patch: self.plan.patches() },
            )
        } else {
            self.wrap_up()
        }
    }

    /// Goes on after a successful fetch.
    pub open spec fn after_fetch(self) -> (PipelineModel, PipelineAction) {
        if !self.plan.skip_check {
            (
                PipelineModel { phase: PipelinePhase::Checking, ..self },
                PipelineAction::RunStage { step: CompileStep::Check, patch: self.plan.patches() },
            )
        } else {
            self.after_check()
        }
    }

    /// Gives the run up: a rewritten manifest is restored first, unless it
    /// was the restoring that failed.
    pub open spec fn give_up(self, reason: String) -> (PipelineModel, PipelineAction) {
        if self.rewritten && !(self.phase is Cleaning) {
            (
                PipelineModel { phase: PipelinePhase::Cleaning, abort: Some(reason), ..self },
                PipelineAction::RestoreRewritten,
            )
        } else {
            (self.cleared(PipelinePhase::Aborted), PipelineAction::Abort(reason))
        }
    }

    /// The state with `r` recorded as the result of its step.
    pub open spec fn with_result(self, r: CompileResult) -> PipelineModel {
        match r.step {
            CompileStep::Fetch => PipelineModel { fetch: Some(r), ..self },
            CompileStep::Check => PipelineModel { check: Some(r), ..self },
            CompileStep::Test => PipelineModel { test: Some(r), ..self },
        }
    }

    /// The step that the phase waits for, if it waits for one.
    pub open spec fn awaited_step(self) -> Option<CompileStep> {
        match self.phase {
            PipelinePhase::Fetching => Some(CompileStep::Fetch),
            PipelinePhase::Checking => Some(CompileStep::Check),
            PipelinePhase::Testing => Some(CompileStep::Test),
            _ => None,
        }
    }

    /// The state that follows on `event`, and the action that is answered.
    ///
    /// A run that is over ignores everything, and one that has not begun
    /// everything but the start. A failure of what was asked for gives the
    /// run up. Otherwise each phase goes on with the report that it waits
    /// for: the manifest is restored, then the lockfile removed, then the
    /// manifest rewritten if the plan forces the version, then the fetch
    /// run. A step that succeeded is followed by the next step that the plan
    /// does not skip, the fetch first by the look-up of the resolved
    /// version. A step that failed is followed by one request for a failure
    /// record. Then the run ends, after the manifest was restored if it was
    /// rewritten.
    pub open spec fn transition(self, event: PipelineEvent) -> (PipelineModel, PipelineAction) {
        match (self.phase, event) {
            (PipelinePhase::Finished, _) | (PipelinePhase::Aborted, _) => (
                self,
                PipelineAction::Ignore,
            ),
            (PipelinePhase::Created, PipelineEvent::Start) => (
                PipelineModel { phase: PipelinePhase::Restoring, ..self },
                PipelineAction::RestoreManifest,
            ),
            (PipelinePhase::Created, _) => (self, PipelineAction::Ignore),
            (_, PipelineEvent::Failed(reason)) => self.give_up(reason),
            (PipelinePhase::Restoring, PipelineEvent::Done) => (
                PipelineModel { phase: PipelinePhase::Purging, ..self },
                PipelineAction::PurgeLockfile,
            ),
            (PipelinePhase::Purging, PipelineEvent::Done) => if self.plan.rewrites() {
                (
                    PipelineModel { phase: PipelinePhase::Rewriting, rewritten: true, ..self },
                    PipelineAction::RewriteManifest,
                )
            } else {
                (
                    PipelineModel { phase: PipelinePhase::Fetching, ..self },
                    PipelineAction::RunStage {
                        step: CompileStep::Fetch,
                        patch: self.plan.patches(),
                    },
                )
            },
            (PipelinePhase::Rewriting, PipelineEvent::Done) => (
                PipelineModel { phase: PipelinePhase::Fetching, ..self },
                PipelineAction::RunStage { step: CompileStep::Fetch, patch: false },
            ),
            (_, PipelineEvent::StageFinished(r)) => if self.awaited_step() != Some(r.step) {
                (self, PipelineAction::Ignore)
            } else if !r.success {
                (
                    PipelineModel { phase: PipelinePhase::Logging, ..self.with_result(r) },
                    PipelineAction::LogFailure { step: r.step },
                )
            } else {
                match r.step {
                    CompileStep::Fetch => (
                        PipelineModel { phase: PipelinePhase::Verifying, ..self.with_result(r) },
                        PipelineAction::VerifyVersion,
                    ),
                    CompileStep::Check => self.with_result(r).after_check(),
                    CompileStep::Test => self.with_result(r).wrap_up(),
                }
            },
            (PipelinePhase::Verifying, PipelineEvent::VersionFound(v)) => (PipelineModel {
                actual_version: v,
                ..self
            }).after_fetch(),
            (PipelinePhase::Logging, PipelineEvent::Done) => (PipelineModel {
                logged: self.failing(),
                ..self
            }).wrap_up(),
            (PipelinePhase::Cleaning, PipelineEvent::Done) => match self.abort {
                Some(reason) => (
                    (PipelineModel { rewritten: false, ..self }).cleared(PipelinePhase::Aborted),
                    PipelineAction::Abort(reason),
                ),
                None => self.finish(),
            },
            _ => (self, PipelineAction::Ignore),
        }
    }
}

/// What a run has gathered so far.
struct Gathered {
    fetch: Option<CompileResult>,
    check: Option<CompileResult>,
    test: Option<CompileResult>,
    actual_version: Option<String>,
    expected_version: Option<String>,
    original_requirement: Option<String>,
}

/// The value of a state with the given parts.
spec fn model_of(
    plan: PipelinePlan,
    phase: PipelinePhase,
    results: Gathered,
    rewritten: bool,
    logged: Option<CompileStep>,
    abort: Option<String>,
) -> PipelineModel {
    PipelineModel {
        plan,
        phase,
        fetch: results.fetch,
        check: results.check,
        test: results.test,
        actual_version: results.actual_version,
        expected_version: results.expected_version,
        original_requirement: results.original_requirement,
        rewritten,
        logged,
        abort,
    }
}

impl Gathered {
    fn empty() -> (g: Gathered)
        ensures
            g.fetch is None,
            g.check is None,
            g.test is None,
            g.actual_version is None,
            g.expected_version is None,
            g.original_requirement is None,
    {
        Gathered {
            fetch: None,
            check: None,
            test: None,
            actual_version: None,
            expected_version: None,
            original_requirement: None,
        }
    }

    fn first_failing(&self) -> (r: Option<CompileStep>)
        ensures
            r == failing_step(self.fetch, self.check, self.test),
    {
        match &self.fetch {
            Some(f) => {
                if !f.success {
                    return Some(CompileStep::Fetch);
                }
            },
            None => {},
        }
        match &self.check {
            Some(c) => {
                if !c.success {
                    return Some(CompileStep::Check);
                }
            },
            None => {},
        }
        match &self.test {
            Some(t) => {
                if !t.success {
                    return Some(CompileStep::Test);
                }
            },
            None => {},
        }
        None
    }
}

/// The progress of one run.
pub struct PipelineState {
    plan: PipelinePlan,
    phase: PipelinePhase,
    results: Gathered,
    rewritten: bool,
    logged: Option<CompileStep>,
    abort: Option<String>,
}

impl View for PipelineState {
    type V = PipelineModel;

    closed spec fn view(&self) -> PipelineModel {
        model_of(self.plan, self.phase, self.results, self.rewritten, self.logged, self.abort)
    }
}

impl PipelineState {
    #[verifier::type_invariant]
    closed spec fn inv(self) -> bool {
        self@.well_formed()
    }

    /// A run that has not begun.
    pub fn new(
        plan: PipelinePlan,
        expected_version: Option<String>,
        original_requirement: Option<String>,
    ) -> (s: Self)
        ensures
            s@ == PipelineModel::initial(plan, expected_version, original_requirement),
            s@.well_formed(),
    {
        PipelineState {
            plan,
            phase: PipelinePhase::Created,
            results: Gathered {
                fetch: None,
                check: None,
                test: None,
                actual_version: None,
                expected_version,
                original_requirement,
            },
            rewritten: false,
            logged: None,
            abort: None,
        }
    }

    /// The phase in which the run stands.
    pub fn phase(&self) -> (p: PipelinePhase)
        ensures
            p == self@.phase,
            self@.well_formed(),
    {
        proof {
            use_type_invariant(self);
        }
        self.phase
    }

    /// Whether the run is over.
    pub fn is_over(&self) -> (b: bool)
        ensures
            b == (self@.phase is Finished || self@.phase is Aborted),
    {
        match self.phase {
            PipelinePhase::Finished | PipelinePhase::Aborted => true,
            _ => false,
        }
    }

    fn do_finish(
        plan: PipelinePlan,
        phase: PipelinePhase,
        results: Gathered,
        rewritten: bool,
        logged: Option<CompileStep>,
    ) -> (r: (Self, PipelineAction))
        requires
            results.fetch is Some,
        ensures
            (r.0@, r.1) == model_of(plan, phase, results, rewritten, logged, None).finish(),
    {
        let Gathered {
            fetch,
            check,
            test,
            actual_version,
            expected_version,
            original_requirement,
        } = results;
        let outcome = ThreeStepResult {
            fetch: fetch.unwrap(),
            check,
            test,
            actual_version,
            expected_version,
            forced_version: plan.forced,
            original_requirement,
        };
        (
            PipelineState {
                plan,
                phase: PipelinePhase::Finished,
                results: Gathered::empty(),
                rewritten: false,
                logged,
                abort: None,
            },
            PipelineAction::Finish(outcome),
        )
    }

    fn do_wrap_up(
        plan: PipelinePlan,
        phase: PipelinePhase,
        results: Gathered,
        rewritten: bool,
        logged: Option<CompileStep>,
    ) -> (r: (Self, PipelineAction))
        requires
            model_of(plan, phase, results, rewritten, logged, None).orderly(),
            model_of(plan, phase, results, rewritten, logged, None).complete(),
            logged == failing_step(results.fetch, results.check, results.test),
            rewritten ==> plan.rewrites(),
        ensures
            (r.0@, r.1) == model_of(plan, phase, results, rewritten, logged, None).wrap_up(),
    {
        if rewritten {
            (
                PipelineState {
                    plan,
                    phase: PipelinePhase::Cleaning,
                    results,
                    rewritten,
                    logged,
                    abort: None,
                },
                PipelineAction::RestoreRewritten,
            )
        } else {
            Self::do_finish(plan, phase, results, rewritten, logged)
        }
    }

    fn do_after_check(
        plan: PipelinePlan,
        phase: PipelinePhase,
        results: Gathered,
        rewritten: bool,
    ) -> (r: (Self, PipelineAction))
        requires
            model_of(plan, phase, results, rewritten, None, None).orderly(),
            results.fetch is Some,
            results.fetch->0.success,
            results.check is Some <==> !plan.skip_check,
            results.check matches Some(c) ==> c.success,
            results.test is None,
            rewritten == plan.rewrites(),
        ensures
            (r.0@, r.1) == model_of(plan, phase, results, rewritten, None, None).after_check(),
    {
        if !plan.skip_test {
            let patch = plan.has_override && !plan.forced;
            (
                PipelineState {
                    plan,
                    phase: PipelinePhase::Testing,
                    results,
                    rewritten,
                    logged: None,
                    abort: None,
                },
                PipelineAction::RunStage { step: CompileStep::Test, patch },
            )
        } else {
            Self::do_wrap_up(plan, phase, results, rewritten, None)
        }
    }

    fn do_give_up(self, reason: String) -> (r: (Self, PipelineAction))
        ensures
            (r.0@, r.1) == self@.give_up(reason),
    {
        proof {
            use_type_invariant(&self);
        }
        let PipelineState { plan, phase, results, rewritten, logged, abort } = self;
        let cleaning = match phase {
            PipelinePhase::Cleaning => true,
            _ => false,
        };
        if rewritten && !cleaning {
            (
                PipelineState {
                    plan,
                    phase: PipelinePhase::Cleaning,
                    results,
                    rewritten,
                    logged,
                    abort: Some(reason),
                },
                PipelineAction::RestoreRewritten,
            )
        } else {
            (
                PipelineState {
                    plan,
                    phase: PipelinePhase::Aborted,
                    results: Gathered::empty(),
                    rewritten,
                    logged,
                    abort: None,
                },
                PipelineAction::Abort(reason),
            )
        }
    }

    fn do_stage(self, r: CompileResult) -> (res: (Self, PipelineAction))
        ensures
            (res.0@, res.1) == self@.transition(PipelineEvent::StageFinished(r)),
    {
        proof {
            use_type_invariant(&self);
        }
        let awaited = match self.phase {
            PipelinePhase::Fetching => Some(CompileStep::Fetch),
            PipelinePhase::Checking => Some(CompileStep::Check),
            PipelinePhase::Testing => Some(CompileStep::Test),
            _ => None,
        };
        let step = r.step;
        let expected = match awaited {
            Some(s) => s == step,
            None => false,
        };
        if !expected {
            return (self, PipelineAction::Ignore);
        }
        let success = r.success;
        let PipelineState { plan, phase, results, rewritten, logged, abort } = self;
        let results = match step {
            CompileStep::Fetch => Gathered { fetch: Some(r), ..results },
            CompileStep::Check => Gathered { check: Some(r), ..results },
            CompileStep::Test => Gathered { test: Some(r), ..results },
        };
        if !success {
            (
                PipelineState {
                    plan,
                    phase: PipelinePhase::Logging,
                    results,
                    rewritten,
                    logged: None,
                    abort: None,
                },
                PipelineAction::LogFailure { step },
            )
        } else {
            match step {
                CompileStep::Fetch => (
                    PipelineState {
                        plan,
                        phase: PipelinePhase::Verifying,
                        results,
                        rewritten,
                        logged: None,
                        abort: None,
                    },
                    PipelineAction::VerifyVersion,
                ),
                CompileStep::Check => Self::do_after_check(plan, phase, results, rewritten),
                CompileStep::Test => Self::do_wrap_up(plan, phase, results, rewritten, None),
            }
        }
    }

    /// Takes in what happened and answers with what to do next.
    ///
    /// An event that the current phase does not wait for changes nothing
    /// and is answered with [`PipelineAction::Ignore`].
    pub fn step(self, event: PipelineEvent) -> (r: (Self, PipelineAction))
        ensures
            (r.0@, r.1) == self@.transition(event),
            self@.well_formed(),
            r.0@.well_formed(),
    {
        proof {
            use_type_invariant(&self);
        }
        let r = self.advance(event);
        proof {
            use_type_invariant(&r.0);
        }
        r
    }

    fn advance(self, event: PipelineEvent) -> (r: (Self, PipelineAction))
        ensures
            (r.0@, r.1) == self@.transition(event),
    {
        proof {
            use_type_invariant(&self);
        }
        match self.phase {
            PipelinePhase::Finished | PipelinePhase::Aborted => {
                return (self, PipelineAction::Ignore);
            },
            _ => {},
        }
        match event {
            PipelineEvent::Start => match self.phase {
                PipelinePhase::Created => (
                    PipelineState { phase: PipelinePhase::Restoring, ..self },
                    PipelineAction::RestoreManifest,
                ),
                _ => (self, PipelineAction::Ignore),
            },
            PipelineEvent::Failed(reason) => match self.phase {
                PipelinePhase::Created => (self, PipelineAction::Ignore),
                _ => self.do_give_up(reason),
            },
            PipelineEvent::StageFinished(r) => self.do_stage(r),
            PipelineEvent::VersionFound(v) => match self.phase {
                PipelinePhase::Verifying => {
                    let PipelineState { plan, phase, results, rewritten, logged, abort } = self;
                    let results = Gathered { actual_version: v, ..results };
                    if !plan.skip_check {
                        let patch = plan.has_override && !plan.forced;
                        (
                            PipelineState {
                                plan,
                                phase: PipelinePhase::Checking,
                                results,
                                rewritten,
                                logged: None,
                                abort: None,
                            },
                            PipelineAction::RunStage { step: CompileStep::Check, patch },
                        )
                    } else {
                        Self::do_after_check(plan, phase, results, rewritten)
                    }
                },
                _ => (self, PipelineAction::Ignore),
            },
            PipelineEvent::Done => match self.phase {
                PipelinePhase::Restoring => (
                    PipelineState { phase: PipelinePhase::Purging, ..self },
                    PipelineAction::PurgeLockfile,
                ),
                PipelinePhase::Purging => {
                    if self.plan.has_override && self.plan.forced {
                        (
                            PipelineState {
                                phase: PipelinePhase::Rewriting,
                                rewritten: true,
                                ..self
                            },
                            PipelineAction::RewriteManifest,
                        )
                    } else {
                        let patch = self.plan.has_override && !self.plan.forced;
                        (
                            PipelineState { phase: PipelinePhase::Fetching, ..self },
                            PipelineAction::RunStage { step: CompileStep::Fetch, patch },
                        )
                    }
                },
                PipelinePhase::Rewriting => (
                    PipelineState { phase: PipelinePhase::Fetching, ..self },
                    PipelineAction::RunStage { step: CompileStep::Fetch, patch: false },
                ),
                PipelinePhase::Logging => {
                    let PipelineState { plan, phase, results, rewritten, logged, abort } = self;
                    let step = results.first_failing();
                    Self::do_wrap_up(plan, phase, results, rewritten, step)
                },
                PipelinePhase::Cleaning => {
                    let PipelineState { plan, phase, results, rewritten, logged, abort } = self;
                    match abort {
                        Some(reason) => (
                            PipelineState {
                                plan,
                                phase: PipelinePhase::Aborted,
                                results: Gathered::empty(),
                                rewritten: false,
                                logged,
                                abort: None,
                            },
                            PipelineAction::Abort(reason),
                        ),
                        None => Self::do_finish(plan, phase, results, rewritten, logged),
                    }
                },
                _ => (self, PipelineAction::Ignore),
            },
        }
    }
}

/// A transition whose answer is to finish hands out an outcome whose steps
/// are exactly those that the plan calls for. Then a failure record was
/// asked for if and only if a step failed, for the step that failed first,
/// and the manifest is not left rewritten.
pub proof fn lemma_finish_is_sound(s: PipelineModel, event: PipelineEvent)
    requires
        s.well_formed(),
        s.transition(event).1 is Finish,
    ensures
        ({
            let next = s.transition(event).0;
            let o = s.transition(event).1->Finish_0;
            &&& o.well_formed()
            &&& complete_for(s.plan, o.fetch, o.check, o.test)
            &&& o.forced_version == s.plan.forced
            &&& next.logged == failing_step(Some(o.fetch), o.check, o.test)
            &&& next.logged is None <==> o.succeeded()
            &&& !next.rewritten
            &&& next.phase is Finished
        }),
{
}

/// Every transition leads from a state of a run to a state of a run, and
/// keeps the plan.
pub proof fn lemma_transition_keeps_well_formed(s: PipelineModel, event: PipelineEvent)
    requires
        s.well_formed(),
    ensures
        s.transition(event).0.well_formed(),
        s.transition(event).0.plan == s.plan,
{
}

/// A run that is over stays as it is.
pub proof fn lemma_over_is_final(s: PipelineModel, event: PipelineEvent)
    requires
        s.phase is Finished || s.phase is Aborted,
    ensures
        s.transition(event) == (s, PipelineAction::Ignore),
{
}

/// The state reached from `s` by the events, and the answers given on the
/// way.
pub open spec fn run_from(s: PipelineModel, events: Seq<PipelineEvent>) -> (
    PipelineModel,
    Seq<PipelineAction>,
)
    decreases events.len(),
{
    if events.len() == 0 {
        (s, Seq::<PipelineAction>::empty())
    } else {
        let before = run_from(s, events.drop_last());
        let last = before.0.transition(events.last());
        (last.0, before.1.push(last.1))
    }
}

/// How many of the answers ask for a failure record.
pub open spec fn log_requests(acts: Seq<PipelineAction>) -> nat
    decreases acts.len(),
{
    if acts.len() == 0 {
        0
    } else {
        log_requests(acts.drop_last()) + if acts.last() is LogFailure {
            1nat
        } else {
            0nat
        }
    }
}

/// How many of the answers ask for the manifest to be rewritten.
pub open spec fn rewrite_requests(acts: Seq<PipelineAction>) -> nat
    decreases acts.len(),
{
    if acts.len() == 0 {
        0
    } else {
        rewrite_requests(acts.drop_last()) + if acts.last() is RewriteManifest {
            1nat
        } else {
            0nat
        }
    }
}

/// How many of the answers ask for a rewritten manifest to be restored.
pub open spec fn restore_requests(acts: Seq<PipelineAction>) -> nat
    decreases acts.len(),
{
    if acts.len() == 0 {
        0
    } else {
        restore_requests(acts.drop_last()) + if acts.last() is RestoreRewritten {
            1nat
        } else {
            0nat
        }
    }
}

/// The outcomes that the answers hand out, in order.
pub open spec fn outcomes(acts: Seq<PipelineAction>) -> Seq<ThreeStepResult>
    decreases acts.len(),
{
    if acts.len() == 0 {
        Seq::<ThreeStepResult>::empty()
    } else if acts.last() is Finish {
        outcomes(acts.drop_last()).push(acts.last()->Finish_0)
    } else {
        outcomes(acts.drop_last())
    }
}

/// What the answers given so far have asked for agrees with where the run
/// stands.
spec fn accounted(s: PipelineModel, acts: Seq<PipelineAction>) -> bool {
    let logs = log_requests(acts);
    let rewrites = rewrite_requests(acts);
    let restores = restore_requests(acts);
    let done = outcomes(acts);
    &&& s.well_formed()
    &&& logs <= 1
    &&& rewrites <= 1
    &&& restores <= rewrites
    &&& s.rewritten ==> rewrites == 1 && restores == 0 || s.phase is Cleaning
        || s.phase is Aborted
    &&& match s.phase {
        PipelinePhase::Finished => {
            &&& done.len() == 1
            &&& logs == if done[0].succeeded() {
                0nat
            } else {
                1nat
            }
            &&& rewrites == restores
            &&& rewrites == if s.plan.rewrites() {
                1nat
            } else {
                0nat
            }
            &&& done[0].well_formed()
            &&& complete_for(s.plan, done[0].fetch, done[0].check, done[0].test)
        },
        PipelinePhase::Aborted => done.len() == 0 && (s.rewritten || rewrites == restores),
        PipelinePhase::Cleaning => {
            &&& done.len() == 0
            &&& rewrites == 1
            &&& restores == 1
            &&& s.abort is None ==> logs == if s.logged is Some {
                1nat
            } else {
                0nat
            }
        },
        PipelinePhase::Logging => done.len() == 0 && logs == 1 && restores == 0 && rewrites == if s.rewritten {
            1nat
        } else {
            0nat
        },
        _ => done.len() == 0 && logs == 0 && restores == 0 && rewrites == if s.rewritten {
            1nat
        } else {
            0nat
        },
    }
}

/// One transition keeps the account.
proof fn lemma_step_accounted(s: PipelineModel, acts: Seq<PipelineAction>, event: PipelineEvent)
    requires
        accounted(s, acts),
    ensures
        accounted(s.transition(event).0, acts.push(s.transition(event).1)),
        s.transition(event).0.plan == s.plan,
{
    let next = s.transition(event);
    let after = acts.push(next.1);
    assert(after.drop_last() =~= acts);
    lemma_transition_keeps_well_formed(s, event);
    if next.1 is Finish {
        lemma_finish_is_sound(s, event);
    }
}

proof fn lemma_run_accounted(
    plan: PipelinePlan,
    expected_version: Option<String>,
    original_requirement: Option<String>,
    events: Seq<PipelineEvent>,
)
    ensures
        accounted(
            run_from(PipelineModel::initial(plan, expected_version, original_requirement), events).0,
            run_from(PipelineModel::initial(plan, expected_version, original_requirement), events).1,
        ),
        run_from(
            PipelineModel::initial(plan, expected_version, original_requirement),
            events,
        ).0.plan == plan,
    decreases events.len(),
{
    let start = PipelineModel::initial(plan, expected_version, original_requirement);
    if events.len() > 0 {
        lemma_run_accounted(plan, expected_version, original_requirement, events.drop_last());
        let before = run_from(start, events.drop_last());
        lemma_step_accounted(before.0, before.1, events.last());
    }
}

/// Of every run, whatever events it is fed: it hands out at most one
/// outcome. When it has handed one out, the steps of the outcome are those
/// that the plan calls for; exactly one failure record was asked for if a
/// step failed and none if all succeeded; and the manifest was asked to be
/// restored as often as it was asked to be rewritten, which is once for a
/// forced version and never otherwise.
pub proof fn lemma_run_is_sound(
    plan: PipelinePlan,
    expected_version: Option<String>,
    original_requirement: Option<String>,
    events: Seq<PipelineEvent>,
)
    ensures
        ({
            let run = run_from(
                PipelineModel::initial(plan, expected_version, original_requirement),
                events,
            );
            let done = outcomes(run.1);
            &&& done.len() <= 1
            &&& done.len() == 1 <==> run.0.phase is Finished
            &&& done.len() == 1 ==> {
                &&& done[0].well_formed()
                &&& complete_for(plan, done[0].fetch, done[0].check, done[0].test)
                &&& log_requests(run.1) == if done[0].succeeded() {
                    0nat
                } else {
                    1nat
                }
                &&& rewrite_requests(run.1) == restore_requests(run.1)
                &&& rewrite_requests(run.1) == if plan.rewrites() {
                    1nat
                } else {
                    0nat
                }
            }
        }),
{
    lemma_run_accounted(plan, expected_version, original_requirement, events);
}

} // verus!
