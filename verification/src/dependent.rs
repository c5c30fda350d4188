//! Testing one dependent against every version of the plan.
//!
//! The caller owns the registry, the staging store and the pipeline. It
//! creates a [`DependentRun`], feeds it [`RunEvent::Start`], carries out the
//! action that comes back, reports what happened with the next event, and
//! goes on until the answer is [`RunAction::Report`].
//!
//! The order is: settle the version of the dependent, unpack it, find the
//! version of the subject that it resolves by itself and the requirement
//! that its manifest states, put the plan in order for it, and run the
//! pipeline for every entry of the ordered plan. A version of the subject
//! that cannot be had counts as a failed fetch and the run goes on; a
//! pipeline that is given up ends the run with an error.

use vstd::prelude::*;
use vstd::string::*;
use crate::compile::{SourceView, ThreeStepResult, VersionSource};
use crate::error_extract::text_of;
use crate::orchestrator::{
    pipeline_plan, run_label, run_label_text, version_note, version_note_text,
};
use crate::pipeline::PipelinePlan;
use crate::planner::{
    compatibility_gate, failed_download, failed_download_outcome, incompatibility_reason,
    incompatible_reason, lemma_baseline_first_and_once, ordered_plan, reorder_plan, request_for,
    run_request, usable_baseline, worth_running, DependentPlan, OverrideSource, OverrideView,
    RunRequest, TestedVersion, TestedVersionView,
};
use crate::results::{
    Error, ErrorView, RevDep, RevDepView, TestResult, TestResultData, TestResultDataView,
    TestResultView, VersionTestOutcome, VersionTestOutcomeView,
};
use crate::rows::views;
use crate::text::owned;
use crate::versions::{check_version, latest_index, resolve_latest_version, semver_version_error};

verus! {

/// Where the testing of a dependent stands. Each phase but the first and
/// the last waits for the outcome of the action that was answered last.
#[derive(Debug, Clone, Copy, PartialEq, Eq, Structural)]
pub enum RunPhase {
    Created,
    Resolving,
    Staging,
    Inspecting,
    Running,
    Done,
}

/// How the run for one entry of the plan ended.
#[derive(Debug)]
pub enum EntryEnd {
    /// The pipeline ran to its end.
    Outcome(ThreeStepResult),
    /// The version of the subject could not be downloaded, for the reason
    /// given.
    DownloadFailed(String),
    /// The pipeline was given up, for the reason given.
    GivenUp(String),
}

/// What the caller reports.
#[derive(Debug)]
pub enum RunEvent {
    /// The testing begins.
    Start,
    /// The versions that the registry lists for the dependent.
    VersionsListed(Result<Vec<String>, Error>),
    /// The dependent was unpacked into the staging store.
    Staged(Result<(), Error>),
    /// What the unpacked dependent shows: the version of the subject that
    /// it resolves by itself and the requirement that its manifest states,
    /// as far as either can be found.
    Inspected { baseline: Option<String>, requirement: Option<String> },
    /// The run for the entry that was asked for has ended.
    EntryEnded(EntryEnd),
}

/// What the caller is to do next.
#[derive(Debug)]
pub enum RunAction {
    /// Ask the registry for the versions of the dependent.
    ListVersions { name: String },
    /// Unpack the dependent into the staging store, unless it is there.
    Stage { name: String, version: String },
    /// Look up what the unpacked dependent resolves and requires.
    Inspect,
    /// Put the source of the subject in place and run the pipeline.
    RunEntry {
        /// How the run is called in the failure log.
        label: String,
        request: RunRequest,
        plan: PipelinePlan,
        /// The dependent's requirement as its manifest states it.
        requirement: Option<String>,
    },
    /// The testing is over; here is its result.
    Report(TestResult),
    /// The event was not expected and changed nothing.
    Ignore,
}

/// Mathematical value of a [`RunAction`].
pub enum RunActionView {
    ListVersions { name: Seq<char> },
    Stage { name: Seq<char>, version: Seq<char> },
    Inspect,
    RunEntry {
        label: Seq<char>,
        source: OverrideView,
        expected_version: Option<Seq<char>>,
        forced: bool,
        plan: PipelinePlan,
        requirement: Option<Seq<char>>,
    },
    Report(TestResultView),
    Ignore,
}

impl View for RunAction {
    type V = RunActionView;

    open spec fn view(&self) -> RunActionView {
        match *self {
            RunAction::ListVersions { name } => RunActionView::ListVersions { name: name@ },
            RunAction::Stage { name, version } => RunActionView::Stage {
                name: name@,
                version: version@,
            },
            RunAction::Inspect => RunActionView::Inspect,
            RunAction::RunEntry { label, request, plan, requirement } => RunActionView::RunEntry {
                label: label@,
                source: request.source@,
                expected_version: text_of(request.expected_version),
                forced: request.forced,
                plan,
                requirement: text_of(requirement),
            },
            RunAction::Report(result) => RunActionView::Report(result@),
            RunAction::Ignore => RunActionView::Ignore,
        }
    }
}

/// The version that stands for the version of a dependent that could not
/// be settled.
pub open spec fn unsettled_version() -> Seq<char> {
    "0.0.0"@
}

/// The progress of the testing of one dependent, as a mathematical value.
pub struct RunModel {
    /// The name of the subject and the version that it stands at.
    pub subject: Seq<char>,
    pub subject_version: Seq<char>,
    /// The versions to test every dependent against.
    pub plan: Seq<TestedVersionView>,
    pub skip_check: bool,
    pub skip_test: bool,
    /// The name of the dependent, and its version if the user named one.
    pub name: Seq<char>,
    pub pinned: Option<Seq<char>>,
    pub phase: RunPhase,
    /// The version of the dependent, once it is settled.
    pub version: Option<Seq<char>>,
    /// The version of the subject that the dependent resolves by itself.
    pub baseline: Option<Seq<char>>,
    /// The requirement that the manifest of the dependent states.
    pub requirement: Option<Seq<char>>,
    /// The plan put in order for this dependent.
    pub ordered: Seq<TestedVersionView>,
    pub has_baseline: bool,
    /// The outcomes so far, one for each entry of the ordered plan that has
    /// run.
    pub outcomes: Seq<VersionTestOutcomeView>,
}

impl RunModel {
    /// The state in which the testing of a dependent begins.
    pub open spec fn initial(
        subject: Seq<char>,
        subject_version: Seq<char>,
        plan: Seq<TestedVersionView>,
        skip_check: bool,
        skip_test: bool,
        name: Seq<char>,
        pinned: Option<Seq<char>>,
    ) -> RunModel {
        RunModel {
            subject,
            subject_version,
            plan,
            skip_check,
            skip_test,
            name,
            pinned,
            phase: RunPhase::Created,
            version: None,
            baseline: None,
            requirement: None,
            ordered: Seq::<TestedVersionView>::empty(),
            has_baseline: false,
            outcomes: Seq::<VersionTestOutcomeView>::empty(),
        }
    }

    /// What holds of every state that the testing passes through.
    pub open spec fn well_formed(self) -> bool {
        match self.phase {
            RunPhase::Created | RunPhase::Resolving => {
                &&& self.version is None
                &&& self.baseline is None
                &&& self.outcomes.len() == 0
            },
            RunPhase::Staging | RunPhase::Inspecting => {
                &&& self.version is Some
                &&& self.baseline is None
                &&& self.outcomes.len() == 0
            },
            RunPhase::Running => {
                &&& self.version is Some
                &&& self.ordered == ordered_plan(self.plan, self.baseline)
                &&& self.has_baseline == usable_baseline(self.baseline)
                &&& self.outcomes.len() < self.ordered.len()
                &&& forall|i: int|
                    0 <= i < self.outcomes.len() ==> (#[trigger] self.outcomes[i]).version_source
                        == self.ordered[i].source
            },
            RunPhase::Done => self.outcomes.len() == 0,
        }
    }

    /// The dependent as the result names it.
    pub open spec fn rev_dep(self) -> RevDepView {
        RevDepView {
            name: self.name,
            vers: match self.version {
                Some(v) => v,
                None => unsettled_version(),
            },
            resolved_version: self.baseline,
        }
    }

    /// Ends the testing with the result `data`.
    pub open spec fn report(self, data: TestResultDataView) -> (RunModel, RunActionView) {
        (
            RunModel {
                phase: RunPhase::Done,
                outcomes: Seq::<VersionTestOutcomeView>::empty(),
                ..self
            },
            RunActionView::Report(TestResultView { rev_dep: self.rev_dep(), data }),
        )
    }

    /// Entry `i` of the ordered plan is its baseline.
    pub open spec fn baseline_at(self, i: int) -> bool {
        self.has_baseline && i == 0
    }

    /// The run that is asked for entry `i` of the ordered plan. The
    /// baseline is built as the dependent stands; every other entry
    /// redirects the subject, by a patch or, where it is forced, by
    /// rewriting the manifest.
    pub open spec fn entry_action(self, i: int) -> RunActionView {
        let request = request_for(self.ordered[i], self.baseline_at(i));
        RunActionView::RunEntry {
            label: run_label_text(self.ordered[i], self.baseline_at(i)),
            source: request.0,
            expected_version: request.1,
            forced: request.2,
            plan: PipelinePlan {
                has_override: !(request.0 is Baseline),
                forced: request.2,
                skip_check: self.skip_check,
                skip_test: self.skip_test,
            },
            requirement: self.requirement,
        }
    }

    /// Goes on with the first entry that has no outcome yet, or ends the
    /// testing with the outcomes when there is none.
    pub open spec fn go_on(self) -> (RunModel, RunActionView) {
        if self.outcomes.len() < self.ordered.len() {
            (
                RunModel { phase: RunPhase::Running, ..self },
                self.entry_action(self.outcomes.len() as int),
            )
        } else {
            self.report(TestResultDataView::MultiVersion(self.outcomes))
        }
    }

    /// Goes on with the version of the dependent settled.
    pub open spec fn settled(self, version: Seq<char>) -> (RunModel, RunActionView) {
        (
            RunModel { phase: RunPhase::Staging, version: Some(version), ..self },
            RunActionView::Stage { name: self.name, version },
        )
    }

    /// Begins the testing: a version that the user named is taken if it is
    /// a version number; without one the registry is asked.
    pub open spec fn begin(self) -> (RunModel, RunActionView) {
        match self.pinned {
            Some(v) => match semver_version_error(v) {
                None => self.settled(v),
                Some(m) => self.report(TestResultDataView::Error(ErrorView::SemverError(m))),
            },
            None => (
                RunModel { phase: RunPhase::Resolving, ..self },
                RunActionView::ListVersions { name: self.name },
            ),
        }
    }

    /// Goes on with what the registry lists: the latest version of the
    /// dependent, pre-releases included.
    pub open spec fn listed(self, listing: Result<Vec<String>, Error>) -> (
        RunModel,
        RunActionView,
    ) {
        match listing {
            Err(e) => self.report(TestResultDataView::Error(e@)),
            Ok(versions) => match latest_index(versions@, true, versions@.len() as int) {
                Some(k) => self.settled(versions@[k]@),
                None => self.report(TestResultDataView::Error(ErrorView::NoCrateVersions)),
            },
        }
    }

    /// Goes on with what the unpacked dependent shows: the plan is put in
    /// order, and the dependent is left out as incompatible when no entry of
    /// it can build under the requirement.
    pub open spec fn inspected(
        self,
        baseline: Option<Seq<char>>,
        requirement: Option<Seq<char>>,
    ) -> (RunModel, RunActionView) {
        let ready = RunModel {
            baseline,
            requirement,
            ordered: ordered_plan(self.plan, baseline),
            has_baseline: usable_baseline(baseline),
            ..self
        };
        if worth_running(ready.ordered, requirement) {
            ready.go_on()
        } else {
            ready.report(
                TestResultDataView::Skipped(
                    incompatible_reason(self.subject, self.subject_version),
                ),
            )
        }
    }

    /// The published version that is downloaded for the entry that is
    /// running, if one is.
    pub open spec fn awaited_download(self) -> Option<Seq<char>> {
        let i = self.outcomes.len() as int;
        match request_for(self.ordered[i], self.baseline_at(i)).0 {
            OverrideView::Published(v) => Some(v),
            _ => None,
        }
    }

    /// The state with one more outcome.
    pub open spec fn with_outcome(self, outcome: VersionTestOutcomeView) -> RunModel {
        RunModel { outcomes: self.outcomes.push(outcome), ..self }
    }

    /// Goes on after the run for an entry. What the pipeline came to is the
    /// outcome for the entry. A version that could not be downloaded gives
    /// a failed fetch for an outcome. A pipeline that was given up ends the
    /// testing with an error, and so does a failed download where nothing
    /// was to be downloaded.
    pub open spec fn entry_ended(self, end: EntryEnd) -> (RunModel, RunActionView) {
        let i = self.outcomes.len() as int;
        match end {
            EntryEnd::Outcome(result) => self.with_outcome(
                VersionTestOutcomeView { version_source: self.ordered[i].source, result: result@ },
            ).go_on(),
            EntryEnd::DownloadFailed(reason) => match self.awaited_download() {
                Some(v) => self.with_outcome(
                    failed_download(
                        v,
                        request_for(self.ordered[i], self.baseline_at(i)).2,
                        self.requirement,
                        reason@,
                    ),
                ).go_on(),
                None => self.report(TestResultDataView::Error(ErrorView::ProcessError(reason@))),
            },
            EntryEnd::GivenUp(reason) => self.report(
                TestResultDataView::Error(ErrorView::ProcessError(reason@)),
            ),
        }
    }

    /// The state that follows on `event`, and the action that is answered.
    /// An event that the phase does not wait for changes nothing.
    pub open spec fn transition(self, event: RunEvent) -> (RunModel, RunActionView) {
        match (self.phase, event) {
            (RunPhase::Created, RunEvent::Start) => self.begin(),
            (RunPhase::Resolving, RunEvent::VersionsListed(listing)) => self.listed(listing),
            (RunPhase::Staging, RunEvent::Staged(Ok(_))) => (
                RunModel { phase: RunPhase::Inspecting, ..self },
                RunActionView::Inspect,
            ),
            (RunPhase::Staging, RunEvent::Staged(Err(e))) => self.report(
                TestResultDataView::Error(e@),
            ),
            (RunPhase::Inspecting, RunEvent::Inspected { baseline, requirement }) => self.inspected(
                text_of(baseline),
                text_of(requirement),
            ),
            (RunPhase::Running, RunEvent::EntryEnded(end)) => self.entry_ended(end),
            _ => (self, RunActionView::Ignore),
        }
    }

    /// The warning for a version of the subject that could not be
    /// downloaded.
    pub open spec fn download_warning(self, version: Seq<char>, reason: Seq<char>) -> Seq<char> {
        "Warning: Failed to download "@ + self.subject + " "@ + version + ": "@ + reason
    }

    /// What the user is to be told on `event`, if anything: that a version
    /// could not be downloaded, or that the build tool resolved another
    /// version than the one that was offered, or none that could be found.
    pub open spec fn note(self, event: RunEvent) -> Option<Seq<char>> {
        match (self.phase, event) {
            (RunPhase::Running, RunEvent::EntryEnded(EntryEnd::Outcome(result))) => version_note_text(
                text_of(result.expected_version),
                text_of(result.actual_version),
                self.subject,
            ),
            (
                RunPhase::Running,
                RunEvent::EntryEnded(EntryEnd::DownloadFailed(reason)),
            ) => match self.awaited_download() {
                Some(v) => Some(self.download_warning(v, reason@)),
                None => None,
            },
            _ => None,
        }
    }
}

fn copy_text(text: &Option<String>) -> (r: Option<String>)
    ensures
        r == *text,
{
    match text {
        Some(t) => Some(t.clone()),
        None => None,
    }
}

fn copy_source(source: &VersionSource) -> (r: VersionSource)
    ensures
        r == *source,
{
    match source {
        VersionSource::Published(v) => VersionSource::Published(v.clone()),
        VersionSource::Local(p) => VersionSource::Local(p.clone()),
    }
}

/// What a run holds, in any state.
struct Progress {
    subject: String,
    subject_version: String,
    plan: Vec<TestedVersion>,
    skip_check: bool,
    skip_test: bool,
    name: String,
    pinned: Option<String>,
    phase: RunPhase,
    version: Option<String>,
    baseline: Option<String>,
    requirement: Option<String>,
    ordered: DependentPlan,
    outcomes: Vec<VersionTestOutcome>,
}

impl View for Progress {
    type V = RunModel;

    closed spec fn view(&self) -> RunModel {
        RunModel {
            subject: self.subject@,
            subject_version: self.subject_version@,
            plan: views(self.plan@),
            skip_check: self.skip_check,
            skip_test: self.skip_test,
            name: self.name@,
            pinned: text_of(self.pinned),
            phase: self.phase,
            version: text_of(self.version),
            baseline: text_of(self.baseline),
            requirement: text_of(self.requirement),
            ordered: views(self.ordered.entries@),
            has_baseline: self.ordered.has_baseline,
            outcomes: views(self.outcomes@),
        }
    }
}

impl Progress {
    /// The dependent as the result names it.
    fn named(&self) -> (r: RevDep)
        ensures
            r@ == self@.rev_dep(),
    {
        RevDep {
            name: self.name.clone(),
            vers: match &self.version {
                Some(v) => v.clone(),
                None => owned("0.0.0"),
            },
            resolved_version: copy_text(&self.baseline),
        }
    }

    /// Ends the testing with the result `data`.
    fn report(self, data: TestResultData) -> (r: (Self, RunAction))
        ensures
            (r.0@, r.1@) == self@.report(data@),
    {
        let rev_dep = self.named();
        let next = Progress { phase: RunPhase::Done, outcomes: Vec::new(), ..self };
        assert(next@.outcomes =~= Seq::<VersionTestOutcomeView>::empty());
        (next, RunAction::Report(TestResult { rev_dep, data }))
    }

    /// The action for entry `i` of the ordered plan.
    fn entry(&self, i: usize) -> (a: RunAction)
        requires
            i < self@.ordered.len(),
        ensures
            a@ == self@.entry_action(i as int),
    {
        assert(self@.ordered[i as int] == self.ordered.entries@[i as int]@);
        let is_baseline = self.ordered.is_baseline(i);
        let request = run_request(&self.ordered.entries[i], is_baseline);
        let label = run_label(&self.ordered.entries[i], is_baseline);
        let plan = pipeline_plan(&request, self.skip_check, self.skip_test);
        RunAction::RunEntry { label, request, plan, requirement: copy_text(&self.requirement) }
    }

    fn go_on(self) -> (r: (Self, RunAction))
        ensures
            (r.0@, r.1@) == self@.go_on(),
    {
        let i = self.outcomes.len();
        if i < self.ordered.entries.len() {
            let action = self.entry(i);
            (Progress { phase: RunPhase::Running, ..self }, action)
        } else {
            let outcomes = self.outcomes;
            let rest = Progress { outcomes: Vec::new(), ..self };
            rest.report(TestResultData::MultiVersion(outcomes))
        }
    }

    fn settled(self, version: String) -> (r: (Self, RunAction))
        ensures
            (r.0@, r.1@) == self@.settled(version@),
    {
        let action = RunAction::Stage { name: self.name.clone(), version: version.clone() };
        (Progress { phase: RunPhase::Staging, version: Some(version), ..self }, action)
    }

    fn begin(self) -> (r: (Self, RunAction))
        ensures
            (r.0@, r.1@) == self@.begin(),
    {
        let pinned = copy_text(&self.pinned);
        match pinned {
            Some(v) => match check_version(v.as_str()) {
                Ok(_) => self.settled(v),
                Err(e) => self.report(TestResultData::Error(e)),
            },
            None => {
                let action = RunAction::ListVersions { name: self.name.clone() };
                (Progress { phase: RunPhase::Resolving, ..self }, action)
            },
        }
    }

    fn listed(self, listing: Result<Vec<String>, Error>) -> (r: (Self, RunAction))
        ensures
            (r.0@, r.1@) == self@.listed(listing),
    {
        match listing {
            Err(e) => self.report(TestResultData::Error(e)),
            Ok(versions) => match resolve_latest_version(&versions, true) {
                Ok(v) => self.settled(v),
                Err(e) => self.report(TestResultData::Error(e)),
            },
        }
    }

    fn inspected(self, baseline: Option<String>, requirement: Option<String>) -> (r: (
        Self,
        RunAction,
    ))
        ensures
            (r.0@, r.1@) == self@.inspected(text_of(baseline), text_of(requirement)),
    {
        let ordered = reorder_plan(&self.plan, &baseline);
        let open = compatibility_gate(&ordered.entries, &requirement);
        let reason = incompatibility_reason(self.subject.as_str(), self.subject_version.as_str());
        let ready = Progress { baseline, requirement, ordered, ..self };
        if open {
            ready.go_on()
        } else {
            ready.report(TestResultData::Skipped(reason))
        }
    }

    /// The state with one more outcome.
    fn with_outcome(self, outcome: VersionTestOutcome) -> (r: Self)
        ensures
            r@ == self@.with_outcome(outcome@),
    {
        let mut outcomes = self.outcomes;
        let ghost before = views(outcomes@);
        outcomes.push(outcome);
        assert(views(outcomes@) =~= before.push(outcome@));
        Progress { outcomes, ..self }
    }

    fn entry_ended(self, end: EntryEnd) -> (r: (Self, RunAction))
        requires
            self@.outcomes.len() < self@.ordered.len(),
        ensures
            (r.0@, r.1@) == self@.entry_ended(end),
    {
        let i = self.outcomes.len();
        assert(self@.ordered[i as int] == self.ordered.entries@[i as int]@);
        match end {
            EntryEnd::Outcome(result) => {
                let version_source = copy_source(&self.ordered.entries[i].source);
                self.with_outcome(VersionTestOutcome { version_source, result }).go_on()
            },
            EntryEnd::DownloadFailed(reason) => {
                let request = run_request(&self.ordered.entries[i], self.ordered.is_baseline(i));
                match request.source {
                    OverrideSource::Published(v) => {
                        let outcome = failed_download_outcome(
                            v.as_str(),
                            request.forced,
                            copy_text(&self.requirement),
                            reason.as_str(),
                        );
                        self.with_outcome(outcome).go_on()
                    },
                    _ => self.report(TestResultData::Error(Error::ProcessError(reason))),
                }
            },
            EntryEnd::GivenUp(reason) => self.report(
                TestResultData::Error(Error::ProcessError(reason)),
            ),
        }
    }

    /// What the user is to be told on `event`.
    fn note(&self, event: &RunEvent) -> (r: Option<String>)
        requires
            self@.phase is Running ==> self@.outcomes.len() < self@.ordered.len(),
        ensures
            text_of(r) == self@.note(*event),
    {
        match self.phase {
            RunPhase::Running => {},
            _ => {
                return None;
            },
        }
        match event {
            RunEvent::EntryEnded(EntryEnd::Outcome(result)) => version_note(
                &result.expected_version,
                &result.actual_version,
                self.subject.as_str(),
            ),
            RunEvent::EntryEnded(EntryEnd::DownloadFailed(reason)) => {
                let i = self.outcomes.len();
                assert(self@.ordered[i as int] == self.ordered.entries@[i as int]@);
                let request = run_request(&self.ordered.entries[i], self.ordered.is_baseline(i));
                match request.source {
                    OverrideSource::Published(v) => {
                        let mut s = owned("Warning: Failed to download ");
                        s.append(self.subject.as_str());
                        s.append(" ");
                        s.append(v.as_str());
                        s.append(": ");
                        s.append(reason.as_str());
                        assert(s@ =~= self@.download_warning(v@, reason@));
                        Some(s)
                    },
                    _ => None,
                }
            },
            _ => None,
        }
    }

    fn advance(self, event: RunEvent) -> (r: (Self, RunAction))
        requires
            self@.well_formed(),
        ensures
            (r.0@, r.1@) == self@.transition(event),
    {
        match self.phase {
            RunPhase::Created => match event {
                RunEvent::Start => self.begin(),
                _ => (self, RunAction::Ignore),
            },
            RunPhase::Resolving => match event {
                RunEvent::VersionsListed(listing) => self.listed(listing),
                _ => (self, RunAction::Ignore),
            },
            RunPhase::Staging => match event {
                RunEvent::Staged(Ok(_)) => (
                    Progress { phase: RunPhase::Inspecting, ..self },
                    RunAction::Inspect,
                ),
                RunEvent::Staged(Err(e)) => self.report(TestResultData::Error(e)),
                _ => (self, RunAction::Ignore),
            },
            RunPhase::Inspecting => match event {
                RunEvent::Inspected { baseline, requirement } => self.inspected(
                    baseline,
                    requirement,
                ),
                _ => (self, RunAction::Ignore),
            },
            RunPhase::Running => match event {
                RunEvent::EntryEnded(end) => self.entry_ended(end),
                _ => (self, RunAction::Ignore),
            },
            RunPhase::Done => (self, RunAction::Ignore),
        }
    }
}

/// The progress of the testing of one dependent.
pub struct DependentRun {
    progress: Progress,
}

impl View for DependentRun {
    type V = RunModel;

    closed spec fn view(&self) -> RunModel {
        self.progress@
    }
}

impl DependentRun {
    #[verifier::type_invariant]
    closed spec fn inv(self) -> bool {
        self.progress@.well_formed()
    }

    /// The testing of the dependent `name`, at the version `pinned` if the
    /// user named one, against the versions of `plan`. `subject` is the
    /// name of the subject and `subject_version` the version that it stands
    /// at.
    pub fn new(
        subject: String,
        subject_version: String,
        plan: Vec<TestedVersion>,
        skip_check: bool,
        skip_test: bool,
        name: String,
        pinned: Option<String>,
    ) -> (run: Self)
        ensures
            run@ == RunModel::initial(
                subject@,
                subject_version@,
                views(plan@),
                skip_check,
                skip_test,
                name@,
                text_of(pinned),
            ),
            run@.well_formed(),
    {
        let progress = Progress {
            subject,
            subject_version,
            plan,
            skip_check,
            skip_test,
            name,
            pinned,
            phase: RunPhase::Created,
            version: None,
            baseline: None,
            requirement: None,
            ordered: DependentPlan { entries: Vec::new(), has_baseline: false },
            outcomes: Vec::new(),
        };
        assert(progress@.ordered =~= Seq::<TestedVersionView>::empty());
        assert(progress@.outcomes =~= Seq::<VersionTestOutcomeView>::empty());
        DependentRun { progress }
    }

    /// The phase in which the testing stands.
    pub fn phase(&self) -> (p: RunPhase)
        ensures
            p == self@.phase,
            self@.well_formed(),
    {
        proof {
            use_type_invariant(self);
        }
        self.progress.phase
    }

    /// Whether the testing is over.
    pub fn is_over(&self) -> (b: bool)
        ensures
            b == (self@.phase is Done),
    {
        match self.progress.phase {
            RunPhase::Done => true,
            _ => false,
        }
    }

    /// Takes in what happened and answers with what to do next, and with
    /// what the user is to be told, if anything.
    ///
    /// An event that the current phase does not wait for changes nothing
    /// and is answered with [`RunAction::Ignore`].
    pub fn step(self, event: RunEvent) -> (r: (Self, RunAction, Option<String>))
        ensures
            (r.0@, r.1@) == self@.transition(event),
            text_of(r.2) == self@.note(event),
            self@.well_formed(),
            r.0@.well_formed(),
    {
        proof {
            use_type_invariant(&self);
            lemma_transition_keeps_well_formed(self@, event);
        }
        let note = self.progress.note(&event);
        let (progress, action) = self.progress.advance(event);
        (DependentRun { progress }, action, note)
    }
}

/// Every transition leads from a state of the testing to a state of the
/// testing, and keeps what the testing was set up with.
pub proof fn lemma_transition_keeps_well_formed(s: RunModel, event: RunEvent)
    requires
        s.well_formed(),
    ensures
        s.transition(event).0.well_formed(),
        s.transition(event).0.plan == s.plan,
        s.transition(event).0.subject == s.subject,
        s.transition(event).0.name == s.name,
{
}

/// Testing that is over stays as it is.
pub proof fn lemma_done_is_final(s: RunModel, event: RunEvent)
    requires
        s.phase is Done,
    ensures
        s.transition(event) == (s, RunActionView::Ignore),
{
}

/// A result is reported exactly when the testing ends.
pub proof fn lemma_report_ends(s: RunModel, event: RunEvent)
    requires
        s.well_formed(),
        !(s.phase is Done),
    ensures
        s.transition(event).1 is Report <==> s.transition(event).0.phase is Done,
{
}

/// The outcomes that are reported follow the plan as it was put in order
/// for the dependent, and the result names the version that the dependent
/// resolves by itself.
pub proof fn lemma_outcomes_follow_plan(s: RunModel, event: RunEvent)
    requires
        s.well_formed(),
        s.transition(event).1 matches RunActionView::Report(r) && r.data is MultiVersion,
    ensures
        ({
            let next = s.transition(event).0;
            let result = s.transition(event).1->Report_0;
            &&& result.rev_dep.resolved_version == next.baseline
            &&& result.rev_dep.name == s.name
            &&& follows_plan(result.data->MultiVersion_0, s.plan, next.baseline)
        }),
{
    let next = s.transition(event).0;
    if usable_baseline(next.baseline) {
        lemma_baseline_first_and_once(s.plan, next.baseline);
    }
}

/// The state reached from `s` by the events, and the answers given on the
/// way.
pub open spec fn run_from(s: RunModel, events: Seq<RunEvent>) -> (RunModel, Seq<RunActionView>)
    decreases events.len(),
{
    if events.len() == 0 {
        (s, Seq::<RunActionView>::empty())
    } else {
        let before = run_from(s, events.drop_last());
        let last = before.0.transition(events.last());
        (last.0, before.1.push(last.1))
    }
}

/// The results that the answers report, in order.
pub open spec fn reported(acts: Seq<RunActionView>) -> Seq<TestResultView>
    decreases acts.len(),
{
    if acts.len() == 0 {
        Seq::<TestResultView>::empty()
    } else if acts.last() is Report {
        reported(acts.drop_last()).push(acts.last()->Report_0)
    } else {
        reported(acts.drop_last())
    }
}

/// The outcomes are those of the plan as it is put in order for a dependent
/// that resolves `baseline` by itself: one for each entry, in order, and
/// with a baseline that can serve as one the first for it and no other.
pub open spec fn follows_plan(
    outcomes: Seq<VersionTestOutcomeView>,
    plan: Seq<TestedVersionView>,
    baseline: Option<Seq<char>>,
) -> bool {
    let ordered = ordered_plan(plan, baseline);
    &&& outcomes.len() == ordered.len()
    &&& forall|i: int|
        0 <= i < outcomes.len() ==> (#[trigger] outcomes[i]).version_source == ordered[i].source
    &&& usable_baseline(baseline) ==> {
        &&& outcomes.len() >= 1
        &&& outcomes[0].version_source == SourceView::Published(baseline->0)
        &&& forall|i: int|
            1 <= i < outcomes.len() ==> (#[trigger] outcomes[i]).version_source
                != SourceView::Published(baseline->0)
    }
}

/// The result is one for the dependent `name`, and its outcomes, if it has
/// any, follow the plan.
pub open spec fn sound_result(
    result: TestResultView,
    plan: Seq<TestedVersionView>,
    name: Seq<char>,
) -> bool {
    &&& result.rev_dep.name == name
    &&& result.data matches TestResultDataView::MultiVersion(outcomes) ==> follows_plan(
        outcomes,
        plan,
        result.rev_dep.resolved_version,
    )
}

/// What the answers given so far have reported agrees with where the
/// testing stands.
spec fn accounted(
    s: RunModel,
    acts: Seq<RunActionView>,
    plan: Seq<TestedVersionView>,
    name: Seq<char>,
) -> bool {
    &&& s.well_formed()
    &&& s.plan == plan
    &&& s.name == name
    &&& if s.phase is Done {
        reported(acts).len() == 1 && sound_result(reported(acts)[0], plan, name)
    } else {
        reported(acts).len() == 0
    }
}

/// One transition keeps the account.
proof fn lemma_step_accounted(
    s: RunModel,
    acts: Seq<RunActionView>,
    event: RunEvent,
    plan: Seq<TestedVersionView>,
    name: Seq<char>,
)
    requires
        accounted(s, acts, plan, name),
    ensures
        accounted(s.transition(event).0, acts.push(s.transition(event).1), plan, name),
{
    let next = s.transition(event);
    let after = acts.push(next.1);
    assert(after.drop_last() =~= acts);
    lemma_transition_keeps_well_formed(s, event);
    if !(s.phase is Done) {
        lemma_report_ends(s, event);
        if next.1 matches RunActionView::Report(r) && r.data is MultiVersion {
            lemma_outcomes_follow_plan(s, event);
        }
    }
}

/// Of the testing of every dependent, whatever events it is fed: it reports
/// at most one result, and it has reported one exactly when it is over. The
/// result is for the dependent, and its outcomes, if it has any, follow the
/// plan: the first is the baseline, exactly once, wherever the dependent
/// resolves a version that can serve as one.
pub proof fn lemma_run_is_sound(start: RunModel, events: Seq<RunEvent>)
    requires
        start.phase is Created,
        start.well_formed(),
    ensures
        ({
            let run = run_from(start, events);
            let results = reported(run.1);
            &&& results.len() <= 1
            &&& results.len() == 1 <==> run.0.phase is Done
            &&& results.len() == 1 ==> sound_result(results[0], start.plan, start.name)
        }),
{
    lemma_run_accounted(start, events);
}

proof fn lemma_run_accounted(start: RunModel, events: Seq<RunEvent>)
    requires
        start.phase is Created,
        start.well_formed(),
    ensures
        accounted(run_from(start, events).0, run_from(start, events).1, start.plan, start.name),
    decreases events.len(),
{
    if events.len() > 0 {
        lemma_run_accounted(start, events.drop_last());
        let before = run_from(start, events.drop_last());
        lemma_step_accounted(before.0, before.1, events.last(), start.plan, start.name);
    }
}

} // verus!
