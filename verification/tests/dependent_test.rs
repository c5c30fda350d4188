use cargo_crusader::compile::{CompileResult, CompileStep, ThreeStepResult, VersionSource};
use cargo_crusader::dependent::{DependentRun, EntryEnd, RunAction, RunEvent, RunPhase};
use cargo_crusader::planner::{OverrideSource, TestedVersion};
use cargo_crusader::results::{Error, TestResult, TestResultData};

fn stage(step: CompileStep, success: bool) -> CompileResult {
    CompileResult {
        step,
        success,
        stdout: String::new(),
        stderr: if success { String::new() } else { "error: it broke".to_string() },
        duration_ms: 1500,
        diagnostics: Vec::new(),
    }
}

fn pipeline_outcome(expected: Option<&str>, actual: Option<&str>, test_passes: bool) -> ThreeStepResult {
    ThreeStepResult {
        fetch: stage(CompileStep::Fetch, true),
        check: Some(stage(CompileStep::Check, true)),
        test: Some(stage(CompileStep::Test, test_passes)),
        actual_version: actual.map(|v| v.to_string()),
        expected_version: expected.map(|v| v.to_string()),
        forced_version: false,
        original_requirement: Some("^0.8".to_string()),
    }
}

fn published(version: &str, forced: bool) -> TestedVersion {
    TestedVersion { source: VersionSource::Published(version.to_string()), forced }
}

fn local(path: &str) -> TestedVersion {
    TestedVersion { source: VersionSource::Local(path.to_string()), forced: true }
}

fn run_for(plan: Vec<TestedVersion>, pinned: Option<&str>) -> DependentRun {
    DependentRun::new(
        "rgb".to_string(),
        "0.8.91".to_string(),
        plan,
        false,
        false,
        "load_image".to_string(),
        pinned.map(|v| v.to_string()),
    )
}

fn inspected(baseline: Option<&str>, requirement: Option<&str>) -> RunEvent {
    RunEvent::Inspected {
        baseline: baseline.map(|v| v.to_string()),
        requirement: requirement.map(|v| v.to_string()),
    }
}

/// Takes a run with a pinned version up to the point where the unpacked
/// dependent is looked at.
fn unpacked(plan: Vec<TestedVersion>) -> DependentRun {
    let run = run_for(plan, Some("3.3.1"));
    let (run, action, note) = run.step(RunEvent::Start);
    assert!(note.is_none());
    match action {
        RunAction::Stage { name, version } => {
            assert_eq!(name, "load_image");
            assert_eq!(version, "3.3.1");
        }
        other => panic!("unexpected action {:?}", other),
    }
    let (run, action, _) = run.step(RunEvent::Staged(Ok(())));
    assert!(matches!(action, RunAction::Inspect));
    assert_eq!(run.phase(), RunPhase::Inspecting);
    run
}

fn reported(action: RunAction) -> TestResult {
    match action {
        RunAction::Report(result) => result,
        other => panic!("no report but {:?}", other),
    }
}

#[test]
fn test_run_asks_the_registry_for_an_unpinned_dependent() {
    let run = run_for(vec![published("0.8.52", false)], None);
    assert_eq!(run.phase(), RunPhase::Created);
    let (run, action, _) = run.step(RunEvent::Start);
    match action {
        RunAction::ListVersions { name } => assert_eq!(name, "load_image"),
        other => panic!("unexpected action {:?}", other),
    }
    assert_eq!(run.phase(), RunPhase::Resolving);
    let listing = vec![
        "0.1.0".to_string(),
        "3.3.1".to_string(),
        "not a version".to_string(),
        "3.4.0-beta.1".to_string(),
        "2.9.9".to_string(),
    ];
    let (run, action, _) = run.step(RunEvent::VersionsListed(Ok(listing)));
    match action {
        RunAction::Stage { name, version } => {
            assert_eq!(name, "load_image");
            assert_eq!(version, "3.4.0-beta.1");
        }
        other => panic!("unexpected action {:?}", other),
    }
    assert_eq!(run.phase(), RunPhase::Staging);
}

#[test]
fn test_run_reports_a_dependent_without_versions() {
    let run = run_for(vec![], None);
    let (run, _, _) = run.step(RunEvent::Start);
    let (run, action, _) = run.step(RunEvent::VersionsListed(Ok(vec!["junk".to_string()])));
    let result = reported(action);
    assert_eq!(result.rev_dep.name, "load_image");
    assert_eq!(result.rev_dep.vers, "0.0.0");
    assert_eq!(result.rev_dep.resolved_version, None);
    assert!(matches!(result.data, TestResultData::Error(Error::NoCrateVersions)));
    assert!(run.is_over());
}

#[test]
fn test_run_reports_a_registry_failure() {
    let run = run_for(vec![], None);
    let (run, _, _) = run.step(RunEvent::Start);
    let failure = Error::CratesIoApiError("timed out".to_string());
    let (run, action, _) = run.step(RunEvent::VersionsListed(Err(failure)));
    let result = reported(action);
    assert_eq!(result.rev_dep.vers, "0.0.0");
    match result.data {
        TestResultData::Error(Error::CratesIoApiError(m)) => assert_eq!(m, "timed out"),
        other => panic!("unexpected result {:?}", other),
    }
    assert!(run.is_over());
}

#[test]
fn test_run_rejects_a_pinned_version_that_is_none() {
    let run = run_for(vec![published("0.8.52", false)], Some("^3"));
    let (run, action, _) = run.step(RunEvent::Start);
    let result = reported(action);
    assert_eq!(result.rev_dep.name, "load_image");
    assert_eq!(result.rev_dep.vers, "0.0.0");
    assert!(matches!(result.data, TestResultData::Error(Error::SemverError(_))));
    assert!(run.is_over());
}

#[test]
fn test_run_reports_a_dependent_that_cannot_be_unpacked() {
    let run = run_for(vec![published("0.8.52", false)], Some("3.3.1"));
    let (run, _, _) = run.step(RunEvent::Start);
    let failure = Error::IoError("disk full".to_string());
    let (run, action, _) = run.step(RunEvent::Staged(Err(failure)));
    let result = reported(action);
    assert_eq!(result.rev_dep.vers, "3.3.1");
    match result.data {
        TestResultData::Error(Error::IoError(m)) => assert_eq!(m, "disk full"),
        other => panic!("unexpected result {:?}", other),
    }
    assert!(run.is_over());
}

#[test]
fn test_run_goes_through_the_ordered_plan() {
    let plan = vec![
        published("0.8.52", false),
        published("0.8.50", false),
        published("0.9.0", true),
        local("/work/rgb/Cargo.toml"),
    ];
    let run = unpacked(plan);
    let (run, action, note) = run.step(inspected(Some("0.8.50"), Some("^0.8")));
    assert!(note.is_none());
    assert_eq!(run.phase(), RunPhase::Running);

    // The baseline comes first and is built as the dependent stands.
    match action {
        RunAction::RunEntry { label, request, plan, requirement } => {
            assert_eq!(label, "baseline");
            assert!(matches!(request.source, OverrideSource::Baseline));
            assert_eq!(request.expected_version.as_deref(), Some("0.8.50"));
            assert!(!request.forced);
            assert!(!plan.has_override);
            assert!(!plan.forced);
            assert!(!plan.skip_check);
            assert!(!plan.skip_test);
            assert_eq!(requirement.as_deref(), Some("^0.8"));
        }
        other => panic!("unexpected action {:?}", other),
    }
    let end = EntryEnd::Outcome(pipeline_outcome(Some("0.8.50"), Some("0.8.50"), true));
    let (run, action, note) = run.step(RunEvent::EntryEnded(end));
    assert!(note.is_none());

    // A published version is patched in.
    match action {
        RunAction::RunEntry { label, request, plan, .. } => {
            assert_eq!(label, "0.8.52");
            match request.source {
                OverrideSource::Published(v) => assert_eq!(v, "0.8.52"),
                other => panic!("unexpected source {:?}", other),
            }
            assert_eq!(request.expected_version.as_deref(), Some("0.8.52"));
            assert!(!request.forced);
            assert!(plan.has_override);
            assert!(!plan.forced);
        }
        other => panic!("unexpected action {:?}", other),
    }
    let end = EntryEnd::Outcome(pipeline_outcome(Some("0.8.52"), Some("0.8.51"), false));
    let (run, action, note) = run.step(RunEvent::EntryEnded(end));
    assert_eq!(
        note.as_deref(),
        Some("⚠️  VERSION MISMATCH: Expected 0.8.52 but cargo resolved to 0.8.51!")
    );

    // The baseline does not come a second time; the forced version is next.
    match action {
        RunAction::RunEntry { label, request, plan, .. } => {
            assert_eq!(label, "0.9.0");
            assert!(request.forced);
            assert!(plan.has_override);
            assert!(plan.forced);
        }
        other => panic!("unexpected action {:?}", other),
    }
    let (run, action, note) =
        run.step(RunEvent::EntryEnded(EntryEnd::DownloadFailed("no network".to_string())));
    assert_eq!(note.as_deref(), Some("Warning: Failed to download rgb 0.9.0: no network"));

    // The work in progress is forced, from the directory of its manifest.
    match action {
        RunAction::RunEntry { label, request, plan, requirement } => {
            assert_eq!(label, "this");
            match request.source {
                OverrideSource::LocalDirectory(d) => assert_eq!(d, "/work/rgb"),
                other => panic!("unexpected source {:?}", other),
            }
            assert_eq!(request.expected_version, None);
            assert!(request.forced);
            assert!(plan.has_override);
            assert!(plan.forced);
            assert_eq!(requirement.as_deref(), Some("^0.8"));
        }
        other => panic!("unexpected action {:?}", other),
    }
    assert_eq!(run.phase(), RunPhase::Running);
    let end = EntryEnd::Outcome(pipeline_outcome(None, None, true));
    let (run, action, note) = run.step(RunEvent::EntryEnded(end));
    assert!(note.is_none());
    assert!(run.is_over());

    let result = reported(action);
    assert_eq!(result.rev_dep.name, "load_image");
    assert_eq!(result.rev_dep.vers, "3.3.1");
    assert_eq!(result.rev_dep.resolved_version.as_deref(), Some("0.8.50"));
    let outcomes = match result.data {
        TestResultData::MultiVersion(outcomes) => outcomes,
        other => panic!("unexpected result {:?}", other),
    };
    assert_eq!(outcomes.len(), 4);
    assert_eq!(outcomes[0].version_source, VersionSource::Published("0.8.50".to_string()));
    assert_eq!(outcomes[1].version_source, VersionSource::Published("0.8.52".to_string()));
    assert_eq!(outcomes[2].version_source, VersionSource::Published("0.9.0".to_string()));
    assert_eq!(outcomes[3].version_source, VersionSource::Local("/work/rgb/Cargo.toml".to_string()));
    assert!(outcomes[0].result.is_success());
    assert!(!outcomes[1].result.is_success());
    assert_eq!(outcomes[1].result.actual_version.as_deref(), Some("0.8.51"));

    // The version that could not be downloaded counts as a failed fetch.
    let failed = &outcomes[2].result;
    assert_eq!(failed.fetch.step, CompileStep::Fetch);
    assert!(!failed.fetch.success);
    assert_eq!(failed.fetch.stdout, "");
    assert_eq!(failed.fetch.stderr, "Failed to download base crate: no network");
    assert_eq!(failed.fetch.duration_ms, 0);
    assert!(failed.fetch.diagnostics.is_empty());
    assert!(failed.check.is_none());
    assert!(failed.test.is_none());
    assert_eq!(failed.actual_version, None);
    assert_eq!(failed.expected_version.as_deref(), Some("0.9.0"));
    assert!(failed.forced_version);
    assert_eq!(failed.original_requirement.as_deref(), Some("^0.8"));
    assert!(outcomes[3].result.is_success());
}

#[test]
fn test_run_without_usable_baseline_keeps_the_plan() {
    for baseline in [None, Some(""), Some("*"), Some("^0.8")] {
        let run = unpacked(vec![published("0.8.52", false), local("/work/rgb")]);
        let (run, action, _) = run.step(inspected(baseline, None));
        match action {
            RunAction::RunEntry { label, request, plan, requirement } => {
                assert_eq!(label, "0.8.52");
                assert!(matches!(request.source, OverrideSource::Published(_)));
                assert!(plan.has_override);
                assert_eq!(requirement, None);
            }
            other => panic!("unexpected action {:?}", other),
        }
        let end = EntryEnd::Outcome(pipeline_outcome(Some("0.8.52"), None, true));
        let (run, action, note) = run.step(RunEvent::EntryEnded(end));
        assert_eq!(
            note.as_deref(),
            Some("⚠️  Could not verify version for rgb (cargo tree failed)")
        );
        match action {
            RunAction::RunEntry { label, request, .. } => {
                assert_eq!(label, "this");
                match request.source {
                    OverrideSource::LocalDirectory(d) => assert_eq!(d, "/work/rgb"),
                    other => panic!("unexpected source {:?}", other),
                }
            }
            other => panic!("unexpected action {:?}", other),
        }
        let end = EntryEnd::Outcome(pipeline_outcome(None, None, true));
        let (_, action, _) = run.step(RunEvent::EntryEnded(end));
        let result = reported(action);
        assert_eq!(result.rev_dep.resolved_version.as_deref(), baseline);
        match result.data {
            TestResultData::MultiVersion(outcomes) => assert_eq!(outcomes.len(), 2),
            other => panic!("unexpected result {:?}", other),
        }
    }
}

#[test]
fn test_run_leaves_out_an_incompatible_dependent() {
    let run = unpacked(vec![published("2.0.0", false), published("3.0.0", false)]);
    let (run, action, note) = run.step(inspected(None, Some("^1")));
    assert!(note.is_none());
    let result = reported(action);
    assert_eq!(result.rev_dep.vers, "3.3.1");
    match result.data {
        TestResultData::Skipped(reason) => {
            assert_eq!(reason, "Dependent requires version incompatible with rgb v0.8.91")
        }
        other => panic!("unexpected result {:?}", other),
    }
    assert!(run.is_over());
}

#[test]
fn test_run_builds_what_is_forced_whatever_is_required() {
    let run = unpacked(vec![published("2.0.0", true)]);
    let (run, action, _) = run.step(inspected(None, Some("^1")));
    match action {
        RunAction::RunEntry { label, request, plan, .. } => {
            assert_eq!(label, "2.0.0");
            assert!(request.forced);
            assert!(plan.forced);
        }
        other => panic!("unexpected action {:?}", other),
    }
    assert_eq!(run.phase(), RunPhase::Running);
}

#[test]
fn test_run_with_an_empty_plan_reports_no_outcomes() {
    let run = unpacked(vec![]);
    let (run, action, _) = run.step(inspected(None, None));
    let result = reported(action);
    match result.data {
        TestResultData::MultiVersion(outcomes) => assert!(outcomes.is_empty()),
        other => panic!("unexpected result {:?}", other),
    }
    assert!(run.is_over());
}

#[test]
fn test_run_ends_when_the_pipeline_is_given_up() {
    let run = unpacked(vec![published("0.8.52", false), published("0.8.53", false)]);
    let (run, _, _) = run.step(inspected(Some("0.8.50"), None));
    let (run, action, note) =
        run.step(RunEvent::EntryEnded(EntryEnd::GivenUp("cargo is missing".to_string())));
    assert!(note.is_none());
    let result = reported(action);
    assert_eq!(result.rev_dep.resolved_version.as_deref(), Some("0.8.50"));
    match result.data {
        TestResultData::Error(Error::ProcessError(m)) => assert_eq!(m, "cargo is missing"),
        other => panic!("unexpected result {:?}", other),
    }
    assert!(run.is_over());
}

#[test]
fn test_run_takes_a_failed_download_of_nothing_as_given_up() {
    let run = unpacked(vec![published("0.8.52", false)]);
    let (run, action, _) = run.step(inspected(Some("0.8.50"), None));
    assert!(matches!(action, RunAction::RunEntry { .. }));
    // The baseline downloads nothing.
    let (run, action, note) =
        run.step(RunEvent::EntryEnded(EntryEnd::DownloadFailed("no network".to_string())));
    assert!(note.is_none());
    let result = reported(action);
    match result.data {
        TestResultData::Error(Error::ProcessError(m)) => assert_eq!(m, "no network"),
        other => panic!("unexpected result {:?}", other),
    }
    assert!(run.is_over());
}

#[test]
fn test_run_ignores_what_it_does_not_wait_for() {
    let run = run_for(vec![published("0.8.52", false)], Some("3.3.1"));
    let (run, action, _) = run.step(RunEvent::Staged(Ok(())));
    assert!(matches!(action, RunAction::Ignore));
    assert_eq!(run.phase(), RunPhase::Created);
    let (run, _, _) = run.step(RunEvent::Start);
    let (run, action, _) = run.step(RunEvent::Start);
    assert!(matches!(action, RunAction::Ignore));
    let (run, action, _) = run.step(inspected(None, None));
    assert!(matches!(action, RunAction::Ignore));
    assert_eq!(run.phase(), RunPhase::Staging);
    let end = EntryEnd::Outcome(pipeline_outcome(None, None, true));
    let (run, action, note) = run.step(RunEvent::EntryEnded(end));
    assert!(matches!(action, RunAction::Ignore));
    assert!(note.is_none());
    assert_eq!(run.phase(), RunPhase::Staging);
}

#[test]
fn test_run_that_is_over_stays_over() {
    let run = unpacked(vec![]);
    let (run, action, _) = run.step(inspected(None, None));
    assert!(matches!(action, RunAction::Report(_)));
    let (run, action, _) = run.step(RunEvent::Start);
    assert!(matches!(action, RunAction::Ignore));
    let (run, action, _) = run.step(inspected(Some("1.0.0"), None));
    assert!(matches!(action, RunAction::Ignore));
    let (run, action, _) =
        run.step(RunEvent::EntryEnded(EntryEnd::GivenUp("late".to_string())));
    assert!(matches!(action, RunAction::Ignore));
    assert!(run.is_over());
    assert_eq!(run.phase(), RunPhase::Done);
}

#[test]
fn test_run_hands_on_what_is_skipped() {
    let run = DependentRun::new(
        "rgb".to_string(),
        "0.8.91".to_string(),
        vec![published("0.8.52", false)],
        true,
        false,
        "load_image".to_string(),
        Some("3.3.1".to_string()),
    );
    let (run, _, _) = run.step(RunEvent::Start);
    let (run, _, _) = run.step(RunEvent::Staged(Ok(())));
    let (_, action, _) = run.step(inspected(None, None));
    match action {
        RunAction::RunEntry { plan, .. } => {
            assert!(plan.skip_check);
            assert!(!plan.skip_test);
        }
        other => panic!("unexpected action {:?}", other),
    }
}
