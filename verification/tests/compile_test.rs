use cargo_crusader::compile::{
    cargo_arguments, command_line, format_failure_record, patch_config, CompileResult,
    CompileStep, ThreeStepResult, VersionSource,
};

fn step_result(step: CompileStep, success: bool) -> CompileResult {
    CompileResult {
        step,
        success,
        stdout: String::new(),
        stderr: String::new(),
        duration_ms: 1000,
        diagnostics: Vec::new(),
    }
}

fn outcome(fetch: bool, check: Option<bool>, test: Option<bool>) -> ThreeStepResult {
    ThreeStepResult {
        fetch: step_result(CompileStep::Fetch, fetch),
        check: check.map(|s| step_result(CompileStep::Check, s)),
        test: test.map(|s| step_result(CompileStep::Test, s)),
        actual_version: None,
        expected_version: None,
        forced_version: false,
        original_requirement: None,
    }
}

#[test]
fn test_compile_step_as_str() {
    assert_eq!(CompileStep::Check.as_str(), "check");
    assert_eq!(CompileStep::Test.as_str(), "test");
}

#[test]
fn test_compile_step_cargo_subcommand() {
    assert_eq!(CompileStep::Check.cargo_subcommand(), "check");
    assert_eq!(CompileStep::Test.cargo_subcommand(), "test");
}

#[test]
fn test_compile_result_failed() {
    let result = CompileResult {
        step: CompileStep::Check,
        success: false,
        stdout: String::new(),
        stderr: String::new(),
        duration_ms: 1000,
        diagnostics: Vec::new(),
    };
    assert!(result.failed());

    let result = CompileResult {
        step: CompileStep::Check,
        success: true,
        stdout: String::new(),
        stderr: String::new(),
        duration_ms: 1000,
        diagnostics: Vec::new(),
    };
    assert!(!result.failed());
}

#[test]
fn test_fetch_step_names() {
    assert_eq!(CompileStep::Fetch.as_str(), "fetch");
    assert_eq!(CompileStep::Fetch.cargo_subcommand(), "fetch");
    assert!(!CompileStep::Fetch.wants_structured_output());
    assert!(CompileStep::Check.wants_structured_output());
    assert!(CompileStep::Test.wants_structured_output());
}

#[test]
fn test_version_source_label() {
    assert_eq!(VersionSource::Published("0.8.52".to_string()).label(), "0.8.52");
    assert_eq!(VersionSource::Local("/work/rgb".to_string()).label(), "this");
    assert!(VersionSource::Local("/work/rgb".to_string()).is_local());
    assert!(!VersionSource::Published("0.8.52".to_string()).is_local());
}

#[test]
fn test_ict_marks() {
    assert_eq!(outcome(true, Some(true), Some(true)).format_ict_marks(), "✓✓✓");
    assert_eq!(outcome(true, Some(false), None).format_ict_marks(), "✓✗-");
    assert_eq!(outcome(false, None, None).format_ict_marks(), "✗--");
    assert_eq!(outcome(true, None, Some(true)).format_ict_marks(), "✓-✓");
    assert_eq!(outcome(true, Some(true), None).format_ict_marks(), "✓✓-");
    assert_eq!(outcome(true, Some(true), Some(false)).format_ict_marks(), "✓✓✗");
    assert_eq!(outcome(true, None, None).format_ict_marks(), "✓--");
}

#[test]
fn test_is_success_and_first_failure() {
    let all = outcome(true, Some(true), Some(true));
    assert!(all.is_success());
    assert!(all.first_failure().is_none());

    let fetch = outcome(false, None, None);
    assert!(!fetch.is_success());
    assert_eq!(fetch.first_failure().unwrap().step, CompileStep::Fetch);

    let check = outcome(true, Some(false), None);
    assert!(!check.is_success());
    assert_eq!(check.first_failure().unwrap().step, CompileStep::Check);

    let test = outcome(true, Some(true), Some(false));
    assert!(!test.is_success());
    assert_eq!(test.first_failure().unwrap().step, CompileStep::Test);

    let skipped = outcome(true, None, None);
    assert!(skipped.is_success());
}

#[test]
fn test_patch_config() {
    assert_eq!(
        patch_config("rgb", "/work/rgb"),
        "patch.crates-io.rgb.path=\"/work/rgb\""
    );
}

#[test]
fn test_cargo_arguments() {
    assert_eq!(cargo_arguments(CompileStep::Fetch, None), vec!["fetch".to_string()]);
    assert_eq!(
        cargo_arguments(CompileStep::Check, None),
        vec!["check".to_string(), "--message-format=json".to_string()]
    );
    assert_eq!(
        cargo_arguments(CompileStep::Test, Some(("rgb", "/work/rgb"))),
        vec![
            "test".to_string(),
            "--message-format=json".to_string(),
            "--config".to_string(),
            "patch.crates-io.rgb.path=\"/work/rgb\"".to_string(),
        ]
    );
    assert_eq!(
        cargo_arguments(CompileStep::Fetch, Some(("rgb", "/w"))),
        vec![
            "fetch".to_string(),
            "--config".to_string(),
            "patch.crates-io.rgb.path=\"/w\"".to_string(),
        ]
    );
}

#[test]
fn test_failure_record() {
    let record = format_failure_record(
        "2024-01-02 03:04:05",
        "load_image",
        "3.3.1",
        "rgb",
        "this",
        "cargo check",
        None,
        "out",
        "err",
    );
    let rule = "=".repeat(100);
    let expected = format!(
        "\n{rule}\n[2024-01-02 03:04:05] FAILURE: load_image 3.3.1 testing rgb this\n{rule}\nCommand: cargo check\nExit code: N/A\n\n--- STDOUT ---\nout\n\n--- STDERR ---\nerr\n{rule}\n",
        rule = rule
    );
    assert_eq!(record, expected);
}

#[test]
fn test_failure_record_exit_codes() {
    let with = |code: Option<i32>| {
        format_failure_record("t", "d", "1.0.0", "s", "baseline", "cargo test", code, "", "")
    };
    assert!(with(Some(101)).contains("Exit code: 101\n"));
    assert!(with(Some(0)).contains("Exit code: 0\n"));
    assert!(with(Some(-2)).contains("Exit code: -2\n"));
    assert!(with(Some(i32::MIN)).contains("Exit code: -2147483648\n"));
    assert!(with(Some(i32::MAX)).contains("Exit code: 2147483647\n"));
}

#[test]
fn test_command_line() {
    assert_eq!(command_line(CompileStep::Fetch), "cargo fetch");
    assert_eq!(command_line(CompileStep::Check), "cargo check");
    assert_eq!(command_line(CompileStep::Test), "cargo test");
}
