use cargo_crusader::report::{format_offered_row, OfferedCell, Resolution, RowVerdict, StatusIcon};
use cargo_crusader::rows::{
    CommandResult, CommandType, DependencyRef, OfferedRow, OfferedVersion, TestCommand,
    TestExecution, VersionSource,
};
use cargo_crusader::summary::summarize_offered_rows;

fn command(kind: CommandType, passed: bool) -> TestCommand {
    TestCommand {
        command: kind,
        features: vec![],
        result: CommandResult { passed, duration_ms: 700, failures: vec![] },
    }
}

fn baseline() -> OfferedRow {
    OfferedRow {
        baseline_passed: None,
        primary: DependencyRef {
            dependent_name: "load_image".to_string(),
            dependent_version: "3.3.1".to_string(),
            spec: "^0.8.52".to_string(),
            resolved_version: "0.8.52".to_string(),
            resolved_source: VersionSource::CratesIo,
            used_offered_version: false,
        },
        offered: None,
        test: TestExecution {
            commands: vec![
                command(CommandType::Fetch, true),
                command(CommandType::Check, true),
                command(CommandType::Test, true),
            ],
        },
        transitive: vec![],
    }
}

fn wip() -> OfferedRow {
    OfferedRow {
        baseline_passed: Some(true),
        primary: DependencyRef {
            dependent_name: "load_image".to_string(),
            dependent_version: "3.3.1".to_string(),
            spec: "^0.8.52".to_string(),
            resolved_version: "0.8.91".to_string(),
            resolved_source: VersionSource::Local,
            used_offered_version: true,
        },
        offered: Some(OfferedVersion { version: "this(0.8.91)".to_string(), forced: true }),
        test: TestExecution {
            commands: vec![command(CommandType::Fetch, true), command(CommandType::Check, false)],
        },
        transitive: vec![],
    }
}

#[test]
fn test_baseline_wip_data_structures() {
    let rows = vec![baseline(), wip()];
    let first = format_offered_row(&rows[0]);
    assert_eq!(first.0, "- baseline");
    assert_eq!(first.1, "^0.8.52");
    assert_eq!(first.2, "0.8.52 📦");
    assert_eq!(first.3, "load_image 3.3.1");
    assert_eq!(first.4, "PASSED ✓✓✓");
    assert_eq!(first.6, RowVerdict::Passed);

    let second = format_offered_row(&rows[1]);
    assert_eq!(second.0, "✗ ≠this(0.8.91) [≠→!]");
    assert_eq!(second.1, "→ =this(0.8.91)");
    assert_eq!(second.2, "0.8.91 📁");
    assert_eq!(second.4, "REGRESSED ✓✗-");
    assert_eq!(second.6, RowVerdict::Regressed);

    let summary = summarize_offered_rows(&rows);
    assert_eq!((summary.passed, summary.regressed, summary.broken, summary.total), (0, 1, 0, 1));
    assert_eq!(summary.exit_code(), -2);

    println!("📚 OfferedRow structure documented for baseline + WIP testing");
}

#[test]
fn test_offered_cell_baseline_rendering() {
    assert_eq!(OfferedCell::Baseline.format(), "- baseline");
    assert_eq!(OfferedCell::from_offered_row(&baseline()).format(), "- baseline");
    println!("✅ OfferedCell::Baseline should render as: '- baseline'");
}

#[test]
fn test_offered_cell_wip_rendering() {
    let failed = OfferedCell::Tested {
        icon: StatusIcon::Failed,
        resolution: Resolution::Mismatch,
        version: "this".to_string(),
        forced: true,
    };
    assert_eq!(failed.format(), "✗ ≠this [≠→!]");
    let passed = OfferedCell::Tested {
        icon: StatusIcon::Passed,
        resolution: Resolution::Exact,
        version: "this".to_string(),
        forced: false,
    };
    assert_eq!(passed.format(), "✓ =this");
    let skipped = OfferedCell::Tested {
        icon: StatusIcon::Skipped,
        resolution: Resolution::Upgraded,
        version: "0.8.48".to_string(),
        forced: false,
    };
    assert_eq!(skipped.format(), "⊘ ↑0.8.48");
    println!("✅ OfferedCell::Tested (WIP, forced) should render as:");
    println!("   '✗ ≠this [≠→!]' (when failed and forced)");
    println!("   '✓ =this' (when passed and resolved exactly)");
}
