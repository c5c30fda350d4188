use cargo_crusader::api::ReverseDependency;
use cargo_crusader::cli::CliArgs;
use cargo_crusader::compile::{CompileResult, CompileStep, ThreeStepResult, VersionSource};
use cargo_crusader::export::{
    export_markdown_table_report, generate_html_report, generate_markdown_report, sanitize,
};
use cargo_crusader::orchestrator::{
    format_results_table, needs_top_dependents, path_file_name, pipeline_plan, run_label,
    select_dependents, version_note,
};
use cargo_crusader::planner::{reorder_plan, OverrideSource, TestedVersion};
use cargo_crusader::report::{
    format_offered_row_string, format_separator_line, format_table_footer,
    format_table_header, TableWidths,
};
use cargo_crusader::results::{Error, RevDep, TestResult, TestResultData, VersionTestOutcome};
use cargo_crusader::summary::{format_summary, summarize_offered_rows, summarize_results};
use cargo_crusader::width::display_width;

fn args() -> CliArgs {
    CliArgs {
        path: None,
        crate_name: Some("rgb".to_string()),
        top_dependents: 5,
        dependents: vec![],
        dependent_paths: vec![],
        test_versions: vec![],
        force_versions: vec![],
        jobs: 1,
        output: "report.html".to_string(),
        staging_dir: ".crusader/staging".to_string(),
        no_check: false,
        no_test: false,
        json: false,
    }
}

fn stage(step: CompileStep, success: bool) -> CompileResult {
    CompileResult {
        step,
        success,
        stdout: String::new(),
        stderr: "error: <T> & more".to_string(),
        duration_ms: 400,
        diagnostics: Vec::new(),
    }
}

fn outcome(version: &str, check: bool) -> VersionTestOutcome {
    VersionTestOutcome {
        version_source: VersionSource::Published(version.to_string()),
        result: ThreeStepResult {
            fetch: stage(CompileStep::Fetch, true),
            check: Some(stage(CompileStep::Check, check)),
            test: if check { Some(stage(CompileStep::Test, true)) } else { None },
            actual_version: Some(version.to_string()),
            expected_version: Some(version.to_string()),
            forced_version: false,
            original_requirement: Some("^0.8".to_string()),
        },
    }
}

fn result(name: &str, data: TestResultData) -> TestResult {
    TestResult {
        rev_dep: RevDep { name: name.to_string(), vers: "1.0.0".to_string(), resolved_version: None },
        data,
    }
}

fn results() -> Vec<TestResult> {
    vec![
        result("first", TestResultData::MultiVersion(vec![outcome("0.8.52", true), outcome("0.8.91", false), outcome("0.8.53", true)])),
        result("second", TestResultData::Skipped("left out".to_string())),
        result("third", TestResultData::Error(Error::NoCrateVersions)),
    ]
}

#[test]
fn test_baseline_and_requests_of_a_plan() {
    let plan = vec![
        TestedVersion { source: VersionSource::Published("0.9.0".to_string()), forced: true },
        TestedVersion { source: VersionSource::Local("/work/rgb/Cargo.toml".to_string()), forced: true },
    ];
    let ordered = reorder_plan(&plan, &Some("0.8.52".to_string()));
    assert!(ordered.is_baseline(0));
    assert!(!ordered.is_baseline(1));
    let first = ordered.request(0).unwrap();
    assert!(matches!(first.source, OverrideSource::Baseline));
    assert_eq!(run_label(&ordered.entries[0], true), "baseline");
    let p = pipeline_plan(&first, false, true);
    assert_eq!((p.has_override, p.forced, p.skip_check, p.skip_test), (false, false, false, true));

    let second = ordered.request(1).unwrap();
    assert!(matches!(second.source, OverrideSource::Published(ref v) if v == "0.9.0"));
    assert_eq!(run_label(&ordered.entries[1], false), "0.9.0");
    let p = pipeline_plan(&second, true, false);
    assert_eq!((p.has_override, p.forced, p.skip_check, p.skip_test), (true, true, true, false));

    let third = ordered.request(2).unwrap();
    assert!(matches!(third.source, OverrideSource::LocalDirectory(ref d) if d == "/work/rgb"));
    assert_eq!(run_label(&ordered.entries[2], false), "this");
    assert!(ordered.request(3).is_none());

    let unordered = reorder_plan(&plan, &None);
    assert!(!unordered.is_baseline(0));
    assert!(matches!(unordered.request(0).unwrap().source, OverrideSource::Published(_)));
}

#[test]
fn test_version_note() {
    let some = |s: &str| Some(s.to_string());
    assert_eq!(version_note(&some("0.8.52"), &some("0.8.52"), "rgb"), None);
    assert_eq!(
        version_note(&some("0.8.52"), &some("0.8.91"), "rgb"),
        some("⚠️  VERSION MISMATCH: Expected 0.8.52 but cargo resolved to 0.8.91!")
    );
    assert_eq!(
        version_note(&some("0.8.52"), &None, "rgb"),
        some("⚠️  Could not verify version for rgb (cargo tree failed)")
    );
    assert_eq!(version_note(&None, &some("0.8.91"), "rgb"), None);
    assert_eq!(version_note(&None, &None, "rgb"), None);
}

#[test]
fn test_path_file_name() {
    let some = |s: &str| Some(s.to_string());
    assert_eq!(path_file_name("/work/dependent-passing"), some("dependent-passing"));
    assert_eq!(path_file_name("/work/dependent-passing/"), some("dependent-passing"));
    assert_eq!(path_file_name("dependent"), some("dependent"));
    assert_eq!(path_file_name("./foo"), some("foo"));
    assert_eq!(path_file_name("a//b///"), some("b"));
    assert_eq!(path_file_name("/"), None);
    assert_eq!(path_file_name(""), None);
    assert_eq!(path_file_name("."), None);
    assert_eq!(path_file_name(".."), None);
    assert_eq!(path_file_name("a/.."), None);
    assert_eq!(path_file_name("..."), some("..."));
}

#[test]
fn test_select_dependents() {
    let top = vec![
        ReverseDependency { name: "image".to_string(), downloads: 9 },
        ReverseDependency { name: "resize".to_string(), downloads: 3 },
    ];
    let shown = |list: Vec<cargo_crusader::orchestrator::NamedDependent>| -> Vec<(String, Option<String>)> {
        list.into_iter().map(|d| (d.name, d.version)).collect()
    };
    let pair = |n: &str, v: Option<&str>| (n.to_string(), v.map(|s| s.to_string()));

    let a = args();
    assert!(needs_top_dependents(&a));
    assert_eq!(shown(select_dependents(&a, &top).unwrap()), vec![pair("image", None), pair("resize", None)]);

    let mut a = args();
    a.dependents = vec!["load_image:3.3.1".to_string(), "resize".to_string()];
    assert!(!needs_top_dependents(&a));
    assert_eq!(
        shown(select_dependents(&a, &top).unwrap()),
        vec![pair("load_image", Some("3.3.1")), pair("resize", None)]
    );

    // Paths come before names.
    a.dependent_paths = vec!["./fixtures/dependent-passing".to_string(), "/abs/dependent-broken/".to_string()];
    assert_eq!(
        shown(select_dependents(&a, &top).unwrap()),
        vec![pair("dependent-passing", None), pair("dependent-broken", None)]
    );

    a.dependent_paths = vec!["ok".to_string(), "..".to_string(), "/".to_string()];
    let e = select_dependents(&a, &top).unwrap_err();
    assert!(matches!(e, Error::InvalidPath(ref p) if p == ".."));
    assert_eq!(e.message(), "invalid path: ..");
}

#[test]
fn test_results_table() {
    let w = TableWidths::new(120);
    let list = results();
    let (table, summary) = format_results_table("rgb", "0.8.91*", &list, &w);

    let mut expected = format_table_header("rgb", "0.8.91*", 3, &w);
    for (i, r) in list.iter().enumerate() {
        let group = r.to_offered_rows();
        for (j, row) in group.iter().enumerate() {
            expected.push_str(&format_offered_row_string(row, j == group.len() - 1, &w));
        }
        if i < list.len() - 1 {
            expected.push_str(&format_separator_line(&w));
            expected.push('\n');
        }
    }
    expected.push_str(&format_table_footer(&w));
    expected.push_str(&format_summary(&summarize_results(&list)));
    assert_eq!(table, expected);

    // Every dependent counts once: the first regressed, the second was left
    // out, the third could not be tested.
    assert_eq!(summary, summarize_results(&list));
    assert_eq!((summary.passed, summary.regressed, summary.broken, summary.total), (0, 1, 1, 2));
    assert_eq!(summary.exit_code(), -2);

    // Every line of the table proper is as wide as the table.
    let start = table.find('┌').unwrap();
    let end = table.rfind('┘').unwrap() + '┘'.len_utf8();
    let lines: Vec<&str> = table[start..end].lines().collect();
    assert!(lines.len() > 8);
    for line in lines {
        assert_eq!(display_width(line), 120, "{}", line);
    }

    // The same results give the same table.
    assert_eq!(format_results_table("rgb", "0.8.91*", &results(), &w).0, table);

    let (empty, summary) = format_results_table("rgb", "1.0.0", &vec![], &w);
    assert_eq!(
        empty,
        format!(
            "{}{}{}",
            format_table_header("rgb", "1.0.0", 0, &w),
            format_table_footer(&w),
            format_summary(&summary)
        )
    );
    assert_eq!(summary.total, 0);
}

#[test]
fn test_sanitize() {
    assert_eq!(sanitize("<b>&\"x\"</b>"), "&lt;b&gt;&amp;\"x\"&lt;/b&gt;");
    assert_eq!(sanitize(""), "");
    assert_eq!(sanitize("plain ✓"), "plain ✓");
    assert_eq!(sanitize("&amp;"), "&amp;amp;");
}

#[test]
fn test_html_report() {
    let rows = results()[0].to_offered_rows();
    let (page, summary) = generate_html_report(&rows, "rgb", "0.8.91*");
    assert!(page.starts_with("<!DOCTYPE html>\n<html><head><meta charset='UTF-8'>\n<title>Cargo Copter Report - rgb</title>\n<style>\n"));
    assert!(page.contains("<p>Crate: <strong>rgb</strong> (0.8.91*)</p>\n<table><thead><tr>\n<th>Offered</th><th>Spec</th><th>Resolved</th><th>Dependent</th><th>Result</th>\n</tr></thead><tbody>\n"));
    assert!(page.contains("<tr class=''><td>- baseline</td><td>^0.8</td><td>0.8.52 📦</td><td>first 1.0.0</td><td>PASSED ✓✓✓ 1.2s</td></tr>\n"));
    assert!(page.contains("<tr class='regressed'><td>✗ =0.8.91</td><td>^0.8</td><td>0.8.91 📦</td><td>first 1.0.0</td><td>REGRESSED ✓✗- 0.8s</td></tr>\n"));
    assert!(page.contains("<tr class='passed'><td>✓ =0.8.53</td>"));
    assert!(page.ends_with("</tbody></table>\n<h2>Summary</h2>\n<p>Passed: 0, Regressed: 1, Broken: 0</p>\n</body></html>\n"));
    assert_eq!(summary, summarize_offered_rows(&rows));

    let mut odd = rows[1].clone();
    odd.primary.dependent_name = "<script>".to_string();
    odd.baseline_passed = None;
    let (page, _) = generate_html_report(&[odd], "rgb", "1");
    assert!(page.contains("<tr class='broken'>"));
    assert!(page.contains("<td>&lt;script&gt; 1.0.0</td>"));
}

#[test]
fn test_markdown_reports() {
    let rows = results()[0].to_offered_rows();
    let (text, summary) = generate_markdown_report(&rows, "rgb", "0.8.91*");
    assert_eq!(
        text,
        "# Cargo Copter Report\n\n**Crate**: rgb (0.8.91*)\n\n## Test Results\n\n| Offered | Spec | Resolved | Dependent | Result |\n|---------|------|----------|-----------|--------|\n| - baseline | ^0.8 | 0.8.52 📦 | first 1.0.0 | PASSED ✓✓✓ 1.2s |\n| ✗ =0.8.91 | ^0.8 | 0.8.91 📦 | first 1.0.0 | REGRESSED ✓✗- 0.8s |\n| ✓ =0.8.53 | ^0.8 | 0.8.53 📦 | first 1.0.0 | PASSED ✓✓✓ 1.2s |\n\n## Summary\n\n- ✓ Passed: 0\n- ✗ Regressed: 1\n- ⚠ Broken: 0\n- **Total**: 1\n"
    );
    // The three rows are those of one dependent, which regressed.
    assert_eq!(summary.total, 1);
    assert_eq!(summary, summarize_results(&results()[..1]));

    let w = TableWidths::new(120);
    let (text, _) = export_markdown_table_report(&rows, "rgb", "0.8.91*", 1, &w);
    let mut expected = String::from("# Cargo Copter Test Report\n\n**Crate**: rgb (0.8.91*)\n**Dependents Tested**: 1\n\n## Summary\n\n- ✓ Passed: 0\n- ✗ Regressed: 1\n- ⚠ Broken: 0\n- **Total**: 1\n\n## Test Results\n\n```\n");
    expected.push_str(&format_table_header("rgb", "0.8.91*", 1, &w));
    for row in &rows {
        expected.push_str(&format_offered_row_string(row, true, &w));
    }
    expected.push_str(&format_table_footer(&w));
    expected.push_str("```\n\n");
    assert_eq!(text, expected);
}
