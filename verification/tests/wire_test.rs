use cargo_crusader::error_extract::DiagnosticLevel;
use cargo_crusader::metadata::{package_id_version, verify_dependency_version};
use cargo_crusader::compile::CompileStep;
use cargo_crusader::wire::{compile_result, decode_line, parse_cargo_json};

#[test]
fn test_parse_empty_output() {
    let diagnostics = parse_cargo_json("");
    assert_eq!(diagnostics.len(), 0);
}

#[test]
fn test_parse_error_message() {
    let json = r#"{"reason":"compiler-message","message":{"message":"mismatched types","code":{"code":"E0308","explanation":"..."},"level":"error","spans":[{"file_name":"src/lib.rs","line_start":6,"line_end":6,"column_start":5,"column_end":7,"is_primary":true,"label":"expected `String`, found integer","text":[{"text":"    42"}]}],"rendered":"error[E0308]: mismatched types\n --> src/lib.rs:6:5\n"}}"#;

    let diagnostics = parse_cargo_json(json);
    assert_eq!(diagnostics.len(), 1);

    let diag = &diagnostics[0];
    assert!(diag.level.is_error());
    assert_eq!(diag.code.as_ref().unwrap(), "E0308");
    assert_eq!(diag.message, "mismatched types");
    assert!(diag.primary_span.is_some());
    let span = diag.primary_span.as_ref().unwrap();
    assert_eq!(span.file_name, "src/lib.rs");
    assert_eq!((span.line, span.column), (6, 5));
    assert_eq!(span.label.as_deref(), Some("expected `String`, found integer"));
    assert_eq!(diag.rendered, "error[E0308]: mismatched types\n --> src/lib.rs:6:5\n");
}

#[test]
fn test_parse_multiple_messages() {
    let json = r#"{"reason":"compiler-artifact"}
{"reason":"compiler-message","message":{"message":"unused variable","level":"warning","spans":[],"rendered":"warning: unused variable"}}
{"reason":"compiler-message","message":{"message":"cannot find value","level":"error","spans":[],"rendered":"error: cannot find value"}}"#;

    let diagnostics = parse_cargo_json(json);
    assert_eq!(diagnostics.len(), 2);

    let errors: Vec<_> = diagnostics.iter().filter(|d| d.level.is_error()).collect();
    assert_eq!(errors.len(), 1);
    assert_eq!(diagnostics[0].level, DiagnosticLevel::Warning);
    assert_eq!(diagnostics[0].message, "unused variable");
    assert_eq!(diagnostics[1].message, "cannot find value");
}

#[test]
fn test_parse_passes_over_what_is_no_message() {
    let output = [
        "",
        "   ",
        "Compiling rgb v0.8.52",
        "{not json",
        "42",
        "\"compiler-message\"",
        "[\"compiler-message\"]",
        r#"{"reason":7}"#,
        r#"{"message":{"message":"no reason","level":"error"}}"#,
        r#"{"reason":"compiler-message"}"#,
        r#"{"reason":"compiler-message","message":null}"#,
        r#"{"reason":"compiler-message","message":{"level":"error"}}"#,
        r#"{"reason":"compiler-message","message":{"message":"m","level":null}}"#,
        r#"{"reason":"compiler-message","message":{"message":"m","level":"error","spans":{}}}"#,
        r#"{"reason":"compiler-message","message":{"message":"m","level":"error","spans":[{"file_name":"f"}]}}"#,
        r#"{"reason":"compiler-message","message":{"message":"m","level":"error","code":{"explanation":"x"}}}"#,
        r#"{"reason":"compiler-message","message":{"message":"m","level":"error","rendered":5}}"#,
        r#"{"reason":"compiler-message","message":{"message":"m","level":"help"}}"#,
        r#"{"reason":"compiler-message","message":{"message":"m","level":"note"}}"#,
        r#"{"reason":"compiler-message","message":{"message":"m"}}"#,
        r#"{"reason":"build-finished","success":false}"#,
        r#"{"reason":"other","message":{"message":"m","level":"error"}}"#,
    ]
    .join("\r\n");
    assert!(parse_cargo_json(&output).is_empty());
}

#[test]
fn test_parse_fills_in_what_is_left_out() {
    let line = r#"  {"reason":"compiler-message","extra":[1,2],"message":{"message":"boom","level":"error","code":null,"children":[{"whatever":1}],"spans":[{"file_name":"a.rs","line_start":1,"line_end":2,"column_start":3,"column_end":4,"is_primary":false},{"file_name":"b.rs","line_start":10,"line_end":10,"column_start":7,"column_end":9,"is_primary":true,"label":null,"text":[]}]}}  "#;
    let diagnostics = parse_cargo_json(line);
    assert_eq!(diagnostics.len(), 1);
    let d = &diagnostics[0];
    assert!(d.code.is_none());
    assert_eq!(d.rendered, "error: boom\n --> b.rs:10:7\n");
    let span = d.primary_span.as_ref().unwrap();
    assert_eq!(span.file_name, "b.rs");
    assert!(span.label.is_none());

    let decoded = decode_line(line).unwrap();
    assert_eq!(decoded.reason, "compiler-message");
    let message = decoded.message.unwrap();
    assert_eq!(message.spans.len(), 2);
    assert_eq!(message.spans[0].line_end, 2);
    assert!(message.children.is_empty());
    assert!(message.rendered.is_none());

    let artifact = decode_line(r#"{"reason":"compiler-artifact","fresh":true}"#).unwrap();
    assert_eq!(artifact.reason, "compiler-artifact");
    assert!(artifact.message.is_none());
    assert!(decode_line("").is_none());
    assert!(decode_line("{}").is_none());
}

#[test]
fn test_package_id_version() {
    let v = |s: &str| package_id_version(s);
    assert_eq!(
        v("registry+https://github.com/rust-lang/crates.io-index#rgb@0.8.52"),
        Some("0.8.52".to_string())
    );
    assert_eq!(v("path+file:///work/rgb#rgb@0.8.91"), Some("0.8.91".to_string()));
    assert_eq!(
        v("rgb 0.8.52 (registry+https://github.com/rust-lang/crates.io-index)"),
        Some("0.8.52".to_string())
    );
    assert_eq!(v("a#b@c@d#e@f"), Some("c".to_string()));
    assert_eq!(v("a#b@"), Some(String::new()));
    assert_eq!(v("path+file:///work/rgb#0.8.91"), None);
    assert_eq!(v("two words#0.8.91"), Some("words#0.8.91".to_string()));
    assert_eq!(v("rgb"), None);
    assert_eq!(v(""), None);
}

const METADATA: &str = r#"{
  "packages": [
    {"name": "load_image", "version": "3.3.1"},
    {"name": "rgb", "version": "0.7.0"},
    {"name": "rgb", "version": "0.8.52"}
  ],
  "resolve": {
    "nodes": [
      {"id": "a", "deps": []},
      {"id": "b"},
      {"id": "c", "deps": [
        {"name": "imgref", "pkg": "registry+https://github.com/rust-lang/crates.io-index#imgref@1.9.4"},
        {"name": "rgb", "pkg": 5},
        {"name": "rgb", "pkg": "registry+https://github.com/rust-lang/crates.io-index#rgb@0.8.52"},
        {"name": "rgb", "pkg": "registry+https://github.com/rust-lang/crates.io-index#rgb@0.9.0"}
      ]}
    ]
  },
  "version": 1
}"#;

#[test]
fn test_verify_dependency_version() {
    assert_eq!(verify_dependency_version(METADATA, "rgb"), Some("0.8.52".to_string()));
    assert_eq!(verify_dependency_version(METADATA, "imgref"), Some("1.9.4".to_string()));
    // What the graph does not name is looked up among the packages.
    assert_eq!(verify_dependency_version(METADATA, "load_image"), Some("3.3.1".to_string()));
    assert_eq!(verify_dependency_version(METADATA, "serde"), None);
    assert_eq!(verify_dependency_version("", "rgb"), None);
    assert_eq!(verify_dependency_version("not json", "rgb"), None);
    assert_eq!(verify_dependency_version("{}", "rgb"), None);
    assert_eq!(verify_dependency_version(r#"{"resolve":null,"packages":3}"#, "rgb"), None);
    assert_eq!(
        verify_dependency_version(r#"{"resolve":null,"packages":[{"name":"rgb","version":"1.2.3"}]}"#, "rgb"),
        Some("1.2.3".to_string())
    );
    assert_eq!(
        verify_dependency_version(
            r#"{"resolve":{"nodes":[{"deps":[{"name":"rgb","pkg":"rgb 0.8.91 (path+file:///work/rgb)"}]}]}}"#,
            "rgb"
        ),
        Some("0.8.91".to_string())
    );
}

#[test]
fn test_compile_result_reads_diagnostics_of_check_and_test_only() {
    let output = r#"{"reason":"compiler-artifact"}
{"reason":"compiler-message","message":{"message":"cannot find value","level":"error","spans":[],"rendered":"error: cannot find value"}}"#;
    for step in [CompileStep::Check, CompileStep::Test] {
        let r = compile_result(step, false, output.to_string(), "stderr text".to_string(), 2345);
        assert_eq!(r.step, step);
        assert!(!r.success);
        assert!(r.failed());
        assert_eq!(r.stdout, output);
        assert_eq!(r.stderr, "stderr text");
        assert_eq!(r.duration_ms, 2345);
        assert_eq!(r.diagnostics.len(), 1);
        assert_eq!(r.diagnostics[0].message, "cannot find value");
        assert_eq!(r.diagnostics[0].rendered, "error: cannot find value");
    }
    let r = compile_result(CompileStep::Fetch, true, output.to_string(), String::new(), 7);
    assert_eq!(r.step, CompileStep::Fetch);
    assert!(r.success);
    assert_eq!(r.stdout, output);
    assert_eq!(r.stderr, "");
    assert_eq!(r.duration_ms, 7);
    assert!(r.diagnostics.is_empty());
}
