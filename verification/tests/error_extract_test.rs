use cargo_crusader::error_extract::{
    convert_compiler_message, extract_error_summary, format_diagnostic_text, CompilerMessage,
    Diagnostic, DiagnosticLevel, ErrorCode, Span, SpanInfo,
};

fn span(file: &str, line: usize, column: usize, primary: bool, label: Option<&str>) -> Span {
    Span {
        file_name: file.to_string(),
        line_start: line,
        line_end: line,
        column_start: column,
        column_end: column + 2,
        is_primary: primary,
        label: label.map(|l| l.to_string()),
        text: Vec::new(),
    }
}

fn message(level: &str, text: &str, code: Option<&str>, spans: Vec<Span>, rendered: Option<&str>) -> CompilerMessage {
    CompilerMessage {
        message: text.to_string(),
        level: level.to_string(),
        code: code.map(|c| ErrorCode { code: c.to_string(), explanation: None }),
        spans,
        children: Vec::new(),
        rendered: rendered.map(|r| r.to_string()),
    }
}

#[test]
fn test_error_summary() {
    let diagnostics = vec![
        Diagnostic {
            level: DiagnosticLevel::Error,
            code: Some("E0425".to_string()),
            message: "cannot find value `foo`".to_string(),
            rendered: "full error text".to_string(),
            primary_span: Some(SpanInfo {
                file_name: "src/main.rs".to_string(),
                line: 10,
                column: 5,
                label: Some("not found in this scope".to_string()),
            }),
        },
        Diagnostic {
            level: DiagnosticLevel::Warning,
            code: None,
            message: "unused variable".to_string(),
            rendered: "warning text".to_string(),
            primary_span: None,
        },
    ];

    let summary = extract_error_summary(&diagnostics);
    assert!(summary.contains("error[E0425]"));
    assert!(summary.contains("cannot find value"));
    assert!(summary.contains("src/main.rs:10:5"));
    assert!(!summary.contains("unused variable"));
    assert_eq!(
        summary,
        "error[E0425]: cannot find value `foo`\n --> src/main.rs:10:5\n  not found in this scope\n"
    );
}

#[test]
fn test_error_summary_separates_entries() {
    let plain = |text: &str| Diagnostic {
        level: DiagnosticLevel::Error,
        code: None,
        message: text.to_string(),
        rendered: String::new(),
        primary_span: None,
    };
    let warning = Diagnostic {
        level: DiagnosticLevel::Warning,
        code: None,
        message: "w".to_string(),
        rendered: String::new(),
        primary_span: None,
    };
    let summary = extract_error_summary(&vec![warning.clone(), plain("a"), warning, plain("b")]);
    assert_eq!(summary, "error: a\n\n\nerror: b\n");
    assert_eq!(extract_error_summary(&vec![]), "");
}

#[test]
fn test_level_from_str() {
    assert_eq!(DiagnosticLevel::from_str("error"), DiagnosticLevel::Error);
    assert_eq!(DiagnosticLevel::from_str("warning"), DiagnosticLevel::Warning);
    assert_eq!(DiagnosticLevel::from_str("help"), DiagnosticLevel::Help);
    assert_eq!(DiagnosticLevel::from_str("note"), DiagnosticLevel::Note);
    assert_eq!(
        DiagnosticLevel::from_str("failure-note"),
        DiagnosticLevel::Other("failure-note".to_string())
    );
    assert!(DiagnosticLevel::from_str("error").is_error());
    assert!(!DiagnosticLevel::from_str("Error").is_error());
}

#[test]
fn test_convert_keeps_errors_and_warnings_only() {
    assert!(convert_compiler_message(&message("help", "h", None, vec![], None)).is_none());
    assert!(convert_compiler_message(&message("note", "n", None, vec![], None)).is_none());
    assert!(convert_compiler_message(&message("", "n", None, vec![], None)).is_none());
    let w = convert_compiler_message(&message("warning", "unused", None, vec![], Some("shown"))).unwrap();
    assert_eq!(w.level, DiagnosticLevel::Warning);
    assert_eq!(w.rendered, "shown");
    assert!(w.code.is_none());
    assert!(w.primary_span.is_none());
}

#[test]
fn test_convert_takes_first_primary_span() {
    let spans = vec![
        span("a.rs", 1, 1, false, None),
        span("b.rs", 6, 5, true, Some("expected `String`, found integer")),
        span("c.rs", 9, 9, true, None),
    ];
    let d = convert_compiler_message(&message("error", "mismatched types", Some("E0308"), spans, None)).unwrap();
    assert!(d.level.is_error());
    assert_eq!(d.code.as_deref(), Some("E0308"));
    assert_eq!(d.message, "mismatched types");
    let at = d.primary_span.unwrap();
    assert_eq!(at.file_name, "b.rs");
    assert_eq!((at.line, at.column), (6, 5));
    assert_eq!(at.label.as_deref(), Some("expected `String`, found integer"));
    assert_eq!(d.rendered, "error[E0308]: mismatched types\n --> b.rs:6:5\n");
}

#[test]
fn test_format_diagnostic_text() {
    assert_eq!(
        format_diagnostic_text(&message("warning", "unused variable", None, vec![], None)),
        "warning: unused variable\n"
    );
    assert_eq!(
        format_diagnostic_text(&message(
            "error",
            "boom",
            Some("E0001"),
            vec![span("src/lib.rs", 12345, 678, true, None)],
            Some("ignored")
        )),
        "error[E0001]: boom\n --> src/lib.rs:12345:678\n"
    );
}
