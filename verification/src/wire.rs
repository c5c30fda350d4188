//! The wire format of the build tool's structured output.
//!
//! Every line of the output that is not blank is tried as a JSON object
//! with a `reason` and, for compiler messages, a `message`. A line that is
//! no JSON, or whose fields are not of the kinds written down below, is
//! passed over. Child messages are not read: what they say reaches the
//! report inside the rendering of the message they belong to.

use vstd::prelude::*;
use vstd::string::*;
use crate::error_extract::{
    convert_compiler_message,
    diagnostic_of,
    text_of,
    CargoMessage,
    CargoMessageView,
    CodeView,
    CompilerMessage,
    Diagnostic,
    DiagnosticView,
    ErrorCode,
    MessageView,
    Span,
    SpanText,
    SpanView,
};
use crate::json::{
    boolean,
    field,
    is_null,
    items,
    json_bool,
    json_field,
    json_is_null,
    json_items,
    json_number,
    json_parsed,
    json_text,
    number,
    parse,
    text,
    text_at,
    text_field,
};
use crate::compile::{CompileResult, CompileResultView, CompileStep};
use crate::rows::views;
use crate::text::{all_lines, blank, is_blank, lines_of, same_text, texts_of};

verus! {

/// A field that may be left out: `Some(None)` if it is not there or is
/// `null`, `Some(Some(text))` if it is a string, and `None` if it is
/// anything else.
pub open spec fn optional_text(value: serde_json::Value, key: Seq<char>) -> Option<
    Option<Seq<char>>,
> {
    match json_field(value, key) {
        None => Some(None),
        Some(v) => if json_is_null(v) {
            Some(None)
        } else {
            match json_text(v) {
                Some(t) => Some(Some(t)),
                None => None,
            }
        },
    }
}

/// A number field that a `usize` holds.
pub open spec fn size_field(value: serde_json::Value, key: Seq<char>) -> Option<usize> {
    match json_field(value, key) {
        Some(v) => match json_number(v) {
            Some(n) => if n <= usize::MAX {
                Some(n as usize)
            } else {
                None
            },
            None => None,
        },
        None => None,
    }
}

/// A boolean field.
pub open spec fn bool_field(value: serde_json::Value, key: Seq<char>) -> Option<bool> {
    match json_field(value, key) {
        Some(v) => json_bool(v),
        None => None,
    }
}

/// The source lines of the first `n` items of a span's `text`, each of
/// which must have a string `text`.
pub open spec fn span_texts(items: Seq<serde_json::Value>, n: int) -> Option<Seq<Seq<char>>>
    decreases n,
{
    if n <= 0 {
        Some(Seq::<Seq<char>>::empty())
    } else {
        match (span_texts(items, n - 1), text_field(items[n - 1], "text"@)) {
            (Some(head), Some(t)) => Some(head.push(t)),
            _ => None,
        }
    }
}

/// The source lines of a span: none if `text` is left out.
pub open spec fn span_text_of(value: serde_json::Value) -> Option<Seq<Seq<char>>> {
    match json_field(value, "text"@) {
        None => Some(Seq::<Seq<char>>::empty()),
        Some(t) => match json_items(t) {
            Some(items) => span_texts(items, items.len() as int),
            None => None,
        },
    }
}

/// The span that a JSON value stands for. The file name, the four
/// positions and `is_primary` must be there; the label may be left out.
pub open spec fn span_of(value: serde_json::Value) -> Option<SpanView> {
    match (
        text_field(value, "file_name"@),
        size_field(value, "line_start"@),
        size_field(value, "line_end"@),
        size_field(value, "column_start"@),
        size_field(value, "column_end"@),
        bool_field(value, "is_primary"@),
        optional_text(value, "label"@),
        span_text_of(value),
    ) {
        (
            Some(file_name),
            Some(line_start),
            Some(line_end),
            Some(column_start),
            Some(column_end),
            Some(is_primary),
            Some(label),
            Some(text),
        ) => Some(
            SpanView {
                file_name,
                line_start: line_start as nat,
                line_end: line_end as nat,
                column_start: column_start as nat,
                column_end: column_end as nat,
                is_primary,
                label,
                text,
            },
        ),
        _ => None,
    }
}

/// The spans that the first `n` items stand for, if each stands for one.
pub open spec fn spans_of(items: Seq<serde_json::Value>, n: int) -> Option<Seq<SpanView>>
    decreases n,
{
    if n <= 0 {
        Some(Seq::<SpanView>::empty())
    } else {
        match (spans_of(items, n - 1), span_of(items[n - 1])) {
            (Some(head), Some(s)) => Some(head.push(s)),
            _ => None,
        }
    }
}

/// The spans of a message: none if `spans` is left out.
pub open spec fn message_spans(value: serde_json::Value) -> Option<Seq<SpanView>> {
    match json_field(value, "spans"@) {
        None => Some(Seq::<SpanView>::empty()),
        Some(s) => match json_items(s) {
            Some(items) => spans_of(items, items.len() as int),
            None => None,
        },
    }
}

/// The code of a message: `Some(None)` if `code` is left out or `null`;
/// otherwise it must have a string `code` and may have an `explanation`.
pub open spec fn message_code(value: serde_json::Value) -> Option<Option<CodeView>> {
    match json_field(value, "code"@) {
        None => Some(None),
        Some(c) => if json_is_null(c) {
            Some(None)
        } else {
            match (text_field(c, "code"@), optional_text(c, "explanation"@)) {
                (Some(code), Some(explanation)) => Some(Some(CodeView { code, explanation })),
                _ => None,
            }
        },
    }
}

/// The level of a message: empty if `level` is left out.
pub open spec fn message_level(value: serde_json::Value) -> Option<Seq<char>> {
    match json_field(value, "level"@) {
        None => Some(Seq::<char>::empty()),
        Some(l) => json_text(l),
    }
}

/// The compiler message that a JSON value stands for. The `message` must
/// be there; level, code, spans and rendering may be left out.
pub open spec fn message_of(value: serde_json::Value) -> Option<MessageView> {
    match (
        text_field(value, "message"@),
        message_level(value),
        message_code(value),
        message_spans(value),
        optional_text(value, "rendered"@),
    ) {
        (Some(message), Some(level), Some(code), Some(spans), Some(rendered)) => Some(
            MessageView { message, level, code, spans, rendered },
        ),
        _ => None,
    }
}

/// The message of the build tool that a JSON value stands for. The
/// `reason` must be there; the `message` may be left out.
pub open spec fn cargo_message_of(value: serde_json::Value) -> Option<CargoMessageView> {
    match text_field(value, "reason"@) {
        None => None,
        Some(reason) => match json_field(value, "message"@) {
            None => Some(CargoMessageView { reason, message: None }),
            Some(m) => if json_is_null(m) {
                Some(CargoMessageView { reason, message: None })
            } else {
                match message_of(m) {
                    Some(message) => Some(CargoMessageView { reason, message: Some(message) }),
                    None => None,
                }
            },
        },
    }
}

/// The message that a line of output stands for, if it stands for one.
pub open spec fn line_message(line: Seq<char>) -> Option<CargoMessageView> {
    if is_blank(line) {
        None
    } else {
        match json_parsed(line) {
            Some(value) => cargo_message_of(value),
            None => None,
        }
    }
}

/// The diagnostic that a line of output yields: that of its compiler
/// message, if it is one.
pub open spec fn line_diagnostic(line: Seq<char>) -> Option<DiagnosticView> {
    match line_message(line) {
        Some(m) => if m.reason == "compiler-message"@ {
            match m.message {
                Some(message) => diagnostic_of(message),
                None => None,
            }
        } else {
            None
        },
        None => None,
    }
}

/// The diagnostics that the first `n` lines yield, in order.
pub open spec fn diagnostics_of(lines: Seq<Seq<char>>, n: int) -> Seq<DiagnosticView>
    decreases n,
{
    if n <= 0 {
        Seq::<DiagnosticView>::empty()
    } else {
        match line_diagnostic(lines[n - 1]) {
            Some(d) => diagnostics_of(lines, n - 1).push(d),
            None => diagnostics_of(lines, n - 1),
        }
    }
}

fn read_optional_text(value: &serde_json::Value, key: &str) -> (r: Option<Option<String>>)
    ensures
        match r {
            Some(o) => optional_text(*value, key@) == Some(text_of(o)),
            None => optional_text(*value, key@) is None,
        },
{
    match field(value, key) {
        None => Some(None),
        Some(v) => {
            if is_null(v) {
                Some(None)
            } else {
                match text(v) {
                    Some(t) => Some(Some(t)),
                    None => None,
                }
            }
        },
    }
}

fn read_size(value: &serde_json::Value, key: &str) -> (r: Option<usize>)
    ensures
        r == size_field(*value, key@),
{
    match field(value, key) {
        Some(v) => match number(v) {
            Some(n) => {
                if n <= usize::MAX as u64 {
                    Some(n as usize)
                } else {
                    None
                }
            },
            None => None,
        },
        None => None,
    }
}

fn read_bool(value: &serde_json::Value, key: &str) -> (r: Option<bool>)
    ensures
        r == bool_field(*value, key@),
{
    match field(value, key) {
        Some(v) => boolean(v),
        None => None,
    }
}

/// The texts of a list of span texts.
pub open spec fn span_text_views(v: Seq<SpanText>) -> Seq<Seq<char>> {
    Seq::new(v.len(), |i: int| v[i].text@)
}

fn read_span_text(value: &serde_json::Value) -> (r: Option<Vec<SpanText>>)
    ensures
        match r {
            Some(t) => span_text_of(*value) == Some(span_text_views(t@)),
            None => span_text_of(*value) is None,
        },
{
    let mut out: Vec<SpanText> = Vec::new();
    let list = match field(value, "text") {
        None => {
            assert(span_text_views(out@) =~= Seq::<Seq<char>>::empty());
            return Some(out);
        },
        Some(t) => match items(t) {
            Some(list) => list,
            None => {
                return None;
            },
        },
    };
    let mut i: usize = 0;
    assert(span_text_views(out@) =~= Seq::<Seq<char>>::empty());
    while i < list.len()
        invariant
            i <= list.len(),
            span_text_of(*value) == span_texts(list@, list@.len() as int),
            span_texts(list@, i as int) == Some(span_text_views(out@)),
        decreases list.len() - i,
    {
        match text_at(&list[i], "text") {
            Some(t) => {
                let ghost before = span_text_views(out@);
                out.push(SpanText { text: t });
                assert(span_text_views(out@) =~= before.push(t@));
            },
            None => {
                proof {
                    lemma_span_texts_fail(list@, i as int + 1, list@.len() as int);
                }
                return None;
            },
        }
        i = i + 1;
    }
    Some(out)
}

/// Once an item fails, the list fails.
proof fn lemma_span_texts_fail(items: Seq<serde_json::Value>, i: int, n: int)
    requires
        0 <= i <= n,
        span_texts(items, i) is None,
    ensures
        span_texts(items, n) is None,
    decreases n - i,
{
    if i < n {
        lemma_span_texts_fail(items, i, n - 1);
    }
}

/// Once an item fails, the list fails.
proof fn lemma_spans_fail(items: Seq<serde_json::Value>, i: int, n: int)
    requires
        0 <= i <= n,
        spans_of(items, i) is None,
    ensures
        spans_of(items, n) is None,
    decreases n - i,
{
    if i < n {
        lemma_spans_fail(items, i, n - 1);
    }
}

fn read_span(value: &serde_json::Value) -> (r: Option<Span>)
    ensures
        match r {
            Some(s) => span_of(*value) == Some(s@),
            None => span_of(*value) is None,
        },
{
    let file_name = match text_at(value, "file_name") {
        Some(t) => t,
        None => {
            return None;
        },
    };
    let line_start = match read_size(value, "line_start") {
        Some(n) => n,
        None => {
            return None;
        },
    };
    let line_end = match read_size(value, "line_end") {
        Some(n) => n,
        None => {
            return None;
        },
    };
    let column_start = match read_size(value, "column_start") {
        Some(n) => n,
        None => {
            return None;
        },
    };
    let column_end = match read_size(value, "column_end") {
        Some(n) => n,
        None => {
            return None;
        },
    };
    let is_primary = match read_bool(value, "is_primary") {
        Some(b) => b,
        None => {
            return None;
        },
    };
    let label = match read_optional_text(value, "label") {
        Some(l) => l,
        None => {
            return None;
        },
    };
    let text = match read_span_text(value) {
        Some(t) => t,
        None => {
            return None;
        },
    };
    let span = Span {
        file_name,
        line_start,
        line_end,
        column_start,
        column_end,
        is_primary,
        label,
        text,
    };
    assert(span@.text =~= span_text_views(text@));
    Some(span)
}

fn read_spans(value: &serde_json::Value) -> (r: Option<Vec<Span>>)
    ensures
        match r {
            Some(s) => message_spans(*value) == Some(views(s@)),
            None => message_spans(*value) is None,
        },
{
    let mut out: Vec<Span> = Vec::new();
    let list = match field(value, "spans") {
        None => {
            assert(views(out@) =~= Seq::<SpanView>::empty());
            return Some(out);
        },
        Some(s) => match items(s) {
            Some(list) => list,
            None => {
                return None;
            },
        },
    };
    let mut i: usize = 0;
    assert(views(out@) =~= Seq::<SpanView>::empty());
    while i < list.len()
        invariant
            i <= list.len(),
            message_spans(*value) == spans_of(list@, list@.len() as int),
            spans_of(list@, i as int) == Some(views(out@)),
        decreases list.len() - i,
    {
        match read_span(&list[i]) {
            Some(s) => {
                let ghost before = views(out@);
                out.push(s);
                assert(views(out@) =~= before.push(s@));
            },
            None => {
                proof {
                    lemma_spans_fail(list@, i as int + 1, list@.len() as int);
                }
                return None;
            },
        }
        i = i + 1;
    }
    Some(out)
}

fn read_code(value: &serde_json::Value) -> (r: Option<Option<ErrorCode>>)
    ensures
        match r {
            Some(Some(c)) => message_code(*value) == Some(Some(c@)),
            Some(None) => message_code(*value) == Some(None::<CodeView>),
            None => message_code(*value) is None,
        },
{
    match field(value, "code") {
        None => Some(None),
        Some(c) => {
            if is_null(c) {
                Some(None)
            } else {
                let code = match text_at(c, "code") {
                    Some(t) => t,
                    None => {
                        return None;
                    },
                };
                let explanation = match read_optional_text(c, "explanation") {
                    Some(e) => e,
                    None => {
                        return None;
                    },
                };
                Some(Some(ErrorCode { code, explanation }))
            }
        },
    }
}

fn read_message(value: &serde_json::Value) -> (r: Option<CompilerMessage>)
    ensures
        match r {
            Some(m) => message_of(*value) == Some(m@),
            None => message_of(*value) is None,
        },
{
    let message = match text_at(value, "message") {
        Some(t) => t,
        None => {
            return None;
        },
    };
    let level = match field(value, "level") {
        None => String::new(),
        Some(l) => match text(l) {
            Some(t) => t,
            None => {
                return None;
            },
        },
    };
    let code = match read_code(value) {
        Some(c) => c,
        None => {
            return None;
        },
    };
    let spans = match read_spans(value) {
        Some(s) => s,
        None => {
            return None;
        },
    };
    let rendered = match read_optional_text(value, "rendered") {
        Some(r) => r,
        None => {
            return None;
        },
    };
    let m = CompilerMessage { message, level, code, spans, children: Vec::new(), rendered };
    assert(m@.spans =~= views(spans@));
    Some(m)
}

/// Decodes a line of the build tool's structured output. `None` for a
/// line that is blank, is no JSON, or does not have the fields of a
/// message.
pub fn decode_line(line: &str) -> (r: Option<CargoMessage>)
    ensures
        match r {
            Some(m) => line_message(line@) == Some(m@),
            None => line_message(line@) is None,
        },
{
    if blank(line) {
        return None;
    }
    let value = match parse(line) {
        Some(v) => v,
        None => {
            return None;
        },
    };
    let reason = match text_at(&value, "reason") {
        Some(t) => t,
        None => {
            return None;
        },
    };
    match field(&value, "message") {
        None => Some(CargoMessage { reason, message: None }),
        Some(m) => {
            if is_null(m) {
                Some(CargoMessage { reason, message: None })
            } else {
                match read_message(m) {
                    Some(message) => Some(CargoMessage { reason, message: Some(message) }),
                    None => None,
                }
            }
        },
    }
}

/// Reads the diagnostics out of the build tool's structured output: for
/// every line that is a compiler message of level `error` or `warning`,
/// its diagnostic. Other lines are passed over.
pub fn parse_cargo_json(output: &str) -> (diagnostics: Vec<Diagnostic>)
    ensures
        views(diagnostics@) == diagnostics_of(lines_of(output@), lines_of(output@).len() as int),
{
    let lines = all_lines(output);
    let mut diagnostics: Vec<Diagnostic> = Vec::new();
    let mut i: usize = 0;
    assert(views(diagnostics@) =~= Seq::<DiagnosticView>::empty());
    while i < lines.len()
        invariant
            i <= lines.len(),
            texts_of(lines@) == lines_of(output@),
            views(diagnostics@) == diagnostics_of(lines_of(output@), i as int),
        decreases lines.len() - i,
    {
        assert(texts_of(lines@)[i as int] == lines@[i as int]@);
        match decode_line(lines[i].as_str()) {
            Some(m) => {
                if same_text(m.reason.as_str(), "compiler-message") {
                    match &m.message {
                        Some(message) => match convert_compiler_message(message) {
                            Some(d) => {
                                let ghost before = views(diagnostics@);
                                diagnostics.push(d);
                                assert(views(diagnostics@) =~= before.push(d@));
                            },
                            None => {},
                        },
                        None => {},
                    }
                }
            },
            None => {},
        }
        i = i + 1;
    }
    diagnostics
}

/// What a step of the build tool came to: what it wrote, how long it took,
/// and the diagnostics that its output holds. The fetch is not asked for
/// structured output, so that it has none.
pub open spec fn step_outcome(
    step: CompileStep,
    success: bool,
    stdout: Seq<char>,
    stderr: Seq<char>,
    duration_ms: u64,
) -> CompileResultView {
    CompileResultView {
        step,
        success,
        stdout,
        stderr,
        duration_ms,
        diagnostics: if step is Fetch {
            Seq::<DiagnosticView>::empty()
        } else {
            diagnostics_of(lines_of(stdout), lines_of(stdout).len() as int)
        },
    }
}

/// Puts together what a step of the build tool came to.
pub fn compile_result(
    step: CompileStep,
    success: bool,
    stdout: String,
    stderr: String,
    duration_ms: u64,
) -> (r: CompileResult)
    ensures
        r@ == step_outcome(step, success, stdout@, stderr@, duration_ms),
{
    let diagnostics = if step.wants_structured_output() {
        parse_cargo_json(stdout.as_str())
    } else {
        Vec::new()
    };
    let r = CompileResult { step, success, stdout, stderr, duration_ms, diagnostics };
    assert(r@.diagnostics =~= step_outcome(step, success, stdout@, stderr@, duration_ms).diagnostics);
    r
}

} // verus!
