//! Compiler diagnostics as the build tool reports them, and their reduction
//! to what the report shows.
//!
//! The build tool writes one structured message per line of its standard
//! output. A [`CargoMessage`] is one such message after decoding; a
//! [`Diagnostic`] is what is kept of a compiler message of level `error` or
//! `warning`.

use vstd::prelude::*;
use vstd::string::*;
use crate::text::{decimal, owned, push_usize, same_text};

verus! {

/// One decoded line of structured build output.
#[derive(Debug)]
pub struct CargoMessage {
    pub reason: String,
    pub message: Option<CompilerMessage>,
}

/// A compiler message, possibly with nested child messages.
#[derive(Debug)]
pub struct CompilerMessage {
    pub message: String,
    pub level: String,
    pub code: Option<ErrorCode>,
    pub spans: Vec<Span>,
    pub children: Vec<CompilerMessage>,
    pub rendered: Option<String>,
}

#[derive(Debug, Clone)]
pub struct ErrorCode {
    pub code: String,
    pub explanation: Option<String>,
}

/// A source region that a compiler message points at.
#[derive(Debug, Clone)]
pub struct Span {
    pub file_name: String,
    pub line_start: usize,
    pub line_end: usize,
    pub column_start: usize,
    pub column_end: usize,
    pub is_primary: bool,
    pub label: Option<String>,
    pub text: Vec<SpanText>,
}

#[derive(Debug, Clone)]
pub struct SpanText {
    pub text: String,
}

/// Severity of a diagnostic.
#[derive(Debug, Clone, PartialEq, Eq)]
pub enum DiagnosticLevel {
    Error,
    Warning,
    Help,
    Note,
    Other(String),
}

/// Where a diagnostic points.
#[derive(Debug, Clone)]
pub struct SpanInfo {
    pub file_name: String,
    pub line: usize,
    pub column: usize,
    pub label: Option<String>,
}

/// A compiler message reduced to what the report uses.
#[derive(Debug, Clone)]
pub struct Diagnostic {
    pub level: DiagnosticLevel,
    pub code: Option<String>,
    pub message: String,
    pub rendered: String,
    pub primary_span: Option<SpanInfo>,
}

/// Mathematical value of a [`DiagnosticLevel`].
pub enum LevelView {
    Error,
    Warning,
    Help,
    Note,
    Other(Seq<char>),
}

/// Mathematical value of a [`SpanInfo`].
pub struct SpanInfoView {
    pub file_name: Seq<char>,
    pub line: nat,
    pub column: nat,
    pub label: Option<Seq<char>>,
}

/// Mathematical value of a [`Diagnostic`].
pub struct DiagnosticView {
    pub level: LevelView,
    pub code: Option<Seq<char>>,
    pub message: Seq<char>,
    pub rendered: Seq<char>,
    pub primary_span: Option<SpanInfoView>,
}

/// The text of an optional string.
pub open spec fn text_of(o: Option<String>) -> Option<Seq<char>> {
    match o {
        Some(s) => Some(s@),
        None => None,
    }
}

impl View for DiagnosticLevel {
    type V = LevelView;

    open spec fn view(&self) -> LevelView {
        match *self {
            DiagnosticLevel::Error => LevelView::Error,
            DiagnosticLevel::Warning => LevelView::Warning,
            DiagnosticLevel::Help => LevelView::Help,
            DiagnosticLevel::Note => LevelView::Note,
            DiagnosticLevel::Other(s) => LevelView::Other(s@),
        }
    }
}

impl View for SpanInfo {
    type V = SpanInfoView;

    open spec fn view(&self) -> SpanInfoView {
        SpanInfoView {
            file_name: self.file_name@,
            line: self.line as nat,
            column: self.column as nat,
            label: text_of(self.label),
        }
    }
}

impl View for Diagnostic {
    type V = DiagnosticView;

    open spec fn view(&self) -> DiagnosticView {
        DiagnosticView {
            level: self.level@,
            code: text_of(self.code),
            message: self.message@,
            rendered: self.rendered@,
            primary_span: match self.primary_span {
                Some(s) => Some(s@),
                None => None,
            },
        }
    }
}

/// The level that a level word stands for.
pub open spec fn level_of(word: Seq<char>) -> LevelView {
    if word == "error"@ {
        LevelView::Error
    } else if word == "warning"@ {
        LevelView::Warning
    } else if word == "help"@ {
        LevelView::Help
    } else if word == "note"@ {
        LevelView::Note
    } else {
        LevelView::Other(word)
    }
}

impl DiagnosticLevel {
    /// Reads a level word; an unknown word is kept as it is.
    pub fn from_str(s: &str) -> (r: Self)
        ensures
            r@ == level_of(s@),
    {
        if same_text(s, "error") {
            DiagnosticLevel::Error
        } else if same_text(s, "warning") {
            DiagnosticLevel::Warning
        } else if same_text(s, "help") {
            DiagnosticLevel::Help
        } else if same_text(s, "note") {
            DiagnosticLevel::Note
        } else {
            DiagnosticLevel::Other(owned(s))
        }
    }

    pub fn is_error(&self) -> (b: bool)
        ensures
            b == (self@ is Error),
    {
        match self {
            DiagnosticLevel::Error => true,
            _ => false,
        }
    }
}

/// Mathematical value of an [`ErrorCode`].
pub struct CodeView {
    pub code: Seq<char>,
    pub explanation: Option<Seq<char>>,
}

/// Mathematical value of a [`Span`].
pub struct SpanView {
    pub file_name: Seq<char>,
    pub line_start: nat,
    pub line_end: nat,
    pub column_start: nat,
    pub column_end: nat,
    pub is_primary: bool,
    pub label: Option<Seq<char>>,
    pub text: Seq<Seq<char>>,
}

/// Mathematical value of a [`CompilerMessage`], without its child
/// messages.
pub struct MessageView {
    pub message: Seq<char>,
    pub level: Seq<char>,
    pub code: Option<CodeView>,
    pub spans: Seq<SpanView>,
    pub rendered: Option<Seq<char>>,
}

/// Mathematical value of a [`CargoMessage`].
pub struct CargoMessageView {
    pub reason: Seq<char>,
    pub message: Option<MessageView>,
}

impl View for ErrorCode {
    type V = CodeView;

    open spec fn view(&self) -> CodeView {
        CodeView { code: self.code@, explanation: text_of(self.explanation) }
    }
}

impl View for Span {
    type V = SpanView;

    open spec fn view(&self) -> SpanView {
        SpanView {
            file_name: self.file_name@,
            line_start: self.line_start as nat,
            line_end: self.line_end as nat,
            column_start: self.column_start as nat,
            column_end: self.column_end as nat,
            is_primary: self.is_primary,
            label: text_of(self.label),
            text: Seq::new(self.text@.len(), |i: int| self.text@[i].text@),
        }
    }
}

impl View for CompilerMessage {
    type V = MessageView;

    open spec fn view(&self) -> MessageView {
        MessageView {
            message: self.message@,
            level: self.level@,
            code: match self.code {
                Some(c) => Some(c@),
                None => None,
            },
            spans: Seq::new(self.spans@.len(), |i: int| self.spans@[i]@),
            rendered: text_of(self.rendered),
        }
    }
}

impl View for CargoMessage {
    type V = CargoMessageView;

    open spec fn view(&self) -> CargoMessageView {
        CargoMessageView {
            reason: self.reason@,
            message: match self.message {
                Some(m) => Some(m@),
                None => None,
            },
        }
    }
}

/// Index of the first primary span at or after `from`, if there is one.
pub open spec fn first_primary(spans: Seq<SpanView>, from: int) -> Option<int>
    decreases spans.len() - from,
{
    if from < 0 || from >= spans.len() {
        None
    } else if spans[from].is_primary {
        Some(from)
    } else {
        first_primary(spans, from + 1)
    }
}

/// What is kept of a span.
pub open spec fn span_info_of(s: SpanView) -> SpanInfoView {
    SpanInfoView {
        file_name: s.file_name,
        line: s.line_start,
        column: s.column_start,
        label: s.label,
    }
}

/// The location of the first primary span, if any.
pub open spec fn primary_span_of(spans: Seq<SpanView>) -> Option<SpanInfoView> {
    match first_primary(spans, 0) {
        Some(i) => Some(span_info_of(spans[i])),
        None => None,
    }
}

/// The text that stands for a message that came without a rendering: a
/// header line, and a location line when there is a primary span.
pub open spec fn diagnostic_text(msg: MessageView) -> Seq<char> {
    (match msg.code {
        Some(code) => msg.level + "["@ + code.code + "]: "@ + msg.message + "\n"@,
        None => msg.level + ": "@ + msg.message + "\n"@,
    }) + (match first_primary(msg.spans, 0) {
        Some(i) => " --> "@ + msg.spans[i].file_name + ":"@ + decimal(msg.spans[i].line_start)
            + ":"@ + decimal(msg.spans[i].column_start) + "\n"@,
        None => Seq::<char>::empty(),
    })
}

/// The diagnostic that a compiler message yields: none unless its level is
/// `error` or `warning`.
pub open spec fn diagnostic_of(msg: MessageView) -> Option<DiagnosticView> {
    let level = level_of(msg.level);
    if level is Error || level is Warning {
        Some(
            DiagnosticView {
                level,
                code: match msg.code {
                    Some(c) => Some(c.code),
                    None => None,
                },
                message: msg.message,
                rendered: match msg.rendered {
                    Some(r) => r,
                    None => diagnostic_text(msg),
                },
                primary_span: primary_span_of(msg.spans),
            },
        )
    } else {
        None
    }
}

/// The value of an optional diagnostic.
pub open spec fn diagnostic_view(o: Option<Diagnostic>) -> Option<DiagnosticView> {
    match o {
        Some(d) => Some(d@),
        None => None,
    }
}

fn find_primary(msg: &CompilerMessage) -> (r: Option<usize>)
    ensures
        match r {
            Some(i) => first_primary(msg@.spans, 0) == Some(i as int) && i < msg.spans.len(),
            None => first_primary(msg@.spans, 0) is None,
        },
{
    let mut i: usize = 0;
    while i < msg.spans.len()
        invariant
            i <= msg.spans.len(),
            first_primary(msg@.spans, 0) == first_primary(msg@.spans, i as int),
        decreases msg.spans.len() - i,
    {
        assert(msg@.spans[i as int] == msg.spans@[i as int]@);
        if msg.spans[i].is_primary {
            return Some(i);
        }
        i = i + 1;
    }
    None
}

fn copy_label(label: &Option<String>) -> (r: Option<String>)
    ensures
        r == *label,
{
    match label {
        Some(s) => Some(s.clone()),
        None => None,
    }
}

/// Renders a message that came without a rendering of its own.
pub fn format_diagnostic_text(msg: &CompilerMessage) -> (r: String)
    ensures
        r@ == diagnostic_text(msg@),
{
    let mut out = owned(msg.level.as_str());
    match &msg.code {
        Some(code) => {
            out.append("[");
            out.append(code.code.as_str());
            out.append("]: ");
        },
        None => {
            out.append(": ");
        },
    }
    out.append(msg.message.as_str());
    out.append("\n");
    match find_primary(msg) {
        Some(i) => {
            let span = &msg.spans[i];
            assert(msg@.spans[i as int] == span@);
            let ghost head = out@;
            out.append(" --> ");
            out.append(span.file_name.as_str());
            out.append(":");
            push_usize(&mut out, span.line_start);
            out.append(":");
            push_usize(&mut out, span.column_start);
            out.append("\n");
            assert(out@ =~= head + (" --> "@ + span.file_name@ + ":"@ + decimal(
                span.line_start as nat,
            ) + ":"@ + decimal(span.column_start as nat) + "\n"@));
        },
        None => {
            assert(out@ =~= out@ + Seq::<char>::empty());
        },
    }
    out
}

/// Reduces a compiler message to a diagnostic. Messages of a level other
/// than `error` and `warning` yield none; they reach the report inside the
/// rendering of the message they belong to.
pub fn convert_compiler_message(msg: &CompilerMessage) -> (r: Option<Diagnostic>)
    ensures
        diagnostic_view(r) == diagnostic_of(msg@),
{
    let level = DiagnosticLevel::from_str(msg.level.as_str());
    match level {
        DiagnosticLevel::Error | DiagnosticLevel::Warning => {},
        _ => {
            return None;
        },
    }
    let code = match &msg.code {
        Some(c) => Some(c.code.clone()),
        None => None,
    };
    let primary_span = match find_primary(msg) {
        Some(i) => {
            let s = &msg.spans[i];
            assert(msg@.spans[i as int] == s@);
            Some(
                SpanInfo {
                    file_name: s.file_name.clone(),
                    line: s.line_start,
                    column: s.column_start,
                    label: copy_label(&s.label),
                },
            )
        },
        None => None,
    };
    let rendered = match &msg.rendered {
        Some(r) => r.clone(),
        None => format_diagnostic_text(msg),
    };
    Some(Diagnostic { level, code, message: msg.message.clone(), rendered, primary_span })
}

/// The first line of a summary entry: the message with its code.
pub open spec fn summary_header(d: DiagnosticView) -> Seq<char> {
    match d.code {
        Some(code) => "error["@ + code + "]: "@ + d.message + "\n"@,
        None => "error: "@ + d.message + "\n"@,
    }
}

/// The lines of a summary entry that say where the error is: the location,
/// and the label of the span when it has one.
pub open spec fn summary_location(span: SpanInfoView) -> Seq<char> {
    " --> "@ + span.file_name + ":"@ + decimal(span.line) + ":"@ + decimal(span.column) + "\n"@
        + (match span.label {
        Some(label) => "  "@ + label + "\n"@,
        None => Seq::<char>::empty(),
    })
}

/// The lines that the summary shows for one error.
pub open spec fn summary_entry(d: DiagnosticView) -> Seq<char> {
    summary_header(d) + (match d.primary_span {
        Some(span) => summary_location(span),
        None => Seq::<char>::empty(),
    })
}

/// The summary of the first `n` diagnostics: the entries of those of level
/// `error`, in order, with an empty line between two entries.
pub open spec fn error_summary(ds: Seq<Diagnostic>, n: int) -> Seq<char>
    decreases n,
{
    if n <= 0 {
        Seq::<char>::empty()
    } else {
        let head = error_summary(ds, n - 1);
        let d = ds[n - 1]@;
        if !(d.level is Error) {
            head
        } else if head.len() > 0 {
            head + "\n\n"@ + summary_entry(d)
        } else {
            summary_entry(d)
        }
    }
}

/// An entry is never empty.
pub proof fn lemma_summary_entry_nonempty(d: DiagnosticView)
    ensures
        summary_entry(d).len() > 0,
{
    reveal_strlit("\n");
}

fn push_summary_header(out: &mut String, d: &Diagnostic)
    ensures
        final(out)@ == old(out)@ + summary_header(d@),
{
    match &d.code {
        Some(code) => {
            out.append("error[");
            out.append(code.as_str());
            out.append("]: ");
            out.append(d.message.as_str());
            out.append("\n");
            assert(out@ =~= old(out)@ + ("error["@ + code@ + "]: "@ + d.message@ + "\n"@));
        },
        None => {
            out.append("error: ");
            out.append(d.message.as_str());
            out.append("\n");
            assert(out@ =~= old(out)@ + ("error: "@ + d.message@ + "\n"@));
        },
    }
}

fn push_summary_location(out: &mut String, span: &SpanInfo)
    ensures
        final(out)@ == old(out)@ + summary_location(span@),
{
    out.append(" --> ");
    out.append(span.file_name.as_str());
    out.append(":");
    push_usize(out, span.line);
    out.append(":");
    push_usize(out, span.column);
    out.append("\n");
    let ghost place = " --> "@ + span.file_name@ + ":"@ + decimal(span.line as nat) + ":"@
        + decimal(span.column as nat) + "\n"@;
    assert(out@ =~= old(out)@ + place);
    match &span.label {
        Some(label) => {
            out.append("  ");
            out.append(label.as_str());
            out.append("\n");
            assert(out@ =~= old(out)@ + (place + ("  "@ + label@ + "\n"@)));
        },
        None => {
            assert(out@ =~= old(out)@ + (place + Seq::<char>::empty()));
        },
    }
}

/// Summarises the errors among `diagnostics` for quick display; warnings
/// are left out. The result is empty when there is no error.
pub fn extract_error_summary(diagnostics: &[Diagnostic]) -> (r: String)
    ensures
        r@ == error_summary(diagnostics@, diagnostics@.len() as int),
{
    let mut out = String::new();
    let mut any = false;
    let mut i: usize = 0;
    while i < diagnostics.len()
        invariant
            i <= diagnostics@.len(),
            out@ == error_summary(diagnostics@, i as int),
            any == (out@.len() > 0),
        decreases diagnostics@.len() - i,
    {
        let d = &diagnostics[i];
        if d.level.is_error() {
            let ghost head = out@;
            if any {
                out.append("\n\n");
            }
            let ghost start = out@;
            push_summary_header(&mut out, d);
            match &d.primary_span {
                Some(span) => {
                    push_summary_location(&mut out, span);
                },
                None => {},
            }
            proof {
                lemma_summary_entry_nonempty(d@);
                assert(out@ =~= start + summary_entry(d@));
            }
            any = true;
        }
        i = i + 1;
    }
    out
}

} // verus!
