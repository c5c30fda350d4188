//! The five-column result table: its frame and the cell of the first
//! column.
//!
//! The columns are Offered, Spec, Resolved, Dependent and Result. Every line
//! of the table, whatever it shows, is exactly as wide as the table.

use vstd::prelude::*;
use vstd::string::*;
use crate::compile::{MARK_FAILED, MARK_NOT_RUN, MARK_PASSED};
use crate::rows::{
    views,
    CommandType,
    CrateFailure,
    CrateFailureView,
    DependencyRef,
    DependencyRefView,
    OfferedRow,
    OfferedRowView,
    TestCommand,
    TestCommandView,
    TransitiveTestView,
    VersionSource,
};
use crate::text::{
    blank,
    centered,
    decimal,
    digit_char,
    first_lines,
    is_blank,
    leading_lines,
    owned,
    pad_center,
    pad_left,
    padded_left,
    padded_right,
    push_char,
    push_repeated,
    push_usize,
    repeated,
    texts_of,
};
use crate::width::{
    columns_of,
    display_cols,
    fitted,
    is_printable_ascii,
    lemma_cols_concat,
    lemma_cols_narrow,
    lemma_fitted_width,
    truncate_with_padding,
};

verus! {

/// The mark in front of an offered version.
#[derive(Debug, Clone, Copy, PartialEq, Eq, Structural)]
pub enum StatusIcon {
    Passed,
    Failed,
    Skipped,
}

impl StatusIcon {
    pub open spec fn text(self) -> Seq<char> {
        match self {
            StatusIcon::Passed => "✓"@,
            StatusIcon::Failed => "✗"@,
            StatusIcon::Skipped => "⊘"@,
        }
    }

    pub fn as_str(&self) -> (s: &'static str)
        ensures
            s@ == self.text(),
    {
        match self {
            StatusIcon::Passed => "✓",
            StatusIcon::Failed => "✗",
            StatusIcon::Skipped => "⊘",
        }
    }
}

/// How the build tool resolved an offered version.
#[derive(Debug, Clone, Copy, PartialEq, Eq, Structural)]
pub enum Resolution {
    /// It took exactly the version offered.
    Exact,
    /// It took another version within the dependent's requirement.
    Upgraded,
    /// The version was forced on the dependent.
    Mismatch,
}

impl Resolution {
    pub open spec fn text(self) -> Seq<char> {
        match self {
            Resolution::Exact => "="@,
            Resolution::Upgraded => "↑"@,
            Resolution::Mismatch => "≠"@,
        }
    }

    pub fn as_str(&self) -> (s: &'static str)
        ensures
            s@ == self.text(),
    {
        match self {
            Resolution::Exact => "=",
            Resolution::Upgraded => "↑",
            Resolution::Mismatch => "≠",
        }
    }
}

/// What the Offered column shows for a row.
#[derive(Debug, Clone, PartialEq)]
pub enum OfferedCell {
    /// The baseline row.
    Baseline,
    /// A row that offers a version.
    Tested { icon: StatusIcon, resolution: Resolution, version: String, forced: bool },
}

/// Mathematical value of an [`OfferedCell`].
pub enum OfferedCellView {
    Baseline,
    Tested { icon: StatusIcon, resolution: Resolution, version: Seq<char>, forced: bool },
}

impl View for OfferedCell {
    type V = OfferedCellView;

    open spec fn view(&self) -> OfferedCellView {
        match *self {
            OfferedCell::Baseline => OfferedCellView::Baseline,
            OfferedCell::Tested { icon, resolution, version, forced } => OfferedCellView::Tested {
                icon,
                resolution,
                version: version@,
                forced,
            },
        }
    }
}

/// The cell for a row. A row without an offered version is the baseline.
/// Otherwise the icon says whether every command of the row passed, and the
/// resolution is `Mismatch` for a forced version, `Exact` when the build
/// tool took the offered version and `Upgraded` when it took another.
pub open spec fn offered_cell_of(row: OfferedRowView) -> OfferedCellView {
    match row.offered {
        None => OfferedCellView::Baseline,
        Some(offered) => OfferedCellView::Tested {
            icon: if row.test.all_passed() {
                StatusIcon::Passed
            } else {
                StatusIcon::Failed
            },
            resolution: if offered.forced {
                Resolution::Mismatch
            } else if row.primary.used_offered_version {
                Resolution::Exact
            } else {
                Resolution::Upgraded
            },
            version: offered.version,
            forced: offered.forced,
        },
    }
}

/// The text of a cell: `- baseline`, or icon, space, resolution mark and
/// version, followed by ` [≠→!]` when the version was forced.
pub open spec fn offered_cell_text(cell: OfferedCellView) -> Seq<char> {
    match cell {
        OfferedCellView::Baseline => "- baseline"@,
        OfferedCellView::Tested { icon, resolution, version, forced } => icon.text() + " "@
            + resolution.text() + version + if forced {
            " [≠→!]"@
        } else {
            Seq::<char>::empty()
        },
    }
}

impl OfferedCell {
    /// The cell that stands for `row` in the Offered column.
    pub fn from_offered_row(row: &OfferedRow) -> (cell: Self)
        ensures
            cell@ == offered_cell_of(row@),
    {
        match &row.offered {
            None => OfferedCell::Baseline,
            Some(offered) => {
                let icon = if row.test.all_passed() {
                    StatusIcon::Passed
                } else {
                    StatusIcon::Failed
                };
                let resolution = if offered.forced {
                    Resolution::Mismatch
                } else if row.primary.used_offered_version {
                    Resolution::Exact
                } else {
                    Resolution::Upgraded
                };
                OfferedCell::Tested {
                    icon,
                    resolution,
                    version: offered.version.clone(),
                    forced: offered.forced,
                }
            },
        }
    }

    /// The text of the cell.
    pub fn format(&self) -> (s: String)
        ensures
            s@ == offered_cell_text(self@),
    {
        match self {
            OfferedCell::Baseline => owned("- baseline"),
            OfferedCell::Tested { icon, resolution, version, forced } => {
                let mut s = owned(icon.as_str());
                s.append(" ");
                s.append(resolution.as_str());
                s.append(version.as_str());
                if *forced {
                    s.append(" [≠→!]");
                } else {
                    assert(s@ =~= s@ + Seq::<char>::empty());
                }
                s
            },
        }
    }
}

/// The text in the Offered column depends on nothing but the row: rows of
/// equal value get the same text.
pub proof fn lemma_offered_cell_is_function_of_row(a: OfferedRow, b: OfferedRow)
    requires
        a@ == b@,
    ensures
        offered_cell_text(offered_cell_of(a@)) == offered_cell_text(offered_cell_of(b@)),
{
}

/// The widths of the five columns, in terminal columns.
pub struct TableLayout {
    pub offered: nat,
    pub spec: nat,
    pub resolved: nat,
    pub dependent: nat,
    pub result: nat,
}

/// Width of the Offered column.
pub const OFFERED_WIDTH: usize = 25;

/// Width of the Spec column.
pub const SPEC_WIDTH: usize = 12;

/// Width of the Resolved column.
pub const RESOLVED_WIDTH: usize = 18;

/// Least width of the Dependent column.
pub const DEPENDENT_MIN_WIDTH: usize = 20;

/// Width of the Result column.
pub const RESULT_WIDTH: usize = 25;

/// Columns taken by the six vertical borders of a row.
pub const BORDER_COLUMNS: usize = 6;

impl TableLayout {
    /// Width of a whole line of the table: the five columns and the six
    /// borders.
    pub open spec fn total(self) -> nat {
        self.offered + self.spec + self.resolved + self.dependent + self.result
            + BORDER_COLUMNS as nat
    }

    /// The layout for a terminal of the given width: every column but
    /// Dependent has its fixed width, and Dependent takes what is left over
    /// beyond its least width.
    pub open spec fn for_terminal(terminal_width: nat) -> TableLayout {
        let fixed = (OFFERED_WIDTH + SPEC_WIDTH + RESOLVED_WIDTH + RESULT_WIDTH + BORDER_COLUMNS) as nat;
        TableLayout {
            offered: OFFERED_WIDTH as nat,
            spec: SPEC_WIDTH as nat,
            resolved: RESOLVED_WIDTH as nat,
            dependent: if terminal_width > fixed + DEPENDENT_MIN_WIDTH {
                (terminal_width - fixed) as nat
            } else {
                DEPENDENT_MIN_WIDTH as nat
            },
            result: RESULT_WIDTH as nat,
        }
    }
}

/// The widths of the five columns of a table, fixed when the table is begun.
#[derive(Debug, Clone, Copy)]
pub struct TableWidths {
    offered: usize,
    spec: usize,
    resolved: usize,
    dependent: usize,
    result: usize,
    total: usize,
}

impl View for TableWidths {
    type V = TableLayout;

    closed spec fn view(&self) -> TableLayout {
        TableLayout {
            offered: self.offered as nat,
            spec: self.spec as nat,
            resolved: self.resolved as nat,
            dependent: self.dependent as nat,
            result: self.result as nat,
        }
    }
}

impl TableWidths {
    #[verifier::type_invariant]
    closed spec fn inv(self) -> bool {
        &&& self.offered == OFFERED_WIDTH
        &&& self.spec == SPEC_WIDTH
        &&& self.resolved == RESOLVED_WIDTH
        &&& self.result == RESULT_WIDTH
        &&& self.dependent >= DEPENDENT_MIN_WIDTH
        &&& self.total == self@.total()
    }

    /// The layout is one that [`TableWidths::new`] makes.
    pub open spec fn well_formed(self) -> bool {
        exists|terminal_width: nat| self@ == TableLayout::for_terminal(terminal_width)
    }

    /// The widths for a terminal that is `terminal_width` columns wide. The
    /// table fills the terminal when that leaves the Dependent column at
    /// least its least width, and is as wide as its least widths otherwise.
    pub fn new(terminal_width: usize) -> (w: Self)
        ensures
            w@ == TableLayout::for_terminal(terminal_width as nat),
            w.well_formed(),
            terminal_width >= 106 ==> w@.total() == terminal_width,
    {
        let fixed = OFFERED_WIDTH + SPEC_WIDTH + RESOLVED_WIDTH + RESULT_WIDTH + BORDER_COLUMNS;
        let dependent = if terminal_width > fixed + DEPENDENT_MIN_WIDTH {
            terminal_width - fixed
        } else {
            DEPENDENT_MIN_WIDTH
        };
        TableWidths {
            offered: OFFERED_WIDTH,
            spec: SPEC_WIDTH,
            resolved: RESOLVED_WIDTH,
            dependent,
            result: RESULT_WIDTH,
            total: fixed + dependent,
        }
    }

    /// Width of a whole line of the table.
    pub fn total(&self) -> (t: usize)
        ensures
            t == self@.total(),
            self.well_formed(),
    {
        proof {
            use_type_invariant(self);
            self.lemma_well_formed();
        }
        self.total
    }

    pub fn offered(&self) -> (n: usize)
        ensures
            n == self@.offered,
    {
        self.offered
    }

    pub fn spec(&self) -> (n: usize)
        ensures
            n == self@.spec,
    {
        self.spec
    }

    pub fn resolved(&self) -> (n: usize)
        ensures
            n == self@.resolved,
    {
        self.resolved
    }

    pub fn dependent(&self) -> (n: usize)
        ensures
            n == self@.dependent,
    {
        self.dependent
    }

    pub fn result(&self) -> (n: usize)
        ensures
            n == self@.result,
    {
        self.result
    }

    proof fn lemma_well_formed(self)
        requires
            self.inv(),
        ensures
            self.well_formed(),
    {
        let fixed = (OFFERED_WIDTH + SPEC_WIDTH + RESOLVED_WIDTH + RESULT_WIDTH + BORDER_COLUMNS) as nat;
        let terminal_width = (fixed + self.dependent) as nat;
        assert(self@ == TableLayout::for_terminal(terminal_width));
    }
}

/// A horizontal rule of the table: dashes under every column, `left` and
/// `right` at the ends and `mid` between two columns.
pub open spec fn rule_line(w: TableLayout, left: char, mid: char, right: char) -> Seq<char> {
    seq![left] + repeated('─', w.offered) + seq![mid] + repeated('─', w.spec) + seq![mid]
        + repeated('─', w.resolved) + seq![mid] + repeated('─', w.dependent) + seq![mid]
        + repeated('─', w.result) + seq![right]
}

/// The row of column titles.
pub open spec fn title_row(w: TableLayout) -> Seq<char> {
    seq!['│'] + centered("Offered"@, w.offered) + seq!['│'] + centered("Spec"@, w.spec) + seq![
        '│',
    ] + centered("Resolved"@, w.resolved) + seq!['│'] + centered("Dependent"@, w.dependent)
        + seq!['│'] + centered("Result         Time"@, w.result) + seq!['│']
}

/// What comes before the first row: an empty line, the banner between two
/// rules of `=` as wide as the table, an empty line, and the head of the
/// table, that is top border, titles and the rule under them.
pub open spec fn table_header(
    crate_name: Seq<char>,
    display_version: Seq<char>,
    total_deps: nat,
    w: TableLayout,
) -> Seq<char> {
    "\n"@ + repeated('=', w.total()) + "\n"@ + "Testing "@ + decimal(total_deps)
        + " reverse dependencies of "@ + crate_name + "\n"@ + "  this = "@ + display_version
        + " (your work-in-progress version)\n"@ + repeated('=', w.total()) + "\n"@ + "\n"@
        + rule_line(w, '┌', '┬', '┐') + "\n"@ + title_row(w) + "\n"@ + rule_line(w, '├', '┼', '┤')
        + "\n"@
}

/// The rule between two dependents.
pub open spec fn separator_line(w: TableLayout) -> Seq<char> {
    rule_line(w, '├', '┼', '┤')
}

/// The bottom border of the table, with its line feed.
pub open spec fn table_footer(w: TableLayout) -> Seq<char> {
    rule_line(w, '└', '┴', '┘') + "\n"@
}

/// A rule is as wide as the table.
pub proof fn lemma_rule_width(w: TableLayout, left: char, mid: char, right: char)
    requires
        columns_of(left) == 1,
        columns_of(mid) == 1,
        columns_of(right) == 1,
    ensures
        display_cols(rule_line(w, left, mid, right)) == w.total(),
{
    let line = rule_line(w, left, mid, right);
    assert forall|i: int| 0 <= i < line.len() implies columns_of(#[trigger] line[i]) == 1 by {
        let c = line[i];
        assert(c == left || c == mid || c == right || c == '─');
    }
    lemma_cols_narrow(line);
}

/// A title centred in a column that has room for it takes exactly the
/// column.
pub proof fn lemma_centered_title(title: Seq<char>, width: nat)
    requires
        title.len() <= width,
        forall|i: int| 0 <= i < title.len() ==> is_printable_ascii(#[trigger] title[i]),
    ensures
        display_cols(centered(title, width)) == width,
        centered(title, width).len() == width,
{
    let c = centered(title, width);
    assert forall|i: int| 0 <= i < c.len() implies columns_of(#[trigger] c[i]) == 1 by {
        if title.len() < width {
            let gap = (width - title.len()) as nat;
            let lead = gap / 2;
            if i < lead {
                assert(c[i] == ' ');
            } else if i < lead + title.len() {
                assert(c[i] == title[i - lead]);
            } else {
                assert(c[i] == ' ');
            }
        }
    }
    lemma_cols_narrow(c);
}

/// The title row of a table made by [`TableWidths::new`] is as wide as the
/// table.
pub proof fn lemma_title_row_width(w: TableLayout, terminal_width: nat)
    requires
        w == TableLayout::for_terminal(terminal_width),
    ensures
        display_cols(title_row(w)) == w.total(),
{
    reveal_strlit("Offered");
    reveal_strlit("Spec");
    reveal_strlit("Resolved");
    reveal_strlit("Dependent");
    reveal_strlit("Result         Time");
    lemma_centered_title("Offered"@, w.offered);
    lemma_centered_title("Spec"@, w.spec);
    lemma_centered_title("Resolved"@, w.resolved);
    lemma_centered_title("Dependent"@, w.dependent);
    lemma_centered_title("Result         Time"@, w.result);
    let bar = seq!['│'];
    assert(display_cols(bar) == 1) by {
        lemma_cols_narrow(bar);
    }
    let a = bar + centered("Offered"@, w.offered);
    lemma_cols_concat(bar, centered("Offered"@, w.offered));
    let b = a + bar;
    lemma_cols_concat(a, bar);
    let c = b + centered("Spec"@, w.spec);
    lemma_cols_concat(b, centered("Spec"@, w.spec));
    let d = c + bar;
    lemma_cols_concat(c, bar);
    let e = d + centered("Resolved"@, w.resolved);
    lemma_cols_concat(d, centered("Resolved"@, w.resolved));
    let f = e + bar;
    lemma_cols_concat(e, bar);
    let g = f + centered("Dependent"@, w.dependent);
    lemma_cols_concat(f, centered("Dependent"@, w.dependent));
    let h = g + bar;
    lemma_cols_concat(g, bar);
    let i = h + centered("Result         Time"@, w.result);
    lemma_cols_concat(h, centered("Result         Time"@, w.result));
    let j = i + bar;
    lemma_cols_concat(i, bar);
    assert(j == title_row(w));
}

fn push_rule_line(out: &mut String, w: &TableWidths, left: char, mid: char, right: char)
    ensures
        final(out)@ == old(out)@ + rule_line(w@, left, mid, right),
{
    push_char(out, left);
    push_repeated(out, '─', w.offered);
    push_char(out, mid);
    push_repeated(out, '─', w.spec);
    push_char(out, mid);
    push_repeated(out, '─', w.resolved);
    push_char(out, mid);
    push_repeated(out, '─', w.dependent);
    push_char(out, mid);
    push_repeated(out, '─', w.result);
    push_char(out, right);
    assert(out@ =~= old(out)@ + rule_line(w@, left, mid, right));
}

fn push_title_row(out: &mut String, w: &TableWidths)
    ensures
        final(out)@ == old(out)@ + title_row(w@),
{
    push_char(out, '│');
    out.append(pad_center("Offered", w.offered).as_str());
    push_char(out, '│');
    out.append(pad_center("Spec", w.spec).as_str());
    push_char(out, '│');
    out.append(pad_center("Resolved", w.resolved).as_str());
    push_char(out, '│');
    out.append(pad_center("Dependent", w.dependent).as_str());
    push_char(out, '│');
    out.append(pad_center("Result         Time", w.result).as_str());
    push_char(out, '│');
    assert(out@ =~= old(out)@ + title_row(w@));
}

/// The text that opens the table: banner and table head.
pub fn format_table_header(
    crate_name: &str,
    display_version: &str,
    total_deps: usize,
    widths: &TableWidths,
) -> (s: String)
    ensures
        s@ == table_header(crate_name@, display_version@, total_deps as nat, widths@),
{
    let total = widths.total();
    let mut out = owned("\n");
    push_repeated(&mut out, '=', total);
    out.append("\n");
    out.append("Testing ");
    push_usize(&mut out, total_deps);
    out.append(" reverse dependencies of ");
    out.append(crate_name);
    out.append("\n");
    out.append("  this = ");
    out.append(display_version);
    out.append(" (your work-in-progress version)\n");
    push_repeated(&mut out, '=', total);
    out.append("\n");
    out.append("\n");
    push_rule_line(&mut out, widths, '┌', '┬', '┐');
    out.append("\n");
    push_title_row(&mut out, widths);
    out.append("\n");
    push_rule_line(&mut out, widths, '├', '┼', '┤');
    out.append("\n");
    out
}

/// The rule that is printed between two dependents; as wide as the table.
pub fn format_separator_line(widths: &TableWidths) -> (s: String)
    ensures
        s@ == separator_line(widths@),
        display_cols(s@) == widths@.total(),
{
    let mut out = String::new();
    push_rule_line(&mut out, widths, '├', '┼', '┤');
    proof {
        lemma_rule_width(widths@, '├', '┼', '┤');
        assert(out@ =~= separator_line(widths@));
    }
    out
}

/// The bottom border of the table; without its line feed it is as wide as
/// the table.
pub fn format_table_footer(widths: &TableWidths) -> (s: String)
    ensures
        s@ == table_footer(widths@),
        display_cols(rule_line(widths@, '└', '┴', '┘')) == widths@.total(),
{
    let mut out = String::new();
    push_rule_line(&mut out, widths, '└', '┴', '┘');
    out.append("\n");
    proof {
        lemma_rule_width(widths@, '└', '┴', '┘');
        assert(out@ =~= table_footer(widths@));
    }
    out
}

/// What the Result column says of a row.
#[derive(Debug, Clone, Copy, PartialEq, Eq, Structural)]
pub enum RowVerdict {
    /// The row passed.
    Passed,
    /// The row failed though the baseline passed.
    Regressed,
    /// The baseline failed.
    Broken,
    /// The row failed and there is no baseline to hold it against.
    Failed,
}

/// The colour in which a row is printed.
#[derive(Debug, Clone, Copy, PartialEq, Eq, Structural)]
pub enum RowColor {
    Green,
    Red,
    Yellow,
}

/// The verdict on a row that offers a version, from whether the baseline
/// passed (`None` when there is no baseline to judge by) and whether the
/// row itself passed. A version that fails after a baseline that passed is
/// a regression; after a baseline that failed the dependent is broken by
/// itself; a failure that cannot be held against a baseline is a plain
/// failure.
pub open spec fn row_verdict(baseline_passed: Option<bool>, passed: bool) -> RowVerdict {
    match baseline_passed {
        Some(true) => if passed {
            RowVerdict::Passed
        } else {
            RowVerdict::Regressed
        },
        Some(false) => RowVerdict::Broken,
        None => if passed {
            RowVerdict::Passed
        } else {
            RowVerdict::Failed
        },
    }
}

impl RowVerdict {
    pub open spec fn label_text(self) -> Seq<char> {
        match self {
            RowVerdict::Passed => "PASSED"@,
            RowVerdict::Regressed => "REGRESSED"@,
            RowVerdict::Broken => "BROKEN"@,
            RowVerdict::Failed => "FAILED"@,
        }
    }

    /// Green for a pass, yellow for a broken baseline, red otherwise.
    pub open spec fn color_of(self) -> RowColor {
        match self {
            RowVerdict::Passed => RowColor::Green,
            RowVerdict::Broken => RowColor::Yellow,
            _ => RowColor::Red,
        }
    }

    /// The verdict on a row.
    pub fn of_row(row: &OfferedRow) -> (v: RowVerdict)
        ensures
            v == verdict_of(row@),
    {
        let passed = row.test.all_passed();
        match &row.offered {
            None => if passed {
                RowVerdict::Passed
            } else {
                RowVerdict::Broken
            },
            Some(_) => RowVerdict::of(row.baseline_passed, passed),
        }
    }

    /// The verdict on a row that offers a version, from whether the
    /// baseline passed, if that is known, and whether the row passed.
    pub fn of(baseline_passed: Option<bool>, passed: bool) -> (v: RowVerdict)
        ensures
            v == row_verdict(baseline_passed, passed),
    {
        match baseline_passed {
            Some(true) => if passed {
                RowVerdict::Passed
            } else {
                RowVerdict::Regressed
            },
            Some(false) => RowVerdict::Broken,
            None => if passed {
                RowVerdict::Passed
            } else {
                RowVerdict::Failed
            },
        }
    }

    pub fn label(&self) -> (s: &'static str)
        ensures
            s@ == self.label_text(),
    {
        match self {
            RowVerdict::Passed => "PASSED",
            RowVerdict::Regressed => "REGRESSED",
            RowVerdict::Broken => "BROKEN",
            RowVerdict::Failed => "FAILED",
        }
    }

    pub fn color(&self) -> (c: RowColor)
        ensures
            c == self.color_of(),
    {
        match self {
            RowVerdict::Passed => RowColor::Green,
            RowVerdict::Broken => RowColor::Yellow,
            _ => RowColor::Red,
        }
    }
}

/// The glyph for the source of a resolved version.
pub open spec fn source_glyph(source: VersionSource) -> Seq<char> {
    match source {
        VersionSource::CratesIo => "📦"@,
        VersionSource::Local => "📁"@,
        VersionSource::Git => "🔀"@,
    }
}

/// The word for a command.
pub open spec fn command_word(kind: CommandType) -> Seq<char> {
    match kind {
        CommandType::Fetch => "fetch"@,
        CommandType::Check => "check"@,
        CommandType::Test => "test"@,
    }
}

/// The Spec cell: the dependent's requirement, or `→ =<version>` when the
/// offered version was forced.
pub open spec fn spec_cell_text(row: OfferedRowView) -> Seq<char> {
    match row.offered {
        Some(o) => if o.forced {
            "→ ="@ + o.version
        } else {
            row.primary.spec
        },
        None => row.primary.spec,
    }
}

/// The Resolved cell: the resolved version and the glyph of its source.
pub open spec fn resolved_cell_text(dep: DependencyRefView) -> Seq<char> {
    dep.resolved_version + " "@ + source_glyph(dep.resolved_source)
}

/// The Dependent cell: name and version of the dependent.
pub open spec fn dependent_cell_text(dep: DependencyRefView) -> Seq<char> {
    dep.dependent_name + " "@ + dep.dependent_version
}

/// The marks of the commands that ran, in order, filled up to three with
/// the mark for a step that did not run.
pub open spec fn command_marks(commands: Seq<TestCommandView>) -> Seq<char> {
    padded_right(
        Seq::new(
            commands.len(),
            |i: int|
                if commands[i].result.passed {
                    MARK_PASSED
                } else {
                    MARK_FAILED
                },
        ),
        MARK_NOT_RUN,
        3,
    )
}

/// The verdict on a row. A baseline row, which offers nothing, passes or
/// is broken: a dependent that fails by itself was broken before anything
/// was offered to it. A row that offers a version is judged against the
/// baseline.
pub open spec fn verdict_of(row: OfferedRowView) -> RowVerdict {
    if row.offered is None {
        if row.test.all_passed() {
            RowVerdict::Passed
        } else {
            RowVerdict::Broken
        }
    } else {
        row_verdict(row.baseline_passed, row.test.all_passed())
    }
}

/// The first part of the Result cell: verdict and marks.
pub open spec fn result_cell_text(row: OfferedRowView) -> Seq<char> {
    verdict_of(row).label_text() + " "@ + command_marks(row.test.commands)
}

/// Tenths of a second in `ms` milliseconds, rounded to the nearest, halves
/// up.
pub open spec fn tenths_of(ms: nat) -> nat {
    ms / 100 + if ms % 100 >= 50 {
        1nat
    } else {
        0nat
    }
}

/// A duration as seconds with one decimal and the unit, as in `2.1s`.
pub open spec fn time_text(ms: nat) -> Seq<char> {
    decimal(tenths_of(ms) / 10) + "."@ + seq![digit_char(tenths_of(ms) % 10)] + "s"@
}

/// The duration that a row shows: the time of its commands together, or
/// the largest duration that can be held if that is less.
pub open spec fn shown_ms(row: OfferedRowView) -> nat {
    if row.test.total_ms() <= u64::MAX {
        row.test.total_ms()
    } else {
        u64::MAX as nat
    }
}

/// The Result cell as it is laid out: verdict and marks right-aligned in
/// twelve characters, a space, the time right-aligned in five.
pub open spec fn result_display(row: OfferedRowView) -> Seq<char> {
    padded_left(result_cell_text(row), 12) + " "@ + padded_left(time_text(shown_ms(row)), 5)
}

/// The lines of `lines[..n]` that are not blank, each indented by two
/// spaces.
pub open spec fn indented(lines: Seq<Seq<char>>, n: int) -> Seq<Seq<char>>
    decreases n,
{
    if n <= 0 {
        Seq::<Seq<char>>::empty()
    } else if is_blank(lines[n - 1]) {
        indented(lines, n - 1)
    } else {
        indented(lines, n - 1).push("  "@ + lines[n - 1])
    }
}

/// How many lines of an error message are shown at most.
pub const DETAIL_LINES: usize = 10;

/// What the panel under a row says of one failure: which command failed on
/// which crate, and below that the first lines of the error message.
pub open spec fn failure_details(kind: CommandType, f: CrateFailureView) -> Seq<Seq<char>> {
    let lines = leading_lines(f.error_message, DETAIL_LINES as nat);
    seq!["cargo "@ + command_word(kind) + " failed on "@ + f.crate_name] + indented(
        lines,
        lines.len() as int,
    )
}

/// The details of the first `n` failures of a command.
pub open spec fn failures_details(kind: CommandType, fs: Seq<CrateFailureView>, n: int) -> Seq<
    Seq<char>,
>
    decreases n,
{
    if n <= 0 {
        Seq::<Seq<char>>::empty()
    } else {
        failures_details(kind, fs, n - 1) + failure_details(kind, fs[n - 1])
    }
}

/// The details of the first `n` commands: those of the commands that
/// failed.
pub open spec fn commands_details(cs: Seq<TestCommandView>, n: int) -> Seq<Seq<char>>
    decreases n,
{
    if n <= 0 {
        Seq::<Seq<char>>::empty()
    } else if cs[n - 1].result.passed {
        commands_details(cs, n - 1)
    } else {
        commands_details(cs, n - 1) + failures_details(
            cs[n - 1].command,
            cs[n - 1].result.failures,
            cs[n - 1].result.failures.len() as int,
        )
    }
}

/// The lines of the panel under a row.
pub open spec fn row_details(row: OfferedRowView) -> Seq<Seq<char>> {
    commands_details(row.test.commands, row.test.commands.len() as int)
}

fn source_icon(source: VersionSource) -> (s: &'static str)
    ensures
        s@ == source_glyph(source),
{
    match source {
        VersionSource::CratesIo => "📦",
        VersionSource::Local => "📁",
        VersionSource::Git => "🔀",
    }
}

fn command_name(kind: CommandType) -> (s: &'static str)
    ensures
        s@ == command_word(kind),
{
    match kind {
        CommandType::Fetch => "fetch",
        CommandType::Check => "check",
        CommandType::Test => "test",
    }
}

/// The text of the Spec cell of a row.
pub fn format_spec_cell(row: &OfferedRow) -> (s: String)
    ensures
        s@ == spec_cell_text(row@),
{
    match &row.offered {
        Some(o) => {
            if o.forced {
                let mut s = owned("→ =");
                s.append(o.version.as_str());
                s
            } else {
                row.primary.spec.clone()
            }
        },
        None => row.primary.spec.clone(),
    }
}

/// The text of the Resolved cell for a dependency.
pub fn format_resolved_cell(dep: &DependencyRef) -> (s: String)
    ensures
        s@ == resolved_cell_text(dep@),
{
    let mut s = dep.resolved_version.clone();
    s.append(" ");
    s.append(source_icon(dep.resolved_source));
    s
}

/// The text of the Dependent cell for a dependency.
pub fn format_dependent_cell(dep: &DependencyRef) -> (s: String)
    ensures
        s@ == dependent_cell_text(dep@),
{
    let mut s = dep.dependent_name.clone();
    s.append(" ");
    s.append(dep.dependent_version.as_str());
    s
}

/// The marks of the commands of a row.
pub fn format_command_marks(commands: &Vec<TestCommand>) -> (s: String)
    ensures
        s@ == command_marks(views(commands@)),
{
    let mut s = String::new();
    let ghost cs = views(commands@);
    let ghost marks = Seq::new(
        cs.len(),
        |i: int|
            if cs[i].result.passed {
                MARK_PASSED
            } else {
                MARK_FAILED
            },
    );
    let mut i: usize = 0;
    while i < commands.len()
        invariant
            i <= commands.len(),
            cs == views(commands@),
            marks == Seq::new(
                cs.len(),
                |i: int|
                    if cs[i].result.passed {
                        MARK_PASSED
                    } else {
                        MARK_FAILED
                    },
            ),
            s@ == marks.take(i as int),
        decreases commands.len() - i,
    {
        let mark = if commands[i].result.passed {
            MARK_PASSED
        } else {
            MARK_FAILED
        };
        push_char(&mut s, mark);
        i = i + 1;
        assert(s@ =~= marks.take(i as int));
    }
    assert(marks.take(commands.len() as int) =~= marks);
    if commands.len() < 3 {
        push_repeated(&mut s, MARK_NOT_RUN, 3 - commands.len());
    }
    assert(s@ =~= padded_right(marks, MARK_NOT_RUN, 3));
    s
}

/// A duration in milliseconds as seconds with one decimal.
pub fn format_time(ms: u64) -> (s: String)
    ensures
        s@ == time_text(ms as nat),
{
    let tenths: u64 = ms / 100 + if ms % 100 >= 50 {
        1
    } else {
        0
    };
    let mut s = String::new();
    crate::text::push_decimal(&mut s, tenths / 10);
    s.append(".");
    crate::text::push_decimal(&mut s, tenths % 10);
    s.append("s");
    proof {
        assert(decimal((tenths % 10) as nat) =~= seq![digit_char((tenths % 10) as nat)]);
    }
    s
}

fn push_indented(out: &mut Vec<String>, lines: &Vec<String>)
    ensures
        texts_of(final(out)@) == texts_of(old(out)@) + indented(
            texts_of(lines@),
            lines@.len() as int,
        ),
{
    let mut i: usize = 0;
    assert(texts_of(out@) =~= texts_of(old(out)@) + indented(texts_of(lines@), 0));
    while i < lines.len()
        invariant
            i <= lines.len(),
            texts_of(out@) == texts_of(old(out)@) + indented(texts_of(lines@), i as int),
        decreases lines.len() - i,
    {
        let line = &lines[i];
        let ghost before = texts_of(out@);
        assert(texts_of(lines@)[i as int] == line@);
        if !blank(line.as_str()) {
            let mut s = owned("  ");
            s.append(line.as_str());
            out.push(s);
            assert(texts_of(out@) =~= before.push("  "@ + line@));
        }
        i = i + 1;
        assert(texts_of(out@) =~= texts_of(old(out)@) + indented(texts_of(lines@), i as int));
    }
}

fn push_failure_details(out: &mut Vec<String>, kind: CommandType, f: &CrateFailure)
    ensures
        texts_of(final(out)@) == texts_of(old(out)@) + failure_details(kind, f@),
{
    let mut head = owned("cargo ");
    head.append(command_name(kind));
    head.append(" failed on ");
    head.append(f.crate_name.as_str());
    out.push(head);
    let ghost first = texts_of(old(out)@).push(
        "cargo "@ + command_word(kind) + " failed on "@ + f.crate_name@,
    );
    assert(texts_of(out@) =~= first);
    let lines = first_lines(f.error_message.as_str(), DETAIL_LINES);
    push_indented(out, &lines);
    assert(texts_of(out@) =~= texts_of(old(out)@) + failure_details(kind, f@));
}

fn push_command_details(out: &mut Vec<String>, cmd: &TestCommand)
    requires
        !cmd.result.passed,
    ensures
        texts_of(final(out)@) == texts_of(old(out)@) + failures_details(
            cmd@.command,
            cmd@.result.failures,
            cmd@.result.failures.len() as int,
        ),
{
    let mut j: usize = 0;
    let ghost fs = cmd@.result.failures;
    assert(texts_of(out@) =~= texts_of(old(out)@) + failures_details(cmd@.command, fs, 0));
    while j < cmd.result.failures.len()
        invariant
            j <= cmd.result.failures.len(),
            fs == cmd@.result.failures,
            fs.len() == cmd.result.failures.len(),
            texts_of(out@) == texts_of(old(out)@) + failures_details(cmd@.command, fs, j as int),
        decreases cmd.result.failures.len() - j,
    {
        let ghost before = texts_of(out@);
        assert(fs[j as int] == cmd.result.failures[j as int]@);
        push_failure_details(out, cmd.command, &cmd.result.failures[j]);
        j = j + 1;
        assert(texts_of(out@) =~= texts_of(old(out)@) + failures_details(
            cmd@.command,
            fs,
            j as int,
        ));
    }
}

/// The lines of the panel under a row: for each command that failed, and
/// each crate that it failed on, a headline and the first lines of the
/// error message.
pub fn format_error_details(row: &OfferedRow) -> (details: Vec<String>)
    ensures
        texts_of(details@) == row_details(row@),
{
    let mut details: Vec<String> = Vec::new();
    let ghost cs = row@.test.commands;
    let mut i: usize = 0;
    assert(texts_of(details@) =~= commands_details(cs, 0));
    while i < row.test.commands.len()
        invariant
            i <= row.test.commands.len(),
            cs == row@.test.commands,
            cs.len() == row.test.commands.len(),
            texts_of(details@) == commands_details(cs, i as int),
        decreases row.test.commands.len() - i,
    {
        let cmd = &row.test.commands[i];
        assert(cs[i as int] == cmd@);
        if !cmd.result.passed {
            push_command_details(&mut details, cmd);
        }
        i = i + 1;
    }
    details
}

/// The cells of a row, as texts: Offered, Spec, Resolved, Dependent, the
/// verdict with the marks, the time, the verdict itself, the lines of the
/// error panel, and for each transitive dependency its Spec, Resolved and
/// Dependent cells.
pub fn format_offered_row(row: &OfferedRow) -> (cells: (
    String,
    String,
    String,
    String,
    String,
    String,
    RowVerdict,
    Vec<String>,
    Vec<(String, String, String)>,
))
    ensures
        cells.0@ == offered_cell_text(offered_cell_of(row@)),
        cells.1@ == spec_cell_text(row@),
        cells.2@ == resolved_cell_text(row@.primary),
        cells.3@ == dependent_cell_text(row@.primary),
        cells.4@ == result_cell_text(row@),
        cells.5@ == time_text(shown_ms(row@)),
        cells.6 == verdict_of(row@),
        texts_of(cells.7@) == row_details(row@),
        cells.8@.len() == row@.transitive.len(),
        forall|i: int|
            0 <= i < cells.8@.len() ==> {
                &&& (#[trigger] cells.8@[i]).0@ == row@.transitive[i].dependency.spec
                &&& cells.8@[i].1@ == resolved_cell_text(row@.transitive[i].dependency)
                &&& cells.8@[i].2@ == dependent_cell_text(row@.transitive[i].dependency)
            },
{
    let offered = OfferedCell::from_offered_row(row).format();
    let spec = format_spec_cell(row);
    let resolved = format_resolved_cell(&row.primary);
    let dependent = format_dependent_cell(&row.primary);
    let verdict = RowVerdict::of_row(row);
    let mut result = owned(verdict.label());
    result.append(" ");
    result.append(format_command_marks(&row.test.commands).as_str());
    let time = format_time(row.test.total_duration_ms());
    let details = format_error_details(row);
    let mut transitive: Vec<(String, String, String)> = Vec::new();
    let mut i: usize = 0;
    while i < row.transitive.len()
        invariant
            i <= row.transitive.len(),
            transitive@.len() == i,
            forall|k: int|
                0 <= k < i ==> {
                    &&& (#[trigger] transitive@[k]).0@ == row@.transitive[k].dependency.spec
                    &&& transitive@[k].1@ == resolved_cell_text(row@.transitive[k].dependency)
                    &&& transitive@[k].2@ == dependent_cell_text(row@.transitive[k].dependency)
                },
        decreases row.transitive.len() - i,
    {
        let dep = &row.transitive[i].dependency;
        assert(row@.transitive[i as int].dependency == dep@);
        transitive.push((dep.spec.clone(), format_resolved_cell(dep), format_dependent_cell(dep)));
        i = i + 1;
    }
    (offered, spec, resolved, dependent, result, time, verdict, details, transitive)
}

/// A cell between two borders: a space, the text fitted to the column less
/// the two spaces, a space, and the border that closes the column.
pub open spec fn framed_cell(text: Seq<char>, width: nat) -> Seq<char> {
    seq![' '] + fitted(text, (width - 2) as nat) + seq![' ', '│']
}

/// The line of a row: the five cells between their borders.
pub open spec fn main_row(row: OfferedRowView, w: TableLayout) -> Seq<char> {
    seq!['│'] + framed_cell(offered_cell_text(offered_cell_of(row)), w.offered) + framed_cell(
        spec_cell_text(row),
        w.spec,
    ) + framed_cell(resolved_cell_text(row.primary), w.resolved) + framed_cell(
        dependent_cell_text(row.primary),
        w.dependent,
    ) + framed_cell(result_display(row), w.result)
}

/// The line that opens the error panel under a row: the borders of the
/// Spec and Dependent columns close, and the panel drops out of the grid
/// from the Offered column to the right border.
pub open spec fn panel_top(w: TableLayout) -> Seq<char> {
    seq!['│'] + repeated(' ', w.offered) + seq!['├'] + repeated('─', w.spec) + seq!['┘']
        + repeated(' ', w.resolved) + seq!['└'] + repeated('─', w.dependent) + seq!['┘']
        + repeated(' ', w.result) + seq!['│']
}

/// A line of the error panel: the text fitted to the width from the Offered
/// column to the right border.
pub open spec fn panel_line(text: Seq<char>, w: TableLayout) -> Seq<char> {
    seq!['│'] + repeated(' ', w.offered) + seq!['│'] + framed_cell(
        text,
        (w.total() - w.offered - 3) as nat,
    )
}

/// The line that closes the error panel when more rows of the same
/// dependent follow: it opens the four columns again.
pub open spec fn panel_bottom(w: TableLayout) -> Seq<char> {
    seq!['│'] + repeated(' ', w.offered) + seq!['├'] + repeated('─', w.spec) + seq!['┬']
        + repeated('─', w.resolved) + seq!['┬'] + repeated('─', w.dependent) + seq!['┬']
        + repeated('─', w.result) + seq!['┤']
}

/// The line for a transitive dependency: its Spec, Resolved and Dependent
/// cells, each behind a branch mark, under an empty Offered cell and before
/// an empty Result cell.
pub open spec fn transitive_row(dep: DependencyRefView, w: TableLayout) -> Seq<char> {
    seq!['│'] + repeated(' ', w.offered) + seq!['│'] + framed_cell("├─ "@ + dep.spec, w.spec)
        + framed_cell("├─ "@ + resolved_cell_text(dep), w.resolved) + framed_cell(
        "├─ "@ + dependent_cell_text(dep),
        w.dependent,
    ) + repeated(' ', w.result) + seq!['│']
}

/// The lines of the error panel for the given details: none without
/// details; otherwise the opening line, a line for each detail, and the
/// closing line unless the row is the last of its dependent.
pub open spec fn panel_lines(details: Seq<Seq<char>>, is_last_in_group: bool, w: TableLayout) -> Seq<
    Seq<char>,
> {
    if details.len() == 0 {
        Seq::<Seq<char>>::empty()
    } else {
        seq![panel_top(w)] + Seq::new(details.len(), |i: int| panel_line(details[i], w)) + if is_last_in_group {
            Seq::<Seq<char>>::empty()
        } else {
            seq![panel_bottom(w)]
        }
    }
}

/// The lines for the transitive dependencies of a row.
pub open spec fn transitive_lines(ts: Seq<TransitiveTestView>, w: TableLayout) -> Seq<Seq<char>> {
    Seq::new(ts.len(), |i: int| transitive_row(ts[i].dependency, w))
}

/// All the lines that a row takes in the table: its own line, the error
/// panel if a command failed, and a line for each transitive dependency.
pub open spec fn row_lines(row: OfferedRowView, is_last_in_group: bool, w: TableLayout) -> Seq<
    Seq<char>,
> {
    seq![main_row(row, w)] + panel_lines(row_details(row), is_last_in_group, w) + transitive_lines(
        row.transitive,
        w,
    )
}

/// The first `n` lines, each followed by a line feed.
pub open spec fn joined_lines(lines: Seq<Seq<char>>, n: int) -> Seq<char>
    decreases n,
{
    if n <= 0 {
        Seq::<char>::empty()
    } else {
        joined_lines(lines, n - 1) + lines[n - 1] + "\n"@
    }
}

/// The layout leaves every column room for the two spaces around its text.
pub open spec fn roomy(w: TableLayout) -> bool {
    w.offered >= 2 && w.spec >= 2 && w.resolved >= 2 && w.dependent >= 2 && w.result >= 2
}

/// A framed cell takes its column and the border behind it.
pub proof fn lemma_framed_cell_width(text: Seq<char>, width: nat)
    requires
        width >= 2,
    ensures
        display_cols(framed_cell(text, width)) == width + 1,
{
    let inner = fitted(text, (width - 2) as nat);
    lemma_fitted_width(text, (width - 2) as nat);
    lemma_cols_narrow(seq![' ']);
    lemma_cols_narrow(seq![' ', '│']);
    lemma_cols_concat(seq![' '], inner);
    lemma_cols_concat(seq![' '] + inner, seq![' ', '│']);
}

/// The line of a row is as wide as the table.
pub proof fn lemma_main_row_width(row: OfferedRowView, w: TableLayout)
    requires
        roomy(w),
    ensures
        display_cols(main_row(row, w)) == w.total(),
{
    let c1 = framed_cell(offered_cell_text(offered_cell_of(row)), w.offered);
    let c2 = framed_cell(spec_cell_text(row), w.spec);
    let c3 = framed_cell(resolved_cell_text(row.primary), w.resolved);
    let c4 = framed_cell(dependent_cell_text(row.primary), w.dependent);
    let c5 = framed_cell(result_display(row), w.result);
    lemma_framed_cell_width(offered_cell_text(offered_cell_of(row)), w.offered);
    lemma_framed_cell_width(spec_cell_text(row), w.spec);
    lemma_framed_cell_width(resolved_cell_text(row.primary), w.resolved);
    lemma_framed_cell_width(dependent_cell_text(row.primary), w.dependent);
    lemma_framed_cell_width(result_display(row), w.result);
    let bar = seq!['│'];
    lemma_cols_narrow(bar);
    lemma_cols_concat(bar, c1);
    lemma_cols_concat(bar + c1, c2);
    lemma_cols_concat(bar + c1 + c2, c3);
    lemma_cols_concat(bar + c1 + c2 + c3, c4);
    lemma_cols_concat(bar + c1 + c2 + c3 + c4, c5);
}

/// The lines that open and close the error panel are as wide as the table.
pub proof fn lemma_panel_frame_width(w: TableLayout)
    ensures
        display_cols(panel_top(w)) == w.total(),
        display_cols(panel_bottom(w)) == w.total(),
{
    let top = panel_top(w);
    assert forall|i: int| 0 <= i < top.len() implies columns_of(#[trigger] top[i]) == 1 by {
        let c = top[i];
        assert(c == '│' || c == ' ' || c == '├' || c == '─' || c == '┘' || c == '└');
    }
    lemma_cols_narrow(top);
    let bottom = panel_bottom(w);
    assert forall|i: int| 0 <= i < bottom.len() implies columns_of(#[trigger] bottom[i]) == 1 by {
        let c = bottom[i];
        assert(c == '│' || c == ' ' || c == '├' || c == '─' || c == '┬' || c == '┤');
    }
    lemma_cols_narrow(bottom);
}

/// A line of the error panel is as wide as the table, whatever its text.
pub proof fn lemma_panel_line_width(text: Seq<char>, w: TableLayout)
    ensures
        display_cols(panel_line(text, w)) == w.total(),
{
    let lead = seq!['│'] + repeated(' ', w.offered) + seq!['│'];
    assert forall|i: int| 0 <= i < lead.len() implies columns_of(#[trigger] lead[i]) == 1 by {
        let c = lead[i];
        assert(c == '│' || c == ' ');
    }
    lemma_cols_narrow(lead);
    lemma_framed_cell_width(text, (w.total() - w.offered - 3) as nat);
    lemma_cols_concat(lead, framed_cell(text, (w.total() - w.offered - 3) as nat));
}

/// The line of a transitive dependency is as wide as the table.
pub proof fn lemma_transitive_row_width(dep: DependencyRefView, w: TableLayout)
    requires
        roomy(w),
    ensures
        display_cols(transitive_row(dep, w)) == w.total(),
{
    let lead = seq!['│'] + repeated(' ', w.offered) + seq!['│'];
    assert forall|i: int| 0 <= i < lead.len() implies columns_of(#[trigger] lead[i]) == 1 by {
        let c = lead[i];
        assert(c == '│' || c == ' ');
    }
    lemma_cols_narrow(lead);
    let tail = repeated(' ', w.result) + seq!['│'];
    assert forall|i: int| 0 <= i < tail.len() implies columns_of(#[trigger] tail[i]) == 1 by {
        let c = tail[i];
        assert(c == '│' || c == ' ');
    }
    lemma_cols_narrow(tail);
    let c2 = framed_cell("├─ "@ + dep.spec, w.spec);
    let c3 = framed_cell("├─ "@ + resolved_cell_text(dep), w.resolved);
    let c4 = framed_cell("├─ "@ + dependent_cell_text(dep), w.dependent);
    lemma_framed_cell_width("├─ "@ + dep.spec, w.spec);
    lemma_framed_cell_width("├─ "@ + resolved_cell_text(dep), w.resolved);
    lemma_framed_cell_width("├─ "@ + dependent_cell_text(dep), w.dependent);
    lemma_cols_concat(lead, c2);
    lemma_cols_concat(lead + c2, c3);
    lemma_cols_concat(lead + c2 + c3, c4);
    lemma_cols_concat(lead + c2 + c3 + c4, tail);
    assert(transitive_row(dep, w) =~= lead + c2 + c3 + c4 + tail);
}

/// Every line that a row takes in the table is as wide as the table.
pub proof fn lemma_row_lines_width(
    row: OfferedRowView,
    is_last_in_group: bool,
    w: TableLayout,
    i: int,
)
    requires
        roomy(w),
        0 <= i < row_lines(row, is_last_in_group, w).len(),
    ensures
        display_cols(row_lines(row, is_last_in_group, w)[i]) == w.total(),
{
    lemma_main_row_width(row, w);
    lemma_panel_frame_width(w);
    let details = row_details(row);
    let panel = panel_lines(details, is_last_in_group, w);
    if i == 0 {
    } else if i < 1 + panel.len() {
        let k = i - 1;
        if 1 <= k && k <= details.len() {
            lemma_panel_line_width(details[k - 1], w);
        }
    } else {
        let k = i - 1 - panel.len();
        lemma_transitive_row_width(row.transitive[k].dependency, w);
    }
}

fn push_framed_cell(out: &mut String, text: &str, width: usize)
    requires
        width >= 2,
    ensures
        final(out)@ == old(out)@ + framed_cell(text@, width as nat),
{
    push_char(out, ' ');
    out.append(truncate_with_padding(text, width - 2).as_str());
    push_char(out, ' ');
    push_char(out, '│');
    assert(out@ =~= old(out)@ + framed_cell(text@, width as nat));
}

/// The line of a row, without line feed; as wide as the table.
pub fn format_main_row(row: &OfferedRow, widths: &TableWidths) -> (s: String)
    ensures
        s@ == main_row(row@, widths@),
        display_cols(s@) == widths@.total(),
{
    proof {
        use_type_invariant(widths);
        lemma_main_row_width(row@, widths@);
    }
    let offered = OfferedCell::from_offered_row(row).format();
    let spec = format_spec_cell(row);
    let resolved = format_resolved_cell(&row.primary);
    let dependent = format_dependent_cell(&row.primary);
    let verdict = RowVerdict::of_row(row);
    let mut result = owned(verdict.label());
    result.append(" ");
    result.append(format_command_marks(&row.test.commands).as_str());
    let time = format_time(row.test.total_duration_ms());
    let mut shown = pad_left(result.as_str(), 12);
    shown.append(" ");
    shown.append(pad_left(time.as_str(), 5).as_str());
    let mut out = String::new();
    push_char(&mut out, '│');
    push_framed_cell(&mut out, offered.as_str(), widths.offered);
    push_framed_cell(&mut out, spec.as_str(), widths.spec);
    push_framed_cell(&mut out, resolved.as_str(), widths.resolved);
    push_framed_cell(&mut out, dependent.as_str(), widths.dependent);
    push_framed_cell(&mut out, shown.as_str(), widths.result);
    assert(out@ =~= main_row(row@, widths@));
    out
}

fn format_panel_top(widths: &TableWidths) -> (s: String)
    ensures
        s@ == panel_top(widths@),
{
    let mut out = String::new();
    push_char(&mut out, '│');
    push_repeated(&mut out, ' ', widths.offered);
    push_char(&mut out, '├');
    push_repeated(&mut out, '─', widths.spec);
    push_char(&mut out, '┘');
    push_repeated(&mut out, ' ', widths.resolved);
    push_char(&mut out, '└');
    push_repeated(&mut out, '─', widths.dependent);
    push_char(&mut out, '┘');
    push_repeated(&mut out, ' ', widths.result);
    push_char(&mut out, '│');
    assert(out@ =~= panel_top(widths@));
    out
}

fn format_panel_bottom(widths: &TableWidths) -> (s: String)
    ensures
        s@ == panel_bottom(widths@),
{
    let mut out = String::new();
    push_char(&mut out, '│');
    push_repeated(&mut out, ' ', widths.offered);
    push_char(&mut out, '├');
    push_repeated(&mut out, '─', widths.spec);
    push_char(&mut out, '┬');
    push_repeated(&mut out, '─', widths.resolved);
    push_char(&mut out, '┬');
    push_repeated(&mut out, '─', widths.dependent);
    push_char(&mut out, '┬');
    push_repeated(&mut out, '─', widths.result);
    push_char(&mut out, '┤');
    assert(out@ =~= panel_bottom(widths@));
    out
}

fn format_panel_line(text: &str, widths: &TableWidths) -> (s: String)
    ensures
        s@ == panel_line(text@, widths@),
{
    proof {
        use_type_invariant(widths);
    }
    let mut out = String::new();
    push_char(&mut out, '│');
    push_repeated(&mut out, ' ', widths.offered);
    push_char(&mut out, '│');
    push_framed_cell(&mut out, text, widths.total - widths.offered - 3);
    assert(out@ =~= panel_line(text@, widths@));
    out
}

fn format_transitive_row(dep: &DependencyRef, widths: &TableWidths) -> (s: String)
    ensures
        s@ == transitive_row(dep@, widths@),
{
    proof {
        use_type_invariant(widths);
    }
    let mut spec = owned("├─ ");
    spec.append(dep.spec.as_str());
    let mut resolved = owned("├─ ");
    resolved.append(format_resolved_cell(dep).as_str());
    let mut dependent = owned("├─ ");
    dependent.append(format_dependent_cell(dep).as_str());
    let mut out = String::new();
    push_char(&mut out, '│');
    push_repeated(&mut out, ' ', widths.offered);
    push_char(&mut out, '│');
    push_framed_cell(&mut out, spec.as_str(), widths.spec);
    push_framed_cell(&mut out, resolved.as_str(), widths.resolved);
    push_framed_cell(&mut out, dependent.as_str(), widths.dependent);
    push_repeated(&mut out, ' ', widths.result);
    push_char(&mut out, '│');
    assert(out@ =~= transitive_row(dep@, widths@));
    out
}

fn push_line(lines: &mut Vec<String>, line: String)
    ensures
        texts_of(final(lines)@) == texts_of(old(lines)@).push(line@),
        final(lines)@ == old(lines)@.push(line),
{
    lines.push(line);
    assert(texts_of(lines@) =~= texts_of(old(lines)@).push(line@));
}

fn push_panel_lines(
    lines: &mut Vec<String>,
    details: &Vec<String>,
    is_last_in_group: bool,
    widths: &TableWidths,
)
    ensures
        texts_of(final(lines)@) == texts_of(old(lines)@) + panel_lines(
            texts_of(details@),
            is_last_in_group,
            widths@,
        ),
{
    let ghost w = widths@;
    let ghost ds = texts_of(details@);
    let ghost head = texts_of(lines@);
    if details.len() == 0 {
        assert(texts_of(lines@) =~= head + panel_lines(ds, is_last_in_group, w));
        return ;
    }
    push_line(lines, format_panel_top(widths));
    let mut i: usize = 0;
    assert(texts_of(lines@) =~= head + (seq![panel_top(w)] + Seq::new(
        0,
        |k: int| panel_line(ds[k], w),
    )));
    while i < details.len()
        invariant
            i <= details.len(),
            ds == texts_of(details@),
            w == widths@,
            texts_of(lines@) == head + (seq![panel_top(w)] + Seq::new(
                i as nat,
                |k: int| panel_line(ds[k], w),
            )),
        decreases details.len() - i,
    {
        assert(ds[i as int] == details@[i as int]@);
        push_line(lines, format_panel_line(details[i].as_str(), widths));
        i = i + 1;
        assert(texts_of(lines@) =~= head + (seq![panel_top(w)] + Seq::new(
            i as nat,
            |k: int| panel_line(ds[k], w),
        )));
    }
    if !is_last_in_group {
        push_line(lines, format_panel_bottom(widths));
    }
    assert(texts_of(lines@) =~= head + panel_lines(ds, is_last_in_group, w));
}

fn push_transitive_lines(lines: &mut Vec<String>, row: &OfferedRow, widths: &TableWidths)
    ensures
        texts_of(final(lines)@) == texts_of(old(lines)@) + transitive_lines(
            row@.transitive,
            widths@,
        ),
{
    let ghost w = widths@;
    let ghost head = texts_of(lines@);
    let mut j: usize = 0;
    assert(texts_of(lines@) =~= head + Seq::new(
        0,
        |k: int| transitive_row(row@.transitive[k].dependency, w),
    ));
    while j < row.transitive.len()
        invariant
            j <= row.transitive.len(),
            w == widths@,
            texts_of(lines@) == head + Seq::new(
                j as nat,
                |k: int| transitive_row(row@.transitive[k].dependency, w),
            ),
        decreases row.transitive.len() - j,
    {
        assert(row@.transitive[j as int].dependency == row.transitive[j as int].dependency@);
        push_line(lines, format_transitive_row(&row.transitive[j].dependency, widths));
        j = j + 1;
        assert(texts_of(lines@) =~= head + Seq::new(
            j as nat,
            |k: int| transitive_row(row@.transitive[k].dependency, w),
        ));
    }
    assert(texts_of(lines@) =~= head + transitive_lines(row@.transitive, w));
}

/// The lines that a row takes in the table, each without its line feed:
/// the row itself, the error panel if a command of the row failed, and the
/// transitive dependencies. `is_last_in_group` says that no further row of
/// the same dependent follows, so that the panel need not open the grid
/// again. Every line is as wide as the table.
pub fn format_offered_row_lines(row: &OfferedRow, is_last_in_group: bool, widths: &TableWidths) -> (lines:
    Vec<String>)
    ensures
        texts_of(lines@) == row_lines(row@, is_last_in_group, widths@),
        forall|i: int| 0 <= i < lines@.len() ==> display_cols((#[trigger] lines@[i])@) == widths@.total(),
{
    proof {
        use_type_invariant(widths);
    }
    let ghost w = widths@;
    let mut lines: Vec<String> = Vec::new();
    push_line(&mut lines, format_main_row(row, widths));
    assert(texts_of(lines@) =~= seq![main_row(row@, w)]);
    let details = format_error_details(row);
    push_panel_lines(&mut lines, &details, is_last_in_group, widths);
    push_transitive_lines(&mut lines, row, widths);
    proof {
        assert(texts_of(lines@) =~= row_lines(row@, is_last_in_group, w));
        assert forall|i: int| 0 <= i < lines@.len() implies display_cols((#[trigger] lines@[i])@)
            == w.total() by {
            assert(lines@[i]@ == texts_of(lines@)[i]);
            lemma_row_lines_width(row@, is_last_in_group, w, i);
        }
    }
    lines
}

/// The lines of `lines`, each followed by a line feed, as one text.
pub fn join_lines(lines: &Vec<String>) -> (s: String)
    ensures
        s@ == joined_lines(texts_of(lines@), lines@.len() as int),
{
    let mut out = String::new();
    let mut i: usize = 0;
    while i < lines.len()
        invariant
            i <= lines.len(),
            out@ == joined_lines(texts_of(lines@), i as int),
        decreases lines.len() - i,
    {
        assert(texts_of(lines@)[i as int] == lines@[i as int]@);
        out.append(lines[i].as_str());
        out.append("\n");
        i = i + 1;
    }
    out
}

/// A row as text: the lines that it takes in the table, each with its line
/// feed.
pub fn format_offered_row_string(row: &OfferedRow, is_last_in_group: bool, widths: &TableWidths) -> (s:
    String)
    ensures
        s@ == joined_lines(
            row_lines(row@, is_last_in_group, widths@),
            row_lines(row@, is_last_in_group, widths@).len() as int,
        ),
{
    let lines = format_offered_row_lines(row, is_last_in_group, widths);
    join_lines(&lines)
}

} // verus!
