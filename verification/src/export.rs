//! The report as HTML and as Markdown.
//!
//! Every function here makes the text of a report; writing it to a file is
//! left to the caller.

use vstd::prelude::*;
use vstd::string::*;
use crate::report::{
    format_offered_row,
    format_offered_row_string,
    format_table_footer,
    format_table_header,
    dependent_cell_text,
    joined_lines,
    offered_cell_of,
    offered_cell_text,
    resolved_cell_text,
    result_cell_text,
    row_lines,
    shown_ms,
    spec_cell_text,
    table_footer,
    table_header,
    time_text,
    verdict_of,
    RowVerdict,
    TableLayout,
    TableWidths,
};
use crate::rows::{views, OfferedRow, OfferedRowView};
use crate::summary::{summarize_offered_rows, TestSummary};
use crate::text::{chars_of, decimal, owned, push_char, push_usize};

verus! {

/// What a character becomes in HTML: the three characters that HTML reads
/// as markup become their entities, every other character stays.
pub open spec fn escaped_char(c: char) -> Seq<char> {
    if c == '<' {
        "&lt;"@
    } else if c == '>' {
        "&gt;"@
    } else if c == '&' {
        "&amp;"@
    } else {
        seq![c]
    }
}

/// The first `n` characters of `s`, escaped for HTML.
pub open spec fn escaped(s: Seq<char>, n: int) -> Seq<char>
    decreases n,
{
    if n <= 0 {
        Seq::<char>::empty()
    } else {
        escaped(s, n - 1) + escaped_char(s[n - 1])
    }
}

/// `s` escaped for HTML.
pub open spec fn sanitized(s: Seq<char>) -> Seq<char> {
    escaped(s, s.len() as int)
}

/// Escapes a text for HTML.
pub fn sanitize(s: &str) -> (r: String)
    ensures
        r@ == sanitized(s@),
{
    let v = chars_of(s);
    let mut out = String::new();
    let mut i: usize = 0;
    while i < v.len()
        invariant
            i <= v.len(),
            v@ == s@,
            out@ == escaped(s@, i as int),
        decreases v.len() - i,
    {
        let c = v[i];
        if c == '<' {
            out.append("&lt;");
        } else if c == '>' {
            out.append("&gt;");
        } else if c == '&' {
            out.append("&amp;");
        } else {
            let ghost before = out@;
            push_char(&mut out, c);
            assert(out@ =~= before + seq![c]);
        }
        i = i + 1;
    }
    out
}

/// The class of a row in the HTML report: none for a baseline row;
/// otherwise `passed`, `regressed`, or `broken` for everything else.
pub open spec fn row_class_name(row: OfferedRowView) -> Seq<char> {
    if row.offered is None {
        Seq::<char>::empty()
    } else {
        match verdict_of(row) {
            RowVerdict::Passed => if row.baseline_passed == Some(true) {
                "passed"@
            } else {
                "broken"@
            },
            RowVerdict::Regressed => "regressed"@,
            _ => "broken"@,
        }
    }
}

/// The line of a row in the HTML report.
pub open spec fn html_row(row: OfferedRowView) -> Seq<char> {
    "<tr class='"@ + row_class_name(row) + "'><td>"@ + sanitized(
        offered_cell_text(offered_cell_of(row)),
    ) + "</td><td>"@ + sanitized(spec_cell_text(row)) + "</td><td>"@ + sanitized(
        resolved_cell_text(row.primary),
    ) + "</td><td>"@ + sanitized(dependent_cell_text(row.primary)) + "</td><td>"@ + sanitized(
        result_cell_text(row),
    ) + " "@ + sanitized(time_text(shown_ms(row))) + "</td></tr>\n"@
}

/// The lines of the first `n` rows in the HTML report.
pub open spec fn html_rows(rows: Seq<OfferedRowView>, n: int) -> Seq<char>
    decreases n,
{
    if n <= 0 {
        Seq::<char>::empty()
    } else {
        html_rows(rows, n - 1) + html_row(rows[n - 1])
    }
}

/// What stands before the rows in the HTML report.
pub open spec fn html_head(crate_name: Seq<char>, display_version: Seq<char>) -> Seq<char> {
    "<!DOCTYPE html>\n"@ + "<html><head><meta charset='UTF-8'>\n"@
        + "<title>Cargo Copter Report - "@ + crate_name + "</title>\n"@ + "<style>\n"@
        + "body { font-family: monospace; margin: 20px; }\n"@
        + "table { border-collapse: collapse; width: 100%; }\n"@
        + "th, td { border: 1px solid #ccc; padding: 8px; text-align: left; }\n"@
        + ".passed { color: green; }\n"@ + ".regressed { color: red; }\n"@
        + ".broken { color: orange; }\n"@ + "</style></head><body>\n"@
        + "<h1>Cargo Copter Report</h1>\n"@ + "<p>Crate: <strong>"@ + crate_name
        + "</strong> ("@ + display_version + ")</p>\n"@ + "<table><thead><tr>\n"@
        + "<th>Offered</th><th>Spec</th><th>Resolved</th><th>Dependent</th><th>Result</th>\n"@
        + "</tr></thead><tbody>\n"@
}

/// What stands behind the rows in the HTML report.
pub open spec fn html_tail(s: TestSummary) -> Seq<char> {
    "</tbody></table>\n"@ + "<h2>Summary</h2>\n"@ + "<p>Passed: "@ + decimal(s.passed as nat)
        + ", Regressed: "@ + decimal(s.regressed as nat) + ", Broken: "@ + decimal(
        s.broken as nat,
    ) + "</p>\n"@ + "</body></html>\n"@
}

fn class_name(row: &OfferedRow, verdict: RowVerdict) -> (s: &'static str)
    requires
        verdict == verdict_of(row@),
    ensures
        s@ == row_class_name(row@),
{
    proof {
        reveal_strlit("");
    }
    match &row.offered {
        None => "",
        Some(_) => match verdict {
            RowVerdict::Passed => match row.baseline_passed {
                Some(true) => "passed",
                _ => "broken",
            },
            RowVerdict::Regressed => "regressed",
            _ => "broken",
        },
    }
}

fn push_html_row(out: &mut String, row: &OfferedRow)
    ensures
        final(out)@ == old(out)@ + html_row(row@),
{
    let cells = format_offered_row(row);
    let mut line = owned("<tr class='");
    line.append(class_name(row, cells.6));
    line.append("'><td>");
    line.append(sanitize(cells.0.as_str()).as_str());
    line.append("</td><td>");
    line.append(sanitize(cells.1.as_str()).as_str());
    line.append("</td><td>");
    line.append(sanitize(cells.2.as_str()).as_str());
    line.append("</td><td>");
    line.append(sanitize(cells.3.as_str()).as_str());
    line.append("</td><td>");
    line.append(sanitize(cells.4.as_str()).as_str());
    line.append(" ");
    line.append(sanitize(cells.5.as_str()).as_str());
    line.append("</td></tr>\n");
    out.append(line.as_str());
}

fn html_heading(crate_name: &str, display_version: &str) -> (s: String)
    ensures
        s@ == html_head(crate_name@, display_version@),
{
    let mut out = owned("<!DOCTYPE html>\n");
    out.append("<html><head><meta charset='UTF-8'>\n");
    out.append("<title>Cargo Copter Report - ");
    out.append(crate_name);
    out.append("</title>\n");
    out.append("<style>\n");
    out.append("body { font-family: monospace; margin: 20px; }\n");
    out.append("table { border-collapse: collapse; width: 100%; }\n");
    out.append("th, td { border: 1px solid #ccc; padding: 8px; text-align: left; }\n");
    out.append(".passed { color: green; }\n");
    out.append(".regressed { color: red; }\n");
    out.append(".broken { color: orange; }\n");
    out.append("</style></head><body>\n");
    out.append("<h1>Cargo Copter Report</h1>\n");
    out.append("<p>Crate: <strong>");
    out.append(crate_name);
    out.append("</strong> (");
    out.append(display_version);
    out.append(")</p>\n");
    out.append("<table><thead><tr>\n");
    out.append("<th>Offered</th><th>Spec</th><th>Resolved</th><th>Dependent</th><th>Result</th>\n");
    out.append("</tr></thead><tbody>\n");
    out
}

fn html_ending(s: &TestSummary) -> (r: String)
    ensures
        r@ == html_tail(*s),
{
    let mut out = owned("</tbody></table>\n");
    out.append("<h2>Summary</h2>\n");
    out.append("<p>Passed: ");
    push_usize(&mut out, s.passed);
    out.append(", Regressed: ");
    push_usize(&mut out, s.regressed);
    out.append(", Broken: ");
    push_usize(&mut out, s.broken);
    out.append("</p>\n");
    out.append("</body></html>\n");
    out
}

/// The report as an HTML page: a table with a line for every row, and the
/// counts of the summary. The page is handed back with the summary.
pub fn generate_html_report(rows: &[OfferedRow], crate_name: &str, display_version: &str) -> (r: (
    String,
    TestSummary,
))
    ensures
        r.0@ == html_head(crate_name@, display_version@) + html_rows(
            views(rows@),
            rows@.len() as int,
        ) + html_tail(r.1),
        summarizes(r.1, views(rows@)),
{
    let mut out = html_heading(crate_name, display_version);
    let ghost head = out@;
    let ghost vs = views(rows@);
    let mut i: usize = 0;
    assert(out@ =~= head + html_rows(vs, 0));
    while i < rows.len()
        invariant
            i <= rows@.len(),
            vs == views(rows@),
            out@ == head + html_rows(vs, i as int),
        decreases rows@.len() - i,
    {
        assert(vs[i as int] == rows@[i as int]@);
        let ghost before = out@;
        push_html_row(&mut out, &rows[i]);
        i = i + 1;
        assert(out@ =~= head + (html_rows(vs, i - 1) + html_row(vs[i - 1])));
    }
    let summary = summarize_offered_rows(rows);
    out.append(html_ending(&summary).as_str());
    (out, summary)
}

/// The line of a row in the Markdown report.
pub open spec fn markdown_row(row: OfferedRowView) -> Seq<char> {
    "| "@ + offered_cell_text(offered_cell_of(row)) + " | "@ + spec_cell_text(row) + " | "@
        + resolved_cell_text(row.primary) + " | "@ + dependent_cell_text(row.primary) + " | "@
        + result_cell_text(row) + " "@ + time_text(shown_ms(row)) + " |\n"@
}

/// The lines of the first `n` rows in the Markdown report.
pub open spec fn markdown_rows(rows: Seq<OfferedRowView>, n: int) -> Seq<char>
    decreases n,
{
    if n <= 0 {
        Seq::<char>::empty()
    } else {
        markdown_rows(rows, n - 1) + markdown_row(rows[n - 1])
    }
}

/// What stands before the rows in the Markdown report.
pub open spec fn markdown_head(crate_name: Seq<char>, display_version: Seq<char>) -> Seq<char> {
    "# Cargo Copter Report\n\n"@ + "**Crate**: "@ + crate_name + " ("@ + display_version
        + ")\n\n"@ + "## Test Results\n\n"@
        + "| Offered | Spec | Resolved | Dependent | Result |\n"@
        + "|---------|------|----------|-----------|--------|\n"@
}

/// The counts of a summary as a Markdown list.
pub open spec fn markdown_counts(s: TestSummary) -> Seq<char> {
    "- ✓ Passed: "@ + decimal(s.passed as nat) + "\n"@ + "- ✗ Regressed: "@ + decimal(
        s.regressed as nat,
    ) + "\n"@ + "- ⚠ Broken: "@ + decimal(s.broken as nat) + "\n"@ + "- **Total**: "@ + decimal(
        s.total as nat,
    ) + "\n"@
}

fn push_markdown_row(out: &mut String, row: &OfferedRow)
    ensures
        final(out)@ == old(out)@ + markdown_row(row@),
{
    let cells = format_offered_row(row);
    let mut line = owned("| ");
    line.append(cells.0.as_str());
    line.append(" | ");
    line.append(cells.1.as_str());
    line.append(" | ");
    line.append(cells.2.as_str());
    line.append(" | ");
    line.append(cells.3.as_str());
    line.append(" | ");
    line.append(cells.4.as_str());
    line.append(" ");
    line.append(cells.5.as_str());
    line.append(" |\n");
    out.append(line.as_str());
}

fn markdown_count_list(s: &TestSummary) -> (r: String)
    ensures
        r@ == markdown_counts(*s),
{
    let mut out = owned("- ✓ Passed: ");
    push_usize(&mut out, s.passed);
    out.append("\n");
    out.append("- ✗ Regressed: ");
    push_usize(&mut out, s.regressed);
    out.append("\n");
    out.append("- ⚠ Broken: ");
    push_usize(&mut out, s.broken);
    out.append("\n");
    out.append("- **Total**: ");
    push_usize(&mut out, s.total);
    out.append("\n");
    out
}

fn markdown_heading(crate_name: &str, display_version: &str) -> (s: String)
    ensures
        s@ == markdown_head(crate_name@, display_version@),
{
    let mut out = owned("# Cargo Copter Report\n\n");
    out.append("**Crate**: ");
    out.append(crate_name);
    out.append(" (");
    out.append(display_version);
    out.append(")\n\n");
    out.append("## Test Results\n\n");
    out.append("| Offered | Spec | Resolved | Dependent | Result |\n");
    out.append("|---------|------|----------|-----------|--------|\n");
    out
}

fn markdown_lines(rows: &[OfferedRow]) -> (r: String)
    ensures
        r@ == markdown_rows(views(rows@), rows@.len() as int),
{
    let mut out = String::new();
    let ghost vs = views(rows@);
    let mut i: usize = 0;
    while i < rows.len()
        invariant
            i <= rows@.len(),
            vs == views(rows@),
            out@ == markdown_rows(vs, i as int),
        decreases rows@.len() - i,
    {
        assert(vs[i as int] == rows@[i as int]@);
        push_markdown_row(&mut out, &rows[i]);
        i = i + 1;
    }
    out
}

/// The report as Markdown: a table with a line for every row, and the
/// summary as a list. The text is handed back with the summary.
pub fn generate_markdown_report(rows: &[OfferedRow], crate_name: &str, display_version: &str) -> (r: (
    String,
    TestSummary,
))
    ensures
        r.0@ == markdown_head(crate_name@, display_version@) + markdown_rows(
            views(rows@),
            rows@.len() as int,
        ) + "\n## Summary\n\n"@ + markdown_counts(r.1),
        summarizes(r.1, views(rows@)),
{
    let mut out = markdown_heading(crate_name, display_version);
    out.append(markdown_lines(rows).as_str());
    let summary = summarize_offered_rows(rows);
    out.append("\n## Summary\n\n");
    out.append(markdown_count_list(&summary).as_str());
    (out, summary)
}

/// `s` holds the counts of the rows: every dependent once, as the worst of
/// its rows.
pub open spec fn summarizes(s: TestSummary, rows: Seq<OfferedRowView>) -> bool {
    &&& s.passed == crate::summary::rows_counted(
        rows,
        rows.len() as int,
        crate::results::VersionStatus::Passed,
    )
    &&& s.regressed == crate::summary::rows_counted(
        rows,
        rows.len() as int,
        crate::results::VersionStatus::Regressed,
    )
    &&& s.broken == crate::summary::rows_counted(
        rows,
        rows.len() as int,
        crate::results::VersionStatus::Broken,
    )
    &&& s.consistent()
}

/// The rows as they stand in the table, each closing its own group.
pub open spec fn table_rows(rows: Seq<OfferedRowView>, n: int, w: TableLayout) -> Seq<char>
    decreases n,
{
    if n <= 0 {
        Seq::<char>::empty()
    } else {
        let lines = row_lines(rows[n - 1], true, w);
        table_rows(rows, n - 1, w) + joined_lines(lines, lines.len() as int)
    }
}

/// What stands before the table in the Markdown report with table.
pub open spec fn table_report_head(
    crate_name: Seq<char>,
    display_version: Seq<char>,
    total_deps: nat,
    s: TestSummary,
) -> Seq<char> {
    "# Cargo Copter Test Report\n\n"@ + "**Crate**: "@ + crate_name + " ("@ + display_version
        + ")\n"@ + "**Dependents Tested**: "@ + decimal(total_deps) + "\n\n"@
        + "## Summary\n\n"@ + markdown_counts(s) + "\n"@ + "## Test Results\n\n"@ + "```\n"@
}

fn table_report_heading(
    crate_name: &str,
    display_version: &str,
    total_deps: usize,
    summary: &TestSummary,
) -> (r: String)
    ensures
        r@ == table_report_head(crate_name@, display_version@, total_deps as nat, *summary),
{
    let mut out = owned("# Cargo Copter Test Report\n\n");
    out.append("**Crate**: ");
    out.append(crate_name);
    out.append(" (");
    out.append(display_version);
    out.append(")\n");
    out.append("**Dependents Tested**: ");
    push_usize(&mut out, total_deps);
    out.append("\n\n");
    out.append("## Summary\n\n");
    out.append(markdown_count_list(summary).as_str());
    out.append("\n");
    out.append("## Test Results\n\n");
    out.append("```\n");
    out
}

fn table_lines(rows: &[OfferedRow], widths: &TableWidths) -> (r: String)
    ensures
        r@ == table_rows(views(rows@), rows@.len() as int, widths@),
{
    let mut out = String::new();
    let ghost vs = views(rows@);
    let ghost w = widths@;
    let mut i: usize = 0;
    while i < rows.len()
        invariant
            i <= rows@.len(),
            vs == views(rows@),
            w == widths@,
            out@ == table_rows(vs, i as int, w),
        decreases rows@.len() - i,
    {
        assert(vs[i as int] == rows@[i as int]@);
        let text = format_offered_row_string(&rows[i], true, widths);
        out.append(text.as_str());
        i = i + 1;
    }
    out
}

/// The report as Markdown with the table as it is printed, in a code
/// block, behind the summary. The text is handed back with the summary.
pub fn export_markdown_table_report(
    rows: &[OfferedRow],
    crate_name: &str,
    display_version: &str,
    total_deps: usize,
    widths: &TableWidths,
) -> (r: (String, TestSummary))
    ensures
        r.0@ == table_report_head(crate_name@, display_version@, total_deps as nat, r.1)
            + table_header(crate_name@, display_version@, total_deps as nat, widths@)
            + table_rows(views(rows@), rows@.len() as int, widths@) + table_footer(widths@)
            + "```\n\n"@,
        summarizes(r.1, views(rows@)),
{
    let summary = summarize_offered_rows(rows);
    let mut out = table_report_heading(crate_name, display_version, total_deps, &summary);
    out.append(format_table_header(crate_name, display_version, total_deps, widths).as_str());
    out.append(table_lines(rows, widths).as_str());
    out.append(format_table_footer(widths).as_str());
    out.append("```\n\n");
    (out, summary)
}

} // verus!
