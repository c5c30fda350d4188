//! Separator rows for tables whose neighbouring rows have different column
//! layouts.
//!
//! A separator sits between the row above it and the row below it. Each
//! position of the separator is either under a column of the row above, over a
//! column of the row below, or at a divider of one or both rows. Cells say
//! whether they want a horizontal line on the side that faces the separator.
//! Where nobody asks for a line and the dividers of the two rows do not line
//! up, a divider that ends in the separator is joined to the next divider of
//! the other row by a connector, so that the frame stays closed.

use vstd::prelude::*;
use crate::text::push_char;
use crate::width::{columns_of, display_cols, is_frame_glyph, lemma_cols_narrow};

verus! {

/// One column of a table row, as seen by the separators around the row.
#[derive(Debug, Clone, Copy, PartialEq, Eq, Structural)]
pub struct ColSize {
    /// Columns of text, not counting dividers.
    pub width: usize,
    /// Whether the cell wants a line in the separator above its row.
    pub draw_horizontal_line_above: bool,
    /// Whether the cell wants a line in the separator below its row.
    pub draw_horizontal_line_below: bool,
}

impl ColSize {
    /// A column that wants the same on both sides.
    pub fn new(width: usize, draw_horizontal_line: bool) -> (c: Self)
        ensures
            c == (ColSize {
                width,
                draw_horizontal_line_above: draw_horizontal_line,
                draw_horizontal_line_below: draw_horizontal_line,
            }),
    {
        ColSize {
            width,
            draw_horizontal_line_above: draw_horizontal_line,
            draw_horizontal_line_below: draw_horizontal_line,
        }
    }

    /// A column with separate wishes for the separator above and below.
    pub fn new_asymmetric(width: usize, above: bool, below: bool) -> (c: Self)
        ensures
            c == (ColSize {
                width,
                draw_horizontal_line_above: above,
                draw_horizontal_line_below: below,
            }),
    {
        ColSize { width, draw_horizontal_line_above: above, draw_horizontal_line_below: below }
    }
}

/// A column placed on the separator: where it starts, which row it belongs
/// to, and whether it wants a line at this separator.
#[derive(Debug, Clone, Copy)]
pub struct ResolvedColSize {
    pub width: usize,
    /// Position of the column's first character, counted from 0.
    pub offset: usize,
    /// `true` for a column of the row above, `false` for one of the row below.
    pub from_above: bool,
    /// The column's wish for this separator: its `below` flag when it is
    /// above the separator, its `above` flag when it is below.
    pub draw_horizontal_line: bool,
}

/// Positions taken by the first `n` columns of a row, each counted with the
/// divider that follows it.
pub open spec fn units_before(cols: Seq<ColSize>, n: int) -> int
    decreases n,
{
    if n <= 0 {
        0
    } else {
        units_before(cols, n - 1) + cols[n - 1].width + 1
    }
}

/// Positions between the two borders that a row takes: its columns and the
/// dividers between them.
pub open spec fn row_span(cols: Seq<ColSize>) -> int {
    if cols.len() == 0 {
        0
    } else {
        units_before(cols, cols.len() as int) - 1
    }
}

/// Positions between the borders of the separator of two rows.
pub open spec fn separator_span(prev: Seq<ColSize>, next: Seq<ColSize>) -> int {
    if row_span(prev) >= row_span(next) {
        row_span(prev)
    } else {
        row_span(next)
    }
}

/// Column `i` of the row above, placed.
pub open spec fn placed_above(cols: Seq<ColSize>, i: int) -> ResolvedColSize {
    ResolvedColSize {
        width: cols[i].width,
        offset: units_before(cols, i) as usize,
        from_above: true,
        draw_horizontal_line: cols[i].draw_horizontal_line_below,
    }
}

/// Column `i` of the row below, placed.
pub open spec fn placed_below(cols: Seq<ColSize>, i: int) -> ResolvedColSize {
    ResolvedColSize {
        width: cols[i].width,
        offset: units_before(cols, i) as usize,
        from_above: false,
        draw_horizontal_line: cols[i].draw_horizontal_line_above,
    }
}

/// The columns of both rows, placed: those of the row above first.
pub open spec fn resolved(prev: Seq<ColSize>, next: Seq<ColSize>) -> Seq<ResolvedColSize> {
    Seq::new(prev.len(), |i: int| placed_above(prev, i)) + Seq::new(
        next.len(),
        |i: int| placed_below(next, i),
    )
}

/// Column `c` belongs to the given row, lies over `pos` and wants a line.
pub open spec fn cell_wants(c: ResolvedColSize, from_above: bool, pos: int) -> bool {
    c.from_above == from_above && c.draw_horizontal_line && c.offset <= pos < c.offset + c.width
}

/// Column `c` belongs to the given row and ends just before `pos`.
pub open spec fn cell_ends(c: ResolvedColSize, from_above: bool, pos: int) -> bool {
    c.from_above == from_above && c.offset + c.width == pos
}

/// Some column of the given row lies over `pos` and wants a line.
pub open spec fn wants_line(r: Seq<ResolvedColSize>, from_above: bool, pos: int) -> bool {
    exists|i: int| 0 <= i < r.len() && cell_wants(#[trigger] r[i], from_above, pos)
}

/// The given row has a divider at `pos`: one of its columns ends there.
pub open spec fn divider_at(r: Seq<ResolvedColSize>, from_above: bool, pos: int) -> bool {
    exists|i: int| 0 <= i < r.len() && cell_ends(#[trigger] r[i], from_above, pos)
}

/// A cell of either row asks for a line at `pos`.
pub open spec fn line_requested(r: Seq<ResolvedColSize>, total: int, pos: int) -> bool {
    0 <= pos < total && (wants_line(r, true, pos) || wants_line(r, false, pos))
}

/// Either row has a divider at `pos`.
pub open spec fn is_divider(r: Seq<ResolvedColSize>, total: int, pos: int) -> bool {
    0 <= pos < total && (divider_at(r, true, pos) || divider_at(r, false, pos))
}

/// Exactly one of the rows has a divider at `pos`.
pub open spec fn unmatched(r: Seq<ResolvedColSize>, total: int, pos: int) -> bool {
    0 <= pos < total && divider_at(r, true, pos) != divider_at(r, false, pos)
}

/// Nothing stands between `p` and `q`: no divider, no requested line.
pub open spec fn gap_clear(r: Seq<ResolvedColSize>, total: int, p: int, q: int) -> bool {
    forall|k: int| p < k < q ==> !is_divider(r, total, k) && !line_requested(r, total, k)
}

/// A connector that starts at the divider `p` can end at `q`: `q` is the
/// next divider, it belongs to the other row alone, and the positions
/// between the two, of which there is at least one, are clear.
pub open spec fn connector_end(r: Seq<ResolvedColSize>, total: int, p: int, q: int) -> bool {
    p + 1 < q < total && unmatched(r, total, q) && divider_at(r, true, q) != divider_at(r, true, p)
        && gap_clear(r, total, p, q)
}

/// A connector starts at `p`.
pub open spec fn opens_connector(r: Seq<ResolvedColSize>, total: int, p: int) -> bool {
    unmatched(r, total, p) && exists|q: int| connector_end(r, total, p, q)
}

/// A connector is running when the separator is read from the left up to,
/// but not including, `pos`. A divider ends a running connector; a divider
/// met while none is running may start one.
pub open spec fn connector_open(r: Seq<ResolvedColSize>, total: int, pos: int) -> bool
    decreases pos,
{
    if pos <= 0 {
        false
    } else if is_divider(r, total, pos - 1) {
        !connector_open(r, total, pos - 1) && opens_connector(r, total, pos - 1)
    } else {
        connector_open(r, total, pos - 1)
    }
}

/// The glyph for a divider position, from the four directions in which a
/// line leaves it.
pub open spec fn junction(up: bool, down: bool, left: bool, right: bool) -> char {
    if !left && !right {
        '│'
    } else if up && down {
        if left && right {
            '┼'
        } else if left {
            '┤'
        } else {
            '├'
        }
    } else if up {
        if left && right {
            '┴'
        } else if left {
            '┘'
        } else {
            '└'
        }
    } else {
        if left && right {
            '┬'
        } else if left {
            '┐'
        } else {
            '┌'
        }
    }
}

/// The character at position `pos` of the separator.
pub open spec fn separator_char(r: Seq<ResolvedColSize>, total: int, pos: int) -> char {
    let up = divider_at(r, true, pos);
    let down = divider_at(r, false, pos);
    if up || down {
        junction(
            up,
            down,
            line_requested(r, total, pos - 1) || connector_open(r, total, pos),
            line_requested(r, total, pos + 1) || connector_open(r, total, pos + 1),
        )
    } else if line_requested(r, total, pos) || connector_open(r, total, pos) {
        '─'
    } else {
        ' '
    }
}

/// The border glyph at one end of the separator. `wanted` says whether the
/// cell next to the border asks for a line; `above` and `below` say whether
/// there is a row on that side.
pub open spec fn border_glyph(
    wanted: bool,
    above: bool,
    below: bool,
    both: char,
    top: char,
    bottom: char,
) -> char {
    if !wanted {
        '│'
    } else if above && below {
        both
    } else if below {
        top
    } else {
        bottom
    }
}

/// The left border of the separator.
pub open spec fn left_border(prev: Seq<ColSize>, next: Seq<ColSize>) -> char {
    border_glyph(
        (prev.len() > 0 && prev[0].draw_horizontal_line_below) || (next.len() > 0
            && next[0].draw_horizontal_line_above),
        prev.len() > 0,
        next.len() > 0,
        '├',
        '┌',
        '└',
    )
}

/// The right border of the separator.
pub open spec fn right_border(prev: Seq<ColSize>, next: Seq<ColSize>) -> char {
    border_glyph(
        (prev.len() > 0 && prev.last().draw_horizontal_line_below) || (next.len() > 0
            && next.last().draw_horizontal_line_above),
        prev.len() > 0,
        next.len() > 0,
        '┤',
        '┐',
        '┘',
    )
}

/// The positions between the borders.
pub open spec fn separator_body(prev: Seq<ColSize>, next: Seq<ColSize>, n: int) -> Seq<char> {
    Seq::new(
        n as nat,
        |p: int| separator_char(resolved(prev, next), separator_span(prev, next), p),
    )
}

/// The separator between a row laid out as `prev` and one laid out as
/// `next`: left border, one character for each position, right border, line
/// feed.
pub open spec fn separator_row(prev: Seq<ColSize>, next: Seq<ColSize>) -> Seq<char> {
    seq![left_border(prev, next)] + separator_body(prev, next, separator_span(prev, next))
        + seq![right_border(prev, next), '\n']
}

/// Every separator of two rows is two columns wider than the wider row, and
/// is drawn with frame glyphs and spaces only.
pub proof fn lemma_separator_width(prev: Seq<ColSize>, next: Seq<ColSize>)
    ensures
        separator_span(prev, next) >= 0,
        separator_row(prev, next).len() == separator_span(prev, next) + 3,
        separator_row(prev, next).last() == '\n',
        display_cols(separator_row(prev, next).drop_last()) == separator_span(prev, next) + 2,
{
    lemma_units_monotone(prev, 0, prev.len() as int);
    lemma_units_monotone(next, 0, next.len() as int);
    let line = separator_row(prev, next).drop_last();
    assert forall|i: int| 0 <= i < line.len() implies columns_of(#[trigger] line[i]) == 1 by {
        let c = line[i];
        assert(is_frame_glyph(c) || c == ' ');
    }
    lemma_cols_narrow(line);
}

/// Later columns start further right.
pub proof fn lemma_units_monotone(cols: Seq<ColSize>, i: int, j: int)
    requires
        0 <= i <= j,
    ensures
        0 <= units_before(cols, i),
        units_before(cols, i) + (j - i) <= units_before(cols, j),
    decreases j,
{
    if i < j {
        lemma_units_monotone(cols, i, j - 1);
    } else if i > 0 {
        lemma_units_monotone(cols, i - 1, j - 1);
    }
}

/// Places the columns of the two rows on the separator between them.
pub fn resolve_columns(previous_columns: &[ColSize], next_columns: &[ColSize]) -> (r: Vec<
    ResolvedColSize,
>)
    requires
        units_before(previous_columns@, previous_columns@.len() as int) <= usize::MAX,
        units_before(next_columns@, next_columns@.len() as int) <= usize::MAX,
    ensures
        r@ == resolved(previous_columns@, next_columns@),
{
    let mut r: Vec<ResolvedColSize> = Vec::new();
    let mut offset: usize = 0;
    let mut i: usize = 0;
    while i < previous_columns.len()
        invariant
            i <= previous_columns@.len(),
            offset == units_before(previous_columns@, i as int),
            units_before(previous_columns@, previous_columns@.len() as int) <= usize::MAX,
            r@ == Seq::new(i as nat, |k: int| placed_above(previous_columns@, k)),
        decreases previous_columns@.len() - i,
    {
        proof {
            lemma_units_monotone(previous_columns@, i as int + 1, previous_columns@.len() as int);
        }
        let col = previous_columns[i];
        r.push(
            ResolvedColSize {
                width: col.width,
                offset,
                from_above: true,
                draw_horizontal_line: col.draw_horizontal_line_below,
            },
        );
        offset = offset + col.width + 1;
        i = i + 1;
        assert(r@ =~= Seq::new(i as nat, |k: int| placed_above(previous_columns@, k)));
    }
    let ghost above = r@;
    offset = 0;
    i = 0;
    while i < next_columns.len()
        invariant
            i <= next_columns@.len(),
            offset == units_before(next_columns@, i as int),
            units_before(next_columns@, next_columns@.len() as int) <= usize::MAX,
            r@ == above + Seq::new(i as nat, |k: int| placed_below(next_columns@, k)),
        decreases next_columns@.len() - i,
    {
        proof {
            lemma_units_monotone(next_columns@, i as int + 1, next_columns@.len() as int);
        }
        let col = next_columns[i];
        r.push(
            ResolvedColSize {
                width: col.width,
                offset,
                from_above: false,
                draw_horizontal_line: col.draw_horizontal_line_above,
            },
        );
        offset = offset + col.width + 1;
        i = i + 1;
        assert(r@ =~= above + Seq::new(i as nat, |k: int| placed_below(next_columns@, k)));
    }
    r
}

/// Positions that a row takes between the borders.
fn span_of(cols: &[ColSize]) -> (n: usize)
    requires
        units_before(cols@, cols@.len() as int) <= usize::MAX,
    ensures
        n == row_span(cols@),
{
    let mut units: usize = 0;
    let mut i: usize = 0;
    while i < cols.len()
        invariant
            i <= cols@.len(),
            units == units_before(cols@, i as int),
            units_before(cols@, cols@.len() as int) <= usize::MAX,
        decreases cols@.len() - i,
    {
        proof {
            lemma_units_monotone(cols@, i as int + 1, cols@.len() as int);
        }
        units = units + cols[i].width + 1;
        i = i + 1;
    }
    proof {
        lemma_units_monotone(cols@, 0, cols@.len() as int);
    }
    if cols.len() == 0 {
        0
    } else {
        units - 1
    }
}

fn wants_line_at(r: &Vec<ResolvedColSize>, from_above: bool, pos: usize) -> (b: bool)
    ensures
        b == wants_line(r@, from_above, pos as int),
{
    let mut i: usize = 0;
    while i < r.len()
        invariant
            i <= r.len(),
            forall|j: int| 0 <= j < i ==> !cell_wants(#[trigger] r@[j], from_above, pos as int),
        decreases r.len() - i,
    {
        let c = r[i];
        if c.from_above == from_above && c.draw_horizontal_line && pos >= c.offset && pos - c.offset
            < c.width {
            assert(cell_wants(r@[i as int], from_above, pos as int));
            return true;
        }
        i = i + 1;
    }
    false
}

fn divider_at_pos(r: &Vec<ResolvedColSize>, from_above: bool, pos: usize) -> (b: bool)
    ensures
        b == divider_at(r@, from_above, pos as int),
{
    let mut i: usize = 0;
    while i < r.len()
        invariant
            i <= r.len(),
            forall|j: int| 0 <= j < i ==> !cell_ends(#[trigger] r@[j], from_above, pos as int),
        decreases r.len() - i,
    {
        let c = r[i];
        if c.from_above == from_above && pos >= c.offset && pos - c.offset == c.width {
            assert(cell_ends(r@[i as int], from_above, pos as int));
            return true;
        }
        i = i + 1;
    }
    false
}

fn line_requested_at(r: &Vec<ResolvedColSize>, total: usize, pos: usize) -> (b: bool)
    ensures
        b == line_requested(r@, total as int, pos as int),
{
    pos < total && (wants_line_at(r, true, pos) || wants_line_at(r, false, pos))
}

/// Whether a connector starts at the divider `p`.
fn opens_connector_at(r: &Vec<ResolvedColSize>, total: usize, p: usize) -> (b: bool)
    requires
        p < total,
    ensures
        b == opens_connector(r@, total as int, p as int),
{
    let up = divider_at_pos(r, true, p);
    let down = divider_at_pos(r, false, p);
    if up == down {
        return false;
    }
    let mut q: usize = p + 1;
    while q < total
        invariant
            p < q <= total,
            up == divider_at(r@, true, p as int),
            down == divider_at(r@, false, p as int),
            up != down,
            gap_clear(r@, total as int, p as int, q as int),
        decreases total - q,
    {
        let q_up = divider_at_pos(r, true, q);
        let q_down = divider_at_pos(r, false, q);
        if q_up || q_down {
            let found = q > p + 1 && q_up != q_down && q_up != up;
            proof {
                if found {
                    assert(connector_end(r@, total as int, p as int, q as int));
                } else {
                    assert forall|k: int| !connector_end(r@, total as int, p as int, k) by {
                        if connector_end(r@, total as int, p as int, k) {
                            if k < q {
                                assert(is_divider(r@, total as int, k));
                            } else if k > q {
                                assert(is_divider(r@, total as int, q as int));
                            }
                        }
                    }
                }
            }
            return found;
        }
        if line_requested_at(r, total, q) {
            proof {
                assert forall|k: int| !connector_end(r@, total as int, p as int, k) by {
                    if connector_end(r@, total as int, p as int, k) {
                        if k < q {
                            assert(is_divider(r@, total as int, k));
                        } else if k > q {
                            assert(line_requested(r@, total as int, q as int));
                        } else {
                            assert(!is_divider(r@, total as int, q as int));
                        }
                    }
                }
            }
            return false;
        }
        q = q + 1;
    }
    proof {
        assert forall|k: int| !connector_end(r@, total as int, p as int, k) by {
            if connector_end(r@, total as int, p as int, k) {
                assert(is_divider(r@, total as int, k));
            }
        }
    }
    false
}

fn junction_glyph(up: bool, down: bool, left: bool, right: bool) -> (c: char)
    ensures
        c == junction(up, down, left, right),
{
    if !left && !right {
        '│'
    } else if up && down {
        if left && right {
            '┼'
        } else if left {
            '┤'
        } else {
            '├'
        }
    } else if up {
        if left && right {
            '┴'
        } else if left {
            '┘'
        } else {
            '└'
        }
    } else {
        if left && right {
            '┬'
        } else if left {
            '┐'
        } else {
            '┌'
        }
    }
}

fn border(wanted: bool, above: bool, below: bool, both: char, top: char, bottom: char) -> (c: char)
    ensures
        c == border_glyph(wanted, above, below, both, top, bottom),
{
    if !wanted {
        '│'
    } else if above && below {
        both
    } else if below {
        top
    } else {
        bottom
    }
}

/// Draws the separator between two table rows.
///
/// `previous_columns` is the layout of the row above the separator (empty
/// for the top border of a table), `next_columns` that of the row below
/// (empty for the bottom border). The rows must be narrow enough for their
/// positions to be counted in a `usize`.
pub fn format_separator_row(previous_columns: &[ColSize], next_columns: &[ColSize]) -> (s: String)
    requires
        units_before(previous_columns@, previous_columns@.len() as int) <= usize::MAX,
        units_before(next_columns@, next_columns@.len() as int) <= usize::MAX,
    ensures
        s@ == separator_row(previous_columns@, next_columns@),
{
    let r = resolve_columns(previous_columns, next_columns);
    let prev_total = span_of(previous_columns);
    let next_total = span_of(next_columns);
    let total = if prev_total >= next_total {
        prev_total
    } else {
        next_total
    };
    let np = previous_columns.len();
    let nn = next_columns.len();
    let left = border(
        (np > 0 && previous_columns[0].draw_horizontal_line_below) || (nn > 0
            && next_columns[0].draw_horizontal_line_above),
        np > 0,
        nn > 0,
        '├',
        '┌',
        '└',
    );
    let right = border(
        (np > 0 && previous_columns[np - 1].draw_horizontal_line_below) || (nn > 0
            && next_columns[nn - 1].draw_horizontal_line_above),
        np > 0,
        nn > 0,
        '┤',
        '┐',
        '┘',
    );
    let mut out = String::new();
    push_char(&mut out, left);
    let mut open = false;
    let mut pos: usize = 0;
    assert(out@ =~= seq![left] + separator_body(previous_columns@, next_columns@, 0));
    while pos < total
        invariant
            pos <= total,
            total == separator_span(previous_columns@, next_columns@),
            r@ == resolved(previous_columns@, next_columns@),
            open == connector_open(r@, total as int, pos as int),
            out@ == seq![left] + separator_body(previous_columns@, next_columns@, pos as int),
        decreases total - pos,
    {
        let up = divider_at_pos(&r, true, pos);
        let down = divider_at_pos(&r, false, pos);
        let ch = if up || down {
            let after = !open && opens_connector_at(&r, total, pos);
            let line_left = (pos > 0 && line_requested_at(&r, total, pos - 1)) || open;
            let line_right = line_requested_at(&r, total, pos + 1) || after;
            open = after;
            junction_glyph(up, down, line_left, line_right)
        } else if line_requested_at(&r, total, pos) || open {
            '─'
        } else {
            ' '
        };
        push_char(&mut out, ch);
        pos = pos + 1;
        assert(out@ =~= seq![left] + separator_body(previous_columns@, next_columns@, pos as int));
    }
    push_char(&mut out, right);
    push_char(&mut out, '\n');
    assert(out@ =~= separator_row(previous_columns@, next_columns@));
    out
}

} // verus!
