//! Display width of text in terminal columns, and fitting text to a width.
//!
//! Width is measured character by character. Printable ASCII and the
//! box-drawing glyphs that the table frame is drawn with occupy one column by
//! definition; every other character is measured by the `unicode-width`
//! crate, and a character for which that crate reports no width (a control
//! character) counts as one column.

use vstd::prelude::*;
use vstd::string::*;
use crate::text::{chars_of, push_repeated, repeated, string_of, string_of_range};

verus! {

/// The width that `unicode_width::UnicodeWidthChar::width` reports for `c`.
pub uninterp spec fn unicode_char_width(c: char) -> Option<usize>;

/// Measures one character with the `unicode-width` crate.
///
/// Wraps `UnicodeWidthChar::width`, a table lookup that depends on the
/// character alone. Nothing is claimed about the value beyond its name.
#[verifier::external_body]
fn measured_width(c: char) -> (r: Option<usize>)
    ensures
        r == unicode_char_width(c),
{
    unicode_width::UnicodeWidthChar::width(c)
}

/// The glyphs that table frames are drawn with.
pub open spec fn is_frame_glyph(c: char) -> bool {
    c == '─' || c == '│' || c == '┌' || c == '┐' || c == '└' || c == '┘' || c == '├' || c == '┤'
        || c == '┬' || c == '┴' || c == '┼'
}

/// Printable ASCII: U+0020 up to and including U+007E.
pub open spec fn is_printable_ascii(c: char) -> bool {
    ' ' <= c && c <= '~'
}

/// Columns occupied by one character.
pub open spec fn columns_of(c: char) -> nat {
    if is_printable_ascii(c) || is_frame_glyph(c) {
        1
    } else {
        match unicode_char_width(c) {
            Some(w) => w as nat,
            None => 1,
        }
    }
}

/// Columns occupied by a text: the sum over its characters.
pub open spec fn display_cols(s: Seq<char>) -> nat
    decreases s.len(),
{
    if s.len() == 0 {
        0
    } else {
        display_cols(s.drop_last()) + columns_of(s.last())
    }
}

/// Index of the first character of `s`, at or after `from`, that no longer
/// fits when `used` columns of a `budget` are already taken; `s.len()` if all
/// fit.
pub open spec fn cut_point(s: Seq<char>, budget: nat, from: nat, used: nat) -> nat
    decreases s.len() - from,
{
    if from >= s.len() || used + columns_of(s[from as int]) > budget {
        from
    } else {
        cut_point(s, budget, from + 1, used + columns_of(s[from as int]))
    }
}

/// `s` cut to at most `max_width` characters, the last three of which are
/// dots when something was cut and there is room for them.
pub open spec fn truncated(s: Seq<char>, max_width: nat) -> Seq<char> {
    if s.len() <= max_width {
        s
    } else if max_width >= 3 {
        s.take(max_width - 3) + repeated('.', 3)
    } else {
        s.take(max_width as int)
    }
}

/// `s` fitted to exactly `width` columns: padded with spaces when it is
/// narrower, otherwise cut before the first character that would not leave
/// room for three dots (when `width` allows them) and then padded.
pub open spec fn fitted(s: Seq<char>, width: nat) -> Seq<char> {
    if display_cols(s) <= width {
        s + repeated(' ', (width - display_cols(s)) as nat)
    } else {
        let target = if width >= 3 {
            (width - 3) as nat
        } else {
            width
        };
        let kept = s.take(cut_point(s, target, 0, 0) as int);
        let marked = if width >= 3 {
            kept + repeated('.', 3)
        } else {
            kept
        };
        marked + repeated(' ', (width - display_cols(marked)) as nat)
    }
}

/// Width is additive over concatenation.
pub proof fn lemma_cols_concat(a: Seq<char>, b: Seq<char>)
    ensures
        display_cols(a + b) == display_cols(a) + display_cols(b),
    decreases b.len(),
{
    if b.len() == 0 {
        assert(a + b =~= a);
    } else {
        lemma_cols_concat(a, b.drop_last());
        assert((a + b).drop_last() =~= a + b.drop_last());
        assert((a + b).last() == b.last());
    }
}

/// A run of one character is as wide as the character times its count.
pub proof fn lemma_cols_repeated(c: char, n: nat)
    ensures
        display_cols(repeated(c, n)) == n * columns_of(c),
    decreases n,
{
    let w = columns_of(c);
    if n > 0 {
        lemma_cols_repeated(c, (n - 1) as nat);
        assert(repeated(c, n).drop_last() =~= repeated(c, (n - 1) as nat));
        assert(repeated(c, n).last() == c);
        assert(n * w == (n - 1) * w + w) by (nonlinear_arith);
    } else {
        assert(repeated(c, n).len() == 0);
        assert(n * w == 0) by (nonlinear_arith)
            requires
                n == 0,
        ;
    }
}

/// One-column characters make a text as wide as it is long.
pub proof fn lemma_cols_narrow(s: Seq<char>)
    requires
        forall|i: int| 0 <= i < s.len() ==> columns_of(#[trigger] s[i]) == 1,
    ensures
        display_cols(s) == s.len(),
    decreases s.len(),
{
    if s.len() > 0 {
        lemma_cols_narrow(s.drop_last());
    }
}

/// A prefix is never wider than the whole.
pub proof fn lemma_cols_prefix(s: Seq<char>, k: int)
    requires
        0 <= k <= s.len(),
    ensures
        display_cols(s.take(k)) <= display_cols(s),
{
    lemma_cols_concat(s.take(k), s.skip(k));
    assert(s.take(k) + s.skip(k) =~= s);
}

/// Taking one more character adds that character's columns.
pub proof fn lemma_cols_step(s: Seq<char>, i: int)
    requires
        0 <= i < s.len(),
    ensures
        display_cols(s.take(i + 1)) == display_cols(s.take(i)) + columns_of(s[i]),
{
    assert(s.take(i + 1).drop_last() =~= s.take(i));
}

/// What the cut point bounds: everything before it fits, and the character
/// at it, if any, does not.
pub proof fn lemma_cut_point(s: Seq<char>, budget: nat, from: nat, used: nat)
    requires
        from <= s.len(),
        used == display_cols(s.take(from as int)),
        used <= budget,
    ensures
        from <= cut_point(s, budget, from, used) <= s.len(),
        display_cols(s.take(cut_point(s, budget, from, used) as int)) <= budget,
        cut_point(s, budget, from, used) < s.len() ==> display_cols(
            s.take(cut_point(s, budget, from, used) as int + 1),
        ) > budget,
    decreases s.len() - from,
{
    if from < s.len() {
        lemma_cols_step(s, from as int);
        if used + columns_of(s[from as int]) <= budget {
            lemma_cut_point(s, budget, from + 1, used + columns_of(s[from as int]));
        }
    }
}

/// The whole text fits exactly when the cut point is its end.
pub proof fn lemma_cut_point_whole(s: Seq<char>, budget: nat)
    ensures
        cut_point(s, budget, 0, 0) == s.len() <==> display_cols(s) <= budget,
{
    assert(s.take(0) =~= Seq::<char>::empty());
    lemma_cut_point(s, budget, 0, 0);
    let k = cut_point(s, budget, 0, 0);
    if k == s.len() {
        assert(s.take(k as int) =~= s);
    } else {
        lemma_cols_prefix(s, k as int + 1);
    }
}

/// A fitted text occupies exactly the width that it was fitted to.
pub proof fn lemma_fitted_width(s: Seq<char>, width: nat)
    ensures
        display_cols(fitted(s, width)) == width,
{
    lemma_cols_repeated(' ', 1);
    lemma_cols_repeated('.', 3);
    if display_cols(s) <= width {
        lemma_cols_repeated(' ', (width - display_cols(s)) as nat);
        lemma_cols_concat(s, repeated(' ', (width - display_cols(s)) as nat));
    } else {
        let target = if width >= 3 {
            (width - 3) as nat
        } else {
            width
        };
        assert(s.take(0) =~= Seq::<char>::empty());
        lemma_cut_point(s, target, 0, 0);
        let kept = s.take(cut_point(s, target, 0, 0) as int);
        let marked = if width >= 3 {
            kept + repeated('.', 3)
        } else {
            kept
        };
        if width >= 3 {
            lemma_cols_concat(kept, repeated('.', 3));
        }
        lemma_cols_repeated(' ', (width - display_cols(marked)) as nat);
        lemma_cols_concat(marked, repeated(' ', (width - display_cols(marked)) as nat));
    }
}

/// Whether `c` is one of the frame glyphs.
pub fn frame_glyph(c: char) -> (r: bool)
    ensures
        r == is_frame_glyph(c),
{
    c == '─' || c == '│' || c == '┌' || c == '┐' || c == '└' || c == '┘' || c == '├' || c == '┤'
        || c == '┬' || c == '┴' || c == '┼'
}

/// Columns occupied by one character.
pub fn char_columns(c: char) -> (w: usize)
    ensures
        w == columns_of(c),
{
    if (' ' <= c && c <= '~') || frame_glyph(c) {
        1
    } else {
        match measured_width(c) {
            Some(w) => w,
            None => 1,
        }
    }
}

/// Columns occupied by `s`, saturating at `usize::MAX`.
pub fn display_width(s: &str) -> (w: usize)
    ensures
        display_cols(s@) <= usize::MAX ==> w == display_cols(s@),
        display_cols(s@) > usize::MAX ==> w == usize::MAX,
{
    let v = chars_of(s);
    let mut total: usize = 0;
    let mut i: usize = 0;
    proof {
        assert(v@.take(0) =~= Seq::<char>::empty());
    }
    while i < v.len()
        invariant
            i <= v.len(),
            v@ == s@,
            display_cols(v@.take(i as int)) <= usize::MAX ==> total == display_cols(
                v@.take(i as int),
            ),
            display_cols(v@.take(i as int)) > usize::MAX ==> total == usize::MAX,
        decreases v.len() - i,
    {
        let cw = char_columns(v[i]);
        proof {
            lemma_cols_step(v@, i as int);
        }
        if cw > usize::MAX - total {
            total = usize::MAX;
        } else {
            total = total + cw;
        }
        i = i + 1;
    }
    proof {
        assert(v@.take(v.len() as int) =~= v@);
    }
    total
}

/// Scans `v` from the start and returns the cut point for `budget` together
/// with the columns that the characters before it occupy.
fn fit_prefix(v: &Vec<char>, budget: usize) -> (r: (usize, usize))
    ensures
        r.0 == cut_point(v@, budget as nat, 0, 0),
        r.0 <= v.len(),
        r.1 == display_cols(v@.take(r.0 as int)),
        r.1 <= budget,
{
    let mut i: usize = 0;
    let mut used: usize = 0;
    proof {
        assert(v@.take(0) =~= Seq::<char>::empty());
    }
    while i < v.len()
        invariant
            i <= v.len(),
            used <= budget,
            used == display_cols(v@.take(i as int)),
            cut_point(v@, budget as nat, 0, 0) == cut_point(v@, budget as nat, i as nat, used as nat),
        decreases v.len() - i,
    {
        let cw = char_columns(v[i]);
        if cw > budget - used {
            return (i, used);
        }
        proof {
            lemma_cols_step(v@, i as int);
        }
        used = used + cw;
        i = i + 1;
    }
    (i, used)
}

/// Cuts `s` to at most `max_width` characters, ending in `...` when
/// something was cut and `max_width` is at least three.
pub fn truncate_str(s: &str, max_width: usize) -> (r: String)
    ensures
        r@ == truncated(s@, max_width as nat),
        r@.len() <= max_width || r@ == s@,
{
    let v = chars_of(s);
    if v.len() <= max_width {
        string_of(&v)
    } else if max_width >= 3 {
        let mut r = string_of_range(&v, 0, max_width - 3);
        push_repeated(&mut r, '.', 3);
        assert(v@.subrange(0, max_width - 3) =~= v@.take(max_width - 3));
        r
    } else {
        let r = string_of_range(&v, 0, max_width);
        assert(v@.subrange(0, max_width as int) =~= v@.take(max_width as int));
        r
    }
}

/// Fits `s` to exactly `width` columns.
///
/// The result always occupies `width` columns, whatever `s` holds: wide
/// characters that would straddle the limit are left out and replaced by
/// padding.
pub fn truncate_with_padding(s: &str, width: usize) -> (r: String)
    ensures
        r@ == fitted(s@, width as nat),
        display_cols(r@) == width,
{
    let v = chars_of(s);
    let whole = fit_prefix(&v, width);
    proof {
        lemma_cut_point_whole(v@, width as nat);
        lemma_cols_repeated(' ', 1);
        lemma_cols_repeated('.', 3);
    }
    if whole.0 == v.len() {
        let mut r = string_of(&v);
        proof {
            assert(v@.take(v.len() as int) =~= v@);
            lemma_cols_repeated(' ', (width - whole.1) as nat);
            lemma_cols_concat(v@, repeated(' ', (width - whole.1) as nat));
        }
        push_repeated(&mut r, ' ', width - whole.1);
        r
    } else {
        let target = if width >= 3 {
            width - 3
        } else {
            width
        };
        let part = fit_prefix(&v, target);
        let mut r = string_of_range(&v, 0, part.0);
        let mut used = part.1;
        proof {
            assert(v@.subrange(0, part.0 as int) =~= v@.take(part.0 as int));
        }
        if width >= 3 {
            proof {
                lemma_cols_concat(r@, repeated('.', 3));
            }
            push_repeated(&mut r, '.', 3);
            used = used + 3;
        }
        proof {
            lemma_cols_repeated(' ', (width - used) as nat);
            lemma_cols_concat(r@, repeated(' ', (width - used) as nat));
        }
        push_repeated(&mut r, ' ', width - used);
        r
    }
}

} // verus!
