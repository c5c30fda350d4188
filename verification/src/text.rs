//! Character-level helpers for building and inspecting text.
//!
//! Contracts in this crate speak of text as `Seq<char>`, the view of `str` and
//! `String`. The functions here move between strings and character vectors and
//! provide the handful of operations (repetition, decimal rendering, padding,
//! line splitting) that the formatting code is assembled from.

use vstd::prelude::*;
use vstd::string::*;

verus! {

/// Appends one character to a string.
///
/// Wraps `String::push`, which std documents as appending the given `char`
/// to the end of the string.
#[verifier::external_body]
pub(crate) fn push_char(s: &mut String, c: char)
    ensures
        final(s)@ == old(s)@.push(c),
{
    s.push(c)
}

/// The characters of `s`, in order.
pub fn chars_of(s: &str) -> (v: Vec<char>)
    ensures
        v@ == s@,
{
    let mut v: Vec<char> = Vec::new();
    for c in it: s.chars()
        invariant
            v@ == it.seq().take(it.index() as int),
    {
        v.push(c);
    }
    v
}

/// The string made of the characters `v[from..to]`, in order.
pub fn string_of_range(v: &Vec<char>, from: usize, to: usize) -> (s: String)
    requires
        from <= to <= v.len(),
    ensures
        s@ == v@.subrange(from as int, to as int),
{
    let mut s = String::new();
    let mut i: usize = from;
    while i < to
        invariant
            from <= i <= to <= v.len(),
            s@ == v@.subrange(from as int, i as int),
        decreases to - i,
    {
        push_char(&mut s, v[i]);
        i = i + 1;
    }
    s
}

/// The string made of the characters of `v`, in order.
pub fn string_of(v: &Vec<char>) -> (s: String)
    ensures
        s@ == v@,
{
    let s = string_of_range(v, 0, v.len());
    assert(v@.subrange(0, v.len() as int) == v@);
    s
}

/// An owned copy of `s`.
pub fn owned(s: &str) -> (r: String)
    ensures
        r@ == s@,
{
    let mut r = String::new();
    r.append(s);
    r
}

/// Whether two strings hold the same characters.
pub fn same_text(a: &str, b: &str) -> (r: bool)
    ensures
        r == (a@ == b@),
{
    let x = chars_of(a);
    let y = chars_of(b);
    if x.len() != y.len() {
        return false;
    }
    let mut i: usize = 0;
    while i < x.len()
        invariant
            i <= x.len(),
            x.len() == y.len(),
            x@ == a@,
            y@ == b@,
            forall|j: int| 0 <= j < i ==> x@[j] == y@[j],
        decreases x.len() - i,
    {
        if x[i] != y[i] {
            return false;
        }
        i = i + 1;
    }
    assert(x@ =~= y@);
    true
}

/// `n` copies of `c`.
pub open spec fn repeated(c: char, n: nat) -> Seq<char> {
    Seq::new(n, |i: int| c)
}

/// Appends `n` copies of `c` to `out`.
pub fn push_repeated(out: &mut String, c: char, n: usize)
    ensures
        final(out)@ == old(out)@ + repeated(c, n as nat),
{
    let mut i: usize = 0;
    while i < n
        invariant
            i <= n,
            out@ == old(out)@ + repeated(c, i as nat),
        decreases n - i,
    {
        push_char(out, c);
        i = i + 1;
        assert(out@ =~= old(out)@ + repeated(c, i as nat));
    }
}

/// The string of `n` copies of `c`.
pub fn repeat_char(c: char, n: usize) -> (s: String)
    ensures
        s@ == repeated(c, n as nat),
{
    let mut s = String::new();
    push_repeated(&mut s, c, n);
    assert(s@ =~= repeated(c, n as nat));
    s
}

/// The character for a single decimal digit.
pub open spec fn digit_char(d: nat) -> char {
    if d == 0 {
        '0'
    } else if d == 1 {
        '1'
    } else if d == 2 {
        '2'
    } else if d == 3 {
        '3'
    } else if d == 4 {
        '4'
    } else if d == 5 {
        '5'
    } else if d == 6 {
        '6'
    } else if d == 7 {
        '7'
    } else if d == 8 {
        '8'
    } else {
        '9'
    }
}

/// The decimal numeral of `n`, without sign or leading zeros.
pub open spec fn decimal(n: nat) -> Seq<char>
    decreases n,
{
    if n < 10 {
        seq![digit_char(n)]
    } else {
        decimal(n / 10).push(digit_char(n % 10))
    }
}

fn digit_of(d: u64) -> (c: char)
    requires
        d < 10,
    ensures
        c == digit_char(d as nat),
{
    if d == 0 {
        '0'
    } else if d == 1 {
        '1'
    } else if d == 2 {
        '2'
    } else if d == 3 {
        '3'
    } else if d == 4 {
        '4'
    } else if d == 5 {
        '5'
    } else if d == 6 {
        '6'
    } else if d == 7 {
        '7'
    } else if d == 8 {
        '8'
    } else {
        '9'
    }
}

/// Appends the decimal numeral of `n` to `out`.
pub fn push_decimal(out: &mut String, n: u64)
    ensures
        final(out)@ == old(out)@ + decimal(n as nat),
    decreases n,
{
    if n >= 10 {
        push_decimal(out, n / 10);
    }
    push_char(out, digit_of(n % 10));
    assert(out@ =~= old(out)@ + decimal(n as nat));
}

/// The decimal numeral of `n` as a string.
pub fn decimal_string(n: u64) -> (s: String)
    ensures
        s@ == decimal(n as nat),
{
    let mut s = String::new();
    push_decimal(&mut s, n);
    assert(s@ =~= decimal(n as nat));
    s
}

/// The decimal numeral of a `usize`.
pub fn push_usize(out: &mut String, n: usize)
    ensures
        final(out)@ == old(out)@ + decimal(n as nat),
{
    push_decimal(out, n as u64);
}

/// `s` padded with spaces on the left to at least `width` characters.
pub open spec fn padded_left(s: Seq<char>, width: nat) -> Seq<char> {
    if s.len() >= width {
        s
    } else {
        repeated(' ', (width - s.len()) as nat) + s
    }
}

/// `s` padded with copies of `fill` on the right to at least `width` characters.
pub open spec fn padded_right(s: Seq<char>, fill: char, width: nat) -> Seq<char> {
    if s.len() >= width {
        s
    } else {
        s + repeated(fill, (width - s.len()) as nat)
    }
}

/// `s` centred in a field of at least `width` characters; an odd remainder
/// goes to the right.
pub open spec fn centered(s: Seq<char>, width: nat) -> Seq<char> {
    if s.len() >= width {
        s
    } else {
        let gap = (width - s.len()) as nat;
        repeated(' ', gap / 2) + s + repeated(' ', (gap - gap / 2) as nat)
    }
}

/// Right-aligns `s` in a field of `width` characters, counted as characters.
pub fn pad_left(s: &str, width: usize) -> (r: String)
    ensures
        r@ == padded_left(s@, width as nat),
{
    let n = s.unicode_len();
    let mut r = String::new();
    if n < width {
        push_repeated(&mut r, ' ', width - n);
    }
    r.append(s);
    assert(r@ =~= padded_left(s@, width as nat));
    r
}

/// Left-aligns `s` in a field of `width` characters, filling with `fill`.
pub fn pad_right(s: &str, fill: char, width: usize) -> (r: String)
    ensures
        r@ == padded_right(s@, fill, width as nat),
{
    let n = s.unicode_len();
    let mut r = owned(s);
    if n < width {
        push_repeated(&mut r, fill, width - n);
    }
    assert(r@ =~= padded_right(s@, fill, width as nat));
    r
}

/// Centres `s` in a field of `width` characters.
pub fn pad_center(s: &str, width: usize) -> (r: String)
    ensures
        r@ == centered(s@, width as nat),
{
    let n = s.unicode_len();
    let mut r = String::new();
    if n < width {
        let gap = width - n;
        push_repeated(&mut r, ' ', gap / 2);
        r.append(s);
        push_repeated(&mut r, ' ', gap - gap / 2);
    } else {
        r.append(s);
    }
    assert(r@ =~= centered(s@, width as nat));
    r
}

/// White space as `char::is_whitespace` defines it: the code points with the
/// Unicode property `White_Space`.
pub open spec fn is_space(c: char) -> bool {
    c == ' ' || ('\t' <= c && c <= '\r') || c == '\u{85}' || c == '\u{a0}' || c == '\u{1680}' || (
    '\u{2000}' <= c && c <= '\u{200a}') || c == '\u{2028}' || c == '\u{2029}' || c == '\u{202f}'
        || c == '\u{205f}' || c == '\u{3000}'
}

/// Whether `c` is white space.
pub fn space_char(c: char) -> (b: bool)
    ensures
        b == is_space(c),
{
    c == ' ' || ('\t' <= c && c <= '\r') || c == '\u{85}' || c == '\u{a0}' || c == '\u{1680}' || (
    '\u{2000}' <= c && c <= '\u{200a}') || c == '\u{2028}' || c == '\u{2029}' || c == '\u{202f}'
        || c == '\u{205f}' || c == '\u{3000}'
}

/// A text that holds nothing but white space.
pub open spec fn is_blank(s: Seq<char>) -> bool {
    forall|i: int| 0 <= i < s.len() ==> is_space(#[trigger] s[i])
}

/// Whether `v[from..to]` holds nothing but white space.
pub fn blank_range(v: &Vec<char>, from: usize, to: usize) -> (b: bool)
    requires
        from <= to <= v.len(),
    ensures
        b == is_blank(v@.subrange(from as int, to as int)),
{
    let mut i: usize = from;
    while i < to
        invariant
            from <= i <= to <= v.len(),
            forall|j: int| from <= j < i ==> is_space(#[trigger] v@[j]),
        decreases to - i,
    {
        if !space_char(v[i]) {
            assert(!is_space(v@.subrange(from as int, to as int)[i - from]));
            return false;
        }
        i = i + 1;
    }
    assert forall|j: int| 0 <= j < v@.subrange(from as int, to as int).len() implies is_space(
        #[trigger] v@.subrange(from as int, to as int)[j],
    ) by {
        assert(v@.subrange(from as int, to as int)[j] == v@[from + j]);
    }
    true
}

/// Whether `s` holds nothing but white space.
pub fn blank(s: &str) -> (b: bool)
    ensures
        b == is_blank(s@),
{
    let v = chars_of(s);
    let b = blank_range(&v, 0, v.len());
    assert(v@.subrange(0, v.len() as int) =~= v@);
    b
}

/// Index of the first line feed of `s` at or after `from`; `s.len()` if
/// there is none.
pub open spec fn line_end(s: Seq<char>, from: int) -> int
    decreases s.len() - from,
{
    if from >= s.len() {
        s.len() as int
    } else if from >= 0 && s[from] == '\n' {
        from
    } else {
        line_end(s, from + 1)
    }
}

/// `s` without a carriage return at its end.
pub open spec fn without_cr(s: Seq<char>) -> Seq<char> {
    if s.len() > 0 && s.last() == '\r' {
        s.drop_last()
    } else {
        s
    }
}

/// The lines of `s` from position `from` on. A line ends at a line feed,
/// which is not part of it, nor is a carriage return just before the line
/// feed. What follows the last line feed is a line if it is not empty.
pub open spec fn lines_from(s: Seq<char>, from: int) -> Seq<Seq<char>>
    decreases s.len() - from,
{
    if from < 0 || from >= s.len() {
        Seq::<Seq<char>>::empty()
    } else {
        let end = line_end(s, from);
        if end >= s.len() {
            seq![s.subrange(from, s.len() as int)]
        } else {
            proof {
                lemma_line_end_bounds(s, from);
            }
            seq![without_cr(s.subrange(from, end))] + lines_from(s, end + 1)
        }
    }
}

/// The lines of `s`.
pub open spec fn lines_of(s: Seq<char>) -> Seq<Seq<char>> {
    lines_from(s, 0)
}

/// The first `limit` lines of `s`, or all of them if there are fewer.
pub open spec fn leading_lines(s: Seq<char>, limit: nat) -> Seq<Seq<char>> {
    if lines_of(s).len() <= limit {
        lines_of(s)
    } else {
        lines_of(s).take(limit as int)
    }
}

/// The texts of a list of strings.
pub open spec fn texts_of(v: Seq<String>) -> Seq<Seq<char>> {
    Seq::new(v.len(), |i: int| v[i]@)
}

/// A line ends at or after its start, at the first line feed or at the end
/// of the text.
pub proof fn lemma_line_end_bounds(s: Seq<char>, from: int)
    requires
        0 <= from <= s.len(),
    ensures
        from <= line_end(s, from) <= s.len(),
        line_end(s, from) < s.len() ==> s[line_end(s, from)] == '\n',
        forall|k: int| from <= k < line_end(s, from) ==> s[k] != '\n',
    decreases s.len() - from,
{
    if from < s.len() && s[from] != '\n' {
        lemma_line_end_bounds(s, from + 1);
    }
}

/// Index of the first `c` in `s` at or after `from`; `s.len()` if there is
/// none.
pub open spec fn position_of(s: Seq<char>, c: char, from: int) -> int
    decreases s.len() - from,
{
    if from >= s.len() {
        s.len() as int
    } else if from >= 0 && s[from] == c {
        from
    } else {
        position_of(s, c, from + 1)
    }
}

/// Index of the first `c` in `v` at or after `from`; `v.len()` if there is
/// none.
pub fn find_char(v: &Vec<char>, c: char, from: usize) -> (at: usize)
    requires
        from <= v.len(),
    ensures
        at == position_of(v@, c, from as int),
        from <= at <= v.len(),
{
    let mut at: usize = from;
    while at < v.len() && v[at] != c
        invariant
            from <= at <= v.len(),
            position_of(v@, c, from as int) == position_of(v@, c, at as int),
        decreases v.len() - at,
    {
        at = at + 1;
    }
    at
}

/// What lies between the first and the second `sep` of `s`, or behind the
/// first if there is no second; `None` if there is no `sep` at all.
pub open spec fn second_piece(s: Seq<char>, sep: char) -> Option<Seq<char>> {
    let first = position_of(s, sep, 0);
    if first >= s.len() {
        None
    } else {
        Some(s.subrange(first + 1, position_of(s, sep, first + 1)))
    }
}

/// What lies between the first and the second `sep` of `s`.
pub fn piece_after(s: &str, sep: char) -> (r: Option<String>)
    ensures
        match r {
            Some(p) => second_piece(s@, sep) == Some(p@),
            None => second_piece(s@, sep) is None,
        },
{
    let v = chars_of(s);
    let first = find_char(&v, sep, 0);
    if first >= v.len() {
        None
    } else {
        let second = find_char(&v, sep, first + 1);
        Some(string_of_range(&v, first + 1, second))
    }
}

/// The second word of `s`, if it has two.
pub open spec fn second_word(s: Seq<char>) -> Option<Seq<char>> {
    if words_of(s).len() >= 2 {
        Some(words_of(s)[1])
    } else {
        None
    }
}

/// The second word of `s`, if it has two.
pub fn word_after_first(s: &str) -> (r: Option<String>)
    ensures
        match r {
            Some(w) => second_word(s@) == Some(w@),
            None => second_word(s@) is None,
        },
{
    let mut words: Vec<String> = Vec::new();
    assert(texts_of(words@) =~= Seq::<Seq<char>>::empty());
    push_words(&mut words, s);
    assert(texts_of(words@) =~= words_of(s@));
    if words.len() >= 2 {
        assert(texts_of(words@)[1] == words@[1]@);
        Some(words[1].clone())
    } else {
        None
    }
}

/// Index of the first character of `s` at or after `from` that is white
/// space if `space`, or that is not if not; `s.len()` if there is none.
pub open spec fn next_where(s: Seq<char>, from: int, space: bool) -> int
    decreases s.len() - from,
{
    if from >= s.len() {
        s.len() as int
    } else if from >= 0 && is_space(s[from]) == space {
        from
    } else {
        next_where(s, from + 1, space)
    }
}

/// Where the search for a character ends.
pub proof fn lemma_next_where(s: Seq<char>, from: int, space: bool)
    requires
        0 <= from <= s.len(),
    ensures
        from <= next_where(s, from, space) <= s.len(),
        next_where(s, from, space) < s.len() ==> is_space(s[next_where(s, from, space)]) == space,
    decreases s.len() - from,
{
    if from < s.len() && is_space(s[from]) != space {
        lemma_next_where(s, from + 1, space);
    }
}

/// The words of `s` from position `from` on: the longest runs of
/// characters that are not white space.
pub open spec fn words_from(s: Seq<char>, from: int) -> Seq<Seq<char>>
    decreases s.len() - from,
{
    if from < 0 || from >= s.len() {
        Seq::<Seq<char>>::empty()
    } else {
        let begin = next_where(s, from, false);
        if begin >= s.len() {
            Seq::<Seq<char>>::empty()
        } else {
            let end = next_where(s, begin, true);
            proof {
                lemma_next_where(s, from, false);
                lemma_next_where(s, begin, true);
            }
            seq![s.subrange(begin, end)] + words_from(s, end)
        }
    }
}

/// The words of `s`.
pub open spec fn words_of(s: Seq<char>) -> Seq<Seq<char>> {
    words_from(s, 0)
}

/// The words of the first `n` texts, one after the other.
pub open spec fn words_of_all(texts: Seq<Seq<char>>, n: int) -> Seq<Seq<char>>
    decreases n,
{
    if n <= 0 {
        Seq::<Seq<char>>::empty()
    } else {
        words_of_all(texts, n - 1) + words_of(texts[n - 1])
    }
}

/// Appends the words of `text` to `out`.
pub fn push_words(out: &mut Vec<String>, text: &str)
    ensures
        texts_of(final(out)@) == texts_of(old(out)@) + words_of(text@),
{
    let v = chars_of(text);
    let ghost start = texts_of(out@);
    let mut from: usize = 0;
    let mut done = false;
    assert(texts_of(out@) =~= start + Seq::<Seq<char>>::empty());
    while !done
        invariant
            from <= v.len(),
            v@ == text@,
            !done ==> start + words_of(v@) == texts_of(out@) + words_from(v@, from as int),
            done ==> texts_of(out@) == start + words_of(v@),
        decreases v.len() - from + if done {
            0int
        } else {
            1int
        },
    {
        let mut begin: usize = from;
        while begin < v.len() && space_char(v[begin])
            invariant
                from <= begin <= v.len(),
                next_where(v@, from as int, false) == next_where(v@, begin as int, false),
            decreases v.len() - begin,
        {
            begin = begin + 1;
        }
        if begin >= v.len() {
            done = true;
            assert(words_from(v@, from as int) =~= Seq::<Seq<char>>::empty());
            assert(texts_of(out@) =~= start + words_of(v@));
        } else {
            let mut end: usize = begin;
            while end < v.len() && !space_char(v[end])
                invariant
                    begin <= end <= v.len(),
                    next_where(v@, begin as int, true) == next_where(v@, end as int, true),
                decreases v.len() - end,
            {
                end = end + 1;
            }
            let ghost before = texts_of(out@);
            out.push(string_of_range(&v, begin, end));
            assert(texts_of(out@) =~= before.push(v@.subrange(begin as int, end as int)));
            proof {
                lemma_next_where(v@, from as int, false);
                lemma_next_where(v@, begin as int, true);
                assert(words_from(v@, from as int) =~= seq![v@.subrange(begin as int, end as int)]
                    + words_from(v@, end as int));
            }
            if end >= v.len() {
                done = true;
                assert(words_from(v@, end as int) =~= Seq::<Seq<char>>::empty());
                assert(texts_of(out@) =~= start + words_of(v@));
            } else {
                from = end;
                assert(start + words_of(v@) =~= texts_of(out@) + words_from(v@, from as int));
            }
        }
    }
}

/// The words of all the texts of `list`, in order.
pub fn split_all(list: &Vec<String>) -> (words: Vec<String>)
    ensures
        texts_of(words@) == words_of_all(texts_of(list@), list@.len() as int),
{
    let mut words: Vec<String> = Vec::new();
    let mut i: usize = 0;
    assert(texts_of(words@) =~= Seq::<Seq<char>>::empty());
    while i < list.len()
        invariant
            i <= list.len(),
            texts_of(words@) == words_of_all(texts_of(list@), i as int),
        decreases list.len() - i,
    {
        assert(texts_of(list@)[i as int] == list@[i as int]@);
        push_words(&mut words, list[i].as_str());
        i = i + 1;
    }
    words
}

/// A text has no more lines than characters.
pub proof fn lemma_lines_count(s: Seq<char>, from: int)
    requires
        0 <= from <= s.len(),
    ensures
        lines_from(s, from).len() <= s.len() - from,
    decreases s.len() - from,
{
    if from < s.len() {
        lemma_line_end_bounds(s, from);
        let end = line_end(s, from);
        if end < s.len() {
            lemma_lines_count(s, end + 1);
        }
    }
}

/// The lines of `text`.
pub fn all_lines(text: &str) -> (lines: Vec<String>)
    ensures
        texts_of(lines@) == lines_of(text@),
{
    let n = text.unicode_len();
    proof {
        lemma_lines_count(text@, 0);
    }
    first_lines(text, n)
}

/// The first `limit` lines of `text`.
pub fn first_lines(text: &str, limit: usize) -> (lines: Vec<String>)
    ensures
        texts_of(lines@) == leading_lines(text@, limit as nat),
{
    let v = chars_of(text);
    let mut lines: Vec<String> = Vec::new();
    let mut from: usize = 0;
    while from < v.len() && lines.len() < limit
        invariant
            from <= v.len(),
            v@ == text@,
            lines.len() <= limit,
            lines_of(v@) == texts_of(lines@) + lines_from(v@, from as int),
        decreases v.len() - from,
    {
        let mut end: usize = from;
        while end < v.len() && v[end] != '\n'
            invariant
                from <= end <= v.len(),
                line_end(v@, from as int) == line_end(v@, end as int),
            decreases v.len() - end,
        {
            end = end + 1;
        }
        let ghost before = texts_of(lines@);
        proof {
            lemma_line_end_bounds(v@, from as int);
        }
        if end >= v.len() {
            let ghost start = from as int;
            lines.push(string_of_range(&v, from, v.len()));
            from = v.len();
            assert(texts_of(lines@) =~= before.push(v@.subrange(start, v.len() as int)));
        } else {
            let stop = if end > from && v[end - 1] == '\r' {
                end - 1
            } else {
                end
            };
            assert(v@.subrange(from as int, stop as int) =~= without_cr(
                v@.subrange(from as int, end as int),
            ));
            let line = string_of_range(&v, from, stop);
            lines.push(line);
            assert(texts_of(lines@) =~= before.push(
                without_cr(v@.subrange(from as int, end as int)),
            ));
            from = end + 1;
        }
        assert(lines_of(v@) =~= texts_of(lines@) + lines_from(v@, from as int));
    }
    proof {
        let all = lines_of(v@);
        let got = texts_of(lines@);
        if from >= v.len() {
            assert(all =~= got);
        } else {
            assert(got.len() == limit);
            assert(all.take(limit as int) =~= got);
        }
    }
    lines
}

} // verus!
