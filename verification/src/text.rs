//! Text measures: line breaks, lines, display columns and wrapped rows.

use vstd::prelude::*;

verus! {

/// How many line breaks a text holds.
pub open spec fn newline_count(s: Seq<char>) -> nat
    decreases s.len(),
{
    if s.len() == 0 {
        0
    } else {
        newline_count(s.drop_last()) + if s.last() == '\n' {
            1nat
        } else {
            0nat
        }
    }
}

/// The lines of a text: the pieces between its line breaks. A text with `n`
/// line breaks has `n + 1` lines; the empty text has one empty line.
pub open spec fn lines_of(s: Seq<char>) -> Seq<Seq<char>>
    decreases s.len(),
{
    if s.len() == 0 {
        seq![Seq::<char>::empty()]
    } else {
        let before = lines_of(s.drop_last());
        if s.last() == '\n' {
            before.push(Seq::<char>::empty())
        } else {
            before.drop_last().push(before.last().push(s.last()))
        }
    }
}

/// The parts of a text put together, with the separator between each two.
pub open spec fn joined(parts: Seq<Seq<char>>, separator: char) -> Seq<char>
    decreases parts.len(),
{
    if parts.len() == 0 {
        Seq::empty()
    } else if parts.len() == 1 {
        parts[0]
    } else {
        joined(parts.drop_last(), separator) + seq![separator] + parts.last()
    }
}

/// The lines of a vector of lines, each by its view.
pub open spec fn lines_view(lines: Seq<Vec<char>>) -> Seq<Seq<char>> {
    Seq::new(lines.len(), |i: int| lines[i]@)
}

/// The columns that a character takes on the screen: one for ASCII, two for
/// every other character.
pub open spec fn char_width(c: char) -> int {
    if (c as u32) < 0x80 {
        1
    } else {
        2
    }
}

/// The rows that a line has begun and the columns used in the last of them,
/// when a row is left as soon as the columns used in it reach `width`.
pub open spec fn wrap(line: Seq<char>, width: int) -> (int, int)
    decreases line.len(),
{
    if line.len() == 0 {
        (1, 0)
    } else {
        wrap_step(wrap(line.drop_last(), width), line.last(), width)
    }
}

/// One character more on a line that stands at `state`.
pub open spec fn wrap_step(state: (int, int), c: char, width: int) -> (int, int) {
    let reached = state.1 + char_width(c);
    if reached >= width {
        (state.0 + 1, 0)
    } else {
        (state.0, reached)
    }
}

/// The rows that one line needs at the given width.
pub open spec fn line_rows(line: Seq<char>, width: int) -> int {
    wrap(line, width).0
}

/// The rows that a sequence of lines needs at the given width.
pub open spec fn total_rows(lines: Seq<Seq<char>>, width: int) -> int
    decreases lines.len(),
{
    if lines.len() == 0 {
        0
    } else {
        total_rows(lines.drop_last(), width) + line_rows(lines.last(), width)
    }
}

/// The rows that a text needs at the given width: those of its lines.
pub open spec fn required_lines(text: Seq<char>, width: int) -> int {
    total_rows(lines_of(text), width)
}

/// A count as far as an `i32` holds it.
pub open spec fn clamp_i32(n: int) -> int {
    if n > i32::MAX {
        i32::MAX as int
    } else {
        n
    }
}

/// A count of line breaks as far as a `u16` holds it.
pub open spec fn clamp_u16(n: int) -> int {
    if n > u16::MAX {
        u16::MAX as int
    } else {
        n
    }
}

/// `n` divided by `d`, rounded up.
pub open spec fn ceil_div(n: int, d: int) -> int {
    (n + d - 1) / d
}

/// Whether a text is one line of characters that take one column each.
pub open spec fn single_width_line(text: Seq<char>) -> bool {
    forall|i: int| 0 <= i < text.len() ==> text[i] != '\n' && char_width(#[trigger] text[i]) == 1
}

/// A text has at least one line.
pub proof fn lemma_lines_nonempty(s: Seq<char>)
    ensures
        lines_of(s).len() == newline_count(s) + 1,
    decreases s.len(),
{
    if s.len() > 0 {
        lemma_lines_nonempty(s.drop_last());
    }
}

/// The lines of a text are what stands between its line breaks: no line
/// holds a line break, and the lines with a line break between each two are
/// the text again.
pub proof fn lemma_lines_split_at_breaks(s: Seq<char>)
    ensures
        joined(lines_of(s), '\n') == s,
        forall|i: int, j: int|
            0 <= i < lines_of(s).len() && 0 <= j < lines_of(s)[i].len() ==> (#[trigger] lines_of(
                s,
            )[i][j]) != '\n',
    decreases s.len(),
{
    if s.len() == 0 {
        assert(joined(lines_of(s), '\n') =~= s);
    } else {
        let shorter = s.drop_last();
        let before = lines_of(shorter);
        let after = lines_of(s);
        lemma_lines_split_at_breaks(shorter);
        lemma_lines_nonempty(shorter);
        assert(shorter.push(s.last()) =~= s);
        if s.last() == '\n' {
            assert(after.drop_last() =~= before);
            assert(joined(after, '\n') =~= joined(before, '\n') + seq!['\n']);
            assert forall|i: int, j: int| 0 <= i < after.len() && 0 <= j < after[i].len() implies (
            #[trigger] after[i][j]) != '\n' by {
                if i < before.len() {
                    assert(after[i] == before[i]);
                    assert(before[i][j] != '\n');
                }
            }
        } else {
            let last = before.last().push(s.last());
            assert(after.last() == last);
            assert(after.drop_last() =~= before.drop_last());
            if before.len() == 1 {
                assert(joined(after, '\n') =~= joined(before, '\n').push(s.last()));
            } else {
                assert(joined(after, '\n') =~= joined(before.drop_last(), '\n') + seq!['\n']
                    + last);
                assert(joined(before, '\n') =~= joined(before.drop_last(), '\n') + seq!['\n']
                    + before.last());
                assert(joined(after, '\n') =~= joined(before, '\n').push(s.last()));
            }
            assert forall|i: int, j: int| 0 <= i < after.len() && 0 <= j < after[i].len() implies (
            #[trigger] after[i][j]) != '\n' by {
                if i < before.len() - 1 {
                    assert(after[i] == before[i]);
                    assert(before[i][j] != '\n');
                } else if j < before.last().len() {
                    assert(after[i][j] == before[before.len() - 1][j]);
                }
            }
        }
    }
}

/// A character more on a line begins no fewer rows, and a line begins at
/// least one.
pub proof fn lemma_wrap_bounds(line: Seq<char>, width: int)
    ensures
        1 <= wrap(line, width).0 <= line.len() + 1,
        0 <= wrap(line, width).1,
        width >= 1 ==> wrap(line, width).1 < width,
        width < 1 ==> wrap(line, width).1 == 0,
        line.len() > 0 ==> wrap(line.drop_last(), width).0 <= wrap(line, width).0,
    decreases line.len(),
{
    if line.len() > 0 {
        lemma_wrap_bounds(line.drop_last(), width);
    }
}

/// The rows of some lines are at least as many as the lines.
pub proof fn lemma_total_rows_bounds(lines: Seq<Seq<char>>, width: int)
    ensures
        total_rows(lines, width) >= lines.len(),
    decreases lines.len(),
{
    if lines.len() > 0 {
        lemma_total_rows_bounds(lines.drop_last(), width);
        lemma_wrap_bounds(lines.last(), width);
    }
}

/// One character more never lowers the rows that a text needs.
pub proof fn lemma_required_lines_push(text: Seq<char>, c: char, width: int)
    ensures
        required_lines(text.push(c), width) >= required_lines(text, width),
{
    let longer = text.push(c);
    assert(longer.drop_last() =~= text);
    let before = lines_of(text);
    lemma_lines_nonempty(text);
    if c == '\n' {
        assert(before.push(Seq::<char>::empty()).drop_last() =~= before);
    } else {
        let last = before.last().push(c);
        let after = before.drop_last().push(last);
        assert(after.drop_last() =~= before.drop_last());
        assert(last.drop_last() =~= before.last());
        lemma_wrap_bounds(last, width);
    }
}

/// The rows that a text needs never fall as the text grows: a text needs at
/// least the rows of each of its beginnings.
pub proof fn lemma_required_lines_monotonic(text: Seq<char>, more: Seq<char>, width: int)
    ensures
        required_lines(text + more, width) >= required_lines(text, width),
        required_lines(text, width) >= 1,
    decreases more.len(),
{
    lemma_lines_nonempty(text);
    lemma_total_rows_bounds(lines_of(text), width);
    if more.len() == 0 {
        assert(text + more =~= text);
    } else {
        lemma_required_lines_monotonic(text, more.drop_last(), width);
        lemma_required_lines_push(text + more.drop_last(), more.last(), width);
        assert((text + more.drop_last()).push(more.last()) =~= text + more);
    }
}

/// A text without a line break is its own single line.
pub proof fn lemma_single_line(text: Seq<char>)
    requires
        forall|i: int| 0 <= i < text.len() ==> text[i] != '\n',
    ensures
        lines_of(text) == seq![text],
    decreases text.len(),
{
    if text.len() == 0 {
        assert(text =~= Seq::<char>::empty());
    } else {
        lemma_single_line(text.drop_last());
        assert(text.drop_last().push(text.last()) =~= text);
        assert(seq![text.drop_last()].drop_last().push(text) =~= seq![text]);
    }
}

/// A line of `len` characters of one column each begins `1 + len / width`
/// rows and stands at column `len % width`.
pub proof fn lemma_wrap_single_width(line: Seq<char>, width: int)
    requires
        width >= 1,
        single_width_line(line),
    ensures
        wrap(line, width) == (1 + line.len() as int / width, line.len() as int % width),
    decreases line.len(),
{
    if line.len() > 0 {
        let shorter = line.drop_last();
        assert(single_width_line(shorter));
        lemma_wrap_single_width(shorter, width);
        let n = shorter.len() as int;
        assert(line.len() == n + 1);
        assert(char_width(line.last()) == 1);
        lemma_div_mod_successor(n, width);
    } else {
        assert(0int / width == 0 && 0int % width == 0) by (nonlinear_arith)
            requires
                width >= 1,
        ;
    }
}

/// Quotient and remainder of `n + 1` from those of `n`.
pub proof fn lemma_div_mod_successor(n: int, d: int)
    requires
        n >= 0,
        d >= 1,
    ensures
        n % d + 1 >= d ==> (n + 1) / d == n / d + 1 && (n + 1) % d == 0,
        n % d + 1 < d ==> (n + 1) / d == n / d && (n + 1) % d == n % d + 1,
{
    vstd::arithmetic::div_mod::lemma_fundamental_div_mod(n, d);
    vstd::arithmetic::div_mod::lemma_mod_bound(n, d);
    let q = n / d;
    let r = n % d;
    if r + 1 >= d {
        assert(n + 1 == (q + 1) * d + 0) by (nonlinear_arith)
            requires
                n == d * q + r,
                r + 1 == d,
        ;
        vstd::arithmetic::div_mod::lemma_fundamental_div_mod_converse(n + 1, d, q + 1, 0);
    } else {
        assert(n + 1 == q * d + (r + 1)) by (nonlinear_arith)
            requires
                n == d * q + r,
        ;
        vstd::arithmetic::div_mod::lemma_fundamental_div_mod_converse(n + 1, d, q, r + 1);
    }
}

/// A text of `len` characters of one column each, without a line break,
/// needs `1 + len / width` rows. Unless a last row is exactly full, that is
/// `len / width` rounded up, and 1 for the empty text.
pub proof fn lemma_required_lines_single_width(text: Seq<char>, width: int)
    requires
        width >= 1,
        single_width_line(text),
    ensures
        required_lines(text, width) == 1 + text.len() as int / width,
        text.len() == 0 ==> required_lines(text, width) == 1,
        text.len() as int % width != 0 ==> required_lines(text, width) == ceil_div(
            text.len() as int,
            width,
        ),
{
    lemma_single_line(text);
    lemma_wrap_single_width(text, width);
    assert(seq![text].drop_last() =~= Seq::<Seq<char>>::empty());
    assert(seq![text].last() == text);
    assert(total_rows(seq![text].drop_last(), width) == 0);
    assert(total_rows(seq![text], width) == line_rows(text, width));
    let n = text.len() as int;
    if n == 0 {
        assert(0int / width == 0) by (nonlinear_arith)
            requires
                width >= 1,
        ;
    }
    if n % width != 0 {
        vstd::arithmetic::div_mod::lemma_fundamental_div_mod(n, width);
        vstd::arithmetic::div_mod::lemma_mod_bound(n, width);
        let q = n / width;
        let r = n % width;
        assert(n + width - 1 == (q + 1) * width + (r - 1)) by (nonlinear_arith)
            requires
                n == width * q + r,
        ;
        vstd::arithmetic::div_mod::lemma_fundamental_div_mod_converse(
            n + width - 1,
            width,
            q + 1,
            r - 1,
        );
    }
}

/// The line breaks of a text, as far as a `u16` holds their number.
pub fn count_newlines(s: &str) -> (n: u16)
    ensures
        n == clamp_u16(newline_count(s@) as int),
{
    let mut n: u16 = 0;
    for c in it: s.chars()
        invariant
            it.seq() == s@,
            n == clamp_u16(newline_count(s@.take(it.index())) as int),
    {
        proof {
            assert(s@.take(it.index() + 1).drop_last() =~= s@.take(it.index()));
        }
        if c == '\n' && n < u16::MAX {
            n = n + 1;
        }
    }
    proof {
        assert(s@.take(s@.len() as int) =~= s@);
    }
    n
}

/// Whether a character takes two columns on the screen.
pub fn is_wide(c: char) -> (wide: bool)
    ensures
        wide == (char_width(c) == 2),
{
    c as u32 >= 0x80
}

/// Cuts a text at its line breaks.
pub fn split_lines(text: &str) -> (lines: Vec<Vec<char>>)
    ensures
        lines_view(lines@) == lines_of(text@),
{
    let mut lines: Vec<Vec<char>> = Vec::new();
    let mut current: Vec<char> = Vec::new();
    for c in it: text.chars()
        invariant
            it.seq() == text@,
            lines_view(lines@).push(current@) == lines_of(text@.take(it.index())),
    {
        proof {
            assert(text@.take(it.index() + 1).drop_last() =~= text@.take(it.index()));
            let before = lines_of(text@.take(it.index()));
            assert(before.drop_last() =~= lines_view(lines@));
            assert(before.last() == current@);
        }
        if c == '\n' {
            lines.push(current);
            current = Vec::new();
            proof {
                let before = lines_of(text@.take(it.index()));
                assert(lines_view(lines@) =~= before);
            }
        } else {
            current.push(c);
        }
    }
    proof {
        assert(text@.take(text@.len() as int) =~= text@);
    }
    let ghost done = lines_view(lines@);
    lines.push(current);
    proof {
        assert(lines_view(lines@) =~= done.push(current@));
    }
    lines
}

} // verus!
