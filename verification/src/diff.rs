//! The difference engine: it marks what of a text differs from a reference
//! text, character by character or line by line, and draws nothing itself.

use crate::text::{lines_of, lines_view, split_lines};
use vstd::prelude::*;

verus! {

/// How the shown text is compared with the reference.
#[derive(Clone, Copy, Debug, PartialEq, Eq, Structural)]
pub enum DiffMode {
    /// The text is shown as it is.
    Disable,
    /// Characters that differ from the reference are highlighted.
    Watch,
    /// Lines that differ from the reference are highlighted.
    Line,
}

/// One character of the output and whether it is highlighted.
#[derive(Clone, Copy, Debug, PartialEq, Eq, Structural)]
pub struct StyledChar {
    pub ch: char,
    pub highlight: bool,
}

/// What became of a line between the reference and the shown text.
#[derive(Clone, Copy, Debug, PartialEq, Eq, Structural)]
pub enum LineMark {
    /// Both texts have the line, and it is the same in both.
    Same,
    /// Both texts have the line, and it differs.
    Changed,
    /// The shown text alone has the line.
    Added,
    /// The reference alone has the line.
    Removed,
}

/// One line of a line-by-line comparison.
#[derive(Debug)]
pub struct MarkedLine {
    pub mark: LineMark,
    pub text: Vec<char>,
}

/// What a [`MarkedLine`] holds, as mathematical values.
pub struct MarkedLineView {
    pub mark: LineMark,
    pub text: Seq<char>,
}

impl View for MarkedLine {
    type V = MarkedLineView;

    open spec fn view(&self) -> MarkedLineView {
        MarkedLineView { mark: self.mark, text: self.text@ }
    }
}

/// The lines of styled characters, each line by its view.
pub open spec fn styled_view(lines: Seq<Vec<StyledChar>>) -> Seq<Seq<StyledChar>> {
    Seq::new(lines.len(), |i: int| lines[i]@)
}

/// The marked lines, each by its view.
pub open spec fn marked_view(lines: Seq<MarkedLine>) -> Seq<MarkedLineView> {
    Seq::new(lines.len(), |i: int| lines[i]@)
}

/// A character with its highlight.
pub open spec fn styled(ch: char, highlight: bool) -> StyledChar {
    StyledChar { ch, highlight }
}

/// A line with none of its characters highlighted.
pub open spec fn plain_line(line: Seq<char>) -> Seq<StyledChar> {
    Seq::new(line.len(), |j: int| styled(line[j], false))
}

/// Lines with none of their characters highlighted.
pub open spec fn plain_lines(lines: Seq<Seq<char>>) -> Seq<Seq<StyledChar>> {
    Seq::new(lines.len(), |i: int| plain_line(lines[i]))
}

/// Whether the character at `j` of `current` differs from the reference
/// line: the reference ends before `j`, or has another character there.
pub open spec fn differs_at(current: Seq<char>, reference: Seq<char>, j: int) -> bool {
    j >= reference.len() || reference[j] != current[j]
}

/// A line with the characters highlighted that differ from the reference
/// line, and all of them where there is no reference line.
pub open spec fn watch_diff_line(current: Seq<char>, reference: Option<Seq<char>>) -> Seq<
    StyledChar,
> {
    Seq::new(
        current.len(),
        |j: int|
            styled(
                current[j],
                match reference {
                    Some(r) => differs_at(current, r, j),
                    None => true,
                },
            ),
    )
}

/// The reference line that stands beside line `i`, if the reference has
/// that many lines.
pub open spec fn line_beside(reference: Seq<Seq<char>>, i: int) -> Option<Seq<char>> {
    if 0 <= i < reference.len() {
        Some(reference[i])
    } else {
        None
    }
}

/// The lines of the shown text, each compared with the reference line
/// beside it.
pub open spec fn watch_diff_lines(current: Seq<Seq<char>>, reference: Seq<Seq<char>>) -> Seq<
    Seq<StyledChar>,
> {
    Seq::new(current.len(), |i: int| watch_diff_line(current[i], line_beside(reference, i)))
}

/// The character-by-character comparison of a text with a reference text.
pub open spec fn watch_diff_of(current: Seq<char>, reference: Seq<char>) -> Seq<Seq<StyledChar>> {
    watch_diff_lines(lines_of(current), lines_of(reference))
}

/// The lines that a text brings to a line-by-line comparison with another
/// text: its lines, but none where it is empty and the other text is not.
/// Two empty texts bring their one empty line each.
pub open spec fn compared_lines(text: Seq<char>, other: Seq<char>) -> Seq<Seq<char>> {
    if text.len() == 0 && other.len() > 0 {
        Seq::empty()
    } else {
        lines_of(text)
    }
}

/// Line `i` of the line-by-line comparison.
pub open spec fn line_diff_at(current: Seq<Seq<char>>, reference: Seq<Seq<char>>, i: int)
    -> MarkedLineView {
    if i < current.len() && i < reference.len() {
        MarkedLineView {
            mark: if current[i] == reference[i] {
                LineMark::Same
            } else {
                LineMark::Changed
            },
            text: current[i],
        }
    } else if i < current.len() {
        MarkedLineView { mark: LineMark::Added, text: current[i] }
    } else {
        MarkedLineView { mark: LineMark::Removed, text: reference[i] }
    }
}

/// The line-by-line comparison of two sequences of lines: as many lines as
/// the longer of the two has.
pub open spec fn line_diff_lines(current: Seq<Seq<char>>, reference: Seq<Seq<char>>) -> Seq<
    MarkedLineView,
> {
    Seq::new(
        if current.len() >= reference.len() {
            current.len()
        } else {
            reference.len()
        },
        |i: int| line_diff_at(current, reference, i),
    )
}

/// The line-by-line comparison of a text with a reference text.
pub open spec fn line_diff_of(current: Seq<char>, reference: Seq<char>) -> Seq<MarkedLineView> {
    line_diff_lines(compared_lines(current, reference), compared_lines(reference, current))
}

/// The columns left free before each line of a line-by-line comparison.
pub open spec fn gutter() -> Seq<StyledChar> {
    seq![styled(' ', false), styled(' ', false)]
}

/// A marked line as it is shown: the gutter, then the line, highlighted as a
/// whole unless it is the same in both texts.
pub open spec fn marked_line_shown(line: MarkedLineView) -> Seq<StyledChar> {
    gutter() + Seq::new(line.text.len(), |j: int| styled(line.text[j], line.mark != LineMark::Same))
}

/// The marked lines as they are shown.
pub open spec fn marked_lines_shown(lines: Seq<MarkedLineView>) -> Seq<Seq<StyledChar>> {
    Seq::new(lines.len(), |i: int| marked_line_shown(lines[i]))
}

/// What is shown of a text beside a reference text in the given mode.
pub open spec fn rendered(current: Seq<char>, reference: Seq<char>, mode: DiffMode) -> Seq<
    Seq<StyledChar>,
> {
    match mode {
        DiffMode::Disable => plain_lines(lines_of(current)),
        DiffMode::Watch => watch_diff_of(current, reference),
        DiffMode::Line => marked_lines_shown(line_diff_of(current, reference)),
    }
}

/// How many characters of the output are highlighted.
pub open spec fn highlighted_in_line(line: Seq<StyledChar>) -> nat
    decreases line.len(),
{
    if line.len() == 0 {
        0
    } else {
        highlighted_in_line(line.drop_last()) + if line.last().highlight {
            1nat
        } else {
            0nat
        }
    }
}

/// How many characters of all lines are highlighted.
pub open spec fn highlighted(lines: Seq<Seq<StyledChar>>) -> nat
    decreases lines.len(),
{
    if lines.len() == 0 {
        0
    } else {
        highlighted(lines.drop_last()) + highlighted_in_line(lines.last())
    }
}

/// How many characters all lines hold.
pub open spec fn char_total(lines: Seq<Seq<StyledChar>>) -> nat
    decreases lines.len(),
{
    if lines.len() == 0 {
        0
    } else {
        char_total(lines.drop_last()) + lines.last().len()
    }
}

/// A line of which no character is highlighted counts none, and one of
/// which every character is highlighted counts them all.
pub proof fn lemma_highlighted_in_line(line: Seq<StyledChar>)
    ensures
        (forall|j: int| 0 <= j < line.len() ==> !(#[trigger] line[j]).highlight)
            ==> highlighted_in_line(line) == 0,
        (forall|j: int| 0 <= j < line.len() ==> (#[trigger] line[j]).highlight)
            ==> highlighted_in_line(line) == line.len(),
    decreases line.len(),
{
    if line.len() > 0 {
        lemma_highlighted_in_line(line.drop_last());
    }
}

/// The comparison keeps the shown text: line by line, character by
/// character.
pub proof fn lemma_watch_diff_keeps_text(current: Seq<char>, reference: Seq<char>)
    ensures
        watch_diff_of(current, reference).len() == lines_of(current).len(),
        forall|i: int, j: int|
            0 <= i < lines_of(current).len() && 0 <= j < lines_of(current)[i].len() ==> (
            #[trigger] watch_diff_of(current, reference)[i][j]).ch == lines_of(current)[i][j],
        forall|i: int|
            0 <= i < lines_of(current).len() ==> (#[trigger] watch_diff_of(
                current,
                reference,
            )[i]).len() == lines_of(current)[i].len(),
{
}

/// A text compared with itself character by character has no highlighted
/// character.
pub proof fn lemma_watch_diff_identical(text: Seq<char>)
    ensures
        forall|i: int, j: int|
            0 <= i < watch_diff_of(text, text).len() && 0 <= j < watch_diff_of(text, text)[i].len()
                ==> !(#[trigger] watch_diff_of(text, text)[i][j]).highlight,
        highlighted(watch_diff_of(text, text)) == 0,
{
    let out = watch_diff_of(text, text);
    let lines = lines_of(text);
    assert forall|i: int, j: int| 0 <= i < out.len() && 0 <= j < out[i].len() implies !(
    #[trigger] out[i][j]).highlight by {
        assert(line_beside(lines, i) == Some(lines[i]));
        assert(out[i] == watch_diff_line(lines[i], Some(lines[i])));
    }
    lemma_none_highlighted(out, out.len() as int);
    assert(out.take(out.len() as int) =~= out);
}

/// A text compared character by character with the empty text has every
/// character highlighted.
pub proof fn lemma_watch_diff_from_empty(text: Seq<char>)
    ensures
        forall|i: int, j: int|
            0 <= i < watch_diff_of(text, Seq::empty()).len() && 0 <= j < watch_diff_of(
                text,
                Seq::empty(),
            )[i].len() ==> (#[trigger] watch_diff_of(text, Seq::empty())[i][j]).highlight,
        highlighted(watch_diff_of(text, Seq::empty())) == char_total(
            watch_diff_of(text, Seq::empty()),
        ),
{
    let reference = lines_of(Seq::<char>::empty());
    assert(reference.len() == 1 && reference[0].len() == 0);
    let out = watch_diff_of(text, Seq::empty());
    let lines = lines_of(text);
    assert forall|i: int, j: int| 0 <= i < out.len() && 0 <= j < out[i].len() implies (
    #[trigger] out[i][j]).highlight by {
        assert(out[i] == watch_diff_line(lines[i], line_beside(reference, i)));
    }
    lemma_all_highlighted(out, out.len() as int);
    assert(out.take(out.len() as int) =~= out);
}

/// A text shown beside itself has no highlighted character, whatever the
/// mode.
pub proof fn lemma_rendered_identical(text: Seq<char>, mode: DiffMode)
    ensures
        forall|i: int, j: int|
            0 <= i < rendered(text, text, mode).len() && 0 <= j < rendered(text, text, mode)[i].len()
                ==> !(#[trigger] rendered(text, text, mode)[i][j]).highlight,
        highlighted(rendered(text, text, mode)) == 0,
{
    let out = rendered(text, text, mode);
    assert forall|i: int, j: int| 0 <= i < out.len() && 0 <= j < out[i].len() implies !(
    #[trigger] out[i][j]).highlight by {
        match mode {
            DiffMode::Disable => {
                assert(out[i] == plain_line(lines_of(text)[i]));
            },
            DiffMode::Watch => {
                lemma_watch_diff_identical(text);
            },
            DiffMode::Line => {
                lemma_line_diff_identical(text);
                let line = line_diff_of(text, text)[i];
                assert(out[i] == marked_line_shown(line));
                assert(line.mark == LineMark::Same);
                if j < 2 {
                    assert(out[i][j] == gutter()[j]);
                }
            },
        }
    }
    lemma_none_highlighted(out, out.len() as int);
    assert(out.take(out.len() as int) =~= out);
}

/// Lines without a highlighted character count none.
proof fn lemma_none_highlighted(lines: Seq<Seq<StyledChar>>, n: int)
    requires
        0 <= n <= lines.len(),
        forall|i: int, j: int|
            0 <= i < lines.len() && 0 <= j < lines[i].len() ==> !(#[trigger] lines[i][j]).highlight,
    ensures
        highlighted(lines.take(n)) == 0,
    decreases n,
{
    if n > 0 {
        lemma_none_highlighted(lines, n - 1);
        assert(lines.take(n).drop_last() =~= lines.take(n - 1));
        assert(lines.take(n).last() == lines[n - 1]);
        lemma_highlighted_in_line(lines[n - 1]);
    }
}

/// Lines of which every character is highlighted count them all.
proof fn lemma_all_highlighted(lines: Seq<Seq<StyledChar>>, n: int)
    requires
        0 <= n <= lines.len(),
        forall|i: int, j: int|
            0 <= i < lines.len() && 0 <= j < lines[i].len() ==> (#[trigger] lines[i][j]).highlight,
    ensures
        highlighted(lines.take(n)) == char_total(lines.take(n)),
    decreases n,
{
    if n > 0 {
        lemma_all_highlighted(lines, n - 1);
        assert(lines.take(n).drop_last() =~= lines.take(n - 1));
        assert(lines.take(n).last() == lines[n - 1]);
        lemma_highlighted_in_line(lines[n - 1]);
    }
}

/// A text compared with itself line by line has every one of its lines
/// marked as the same, the one empty line of the empty text too.
pub proof fn lemma_line_diff_identical(text: Seq<char>)
    ensures
        line_diff_of(text, text).len() == lines_of(text).len(),
        line_diff_of(text, text).len() >= 1,
        forall|i: int|
            0 <= i < lines_of(text).len() ==> (#[trigger] line_diff_of(text, text)[i])
                == (MarkedLineView { mark: LineMark::Same, text: lines_of(text)[i] }),
{
    crate::text::lemma_lines_nonempty(text);
}

/// A text shown beside itself line by line is shown in all its lines, each
/// behind the gutter and without a highlight. The empty text is shown as
/// the gutter alone.
pub proof fn lemma_line_mode_identical(text: Seq<char>)
    ensures
        rendered(text, text, DiffMode::Line).len() == lines_of(text).len(),
        forall|i: int|
            0 <= i < lines_of(text).len() ==> (#[trigger] rendered(text, text, DiffMode::Line)[i])
                == gutter() + plain_line(lines_of(text)[i]),
        text.len() == 0 ==> rendered(text, text, DiffMode::Line) == seq![gutter()],
{
    lemma_line_diff_identical(text);
    let out = rendered(text, text, DiffMode::Line);
    assert forall|i: int| 0 <= i < lines_of(text).len() implies (#[trigger] out[i]) == gutter()
        + plain_line(lines_of(text)[i]) by {
        let line = line_diff_of(text, text)[i];
        assert(out[i] == marked_line_shown(line));
        assert(marked_line_shown(line) =~= gutter() + plain_line(lines_of(text)[i]));
    }
    if text.len() == 0 {
        assert(lines_of(text)[0] =~= Seq::<char>::empty());
        assert(plain_line(lines_of(text)[0]) =~= Seq::<StyledChar>::empty());
        assert(out[0] =~= gutter());
        assert(out =~= seq![gutter()]);
    }
}

/// Compared line by line with the empty text, every line of a text that is
/// not empty is marked as added; and every line of the reference is marked
/// as removed where the shown text is the empty one.
pub proof fn lemma_line_diff_from_empty(text: Seq<char>)
    requires
        text.len() > 0,
    ensures
        line_diff_of(text, Seq::empty()).len() == lines_of(text).len(),
        forall|i: int|
            0 <= i < lines_of(text).len() ==> (#[trigger] line_diff_of(text, Seq::empty())[i])
                == (MarkedLineView { mark: LineMark::Added, text: lines_of(text)[i] }),
        line_diff_of(Seq::empty(), text).len() == lines_of(text).len(),
        forall|i: int|
            0 <= i < lines_of(text).len() ==> (#[trigger] line_diff_of(Seq::empty(), text)[i])
                == (MarkedLineView { mark: LineMark::Removed, text: lines_of(text)[i] }),
{
}

impl StyledChar {
    /// A character with its highlight.
    pub fn new(ch: char, highlight: bool) -> (r: Self)
        ensures
            r == styled(ch, highlight),
    {
        StyledChar { ch, highlight }
    }
}

impl DiffMode {
    /// The mode that a numeric tag names: 0 none, 1 by character, 2 by line.
    pub fn from_code(code: i32) -> (r: Option<DiffMode>)
        ensures
            r == if code == 0 {
                Some(DiffMode::Disable)
            } else if code == 1 {
                Some(DiffMode::Watch)
            } else if code == 2 {
                Some(DiffMode::Line)
            } else {
                None
            },
    {
        if code == 0 {
            Some(DiffMode::Disable)
        } else if code == 1 {
            Some(DiffMode::Watch)
        } else if code == 2 {
            Some(DiffMode::Line)
        } else {
            None
        }
    }
}

/// Whether two lines hold the same characters.
pub fn same_line(a: &Vec<char>, b: &Vec<char>) -> (same: bool)
    ensures
        same == (a@ == b@),
{
    if a.len() != b.len() {
        return false;
    }
    let mut j: usize = 0;
    while j < a.len()
        invariant
            j <= a@.len(),
            a@.len() == b@.len(),
            forall|k: int| 0 <= k < j ==> a@[k] == b@[k],
        decreases a@.len() - j,
    {
        if a[j] != b[j] {
            return false;
        }
        j += 1;
    }
    assert(a@ =~= b@);
    true
}

/// One line with none of its characters highlighted.
pub fn plain(line: &Vec<char>) -> (out: Vec<StyledChar>)
    ensures
        out@ == plain_line(line@),
{
    let mut out: Vec<StyledChar> = Vec::new();
    let mut j: usize = 0;
    while j < line.len()
        invariant
            j <= line@.len(),
            out@.len() == j,
            forall|k: int| 0 <= k < j ==> out@[k] == plain_line(line@)[k],
        decreases line@.len() - j,
    {
        out.push(StyledChar::new(line[j], false));
        j += 1;
    }
    assert(out@ =~= plain_line(line@));
    out
}

/// One line compared character by character with the reference line beside
/// it, if there is one.
pub fn watch_diff_one(current: &Vec<char>, reference: Option<&Vec<char>>) -> (out: Vec<StyledChar>)
    ensures
        out@ == watch_diff_line(
            current@,
            match reference {
                Some(r) => Some(r@),
                None => None,
            },
        ),
{
    let ghost beside = match reference {
        Some(r) => Some(r@),
        None => None,
    };
    let mut out: Vec<StyledChar> = Vec::new();
    let mut j: usize = 0;
    while j < current.len()
        invariant
            j <= current@.len(),
            beside == match reference {
                Some(r) => Some(r@),
                None => None,
            },
            out@.len() == j,
            forall|k: int| 0 <= k < j ==> out@[k] == watch_diff_line(current@, beside)[k],
        decreases current@.len() - j,
    {
        let highlight = match reference {
            Some(r) => j >= r.len() || r[j] != current[j],
            None => true,
        };
        out.push(StyledChar::new(current[j], highlight));
        j += 1;
    }
    assert(out@ =~= watch_diff_line(current@, beside));
    out
}

/// The character-by-character comparison of a text with a reference text:
/// the lines of the text, with the characters highlighted that the line
/// beside them in the reference does not have at the same place.
pub fn watch_diff(current: &str, reference: &str) -> (out: Vec<Vec<StyledChar>>)
    ensures
        styled_view(out@) == watch_diff_of(current@, reference@),
{
    let lines = split_lines(current);
    let beside = split_lines(reference);
    let mut out: Vec<Vec<StyledChar>> = Vec::new();
    let mut i: usize = 0;
    while i < lines.len()
        invariant
            i <= lines@.len(),
            lines_view(lines@) == lines_of(current@),
            lines_view(beside@) == lines_of(reference@),
            styled_view(out@) == watch_diff_of(current@, reference@).take(i as int),
        decreases lines@.len() - i,
    {
        let reference_line = if i < beside.len() {
            Some(&beside[i])
        } else {
            None
        };
        proof {
            assert(lines_view(lines@)[i as int] == lines@[i as int]@);
            if i < beside@.len() {
                assert(lines_view(beside@)[i as int] == beside@[i as int]@);
            }
        }
        let styled = watch_diff_one(&lines[i], reference_line);
        let ghost before = styled_view(out@);
        out.push(styled);
        proof {
            assert(styled_view(out@) =~= before.push(styled@));
            assert(styled_view(out@) =~= watch_diff_of(current@, reference@).take(i + 1));
        }
        i += 1;
    }
    assert(styled_view(out@) =~= watch_diff_of(current@, reference@));
    out
}

/// The lines of a text as a line-by-line comparison with `other` takes
/// them: none where the text is empty and `other` is not.
pub fn lines_to_compare(text: &str, other: &str) -> (lines: Vec<Vec<char>>)
    ensures
        lines_view(lines@) == compared_lines(text@, other@),
{
    if text.is_empty() && !other.is_empty() {
        let lines: Vec<Vec<char>> = Vec::new();
        assert(lines_view(lines@) =~= Seq::<Seq<char>>::empty());
        lines
    } else {
        split_lines(text)
    }
}

/// The line-by-line comparison of a text with a reference text: line by
/// line, whether the line beside it in the reference is the same, differs,
/// or is missing; then the lines that the reference has beyond the text.
/// Where one of the two is empty and the other is not, the empty one has no
/// line, so that every line of the other is added or removed.
pub fn line_diff(current: &str, reference: &str) -> (out: Vec<MarkedLine>)
    ensures
        marked_view(out@) == line_diff_of(current@, reference@),
{
    let lines = lines_to_compare(current, reference);
    let beside = lines_to_compare(reference, current);
    let total = if lines.len() >= beside.len() {
        lines.len()
    } else {
        beside.len()
    };
    let ghost want = line_diff_of(current@, reference@);
    let mut out: Vec<MarkedLine> = Vec::new();
    let mut i: usize = 0;
    while i < total
        invariant
            i <= total,
            total == want.len(),
            want == line_diff_lines(lines_view(lines@), lines_view(beside@)),
            marked_view(out@) == want.take(i as int),
        decreases total - i,
    {
        proof {
            if i < lines@.len() {
                assert(lines_view(lines@)[i as int] == lines@[i as int]@);
            }
            if i < beside@.len() {
                assert(lines_view(beside@)[i as int] == beside@[i as int]@);
            }
        }
        let line = if i < lines.len() && i < beside.len() {
            let mark = if same_line(&lines[i], &beside[i]) {
                LineMark::Same
            } else {
                LineMark::Changed
            };
            MarkedLine { mark, text: lines[i].clone() }
        } else if i < lines.len() {
            MarkedLine { mark: LineMark::Added, text: lines[i].clone() }
        } else {
            MarkedLine { mark: LineMark::Removed, text: beside[i].clone() }
        };
        let ghost before = marked_view(out@);
        out.push(line);
        proof {
            assert(marked_view(out@) =~= before.push(line@));
            assert(line@ == want[i as int]);
            assert(marked_view(out@) =~= want.take(i + 1));
        }
        i += 1;
    }
    assert(marked_view(out@) =~= want);
    out
}

/// A marked line as it is shown.
pub fn show_marked_line(line: &MarkedLine) -> (out: Vec<StyledChar>)
    ensures
        out@ == marked_line_shown(line@),
{
    let highlight = match line.mark {
        LineMark::Same => false,
        _ => true,
    };
    let mut out: Vec<StyledChar> = Vec::new();
    out.push(StyledChar::new(' ', false));
    out.push(StyledChar::new(' ', false));
    let mut j: usize = 0;
    while j < line.text.len()
        invariant
            j <= line.text@.len(),
            highlight == (line.mark != LineMark::Same),
            out@.len() == j + 2,
            forall|k: int| 0 <= k < j + 2 ==> out@[k] == marked_line_shown(line@)[k],
        decreases line.text@.len() - j,
    {
        out.push(StyledChar::new(line.text[j], highlight));
        j += 1;
    }
    assert(out@ =~= marked_line_shown(line@));
    out
}

/// What is shown of a text beside a reference text in the given mode: the
/// lines of the text as they are, or compared character by character, or
/// compared line by line behind a gutter.
pub fn render(current: &str, reference: &str, mode: DiffMode) -> (out: Vec<Vec<StyledChar>>)
    ensures
        styled_view(out@) == rendered(current@, reference@, mode),
{
    match mode {
        DiffMode::Disable => {
            let lines = split_lines(current);
            let mut out: Vec<Vec<StyledChar>> = Vec::new();
            let mut i: usize = 0;
            while i < lines.len()
                invariant
                    i <= lines@.len(),
                    lines_view(lines@) == lines_of(current@),
                    out@.len() == i,
                    forall|k: int| 0 <= k < i ==> (#[trigger] out@[k])@ == plain_line(lines@[k]@),
                decreases lines@.len() - i,
            {
                out.push(plain(&lines[i]));
                i += 1;
            }
            proof {
                assert forall|k: int| 0 <= k < lines@.len() implies styled_view(out@)[k]
                    == plain_lines(lines_of(current@))[k] by {
                    assert(lines_view(lines@)[k] == lines@[k]@);
                }
                assert(styled_view(out@) =~= plain_lines(lines_of(current@)));
            }
            out
        },
        DiffMode::Watch => watch_diff(current, reference),
        DiffMode::Line => {
            let marked = line_diff(current, reference);
            let mut out: Vec<Vec<StyledChar>> = Vec::new();
            let mut i: usize = 0;
            while i < marked.len()
                invariant
                    i <= marked@.len(),
                    marked_view(marked@) == line_diff_of(current@, reference@),
                    out@.len() == i,
                    forall|k: int|
                        0 <= k < i ==> (#[trigger] out@[k])@ == marked_line_shown(marked@[k]@),
                decreases marked@.len() - i,
            {
                out.push(show_marked_line(&marked[i]));
                i += 1;
            }
            proof {
                let want = marked_lines_shown(line_diff_of(current@, reference@));
                assert forall|k: int| 0 <= k < marked@.len() implies styled_view(out@)[k]
                    == want[k] by {
                    assert(marked_view(marked@)[k] == marked@[k]@);
                }
                assert(styled_view(out@) =~= want);
            }
            out
        },
    }
}

} // verus!
