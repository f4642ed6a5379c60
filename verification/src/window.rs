//! The output pad: a drawing surface taller than the screen, of which the
//! screen shows the part that begins at the scroll position.

use crate::cmd::{stream_of, CommandResult, CommandResultView, OutputType};
use crate::diff::{render, rendered, styled_view, DiffMode, StyledChar};
use crate::text::{
    clamp_i32, is_wide, lemma_lines_nonempty, lemma_required_lines_monotonic,
    lemma_total_rows_bounds, lemma_wrap_bounds, line_rows,
    lines_of, required_lines, total_rows, wrap, wrap_step,
};
use vstd::prelude::*;

verus! {

/// The screen row at which the pad begins.
pub const PAD_TOP: i32 = 2;

/// The screen columns that the pad leaves to the history table and its
/// border.
pub const PAD_MARGIN: i32 = 23;

/// The rows by which the scroll position may pass the rows that the pad
/// has beyond those of the whole screen, header rows included.
pub const SCROLL_SLACK: i32 = 1;

/// What a [`WatchPad`] holds, as mathematical values.
pub struct WatchPadView {
    /// The result that the pad shows.
    pub result: CommandResultView,
    /// The text that the shown result is compared with.
    pub result_diff_output: Seq<char>,
    /// The rows of the screen, at least 1.
    pub max_y: int,
    /// The columns of the screen, at least 1.
    pub max_x: int,
    /// The rows of the pad.
    pub pad_lines: int,
    /// The pad row that stands at the top of the visible part.
    pub pad_position: int,
}

/// The part of the pad to copy to the screen, and where on the screen.
#[derive(Clone, Copy, Debug, PartialEq, Eq, Structural)]
pub struct PadRegion {
    pub pad_row: i32,
    pub pad_col: i32,
    pub top: i32,
    pub left: i32,
    pub bottom: i32,
    pub right: i32,
}

/// The size to give the pad.
#[derive(Clone, Copy, Debug, PartialEq, Eq, Structural)]
pub struct PadSize {
    pub lines: i32,
    pub cols: i32,
}

/// One step of writing to the pad.
#[derive(Debug, PartialEq, Eq)]
pub enum PadOp {
    /// Switch reverse video on.
    ReverseOn,
    /// Switch reverse video off.
    ReverseOff,
    /// Switch the colour pair of this number on.
    ColorOn(i16),
    /// Switch the colour pair of this number off.
    ColorOff(i16),
    /// Write the text at the cursor.
    Print(String),
}

/// What a [`PadOp`] holds, as mathematical values.
pub enum PadOpView {
    ReverseOn,
    ReverseOff,
    ColorOn(i16),
    ColorOff(i16),
    Print(Seq<char>),
}

impl View for PadOp {
    type V = PadOpView;

    open spec fn view(&self) -> PadOpView {
        match self {
            PadOp::ReverseOn => PadOpView::ReverseOn,
            PadOp::ReverseOff => PadOpView::ReverseOff,
            PadOp::ColorOn(c) => PadOpView::ColorOn(*c),
            PadOp::ColorOff(c) => PadOpView::ColorOff(*c),
            PadOp::Print(text) => PadOpView::Print(text@),
        }
    }
}

/// The steps of a sequence, each by its view.
pub open spec fn ops_view(ops: Seq<PadOp>) -> Seq<PadOpView> {
    Seq::new(ops.len(), |i: int| ops[i]@)
}

/// The steps that write `text` in the colour pair `color_code`, or in the
/// colours as they stand where the code is 0.
pub open spec fn color_ops(text: Seq<char>, color_code: i16) -> Seq<PadOpView> {
    if color_code != 0 {
        seq![
            PadOpView::ColorOn(color_code),
            PadOpView::Print(text),
            PadOpView::ColorOff(color_code),
        ]
    } else {
        seq![PadOpView::Print(text)]
    }
}

/// The steps that write `text`, in reverse video where `reverse` is set.
pub open spec fn char_ops(text: Seq<char>, reverse: bool, color_code: i16) -> Seq<PadOpView> {
    if reverse {
        seq![PadOpView::ReverseOn] + color_ops(text, color_code) + seq![PadOpView::ReverseOff]
    } else {
        color_ops(text, color_code)
    }
}

/// A screen measure as the pad takes it: at least 1.
pub open spec fn at_least_one(n: int) -> int {
    if n < 1 {
        1
    } else {
        n
    }
}

/// The columns of the pad on a screen of `max_x` columns, at least 1.
pub open spec fn pad_width(max_x: int) -> int {
    at_least_one(max_x - PAD_MARGIN)
}

/// The rows of a pad that shows `text` beside the reference `diff`: enough
/// for the text, and one more than the reference needs.
pub open spec fn pad_lines_for(text: Seq<char>, diff: Seq<char>, width: int) -> int {
    let shown = clamp_i32(required_lines(text, width));
    let reference = clamp_i32(clamp_i32(required_lines(diff, width)) + 1);
    if shown >= reference {
        shown
    } else {
        reference
    }
}

/// The largest scroll position of a pad of `pad_lines` rows on a screen of
/// `height` rows in all: 0 while the pad has no more rows than the screen.
pub open spec fn scroll_limit(pad_lines: int, height: int) -> int {
    if pad_lines > height {
        pad_lines - height + SCROLL_SLACK
    } else {
        0
    }
}

/// A scroll position brought back under the limit.
pub open spec fn clamp_position(position: int, pad_lines: int, height: int) -> int {
    if position > scroll_limit(pad_lines, height) {
        scroll_limit(pad_lines, height)
    } else {
        position
    }
}

/// The scroll position after one step up.
pub open spec fn position_after_up(position: int, pad_lines: int, height: int) -> int {
    if pad_lines > height && position > 0 {
        position - 1
    } else {
        position
    }
}

/// The scroll position after one step down.
pub open spec fn position_after_down(position: int, pad_lines: int, height: int) -> int {
    if pad_lines > height && position < scroll_limit(pad_lines, height) {
        position + 1
    } else {
        position
    }
}

/// The region to refresh, if the screen has room for the pad at all.
pub open spec fn region_for(position: int, max_y: int, max_x: int) -> Option<PadRegion> {
    if max_y - 1 >= PAD_TOP && max_x - PAD_MARGIN >= 0 {
        Some(
            PadRegion {
                pad_row: position as i32,
                pad_col: 0,
                top: PAD_TOP,
                left: 0,
                bottom: (max_y - 1) as i32,
                right: (max_x - PAD_MARGIN) as i32,
            },
        )
    } else {
        None
    }
}

impl WatchPadView {
    /// An empty pad on a screen of `max_y` rows and `max_x` columns.
    pub open spec fn fresh(max_y: int, max_x: int) -> WatchPadView {
        WatchPadView {
            result: crate::cmd::empty_result(),
            result_diff_output: Seq::empty(),
            max_y: at_least_one(max_y),
            max_x: at_least_one(max_x),
            pad_lines: 0,
            pad_position: 0,
        }
    }

    /// What holds of every pad: the screen has at least one row and one
    /// column, and the scroll position lies between 0 and the limit.
    pub open spec fn inv(self) -> bool {
        &&& self.max_y >= 1
        &&& self.max_x >= 1
        &&& 0 <= self.pad_lines <= i32::MAX
        &&& 0 <= self.pad_position <= scroll_limit(self.pad_lines, self.max_y)
    }

    /// The pad sized anew for the stream that `output_type` names, with
    /// the scroll position brought back under the new limit.
    pub open spec fn create_pad(self, output_type: OutputType) -> WatchPadView {
        let pad_lines = pad_lines_for(
            stream_of(self.result, output_type),
            self.result_diff_output,
            pad_width(self.max_x),
        );
        WatchPadView {
            pad_lines,
            pad_position: clamp_position(self.pad_position, pad_lines, self.max_y),
            ..self
        }
    }

    /// The pad after one step up.
    pub open spec fn scroll_up(self) -> WatchPadView {
        WatchPadView {
            pad_position: position_after_up(self.pad_position, self.pad_lines, self.max_y),
            ..self
        }
    }

    /// The pad after one step down.
    pub open spec fn scroll_down(self) -> WatchPadView {
        WatchPadView {
            pad_position: position_after_down(self.pad_position, self.pad_lines, self.max_y),
            ..self
        }
    }

    /// The pad on a screen of another size, with the scroll position
    /// brought back under the new limit.
    pub open spec fn resize(self, max_y: int, max_x: int) -> WatchPadView {
        WatchPadView {
            max_y: at_least_one(max_y),
            max_x: at_least_one(max_x),
            pad_position: clamp_position(self.pad_position, self.pad_lines, at_least_one(max_y)),
            ..self
        }
    }

    /// The region to copy to the screen.
    pub open spec fn region(self) -> Option<PadRegion> {
        region_for(self.pad_position, self.max_y, self.max_x)
    }
}

/// Sizing the pad anew keeps what holds of every pad.
pub proof fn lemma_create_pad_keeps_inv(pad: WatchPadView, output_type: OutputType)
    requires
        pad.inv(),
    ensures
        pad.create_pad(output_type).inv(),
        pad.create_pad(output_type).pad_lines >= 2,
{
    let width = pad_width(pad.max_x);
    lemma_required_lines_monotonic(stream_of(pad.result, output_type), Seq::empty(), width);
    lemma_required_lines_monotonic(pad.result_diff_output, Seq::empty(), width);
}

/// Scrolling and resizing keep the position within the limit, and the limit
/// is never more than the slack above the rows that the pad has beyond
/// those of the whole screen.
pub proof fn lemma_position_stays_within_limit(
    position: int,
    pad_lines: int,
    height: int,
    new_height: int,
)
    requires
        0 <= position <= scroll_limit(pad_lines, height),
        height >= 1,
        new_height >= 1,
    ensures
        0 <= position_after_up(position, pad_lines, height) <= scroll_limit(pad_lines, height),
        0 <= position_after_down(position, pad_lines, height) <= scroll_limit(pad_lines, height),
        0 <= clamp_position(position, pad_lines, new_height) <= scroll_limit(pad_lines, new_height),
        pad_lines <= height ==> position == 0,
        pad_lines > height ==> position <= pad_lines - height + SCROLL_SLACK,
        position < pad_lines - height ==> position_after_down(position, pad_lines, height)
            <= pad_lines - height,
{
}

/// The rows that one line needs at the given width, as far as an `i32`
/// holds them.
pub fn get_pad_lines(line: &str, width: i32) -> (rows: i32)
    ensures
        rows == clamp_i32(line_rows(line@, width as int)),
{
    let mut rows: i32 = 1;
    let mut col: i32 = 0;
    for c in it: line.chars()
        invariant
            it.seq() == line@,
            rows == clamp_i32(wrap(line@.take(it.index()), width as int).0),
            col == wrap(line@.take(it.index()), width as int).1,
    {
        proof {
            assert(line@.take(it.index() + 1).drop_last() =~= line@.take(it.index()));
            lemma_wrap_bounds(line@.take(it.index()), width as int);
        }
        let (r, k) = wrap_char(rows, col, c, width, Ghost(wrap(line@.take(it.index()), width as int)));
        rows = r;
        col = k;
    }
    proof {
        assert(line@.take(line@.len() as int) =~= line@);
    }
    rows
}

/// One character more on a line of which `rows` rows are begun and `col`
/// columns of the last row are used.
fn wrap_char(rows: i32, col: i32, c: char, width: i32, Ghost(state): Ghost<(int, int)>) -> (r: (
    i32,
    i32,
))
    requires
        rows == clamp_i32(state.0),
        col == state.1,
        state.0 >= 1,
        width >= 1 ==> col < width,
        width < 1 ==> col == 0,
    ensures
        r.0 == clamp_i32(wrap_step(state, c, width as int).0),
        r.1 == wrap_step(state, c, width as int).1,
{
    let step: i64 = if is_wide(c) {
        2
    } else {
        1
    };
    if col as i64 + step >= width as i64 {
        if rows < i32::MAX {
            (rows + 1, 0)
        } else {
            (rows, 0)
        }
    } else {
        (rows, (col as i64 + step) as i32)
    }
}

/// The rows that a text needs at the given width, as far as an `i32` holds
/// them: the sum over its lines.
pub fn compute_required_lines(text: &str, width: i32) -> (rows: i32)
    ensures
        rows == clamp_i32(required_lines(text@, width as int)),
        rows >= 1,
{
    let mut done: i32 = 0;
    let mut rows: i32 = 1;
    let mut col: i32 = 0;
    for c in it: text.chars()
        invariant
            it.seq() == text@,
            done == clamp_i32(total_rows(lines_of(text@.take(it.index())).drop_last(), width as int)),
            rows == clamp_i32(wrap(lines_of(text@.take(it.index())).last(), width as int).0),
            col == wrap(lines_of(text@.take(it.index())).last(), width as int).1,
    {
        let ghost before = lines_of(text@.take(it.index()));
        proof {
            assert(text@.take(it.index() + 1).drop_last() =~= text@.take(it.index()));
            lemma_lines_nonempty(text@.take(it.index()));
            lemma_wrap_bounds(before.last(), width as int);
            lemma_total_rows_bounds(before.drop_last(), width as int);
        }
        if c == '\n' {
            done = add_clamped(done, rows);
            rows = 1;
            col = 0;
            proof {
                assert(before.push(Seq::<char>::empty()).drop_last() =~= before);
            }
        } else {
            let (r, k) = wrap_char(rows, col, c, width, Ghost(wrap(before.last(), width as int)));
            rows = r;
            col = k;
            proof {
                let last = before.last().push(c);
                assert(before.drop_last().push(last).drop_last() =~= before.drop_last());
                assert(last.drop_last() =~= before.last());
            }
        }
    }
    proof {
        assert(text@.take(text@.len() as int) =~= text@);
        lemma_lines_nonempty(text@);
        lemma_wrap_bounds(lines_of(text@).last(), width as int);
        lemma_total_rows_bounds(lines_of(text@).drop_last(), width as int);
    }
    add_clamped(done, rows)
}

/// The sum of two counts, as far as an `i32` holds it.
fn add_clamped(a: i32, b: i32) -> (sum: i32)
    requires
        a >= 0,
        b >= 0,
    ensures
        sum == clamp_i32(a + b),
{
    if a > i32::MAX - b {
        i32::MAX
    } else {
        a + b
    }
}

/// The pad with the result that it shows and the screen that it is shown
/// on.
pub struct WatchPad {
    result: CommandResult,
    result_diff_output: String,
    max_y: i32,
    max_x: i32,
    pad_lines: i32,
    pad_position: i32,
}

impl View for WatchPad {
    type V = WatchPadView;

    closed spec fn view(&self) -> WatchPadView {
        WatchPadView {
            result: self.result@,
            result_diff_output: self.result_diff_output@,
            max_y: self.max_y as int,
            max_x: self.max_x as int,
            pad_lines: self.pad_lines as int,
            pad_position: self.pad_position as int,
        }
    }
}

impl WatchPad {
    /// What holds of every pad: the screen has at least one row and one
    /// column, and the scroll position lies between 0 and the limit.
    pub open spec fn inv(&self) -> bool {
        self@.inv()
    }

    /// An empty pad on a screen of `max_y` rows and `max_x` columns.
    pub fn new(max_y: i32, max_x: i32) -> (r: Self)
        ensures
            r.inv(),
            r@ == WatchPadView::fresh(max_y as int, max_x as int),
    {
        Self {
            result: CommandResult::new(),
            result_diff_output: String::new(),
            max_y: if max_y < 1 {
                1
            } else {
                max_y
            },
            max_x: if max_x < 1 {
                1
            } else {
                max_x
            },
            pad_lines: 0,
            pad_position: 0,
        }
    }

    /// Gives the pad another result to show.
    pub fn set_result(&mut self, result: CommandResult)
        ensures
            final(self)@ == (WatchPadView { result: result@, ..old(self)@ }),
    {
        self.result = result;
    }

    /// Gives the pad another text to compare the shown result with.
    pub fn set_result_diff_output(&mut self, text: String)
        ensures
            final(self)@ == (WatchPadView { result_diff_output: text@, ..old(self)@ }),
    {
        self.result_diff_output = text;
    }

    /// Sizes the pad for the stream of the result that `output_type` names
    /// and for the reference text, and brings the scroll position back under
    /// the new limit.
    pub fn create_pad(&mut self, output_type: OutputType) -> (size: PadSize)
        requires
            old(self).inv(),
        ensures
            final(self).inv(),
            final(self)@ == old(self)@.create_pad(output_type),
            size.lines == final(self)@.pad_lines,
            size.cols == pad_width(old(self)@.max_x),
    {
        let width = self.pad_width();
        let shown = compute_required_lines(self.result.stream(output_type).as_str(), width);
        let reference = add_clamped(
            compute_required_lines(self.result_diff_output.as_str(), width),
            1,
        );
        self.pad_lines = if shown >= reference {
            shown
        } else {
            reference
        };
        let limit = self.scroll_limit();
        if self.pad_position > limit {
            self.pad_position = limit;
        }
        PadSize { lines: self.pad_lines, cols: width }
    }

    /// The lines to write to the pad: the stream of the result that
    /// `output_type` names, as `diff_mode` shows it beside the reference
    /// text.
    pub fn update(&self, diff_mode: DiffMode, output_type: OutputType) -> (lines: Vec<
        Vec<StyledChar>,
    >)
        ensures
            styled_view(lines@) == rendered(
                stream_of(self@.result, output_type),
                self@.result_diff_output,
                diff_mode,
            ),
    {
        render(
            self.result.stream(output_type).as_str(),
            self.result_diff_output.as_str(),
            diff_mode,
        )
    }

    /// The steps that write one piece of text to the pad, in reverse video
    /// where `reverse` is set and in the colour pair `color_code` unless
    /// that is 0.
    pub fn update_output_pad_char(&self, text: String, reverse: bool, color_code: i16) -> (ops: Vec<
        PadOp,
    >)
        ensures
            ops_view(ops@) == char_ops(text@, reverse, color_code),
    {
        let mut ops: Vec<PadOp> = Vec::new();
        if reverse {
            ops.push(PadOp::ReverseOn);
            assert(ops_view(ops@) =~= seq![PadOpView::ReverseOn]);
            Self::update_output_pad_char_color(&mut ops, text, color_code);
            let ghost written = ops_view(ops@);
            ops.push(PadOp::ReverseOff);
            assert(ops_view(ops@) =~= written + seq![PadOpView::ReverseOff]);
        } else {
            assert(ops_view(ops@) =~= Seq::<PadOpView>::empty());
            Self::update_output_pad_char_color(&mut ops, text, color_code);
            assert(ops_view(ops@) =~= color_ops(text@, color_code));
        }
        ops
    }

    fn update_output_pad_char_color(ops: &mut Vec<PadOp>, text: String, color_code: i16)
        ensures
            ops_view(final(ops)@) == ops_view(old(ops)@) + color_ops(text@, color_code),
    {
        if color_code != 0 {
            ops.push(PadOp::ColorOn(color_code));
            ops.push(PadOp::Print(text));
            ops.push(PadOp::ColorOff(color_code));
        } else {
            ops.push(PadOp::Print(text));
        }
        assert(ops_view(ops@) =~= ops_view(old(ops)@) + color_ops(text@, color_code));
    }

    /// The text of the stream that `output_type` names.
    pub fn get_output(&self, output_type: OutputType) -> (output: String)
        ensures
            output@ == stream_of(self@.result, output_type),
    {
        self.result.stream(output_type).clone()
    }

    /// The region to copy to the screen, or `None` where the screen has no
    /// room for the pad.
    pub fn draw_output_pad(&self) -> (region: Option<PadRegion>)
        requires
            self.inv(),
        ensures
            region == self@.region(),
    {
        if self.max_y - 1 >= PAD_TOP && self.max_x - PAD_MARGIN >= 0 {
            Some(
                PadRegion {
                    pad_row: self.pad_position,
                    pad_col: 0,
                    top: PAD_TOP,
                    left: 0,
                    bottom: self.max_y - 1,
                    right: self.max_x - PAD_MARGIN,
                },
            )
        } else {
            None
        }
    }

    /// Moves the visible part one row up, unless the pad has no more rows
    /// than the screen or its first row is visible. Returns whether it
    /// moved.
    pub fn scroll_up(&mut self) -> (moved: bool)
        requires
            old(self).inv(),
        ensures
            final(self).inv(),
            final(self)@ == old(self)@.scroll_up(),
            moved == (final(self)@.pad_position != old(self)@.pad_position),
    {
        if self.pad_lines > self.max_y && self.pad_position > 0 {
            self.pad_position -= 1;
            true
        } else {
            false
        }
    }

    /// Moves the visible part one row down, unless the pad has no more rows
    /// than the screen or the position has reached the limit. Returns
    /// whether it moved.
    pub fn scroll_down(&mut self) -> (moved: bool)
        requires
            old(self).inv(),
        ensures
            final(self).inv(),
            final(self)@ == old(self)@.scroll_down(),
            moved == (final(self)@.pad_position != old(self)@.pad_position),
    {
        if self.pad_lines > self.max_y && self.pad_position < self.pad_lines - self.max_y
            + SCROLL_SLACK {
            self.pad_position += 1;
            true
        } else {
            false
        }
    }

    /// Takes the new size of the screen and brings the scroll position back
    /// under the new limit. Returns the region to copy to the screen.
    pub fn resize(&mut self, max_y: i32, max_x: i32) -> (region: Option<PadRegion>)
        requires
            old(self).inv(),
        ensures
            final(self).inv(),
            final(self)@ == old(self)@.resize(max_y as int, max_x as int),
            region == final(self)@.region(),
    {
        self.max_y = if max_y < 1 {
            1
        } else {
            max_y
        };
        self.max_x = if max_x < 1 {
            1
        } else {
            max_x
        };
        let limit = self.scroll_limit();
        if self.pad_position > limit {
            self.pad_position = limit;
        }
        self.draw_output_pad()
    }

    /// The largest scroll position at the present sizes.
    pub fn scroll_limit(&self) -> (limit: i32)
        requires
            self@.max_y >= 1,
            0 <= self@.pad_lines,
        ensures
            limit == scroll_limit(self@.pad_lines, self@.max_y),
    {
        if self.pad_lines > self.max_y {
            self.pad_lines - self.max_y + SCROLL_SLACK
        } else {
            0
        }
    }

    /// The columns of the pad.
    pub fn pad_width(&self) -> (width: i32)
        requires
            self@.max_x >= 1,
        ensures
            width == pad_width(self@.max_x),
    {
        if self.max_x - PAD_MARGIN < 1 {
            1
        } else {
            self.max_x - PAD_MARGIN
        }
    }

    /// The rows of the pad.
    pub fn pad_lines(&self) -> (lines: i32)
        ensures
            lines == self@.pad_lines,
    {
        self.pad_lines
    }

    /// The pad row that stands at the top of the visible part.
    pub fn pad_position(&self) -> (position: i32)
        ensures
            position == self@.pad_position,
    {
        self.pad_position
    }

    /// The result that the pad shows.
    pub fn result(&self) -> (result: &CommandResult)
        ensures
            result@ == self@.result,
    {
        &self.result
    }

    /// The text that the shown result is compared with.
    pub fn result_diff_output(&self) -> (text: &String)
        ensures
            text@ == self@.result_diff_output,
    {
        &self.result_diff_output
    }
}

} // verus!
