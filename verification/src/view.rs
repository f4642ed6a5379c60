//! The view: the one consumer of events. It owns the history table, the pad
//! and the results, and says for each event what the state becomes and
//! whether the screen is to be drawn anew.

use crate::cmd::{empty_result, stream_of, CommandResult, CommandResultView, OutputType};
use crate::diff::{rendered, styled_view, DiffMode, StyledChar};
use crate::history::{HistoryArea, HistoryAreaView, HistoryTable, HistoryView};
use crate::widget::{rect_new, table_selection};
use crate::window::{PadRegion, WatchPad, WatchPadView, PAD_TOP};
use crate::HISTORY_WIDTH;
use tui::layout::Rect;
use tui::widgets::TableState;
use vstd::prelude::*;

verus! {

/// What the output pane shows.
#[derive(Clone, Copy, Debug, PartialEq, Eq, Structural)]
pub enum Mode {
    /// The output as it is.
    Watch,
    /// The output with the characters highlighted that changed since the
    /// run before.
    DiffWatch,
    /// The output with the lines highlighted that changed since the run
    /// before.
    DiffLine,
    /// The output of a past run as it is, while the history is browsed.
    HistoryBrowsing,
}

/// The pane that the keyboard acts on.
#[derive(Clone, Copy, Debug, PartialEq, Eq, Structural)]
pub enum Focus {
    Output,
    History,
}

/// What a key or a mouse action asks for.
#[derive(Clone, Copy, Debug, PartialEq, Eq, Structural)]
pub enum Input {
    Up,
    Down,
    ToggleFocus,
    ToggleDiffMode,
    Quit,
}

/// What the view is told to do.
#[derive(Clone, Copy, Debug, PartialEq, Eq, Structural)]
pub enum Command {
    ScrollUp,
    ScrollDown,
    SelectPrevious,
    SelectNext,
    ToggleFocus,
    ToggleDiffMode,
    Resize,
    Quit,
}

/// What reaches the view.
#[derive(Debug)]
pub enum Event {
    /// The command has run.
    Output(CommandResult),
    /// A key was pressed or the mouse was used.
    Input(Input),
    /// The screen now has this many rows and columns.
    Resize(i32, i32),
    /// The session is to end.
    Exit,
}

/// What an [`Event`] holds, as mathematical values.
pub enum EventView {
    Output(CommandResultView),
    Input(Input),
    Resize(i32, i32),
    Exit,
}

impl View for Event {
    type V = EventView;

    open spec fn view(&self) -> EventView {
        match self {
            Event::Output(result) => EventView::Output(result@),
            Event::Input(input) => EventView::Input(*input),
            Event::Resize(max_y, max_x) => EventView::Resize(*max_y, *max_x),
            Event::Exit => EventView::Exit,
        }
    }
}

/// What the event loop does after the view has taken an event.
#[derive(Clone, Copy, Debug, PartialEq, Eq, Structural)]
pub enum Action {
    /// Draw the screen anew: what is visible has changed.
    Render,
    /// Release the screen and end the loop.
    Exit,
    /// Nothing: what is visible is as it was.
    Idle,
}

/// The mode that follows `mode` when the difference mode is toggled.
pub open spec fn next_mode(mode: Mode) -> Mode {
    match mode {
        Mode::Watch => Mode::DiffLine,
        Mode::DiffLine => Mode::DiffWatch,
        Mode::DiffWatch => Mode::Watch,
        Mode::HistoryBrowsing => Mode::HistoryBrowsing,
    }
}

/// How the output is compared with the run before it in `mode`.
pub open spec fn diff_mode_of(mode: Mode) -> DiffMode {
    match mode {
        Mode::Watch => DiffMode::Disable,
        Mode::DiffWatch => DiffMode::Watch,
        Mode::DiffLine => DiffMode::Line,
        Mode::HistoryBrowsing => DiffMode::Disable,
    }
}

/// The other pane.
pub open spec fn other_focus(focus: Focus) -> Focus {
    match focus {
        Focus::Output => Focus::History,
        Focus::History => Focus::Output,
    }
}

/// What an input asks of the view while `focus` has the keyboard: up and
/// down scroll the output, or move the selection in the history.
pub open spec fn command_for(input: Input, focus: Focus) -> Command {
    match input {
        Input::Up => match focus {
            Focus::Output => Command::ScrollUp,
            Focus::History => Command::SelectNext,
        },
        Input::Down => match focus {
            Focus::Output => Command::ScrollDown,
            Focus::History => Command::SelectPrevious,
        },
        Input::ToggleFocus => Command::ToggleFocus,
        Input::ToggleDiffMode => Command::ToggleDiffMode,
        Input::Quit => Command::Quit,
    }
}

/// A screen measure as a rectangle takes it: between 0 and the largest
/// `u16`.
pub open spec fn screen_measure(n: int) -> u16 {
    if n < 0 {
        0
    } else if n > u16::MAX {
        u16::MAX
    } else {
        n as u16
    }
}

/// The columns of the history table: its fixed width, as far as the screen
/// has that many.
pub open spec fn history_columns(max_x: int) -> u16 {
    if screen_measure(max_x) < HISTORY_WIDTH {
        screen_measure(max_x)
    } else {
        HISTORY_WIDTH as u16
    }
}

/// The rows above the history table: those of the header, as far as the
/// screen has that many.
pub open spec fn header_rows(max_y: int) -> u16 {
    if screen_measure(max_y) < PAD_TOP {
        screen_measure(max_y)
    } else {
        PAD_TOP as u16
    }
}

/// Where the history table is drawn on a screen of `max_y` rows and `max_x`
/// columns: in a column of fixed width at the right edge, below the header.
pub open spec fn history_rect(max_y: int, max_x: int) -> Rect {
    rect_new(
        (screen_measure(max_x) - history_columns(max_x)) as u16,
        header_rows(max_y),
        history_columns(max_x),
        (screen_measure(max_y) - header_rows(max_y)) as u16,
    )
}

/// The results of a vector, each by its view.
pub open spec fn results_view(results: Seq<CommandResult>) -> Seq<CommandResultView> {
    Seq::new(results.len(), |i: int| results[i]@)
}

/// What a [`WatchView`] holds, as mathematical values.
pub struct WatchViewModel {
    pub mode: Mode,
    pub focus: Focus,
    pub output_type: OutputType,
    pub color: bool,
    pub interval: u64,
    pub history: HistoryAreaView,
    pub pad: WatchPadView,
    /// The recorded results, oldest first: the result with the number `n`
    /// stands at index `n - 1`.
    pub results: Seq<CommandResultView>,
    /// The result of the latest run.
    pub latest: CommandResultView,
    /// The result of the run before the latest.
    pub before_latest: CommandResultView,
}

impl WatchViewModel {
    /// What holds of every view.
    pub open spec fn inv(self) -> bool {
        &&& self.history.inv()
        &&& self.pad.inv()
        &&& self.results.len() <= u16::MAX
    }

    /// The view with the pad showing `shown` beside `reference`, sized for
    /// them.
    pub open spec fn bind(self, shown: CommandResultView, reference: Seq<char>) -> WatchViewModel {
        WatchViewModel {
            pad: (WatchPadView {
                result: shown,
                result_diff_output: reference,
                ..self.pad
            }).create_pad(self.output_type),
            ..self
        }
    }

    /// The view with the pad showing the result that the selected row
    /// stands for: the latest result for the number 0, else the recorded
    /// result of that number, each beside the result of the run before it.
    /// A number that no recorded result carries leaves the pad as it is.
    pub open spec fn rebind(self) -> WatchViewModel {
        let num = self.history.selected_num();
        if num == 0 {
            self.bind(self.latest, stream_of(self.before_latest, self.output_type))
        } else if num <= self.results.len() {
            self.bind(
                self.results[num - 1],
                if num >= 2 {
                    stream_of(self.results[num - 2], self.output_type)
                } else {
                    Seq::empty()
                },
            )
        } else {
            self
        }
    }

    /// The view after a run of the command. While numbers are left, the run
    /// is recorded under the next number and enters the history; a selected
    /// row other than the first moves down with its run. The pad follows the
    /// run only while the selected row carries the number 0.
    pub open spec fn output(self, result: CommandResultView) -> WatchViewModel {
        let recorded = self.results.len() < u16::MAX;
        let entry = HistoryView {
            timestamp: result.timestamp,
            status: result.status,
            num: if recorded {
                (self.results.len() + 1) as u16
            } else {
                0
            },
        };
        let history = if !recorded {
            self.history.set_latest_status(result.status)
        } else if self.history.selected() >= 1 {
            self.history.update(entry).previous()
        } else {
            self.history.update(entry)
        };
        let taken = WatchViewModel {
            history,
            results: if recorded {
                self.results.push(result)
            } else {
                self.results
            },
            latest: result,
            before_latest: self.latest,
            ..self
        };
        if self.history.selected_num() == 0 {
            taken.rebind()
        } else {
            taken
        }
    }

    /// The view after a step of the selection towards the first row.
    pub open spec fn select_next(self) -> WatchViewModel {
        (WatchViewModel { history: self.history.next(), ..self }).rebind()
    }

    /// The view after a step of the selection towards the last row.
    pub open spec fn select_previous(self) -> WatchViewModel {
        (WatchViewModel { history: self.history.previous(), ..self }).rebind()
    }

    /// The view after the pad was scrolled one row up.
    pub open spec fn scroll_up(self) -> WatchViewModel {
        WatchViewModel { pad: self.pad.scroll_up(), ..self }
    }

    /// The view after the pad was scrolled one row down.
    pub open spec fn scroll_down(self) -> WatchViewModel {
        WatchViewModel { pad: self.pad.scroll_down(), ..self }
    }

    /// The view after the keyboard went to the other pane.
    pub open spec fn toggle_focus(self) -> WatchViewModel {
        WatchViewModel {
            focus: other_focus(self.focus),
            history: HistoryAreaView {
                active: other_focus(self.focus) == Focus::History,
                ..self.history
            },
            ..self
        }
    }

    /// The view in the next difference mode.
    pub open spec fn toggle_diff_mode(self) -> WatchViewModel {
        WatchViewModel { mode: next_mode(self.mode), ..self }
    }

    /// The view on a screen of another size: the history table takes its
    /// place at the right edge, the pad is sized anew, and its scroll
    /// position brought back under the new limit.
    pub open spec fn resize(self, max_y: int, max_x: int) -> WatchViewModel {
        WatchViewModel {
            history: HistoryAreaView { area: history_rect(max_y, max_x), ..self.history },
            pad: self.pad.resize(max_y, max_x).create_pad(self.output_type),
            ..self
        }
    }

    /// The view after a command.
    pub open spec fn command(self, command: Command) -> WatchViewModel {
        match command {
            Command::ScrollUp => self.scroll_up(),
            Command::ScrollDown => self.scroll_down(),
            Command::SelectNext => if self.history.next() == self.history {
                self
            } else {
                self.select_next()
            },
            Command::SelectPrevious => if self.history.previous() == self.history {
                self
            } else {
                self.select_previous()
            },
            Command::ToggleFocus => self.toggle_focus(),
            Command::ToggleDiffMode => self.toggle_diff_mode(),
            Command::Resize => self,
            Command::Quit => self,
        }
    }

    /// What the event loop does after a command.
    pub open spec fn command_action(self, command: Command) -> Action {
        match command {
            Command::ScrollUp => if self.pad.scroll_up() == self.pad {
                Action::Idle
            } else {
                Action::Render
            },
            Command::ScrollDown => if self.pad.scroll_down() == self.pad {
                Action::Idle
            } else {
                Action::Render
            },
            Command::SelectNext => if self.history.next() == self.history {
                Action::Idle
            } else {
                Action::Render
            },
            Command::SelectPrevious => if self.history.previous() == self.history {
                Action::Idle
            } else {
                Action::Render
            },
            Command::ToggleFocus => Action::Render,
            Command::ToggleDiffMode => if next_mode(self.mode) == self.mode {
                Action::Idle
            } else {
                Action::Render
            },
            Command::Resize => Action::Render,
            Command::Quit => Action::Exit,
        }
    }

    /// The view after an event.
    pub open spec fn handle(self, event: EventView) -> WatchViewModel {
        match event {
            EventView::Output(result) => self.output(result),
            EventView::Input(input) => self.command(command_for(input, self.focus)),
            EventView::Resize(max_y, max_x) => self.resize(max_y as int, max_x as int),
            EventView::Exit => self,
        }
    }

    /// What the event loop does after an event.
    pub open spec fn action(self, event: EventView) -> Action {
        match event {
            EventView::Output(_) => Action::Render,
            EventView::Input(input) => self.command_action(command_for(input, self.focus)),
            EventView::Resize(_, _) => Action::Render,
            EventView::Exit => Action::Exit,
        }
    }
}

/// Showing another result in the pad keeps what holds of every view.
pub proof fn lemma_rebind_keeps_inv(view: WatchViewModel)
    ensures
        view.pad.inv() ==> view.rebind().pad.inv(),
        view.rebind().history == view.history,
        view.rebind().results == view.results,
        view.rebind().latest == view.latest,
{
    if view.pad.inv() {
        let shown = view.rebind().pad.result;
        let reference = view.rebind().pad.result_diff_output;
        crate::window::lemma_create_pad_keeps_inv(
            WatchPadView { result: shown, result_diff_output: reference, ..view.pad },
            view.output_type,
        );
    }
}

/// A run of the command leaves the selection on the row that it was on:
/// the first row shows the status of the run, the selected row carries the
/// number that it carried, and a pad that shows a past run is left as it
/// is.
pub proof fn lemma_output_keeps_selection(view: WatchViewModel, result: CommandResultView)
    requires
        view.inv(),
        view.history.rows.len() < usize::MAX,
    ensures
        view.output(result).inv(),
        view.output(result).history.rows[0][0].status == result.status,
        view.output(result).history.selected_num() == view.history.selected_num(),
        view.history.selected_num() != 0 ==> view.output(result).pad == view.pad,
        view.output(result).latest == result,
        view.results.len() < u16::MAX ==> view.output(result).results == view.results.push(result),
        view.results.len() < u16::MAX ==> view.output(result).history.rows.len()
            == view.history.rows.len() + 1,
{
    let rows = view.history.rows;
    let selected = view.history.selected();
    let entry = HistoryView {
        timestamp: result.timestamp,
        status: result.status,
        num: if view.results.len() < u16::MAX {
            (view.results.len() + 1) as u16
        } else {
            0
        },
    };
    let recorded = view.results.len() < u16::MAX;
    let history = if !recorded {
        view.history.set_latest_status(result.status)
    } else if selected >= 1 {
        view.history.update(entry).previous()
    } else {
        view.history.update(entry)
    };
    let taken = WatchViewModel {
        history,
        results: if recorded {
            view.results.push(result)
        } else {
            view.results
        },
        latest: result,
        before_latest: view.latest,
        ..view
    };
    lemma_rebind_keeps_inv(taken);
    let marked = crate::history::with_latest_status(rows, result.status);
    assert(rows[0].len() >= 1);
    assert(rows[selected].len() >= 1);
    assert forall|i: int| 0 <= i < marked.len() implies (#[trigger] marked[i]).len() >= 1 by {
        if i > 0 {
            assert(marked[i] == rows[i]);
        }
    }
    if recorded {
        let after = crate::history::after_update(rows, entry);
        assert forall|i: int| 0 <= i < after.len() implies (#[trigger] after[i]).len() >= 1 by {
            if i == 0 {
                assert(after[0] == marked[0]);
            } else if i >= 2 {
                assert(after[i] == marked[i - 1]);
            }
        }
        if selected >= 1 {
            assert(after[selected + 1] == rows[selected]);
        }
    }
}

/// Whatever event arrives, the view stays well formed: a row of the
/// history is selected, and the scroll position of the pad lies between 0
/// and its limit.
pub proof fn lemma_handle_keeps_inv(view: WatchViewModel, event: EventView)
    requires
        view.inv(),
        view.history.rows.len() < usize::MAX,
    ensures
        view.handle(event).inv(),
        0 <= view.handle(event).history.selected() < view.handle(event).history.rows.len(),
        0 <= view.handle(event).pad.pad_position <= crate::window::scroll_limit(
            view.handle(event).pad.pad_lines,
            view.handle(event).pad.max_y,
        ),
{
    match event {
        EventView::Output(result) => {
            lemma_output_keeps_selection(view, result);
        },
        EventView::Input(input) => {
            lemma_rebind_keeps_inv(WatchViewModel { history: view.history.next(), ..view });
            lemma_rebind_keeps_inv(WatchViewModel { history: view.history.previous(), ..view });
        },
        EventView::Resize(max_y, max_x) => {
            crate::window::lemma_create_pad_keeps_inv(
                view.pad.resize(max_y as int, max_x as int),
                view.output_type,
            );
        },
        EventView::Exit => {},
    }
}

/// The view: the history, the pad and the results behind them.
pub struct WatchView {
    mode: Mode,
    focus: Focus,
    output_type: OutputType,
    color: bool,
    interval: u64,
    history: HistoryArea,
    pad: WatchPad,
    results: Vec<CommandResult>,
    latest: CommandResult,
    before_latest: CommandResult,
}

impl View for WatchView {
    type V = WatchViewModel;

    closed spec fn view(&self) -> WatchViewModel {
        WatchViewModel {
            mode: self.mode,
            focus: self.focus,
            output_type: self.output_type,
            color: self.color,
            interval: self.interval,
            history: self.history@,
            pad: self.pad@,
            results: results_view(self.results@),
            latest: self.latest@,
            before_latest: self.before_latest@,
        }
    }
}

/// Where the history table is drawn on a screen of `max_y` rows and `max_x`
/// columns.
pub fn place_history(max_y: i32, max_x: i32) -> (area: Rect)
    ensures
        area == history_rect(max_y as int, max_x as int),
{
    let cols = to_screen_measure(max_x);
    let rows = to_screen_measure(max_y);
    let width = if cols < HISTORY_WIDTH as u16 {
        cols
    } else {
        HISTORY_WIDTH as u16
    };
    let top = if rows < PAD_TOP as u16 {
        rows
    } else {
        PAD_TOP as u16
    };
    Rect::new(cols - width, top, width, rows - top)
}

/// A screen measure as a rectangle takes it.
fn to_screen_measure(n: i32) -> (m: u16)
    ensures
        m == screen_measure(n as int),
{
    if n < 0 {
        0
    } else if n > u16::MAX as i32 {
        u16::MAX
    } else {
        n as u16
    }
}

impl Mode {
    /// The mode that follows when the difference mode is toggled.
    pub fn next(self) -> (mode: Mode)
        ensures
            mode == next_mode(self),
    {
        match self {
            Mode::Watch => Mode::DiffLine,
            Mode::DiffLine => Mode::DiffWatch,
            Mode::DiffWatch => Mode::Watch,
            Mode::HistoryBrowsing => Mode::HistoryBrowsing,
        }
    }

    /// How the output is compared with the run before it.
    pub fn diff_mode(self) -> (diff_mode: DiffMode)
        ensures
            diff_mode == diff_mode_of(self),
    {
        match self {
            Mode::Watch => DiffMode::Disable,
            Mode::DiffWatch => DiffMode::Watch,
            Mode::DiffLine => DiffMode::Line,
            Mode::HistoryBrowsing => DiffMode::Disable,
        }
    }
}

impl Input {
    /// What the input asks of the view while `focus` has the keyboard.
    pub fn command(self, focus: Focus) -> (command: Command)
        ensures
            command == command_for(self, focus),
    {
        match self {
            Input::Up => match focus {
                Focus::Output => Command::ScrollUp,
                Focus::History => Command::SelectNext,
            },
            Input::Down => match focus {
                Focus::Output => Command::ScrollDown,
                Focus::History => Command::SelectPrevious,
            },
            Input::ToggleFocus => Command::ToggleFocus,
            Input::ToggleDiffMode => Command::ToggleDiffMode,
            Input::Quit => Command::Quit,
        }
    }
}

impl WatchView {
    /// What holds of every view.
    pub open spec fn inv(&self) -> bool {
        self@.inv()
    }

    /// A view in the mode `mode` on a screen of `max_y` rows and `max_x`
    /// columns: the output pane has the keyboard, both streams are shown,
    /// and nothing has run yet.
    pub fn new(mode: Mode, max_y: i32, max_x: i32) -> (view: Self)
        ensures
            view.inv(),
            view@.mode == mode,
            view@.focus == Focus::Output,
            view@.output_type == OutputType::Output,
            !view@.color,
            view@.interval == crate::DEFAULT_INTERVAL,
            view@.history == (HistoryAreaView {
                area: history_rect(max_y as int, max_x as int),
                ..HistoryAreaView::fresh()
            }),
            view@.pad == WatchPadView::fresh(max_y as int, max_x as int),
            view@.results == Seq::<CommandResultView>::empty(),
            view@.latest == empty_result(),
            view@.before_latest == empty_result(),
    {
        let mut history = HistoryArea::new();
        history.set_area(place_history(max_y, max_x));
        let view = Self {
            mode,
            focus: Focus::Output,
            output_type: OutputType::Output,
            color: false,
            interval: crate::DEFAULT_INTERVAL,
            history,
            pad: WatchPad::new(max_y, max_x),
            results: Vec::new(),
            latest: CommandResult::new(),
            before_latest: CommandResult::new(),
        };
        assert(view@.results =~= Seq::<CommandResultView>::empty());
        view
    }

    /// Takes one event and says what the event loop is to do.
    pub fn handle(&mut self, event: Event) -> (action: Action)
        requires
            old(self).inv(),
        ensures
            final(self).inv(),
            final(self)@ == old(self)@.handle(event@),
            action == old(self)@.action(event@),
    {
        match event {
            Event::Output(result) => {
                self.output(result);
                Action::Render
            },
            Event::Input(input) => {
                let command = input.command(self.focus);
                self.command(command)
            },
            Event::Resize(max_y, max_x) => {
                self.resize(max_y, max_x);
                Action::Render
            },
            Event::Exit => Action::Exit,
        }
    }

    /// Carries out one command and says what the event loop is to do.
    pub fn command(&mut self, command: Command) -> (action: Action)
        requires
            old(self).inv(),
        ensures
            final(self).inv(),
            final(self)@ == old(self)@.command(command),
            action == old(self)@.command_action(command),
    {
        match command {
            Command::ScrollUp => {
                if self.pad.scroll_up() {
                    Action::Render
                } else {
                    Action::Idle
                }
            },
            Command::ScrollDown => {
                if self.pad.scroll_down() {
                    Action::Render
                } else {
                    Action::Idle
                }
            },
            Command::SelectNext => {
                if self.history.selected_row() > 0 {
                    self.history.next();
                    self.rebind();
                    Action::Render
                } else {
                    Action::Idle
                }
            },
            Command::SelectPrevious => {
                if self.history.selected_row() < self.history.len() - 1 {
                    self.history.previous();
                    self.rebind();
                    Action::Render
                } else {
                    Action::Idle
                }
            },
            Command::ToggleFocus => {
                self.toggle_focus();
                Action::Render
            },
            Command::ToggleDiffMode => {
                let before = self.mode;
                self.mode = self.mode.next();
                match before {
                    Mode::HistoryBrowsing => Action::Idle,
                    _ => Action::Render,
                }
            },
            Command::Resize => Action::Render,
            Command::Quit => Action::Exit,
        }
    }

    /// Takes the result of a run of the command.
    pub fn output(&mut self, result: CommandResult)
        requires
            old(self).inv(),
        ensures
            final(self).inv(),
            final(self)@ == old(self)@.output(result@),
    {
        let live = self.history.get_state_select() == 0;
        if self.results.len() < u16::MAX as usize {
            let num = (self.results.len() + 1) as u16;
            let pinned = self.history.selected_row() >= 1;
            self.history.update(result.timestamp.clone(), result.status, num);
            if pinned {
                self.history.previous();
            }
            let ghost before = results_view(self.results@);
            self.results.push(result.clone());
            assert(results_view(self.results@) =~= before.push(result@));
        } else {
            self.history.set_latest_status(result.status);
        }
        std::mem::swap(&mut self.latest, &mut self.before_latest);
        self.latest = result;
        if live {
            self.rebind();
        }
    }

    /// Moves the keyboard to the other pane.
    pub fn toggle_focus(&mut self)
        ensures
            final(self)@ == old(self)@.toggle_focus(),
    {
        self.focus = match self.focus {
            Focus::Output => Focus::History,
            Focus::History => Focus::Output,
        };
        self.history.set_active(
            match self.focus {
                Focus::History => true,
                Focus::Output => false,
            },
        );
    }

    /// Takes the new size of the screen.
    pub fn resize(&mut self, max_y: i32, max_x: i32)
        requires
            old(self).inv(),
        ensures
            final(self).inv(),
            final(self)@ == old(self)@.resize(max_y as int, max_x as int),
    {
        self.history.set_area(place_history(max_y, max_x));
        self.pad.resize(max_y, max_x);
        self.pad.create_pad(self.output_type);
    }

    /// Sets the mode that the output is shown in.
    pub fn switch_diff(&mut self, mode: Mode)
        ensures
            final(self)@ == (WatchViewModel { mode, ..old(self)@ }),
    {
        self.mode = mode;
    }

    /// Sets whether colour sequences in the output are to be interpreted.
    pub fn set_color(&mut self, color: bool)
        ensures
            final(self)@ == (WatchViewModel { color, ..old(self)@ }),
    {
        self.color = color;
    }

    /// Sets the seconds between two runs, for the header.
    pub fn set_interval(&mut self, interval: u64)
        ensures
            final(self)@ == (WatchViewModel { interval, ..old(self)@ }),
    {
        self.interval = interval;
    }

    /// Chooses the stream that the pad shows, and shows it.
    pub fn set_output_type(&mut self, output_type: OutputType)
        requires
            old(self).inv(),
        ensures
            final(self).inv(),
            final(self)@ == (WatchViewModel { output_type, ..old(self)@ }).rebind(),
    {
        self.output_type = output_type;
        self.rebind();
    }

    /// Sets where the history table is drawn.
    pub fn set_history_area(&mut self, area: Rect)
        ensures
            final(self)@ == (WatchViewModel {
                history: HistoryAreaView { area, ..old(self)@.history },
                ..old(self)@
            }),
    {
        self.history.set_area(area);
    }

    /// Replaces the rows of the history table and shows the result that
    /// its first row stands for.
    pub fn reset_history(&mut self, data: Vec<Vec<crate::history::History>>)
        requires
            old(self).inv(),
            crate::history::valid_rows(crate::history::rows_view(data@)),
        ensures
            final(self).inv(),
            final(self)@ == (WatchViewModel {
                history: HistoryAreaView {
                    rows: crate::history::rows_view(data@),
                    selection: Some(0usize),
                    ..old(self)@.history
                },
                ..old(self)@
            }).rebind(),
    {
        self.history.reset_history_data(data);
        self.rebind();
    }

    /// Takes back the table state after the widget drew with a copy of it.
    pub fn sync_history_state(&mut self, state: TableState) -> (kept: bool)
        ensures
            kept == (table_selection(state) == old(self)@.history.selection),
            final(self)@ == old(self)@,
    {
        self.history.sync_state(state)
    }

    /// Shows in the pad the result that the selected row stands for.
    fn rebind(&mut self)
        requires
            old(self).inv(),
        ensures
            final(self).inv(),
            final(self)@ == old(self)@.rebind(),
    {
        let num = self.history.get_state_select();
        if num == 0 {
            let shown = self.latest.clone();
            let reference = self.before_latest.stream(self.output_type).clone();
            self.bind(shown, reference);
        } else if num <= self.results.len() {
            let shown = self.results[num - 1].clone();
            let reference = if num >= 2 {
                self.results[num - 2].stream(self.output_type).clone()
            } else {
                String::new()
            };
            self.bind(shown, reference);
        }
    }

    /// Shows `shown` in the pad beside `reference`.
    fn bind(&mut self, shown: CommandResult, reference: String)
        requires
            old(self).inv(),
        ensures
            final(self).inv(),
            final(self)@ == old(self)@.bind(shown@, reference@),
    {
        self.pad.set_result(shown);
        self.pad.set_result_diff_output(reference);
        self.pad.create_pad(self.output_type);
    }

    /// The lines to write to the pad in the present mode.
    pub fn output_lines(&self) -> (lines: Vec<Vec<StyledChar>>)
        ensures
            styled_view(lines@) == rendered(
                stream_of(self@.pad.result, self@.output_type),
                self@.pad.result_diff_output,
                diff_mode_of(self@.mode),
            ),
    {
        self.pad.update(self.mode.diff_mode(), self.output_type)
    }

    /// The history table as it is to be drawn.
    pub fn history_table(&self) -> (table: HistoryTable)
        requires
            self.inv(),
        ensures
            crate::history::draws(
                table,
                self@.history.rows,
                self@.history.active,
                self@.history.selected_num(),
            ),
    {
        self.history.draw()
    }

    /// The region of the pad to copy to the screen.
    pub fn pad_region(&self) -> (region: Option<PadRegion>)
        requires
            self.inv(),
        ensures
            region == self@.pad.region(),
    {
        self.pad.draw_output_pad()
    }

    /// The history table.
    pub fn history(&self) -> (history: &HistoryArea)
        ensures
            history@ == self@.history,
    {
        &self.history
    }

    /// The pad.
    pub fn pad(&self) -> (pad: &WatchPad)
        ensures
            pad@ == self@.pad,
    {
        &self.pad
    }

    /// The mode that the output is shown in.
    pub fn mode(&self) -> (mode: Mode)
        ensures
            mode == self@.mode,
    {
        self.mode
    }

    /// The pane that has the keyboard.
    pub fn focus(&self) -> (focus: Focus)
        ensures
            focus == self@.focus,
    {
        self.focus
    }

    /// The stream that the pad shows.
    pub fn output_type(&self) -> (output_type: OutputType)
        ensures
            output_type == self@.output_type,
    {
        self.output_type
    }

    /// Whether colour sequences in the output are to be interpreted.
    pub fn color(&self) -> (color: bool)
        ensures
            color == self@.color,
    {
        self.color
    }

    /// The seconds between two runs.
    pub fn interval(&self) -> (interval: u64)
        ensures
            interval == self@.interval,
    {
        self.interval
    }

    /// The number of recorded results.
    pub fn result_count(&self) -> (n: usize)
        ensures
            n == self@.results.len(),
    {
        self.results.len()
    }

    /// The recorded result that carries the number `num`, if there is one.
    pub fn result_of(&self, num: usize) -> (result: Option<&CommandResult>)
        ensures
            match result {
                Some(r) => 1 <= num <= self@.results.len() && r@ == self@.results[num - 1],
                None => num == 0 || num > self@.results.len(),
            },
    {
        if 1 <= num && num <= self.results.len() {
            Some(&self.results[num - 1])
        } else {
            None
        }
    }
}

} // verus!
