//! The history table: one row per run of the command, newest first, below a
//! fixed first row that stands for the live result.

use crate::text::{count_newlines, newline_count};
use crate::widget::{rect_new, table_selection};
use tui::layout::Rect;
use tui::widgets::TableState;
use vstd::prelude::*;

verus! {

/// One cell of the history table.
#[derive(Debug, PartialEq, Eq, PartialOrd, Ord)]
pub struct History {
    pub timestamp: String,
    pub status: bool,
    pub num: u16,
}

/// What a [`History`] cell holds, as mathematical values.
pub struct HistoryView {
    pub timestamp: Seq<char>,
    pub status: bool,
    pub num: u16,
}

impl View for History {
    type V = HistoryView;

    open spec fn view(&self) -> HistoryView {
        HistoryView { timestamp: self.timestamp@, status: self.status, num: self.num }
    }
}

impl Clone for History {
    fn clone(&self) -> (r: Self)
        ensures
            r@ == self@,
    {
        History { timestamp: self.timestamp.clone(), status: self.status, num: self.num }
    }
}

/// The colour class of a cell or of the highlight.
#[derive(Clone, Copy, Debug, PartialEq, Eq, Structural)]
pub enum Tint {
    /// The first row, which follows the live result.
    Latest,
    /// A run that succeeded.
    Success,
    /// A run that failed.
    Failure,
    /// The highlight while the table does not have the focus.
    Inactive,
}

/// How the selected row is marked.
#[derive(Clone, Copy, Debug, PartialEq, Eq, Structural)]
pub struct Highlight {
    pub reversed: bool,
    pub tint: Option<Tint>,
}

/// One cell as it is to be drawn.
#[derive(Debug)]
pub struct HistoryCell {
    pub text: String,
    pub tint: Tint,
}

/// One row as it is to be drawn.
#[derive(Debug)]
pub struct HistoryRow {
    pub cells: Vec<HistoryCell>,
    pub height: u16,
}

/// The whole table as it is to be drawn.
#[derive(Debug)]
pub struct HistoryTable {
    pub rows: Vec<HistoryRow>,
    pub highlight: Highlight,
}

/// The label of the first row.
pub open spec fn latest_label() -> Seq<char> {
    "latest                 "@
}

/// The first row of a fresh table.
pub open spec fn latest_entry() -> HistoryView {
    HistoryView { timestamp: latest_label(), status: true, num: 0 }
}

/// The rows of a table, each cell by its view.
pub open spec fn rows_view(data: Seq<Vec<History>>) -> Seq<Seq<HistoryView>> {
    Seq::new(data.len(), |i: int| Seq::new(data[i]@.len(), |j: int| data[i]@[j]@))
}

/// Rows that a table can hold: at least one row, no row without a cell, and
/// the first cell of the first row carries the number 0.
pub open spec fn valid_rows(rows: Seq<Seq<HistoryView>>) -> bool {
    &&& rows.len() >= 1
    &&& forall|i: int| 0 <= i < rows.len() ==> (#[trigger] rows[i]).len() >= 1
    &&& rows[0][0].num == 0
}

/// The rows with the status of the first row replaced.
pub open spec fn with_latest_status(rows: Seq<Seq<HistoryView>>, status: bool) -> Seq<
    Seq<HistoryView>,
> {
    rows.update(0, rows[0].update(0, HistoryView { status, ..rows[0][0] }))
}

/// The rows after one run was recorded: the first row takes the run's
/// status, and the run becomes the second row.
pub open spec fn after_update(rows: Seq<Seq<HistoryView>>, entry: HistoryView) -> Seq<
    Seq<HistoryView>,
> {
    with_latest_status(rows, entry.status).insert(1, seq![entry])
}

/// The rows after a series of runs was recorded, oldest run first.
pub open spec fn after_updates(rows: Seq<Seq<HistoryView>>, entries: Seq<HistoryView>) -> Seq<
    Seq<HistoryView>,
>
    decreases entries.len(),
{
    if entries.len() == 0 {
        rows
    } else {
        after_update(after_updates(rows, entries.drop_last()), entries.last())
    }
}

/// The selection after a step towards the first row.
pub open spec fn step_next(selected: int) -> int {
    if selected > 0 {
        selected - 1
    } else {
        selected
    }
}

/// The selection after a step towards the last of `len` rows.
pub open spec fn step_previous(selected: int, len: int) -> int {
    if selected < len - 1 {
        selected + 1
    } else {
        selected
    }
}

/// The most line breaks that any cell of a row holds.
pub open spec fn row_breaks(row: Seq<HistoryView>) -> nat
    decreases row.len(),
{
    if row.len() == 0 {
        0
    } else {
        let rest = row_breaks(row.drop_last());
        let here = newline_count(row.last().timestamp);
        if here > rest {
            here
        } else {
            rest
        }
    }
}

/// The height of a row: one line more than its cells have line breaks, as
/// far as a `u16` holds it.
pub open spec fn row_height(row: Seq<HistoryView>) -> int {
    if row_breaks(row) < u16::MAX {
        row_breaks(row) as int + 1
    } else {
        u16::MAX as int
    }
}

/// The tint of a cell in row `index`.
pub open spec fn cell_tint(index: int, status: bool) -> Tint {
    if index == 0 {
        Tint::Latest
    } else if status {
        Tint::Success
    } else {
        Tint::Failure
    }
}

/// The highlight of the selected row, whose first cell carries `num`.
pub open spec fn highlight_for(active: bool, num: int) -> Highlight {
    if !active {
        Highlight { reversed: true, tint: Some(Tint::Inactive) }
    } else if num == 0 {
        Highlight { reversed: true, tint: Some(Tint::Latest) }
    } else {
        Highlight { reversed: true, tint: None }
    }
}

/// Whether `table` draws `rows` with the row that carries `num` selected.
pub open spec fn draws(table: HistoryTable, rows: Seq<Seq<HistoryView>>, active: bool, num: int) -> bool {
    &&& table.highlight == highlight_for(active, num)
    &&& table.rows@.len() == rows.len()
    &&& forall|i: int|
        0 <= i < rows.len() ==> {
            &&& (#[trigger] table.rows@[i]).height == row_height(rows[i])
            &&& table.rows@[i].cells@.len() == rows[i].len()
        }
    &&& forall|i: int, j: int|
        0 <= i < rows.len() && 0 <= j < rows[i].len() ==> {
            &&& (#[trigger] table.rows@[i].cells@[j]).text@ == rows[i][j].timestamp
            &&& table.rows@[i].cells@[j].tint == cell_tint(i, rows[i][j].status)
        }
}

/// Recording runs never empties the table, and the first row shows the
/// status of the run that was recorded last.
pub proof fn lemma_updates_track_latest(rows: Seq<Seq<HistoryView>>, entries: Seq<HistoryView>)
    requires
        valid_rows(rows),
    ensures
        valid_rows(after_updates(rows, entries)),
        after_updates(rows, entries).len() == rows.len() + entries.len(),
        entries.len() > 0 ==> after_updates(rows, entries)[0][0].status == entries.last().status,
        entries.len() > 0 ==> after_updates(rows, entries)[1] == seq![entries.last()],
    decreases entries.len(),
{
    if entries.len() > 0 {
        lemma_updates_track_latest(rows, entries.drop_last());
        let before = after_updates(rows, entries.drop_last());
        let marked = with_latest_status(before, entries.last().status);
        let after = after_update(before, entries.last());
        assert forall|i: int| 0 <= i < after.len() implies (#[trigger] after[i]).len() >= 1 by {
            if i == 0 {
                assert(after[0] == marked[0]);
            } else if i == 1 {
            } else {
                assert(after[i] == before[i - 1]);
            }
        }
    }
}

/// A step keeps the selection among the rows, and a step at either end
/// leaves it where it is.
pub proof fn lemma_steps_stay_in_bounds(selected: int, len: int)
    requires
        0 <= selected < len,
    ensures
        0 <= step_next(selected) < len,
        0 <= step_previous(selected, len) < len,
        step_next(0) == 0,
        step_previous(len - 1, len) == len - 1,
        step_next(step_next(0)) == 0,
        step_previous(step_previous(len - 1, len), len) == len - 1,
{
}

/// The table of past runs and the row that is selected in it.
pub struct HistoryArea {
    area: Rect,
    active: bool,
    data: Vec<Vec<History>>,
    state: TableState,
}

/// What a [`HistoryArea`] holds, as mathematical values.
pub struct HistoryAreaView {
    /// Where the table is drawn.
    pub area: Rect,
    /// Whether the table has the focus.
    pub active: bool,
    /// The rows of the table, first row first.
    pub rows: Seq<Seq<HistoryView>>,
    /// What the table state has selected.
    pub selection: Option<usize>,
}

impl HistoryAreaView {
    /// A table with the first row alone, selected, drawn nowhere yet.
    pub open spec fn fresh() -> HistoryAreaView {
        HistoryAreaView {
            area: rect_new(0, 0, 0, 0),
            active: false,
            rows: seq![seq![latest_entry()]],
            selection: Some(0usize),
        }
    }

    /// The index of the selected row.
    pub open spec fn selected(self) -> int {
        self.selection->0 as int
    }

    /// The number that the selected row carries.
    pub open spec fn selected_num(self) -> int {
        self.rows[self.selected()][0].num as int
    }

    /// What holds of every table: its rows are valid and one of them is
    /// selected.
    pub open spec fn inv(self) -> bool {
        &&& valid_rows(self.rows)
        &&& self.selection is Some
        &&& 0 <= self.selected() < self.rows.len()
    }

    /// The table with another row selected.
    pub open spec fn select(self, index: int) -> HistoryAreaView {
        HistoryAreaView { selection: Some(index as usize), ..self }
    }

    /// The table after one run was recorded.
    pub open spec fn update(self, entry: HistoryView) -> HistoryAreaView {
        HistoryAreaView { rows: after_update(self.rows, entry), ..self }
    }

    /// The table after its first row took the status of the latest run.
    pub open spec fn set_latest_status(self, status: bool) -> HistoryAreaView {
        HistoryAreaView { rows: with_latest_status(self.rows, status), ..self }
    }

    /// The table after a step towards the first row.
    pub open spec fn next(self) -> HistoryAreaView {
        self.select(step_next(self.selected()))
    }

    /// The table after a step towards the last row.
    pub open spec fn previous(self) -> HistoryAreaView {
        self.select(step_previous(self.selected(), self.rows.len() as int))
    }
}

impl View for HistoryArea {
    type V = HistoryAreaView;

    closed spec fn view(&self) -> HistoryAreaView {
        HistoryAreaView {
            area: self.area,
            active: self.active,
            rows: rows_view(self.data@),
            selection: table_selection(self.state),
        }
    }
}

impl HistoryArea {
    /// What holds of every table: its rows are valid and one of them is
    /// selected.
    pub open spec fn inv(&self) -> bool {
        self@.inv()
    }

    /// A table with the first row alone, selected, drawn nowhere yet.
    pub fn new() -> (r: Self)
        ensures
            r.inv(),
            r@ == HistoryAreaView::fresh(),
    {
        let mut first = Vec::new();
        first.push(
            History {
                timestamp: "latest                 ".to_owned(),
                status: true,
                num: 0,
            },
        );
        let mut data = Vec::new();
        data.push(first);
        let mut state = TableState::default();
        state.select(Some(0));
        let r = Self { area: Rect::new(0, 0, 0, 0), active: false, data, state };
        assert(r@.rows =~~= seq![seq![latest_entry()]]);
        r
    }

    /// Sets where the table is drawn.
    pub fn set_area(&mut self, area: Rect)
        ensures
            final(self)@ == (HistoryAreaView { area, ..old(self)@ }),
    {
        self.area = area;
    }

    /// Sets whether the table has the focus.
    pub fn set_active(&mut self, active: bool)
        ensures
            final(self)@ == (HistoryAreaView { active, ..old(self)@ }),
    {
        self.active = active;
    }

    /// Gives the first row the status of the latest run.
    pub fn set_latest_status(&mut self, latest_status: bool)
        requires
            old(self).inv(),
        ensures
            final(self).inv(),
            final(self)@ == old(self)@.set_latest_status(latest_status),
    {
        assert(old(self)@.rows[0].len() >= 1);
        self.data[0][0].status = latest_status;
        assert(self@.rows =~~= with_latest_status(old(self)@.rows, latest_status));
    }

    /// Records one run: the first row takes its status, and the run becomes
    /// the second row, above the runs before it. The selection stays at its
    /// index.
    pub fn update(&mut self, timestamp: String, status: bool, num: u16)
        requires
            old(self).inv(),
        ensures
            final(self).inv(),
            final(self)@ == old(self)@.update(HistoryView { timestamp: timestamp@, status, num }),
            final(self)@.rows.len() == old(self)@.rows.len() + 1,
            final(self)@.rows[0][0].status == status,
    {
        self.set_latest_status(status);
        let ghost marked = self@.rows;
        let mut row = Vec::new();
        row.push(History { timestamp, status, num });
        self.data.insert(1, row);
        proof {
            let entry = HistoryView { timestamp: timestamp@, status, num };
            assert(self@.rows =~~= marked.insert(1, seq![entry]));
            assert forall|i: int| 0 <= i < self@.rows.len() implies (#[trigger] self@.rows[i]).len()
                >= 1 by {
                if i >= 2 {
                    assert(self@.rows[i] == marked[i - 1]);
                }
            }
        }
    }

    /// Replaces all rows and selects the first one.
    pub fn reset_history_data(&mut self, data: Vec<Vec<History>>)
        requires
            valid_rows(rows_view(data@)),
        ensures
            final(self).inv(),
            final(self)@ == (HistoryAreaView {
                rows: rows_view(data@),
                selection: Some(0usize),
                ..old(self)@
            }),
    {
        self.data = data;
        self.state.select(Some(0));
    }

    /// Whether `data` can replace the rows of a table.
    pub fn accepts(data: &Vec<Vec<History>>) -> (ok: bool)
        ensures
            ok == valid_rows(rows_view(data@)),
    {
        if data.len() == 0 {
            return false;
        }
        let mut i: usize = 0;
        while i < data.len()
            invariant
                i <= data@.len(),
                forall|k: int| 0 <= k < i ==> (#[trigger] rows_view(data@)[k]).len() >= 1,
            decreases data@.len() - i,
        {
            if data[i].len() == 0 {
                assert(rows_view(data@)[i as int].len() == 0);
                return false;
            }
            assert(rows_view(data@)[i as int].len() >= 1);
            i += 1;
        }
        assert(rows_view(data@)[0].len() >= 1);
        data[0][0].num == 0
    }

    /// What is to be drawn: each row with its height and the tint of its
    /// cells, and the highlight of the selected row.
    pub fn draw(&self) -> (table: HistoryTable)
        requires
            self.inv(),
        ensures
            draws(table, self@.rows, self@.active, self@.selected_num()),
    {
        let mut rows: Vec<HistoryRow> = Vec::new();
        let mut ix: usize = 0;
        while ix < self.data.len()
            invariant
                ix <= self.data@.len(),
                rows@.len() == ix,
                forall|i: int|
                    0 <= i < ix ==> {
                        &&& (#[trigger] rows@[i]).height == row_height(self@.rows[i])
                        &&& rows@[i].cells@.len() == self@.rows[i].len()
                    },
                forall|i: int, j: int|
                    0 <= i < ix && 0 <= j < self@.rows[i].len() ==> {
                        &&& (#[trigger] rows@[i].cells@[j]).text@ == self@.rows[i][j].timestamp
                        &&& rows@[i].cells@[j].tint == cell_tint(i, self@.rows[i][j].status)
                    },
            decreases self.data@.len() - ix,
        {
            let item = &self.data[ix];
            let ghost row = self@.rows[ix as int];
            let mut breaks: u16 = 0;
            let mut cells: Vec<HistoryCell> = Vec::new();
            let mut j: usize = 0;
            while j < item.len()
                invariant
                    j <= item@.len(),
                    row == Seq::new(item@.len(), |k: int| item@[k]@),
                    cells@.len() == j,
                    breaks == if row_breaks(row.take(j as int)) < u16::MAX {
                        row_breaks(row.take(j as int))
                    } else {
                        u16::MAX as nat
                    },
                    forall|k: int|
                        0 <= k < j ==> {
                            &&& (#[trigger] cells@[k]).text@ == row[k].timestamp
                            &&& cells@[k].tint == cell_tint(ix as int, row[k].status)
                        },
                decreases item@.len() - j,
            {
                let content = &item[j];
                proof {
                    assert(row.take(j + 1).drop_last() =~= row.take(j as int));
                }
                let here = count_newlines(content.timestamp.as_str());
                if here > breaks {
                    breaks = here;
                }
                let tint = if ix == 0 {
                    Tint::Latest
                } else if content.status {
                    Tint::Success
                } else {
                    Tint::Failure
                };
                cells.push(HistoryCell { text: content.timestamp.clone(), tint });
                j += 1;
            }
            proof {
                assert(row.take(item@.len() as int) =~= row);
            }
            let height = if breaks < u16::MAX {
                breaks + 1
            } else {
                u16::MAX
            };
            rows.push(HistoryRow { cells, height });
            ix += 1;
        }
        let base = Highlight { reversed: true, tint: None };
        let highlight = if self.active {
            if self.get_state_select() == 0 {
                Highlight { tint: Some(Tint::Latest), ..base }
            } else {
                base
            }
        } else {
            Highlight { tint: Some(Tint::Inactive), ..base }
        };
        HistoryTable { rows, highlight }
    }

    /// The number that the selected row carries: 0 for the first row, which
    /// follows the live result.
    pub fn get_state_select(&self) -> (num: usize)
        requires
            self.inv(),
        ensures
            num == self@.selected_num(),
    {
        let i = match self.state.selected() {
            Some(i) => i,
            None => self.data.len() - 1,
        };
        assert(self@.rows[i as int].len() >= 1);
        self.data[i][0].num as usize
    }

    /// Moves the selection one row towards the first row, and leaves it
    /// there once it has arrived.
    pub fn next(&mut self)
        requires
            old(self).inv(),
        ensures
            final(self).inv(),
            final(self)@ == old(self)@.next(),
    {
        let i = match self.state.selected() {
            Some(i) => {
                if i > 0 {
                    i - 1
                } else {
                    i
                }
            },
            None => 0,
        };
        self.state.select(Some(i));
    }

    /// Moves the selection one row towards the last row, and leaves it
    /// there once it has arrived.
    pub fn previous(&mut self)
        requires
            old(self).inv(),
        ensures
            final(self).inv(),
            final(self)@ == old(self)@.previous(),
    {
        let i = match self.state.selected() {
            Some(i) => {
                if i < self.data.len() - 1 {
                    i + 1
                } else {
                    i
                }
            },
            None => 0,
        };
        self.state.select(Some(i));
    }

    /// Where the table is drawn.
    pub fn area(&self) -> (area: Rect)
        ensures
            area == self@.area,
    {
        self.area
    }

    /// Whether the table has the focus.
    pub fn active(&self) -> (active: bool)
        ensures
            active == self@.active,
    {
        self.active
    }

    /// The rows of the table, first row first.
    pub fn rows(&self) -> (rows: &Vec<Vec<History>>)
        ensures
            rows_view(rows@) == self@.rows,
    {
        &self.data
    }

    /// The status that the first row shows: that of the latest run.
    pub fn latest_status(&self) -> (status: bool)
        requires
            self.inv(),
        ensures
            status == self@.rows[0][0].status,
    {
        assert(self@.rows[0].len() >= 1);
        self.data[0][0].status
    }

    /// The number of rows.
    pub fn len(&self) -> (n: usize)
        ensures
            n == self@.rows.len(),
    {
        self.data.len()
    }

    /// The index of the selected row.
    pub fn selected_row(&self) -> (i: usize)
        requires
            self.inv(),
        ensures
            i == self@.selected(),
    {
        match self.state.selected() {
            Some(i) => i,
            None => 0,
        }
    }

    /// The table state, for the widget that draws the table.
    pub fn state(&self) -> (state: &TableState)
        ensures
            table_selection(*state) == self@.selection,
    {
        &self.state
    }

    /// Takes back the table state after the widget drew with a copy of it,
    /// so that the widget's scroll offset is kept. A state whose selection
    /// differs from the table's is refused.
    pub fn sync_state(&mut self, state: TableState) -> (kept: bool)
        ensures
            kept == (table_selection(state) == old(self)@.selection),
            final(self)@ == old(self)@,
    {
        let same = match (state.selected(), self.state.selected()) {
            (Some(a), Some(b)) => a == b,
            (None, None) => true,
            _ => false,
        };
        if same {
            self.state = state;
        }
        same
    }
}

} // verus!
