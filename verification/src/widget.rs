//! What this crate assumes of the `tui` types that it holds.
//!
//! Nothing in this file is proved: each contract restates what the `tui`
//! source shows.

use tui::layout::Rect;
use tui::widgets::TableState;
use vstd::prelude::*;

verus! {

/// `tui::layout::Rect`, carried through as an opaque value.
#[verifier::external_type_specification]
#[verifier::external_body]
pub struct ExRect(Rect);

/// `tui::widgets::TableState`, carried through as an opaque value.
#[verifier::external_type_specification]
#[verifier::external_body]
pub struct ExTableState(TableState);

/// The rectangle that `Rect::new` builds from a position and a size. It
/// keeps both, except that it shrinks a size whose area a `u16` does not
/// hold; how it shrinks it is left to `tui`.
pub uninterp spec fn rect_new(x: u16, y: u16, width: u16, height: u16) -> Rect;

/// The row that a table state has selected, if any.
pub uninterp spec fn table_selection(state: TableState) -> Option<usize>;

/// `Rect::new` reads nothing but its four arguments: the same position and
/// size give the same rectangle.
pub assume_specification[ Rect::new ](x: u16, y: u16, width: u16, height: u16) -> (r: Rect)
    ensures
        r == rect_new(x, y, width, height),
;

/// `TableState::default` gives a state in which no row is selected.
pub assume_specification[ <TableState as Default>::default ]() -> (r: TableState)
    ensures
        table_selection(r) == None::<usize>,
;

/// `TableState::selected` returns the selected row and changes nothing.
pub assume_specification[ TableState::selected ](state: &TableState) -> (r: Option<usize>)
    ensures
        r == table_selection(*state),
;

/// `TableState::select` stores the given row as the selection, whatever
/// was selected before.
pub assume_specification[ TableState::select ](state: &mut TableState, index: Option<usize>)
    ensures
        table_selection(*final(state)) == index,
;

} // verus!
