//! Core of a terminal dashboard that runs a command at a fixed interval and
//! shows its output with scrollback, a navigable history and difference
//! highlighting.
//!
//! The crate holds the state and the arithmetic of the dashboard: the history
//! table, the scrollable output pad, the difference engine and the view's
//! state machine. Reading the terminal, spawning the command and drawing are
//! left to the program that links it.

use vstd::prelude::*;

pub mod cmd;
pub mod config;
pub mod diff;
pub mod history;
pub mod text;
pub mod view;
pub mod widget;
pub mod window;

verus! {

/// The seconds between two runs where none are asked for.
pub const DEFAULT_INTERVAL: u64 = 2;

/// The columns of the history table.
pub const HISTORY_WIDTH: i32 = 21;

} // verus!
