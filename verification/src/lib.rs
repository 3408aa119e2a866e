//! The interaction engine of a terminal planner for projects and their tasks.
//!
//! The engine is a state machine: it takes key presses and redraw ticks, moves
//! the cursor of the project list and of the task list, opens and closes the
//! popups, and tells its caller when to save, when to hand the terminal to an
//! editor and when to stop. Everything that touches the terminal, the disk or
//! the scheduler is left to the caller.

use vstd::prelude::*;

pub mod application;
pub mod clock;
pub mod draw;
pub mod edit_session;
pub mod event_loop;
pub mod keys;
pub mod project;
pub mod selection;
pub mod string_specs;
pub mod task;
pub mod terminal;
pub mod text;
pub mod utils;
pub mod widgets;

verus! {

/// Which part of the application owns the keys.
#[derive(Clone, Copy, Debug, PartialEq, Eq, Structural)]
pub enum InputMode {
    Normal,
    Insert,
    Deleting,
    Saving,
    Quitting,
}

impl InputMode {
    /// A confirmation popup is open in this mode.
    pub open spec fn asks(self) -> bool {
        self == InputMode::Deleting || self == InputMode::Saving || self == InputMode::Quitting
    }
}

} // verus!
