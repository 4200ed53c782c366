//! The screens, the limits and the fixed texts of the program.

use vstd::prelude::*;

verus! {

/// The longest title, in characters, that a task may carry.
pub const MAX_TASK_TITLE_LENGTH: usize = 40;

/// Rows that the footer asks for at the bottom of every screen.
pub const FOOTER_HEIGHT: u16 = 3;

/// The least number of rows the region above the footer asks for.
pub const BODY_MIN_HEIGHT: u16 = 0;

/// The heading of the task list.
pub const LIST_TITLE: &'static str = "Task List";

/// The heading of the input field.
pub const INPUT_TITLE: &'static str = "Write the task, max 40 characters";

/// The footer of the list screen: what each key does there.
pub const MAIN_FOOTER: &'static str =
    "esc: Exit, a: Add, x: Remove, enter: Check/Uncheck, ↑: Up, ↓: Down ";

/// The footer of the input screen.
pub const ADD_FOOTER: &'static str = "esc: Cancel, enter: Save";

/// The screen that is shown: exactly one at a time.
#[derive(Debug, Clone, Copy, PartialEq, Eq, Structural)]
pub enum Screen {
    /// The task list with its cursor.
    Main,
    /// The input field for a new task.
    Add,
}

impl Default for Screen {
    fn default() -> (screen: Self)
        ensures
            screen == Screen::Main,
    {
        Screen::Main
    }
}

} // verus!
