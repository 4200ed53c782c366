//! A terminal to-do list: the task list, the screen state machine that the
//! key dispatcher drives, and the view that lays a state out as a frame.

pub mod constants;
pub mod laws;
pub mod layout;
pub mod state;
pub mod task;
pub mod text;
pub mod view;
