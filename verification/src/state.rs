//! The screen state machine: which screen is shown, where the cursor is,
//! what has been typed, and what each command makes of them and of the
//! task list.

use crate::constants::{Screen, MAX_TASK_TITLE_LENGTH};
use crate::task::{all_wf, TaskList, TaskStatus, TaskView};
use vstd::prelude::*;

verus! {

/// What the key dispatcher can ask of the state machine.
#[derive(Debug, Clone, Copy, PartialEq, Eq)]
pub enum Command {
    /// Open the input field for a new task.
    EnterAdd,
    /// Leave the input field and throw away what was typed.
    CancelAdd,
    /// Add what was typed as a new pending task.
    CommitAdd,
    /// Move the cursor one task up.
    MoveUp,
    /// Move the cursor one task down.
    MoveDown,
    /// Flip the status of the task under the cursor.
    ToggleSelected,
    /// Remove the task under the cursor.
    RemoveSelected,
    /// Type one character into the input field.
    TypeChar(char),
    /// Delete the last character of the input field.
    Backspace,
    /// End the interaction loop.
    Exit,
}

/// Why a command changed nothing.
#[derive(Debug, Clone, Copy, PartialEq, Eq, Structural)]
pub enum Rejection {
    /// The command belongs to the other screen.
    WrongScreen,
    /// There is no task to move to, toggle or remove.
    EmptyList,
    /// Nothing was typed: there is no title to save and no character to delete.
    EmptyTitle,
    /// The input already holds as many characters as a title may have.
    TitleTooLong,
    /// The cursor names no task of the list.
    IndexOutOfRange,
}

/// What came of a command.
#[derive(Debug, Clone, Copy, PartialEq, Eq, Structural)]
pub enum Outcome {
    /// The transition was made.
    Applied,
    /// The command's precondition did not hold; nothing changed.
    Rejected(Rejection),
    /// The loop is to end; nothing changed.
    Exit,
}

/// What a screen state is: the screen, the cursor and the typed characters.
pub struct ScreenView {
    pub screen: Screen,
    pub line: nat,
    pub input: Seq<char>,
}

/// The screen state together with the task list it is shown with: what the
/// state machine works on.
pub struct Model {
    pub ui: ScreenView,
    pub tasks: Seq<TaskView>,
}

impl Model {
    /// The cursor names a task, or stands at 0 while there is none.
    pub open spec fn cursor_in_bounds(self) -> bool {
        if self.tasks.len() == 0 {
            self.ui.line == 0
        } else {
            self.ui.line < self.tasks.len()
        }
    }

    /// The invariant of the state machine: input and titles keep to the
    /// length limit and the cursor is in bounds.
    pub open spec fn wf(self) -> bool {
        &&& self.ui.input.len() <= MAX_TASK_TITLE_LENGTH
        &&& all_wf(self.tasks)
        &&& self.cursor_in_bounds()
    }

    /// The precondition of `command` that does not hold, if one does not.
    pub open spec fn rejection(self, command: Command) -> Option<Rejection> {
        match command {
            Command::Exit => None,
            Command::EnterAdd => if self.ui.screen != Screen::Main {
                Some(Rejection::WrongScreen)
            } else {
                None
            },
            Command::MoveUp | Command::MoveDown => if self.ui.screen != Screen::Main {
                Some(Rejection::WrongScreen)
            } else if self.tasks.len() == 0 {
                Some(Rejection::EmptyList)
            } else {
                None
            },
            Command::ToggleSelected | Command::RemoveSelected => if self.ui.screen
                != Screen::Main {
                Some(Rejection::WrongScreen)
            } else if self.tasks.len() == 0 {
                Some(Rejection::EmptyList)
            } else if self.ui.line >= self.tasks.len() {
                Some(Rejection::IndexOutOfRange)
            } else {
                None
            },
            Command::CancelAdd => if self.ui.screen != Screen::Add {
                Some(Rejection::WrongScreen)
            } else {
                None
            },
            Command::CommitAdd => if self.ui.screen != Screen::Add {
                Some(Rejection::WrongScreen)
            } else if self.ui.input.len() == 0 {
                Some(Rejection::EmptyTitle)
            } else if self.ui.input.len() > MAX_TASK_TITLE_LENGTH {
                Some(Rejection::TitleTooLong)
            } else {
                None
            },
            Command::TypeChar(_) => if self.ui.screen != Screen::Add {
                Some(Rejection::WrongScreen)
            } else if self.ui.input.len() >= MAX_TASK_TITLE_LENGTH {
                Some(Rejection::TitleTooLong)
            } else {
                None
            },
            Command::Backspace => if self.ui.screen != Screen::Add {
                Some(Rejection::WrongScreen)
            } else if self.ui.input.len() == 0 {
                Some(Rejection::EmptyTitle)
            } else {
                None
            },
        }
    }

    /// What `command` makes of a state in which its precondition holds.
    pub open spec fn effect(self, command: Command) -> Model {
        match command {
            Command::Exit => self,
            Command::EnterAdd => Model {
                ui: ScreenView { screen: Screen::Add, input: Seq::empty(), ..self.ui },
                ..self
            },
            Command::CancelAdd => Model {
                ui: ScreenView { screen: Screen::Main, input: Seq::empty(), ..self.ui },
                ..self
            },
            Command::CommitAdd => Model {
                ui: ScreenView { screen: Screen::Main, input: Seq::empty(), ..self.ui },
                tasks: self.tasks.push(
                    TaskView { title: self.ui.input, status: TaskStatus::Pending },
                ),
            },
            Command::MoveUp => Model {
                ui: ScreenView {
                    line: if self.ui.line > 0 {
                        (self.ui.line - 1) as nat
                    } else {
                        0
                    },
                    ..self.ui
                },
                ..self
            },
            Command::MoveDown => Model {
                ui: ScreenView {
                    line: if self.ui.line + 1 < self.tasks.len() {
                        self.ui.line + 1
                    } else {
                        (self.tasks.len() - 1) as nat
                    },
                    ..self.ui
                },
                ..self
            },
            Command::ToggleSelected => Model {
                tasks: self.tasks.update(
                    self.ui.line as int,
                    self.tasks[self.ui.line as int].toggled(),
                ),
                ..self
            },
            Command::RemoveSelected => {
                let rest = self.tasks.remove(self.ui.line as int);
                Model {
                    ui: ScreenView {
                        line: if rest.len() == 0 {
                            0
                        } else if self.ui.line < rest.len() {
                            self.ui.line
                        } else {
                            (rest.len() - 1) as nat
                        },
                        ..self.ui
                    },
                    tasks: rest,
                }
            },
            Command::TypeChar(c) => Model {
                ui: ScreenView { input: self.ui.input.push(c), ..self.ui },
                ..self
            },
            Command::Backspace => Model {
                ui: ScreenView { input: self.ui.input.drop_last(), ..self.ui },
                ..self
            },
        }
    }

    /// The state after `command`: its effect where the precondition holds,
    /// the same state where it does not.
    pub open spec fn step(self, command: Command) -> Model {
        if self.rejection(command).is_some() {
            self
        } else {
            self.effect(command)
        }
    }

    /// What the caller is told of `command`.
    pub open spec fn outcome(self, command: Command) -> Outcome {
        match self.rejection(command) {
            Some(rejection) => Outcome::Rejected(rejection),
            None => if command == Command::Exit {
                Outcome::Exit
            } else {
                Outcome::Applied
            },
        }
    }

    /// The state after the commands, first to last.
    pub open spec fn run(self, commands: Seq<Command>) -> Model
        decreases commands.len(),
    {
        if commands.len() == 0 {
            self
        } else {
            self.run(commands.drop_last()).step(commands.last())
        }
    }
}

/// The current screen with its cursor and its input buffer.
#[derive(Debug, Clone, PartialEq, Eq)]
pub struct ScreenState {
    screen: Screen,
    line: usize,
    input: String,
}

impl View for ScreenState {
    type V = ScreenView;

    closed spec fn view(&self) -> ScreenView {
        ScreenView { screen: self.screen, line: self.line as nat, input: self.input@ }
    }
}

impl ScreenState {
    /// This screen state beside `tasks`.
    pub open spec fn with(&self, tasks: &TaskList) -> Model {
        Model { ui: self@, tasks: tasks@ }
    }

    /// The initial state: the list screen, the cursor on the first line,
    /// nothing typed.
    pub fn new() -> (state: ScreenState)
        ensures
            state@ == (ScreenView { screen: Screen::Main, line: 0, input: Seq::empty() }),
    {
        ScreenState { screen: Screen::Main, line: 0, input: String::new() }
    }

    pub fn screen(&self) -> (screen: Screen)
        ensures
            screen == self@.screen,
    {
        self.screen
    }

    pub fn line(&self) -> (line: usize)
        ensures
            line == self@.line,
    {
        self.line
    }

    pub fn input(&self) -> (input: &str)
        ensures
            input@ == self@.input,
    {
        self.input.as_str()
    }

    /// Makes the transition that `command` asks for, on this screen state
    /// and on `tasks`. Where the command's precondition does not hold,
    /// neither is changed and the outcome says why.
    pub fn apply(&mut self, tasks: &mut TaskList, command: Command) -> (outcome: Outcome)
        ensures
            final(self).with(final(tasks)) == old(self).with(old(tasks)).step(command),
            outcome == old(self).with(old(tasks)).outcome(command),
            old(self).with(old(tasks)).wf() ==> final(self).with(final(tasks)).wf(),
    {
        match command {
            Command::EnterAdd => match self.screen {
                Screen::Main => {
                    self.screen = Screen::Add;
                    self.input = String::new();
                    Outcome::Applied
                },
                Screen::Add => Outcome::Rejected(Rejection::WrongScreen),
            },
            Command::CancelAdd => match self.screen {
                Screen::Add => {
                    self.screen = Screen::Main;
                    self.input = String::new();
                    Outcome::Applied
                },
                Screen::Main => Outcome::Rejected(Rejection::WrongScreen),
            },
            Command::CommitAdd => self.commit_add(tasks),
            Command::MoveUp => self.move_up(tasks),
            Command::MoveDown => self.move_down(tasks),
            Command::ToggleSelected => self.toggle_selected(tasks),
            Command::RemoveSelected => self.remove_selected(tasks),
            Command::TypeChar(c) => match self.screen {
                Screen::Add => {
                    if self.input.as_str().unicode_len() >= MAX_TASK_TITLE_LENGTH {
                        Outcome::Rejected(Rejection::TitleTooLong)
                    } else {
                        self.input.push(c);
                        Outcome::Applied
                    }
                },
                Screen::Main => Outcome::Rejected(Rejection::WrongScreen),
            },
            Command::Backspace => match self.screen {
                Screen::Add => match self.input.pop() {
                    Some(_) => Outcome::Applied,
                    None => Outcome::Rejected(Rejection::EmptyTitle),
                },
                Screen::Main => Outcome::Rejected(Rejection::WrongScreen),
            },
            Command::Exit => Outcome::Exit,
        }
    }

    /// Adds what was typed as a pending task at the end of the list, clears
    /// the input and goes back to the list. With nothing typed it does
    /// nothing and stays on the input screen.
    fn commit_add(&mut self, tasks: &mut TaskList) -> (outcome: Outcome)
        ensures
            final(self).with(final(tasks)) == old(self).with(old(tasks)).step(Command::CommitAdd),
            outcome == old(self).with(old(tasks)).outcome(Command::CommitAdd),
            old(self).with(old(tasks)).wf() ==> final(self).with(final(tasks)).wf(),
    {
        match self.screen {
            Screen::Add => {
                if self.input.as_str().is_empty() {
                    Outcome::Rejected(Rejection::EmptyTitle)
                } else {
                    match tasks.add(self.input.clone()) {
                        Ok(()) => {
                            self.input = String::new();
                            self.screen = Screen::Main;
                            Outcome::Applied
                        },
                        Err(_) => Outcome::Rejected(Rejection::TitleTooLong),
                    }
                }
            },
            Screen::Main => Outcome::Rejected(Rejection::WrongScreen),
        }
    }

    /// The cursor goes one task up and stops at the first.
    fn move_up(&mut self, tasks: &TaskList) -> (outcome: Outcome)
        ensures
            final(self).with(tasks) == old(self).with(tasks).step(Command::MoveUp),
            outcome == old(self).with(tasks).outcome(Command::MoveUp),
            old(self).with(tasks).wf() ==> final(self).with(tasks).wf(),
    {
        match self.screen {
            Screen::Main => {
                if tasks.is_empty() {
                    Outcome::Rejected(Rejection::EmptyList)
                } else {
                    if self.line > 0 {
                        self.line = self.line - 1;
                    }
                    Outcome::Applied
                }
            },
            Screen::Add => Outcome::Rejected(Rejection::WrongScreen),
        }
    }

    /// The cursor goes one task down and stops at the last.
    fn move_down(&mut self, tasks: &TaskList) -> (outcome: Outcome)
        ensures
            final(self).with(tasks) == old(self).with(tasks).step(Command::MoveDown),
            outcome == old(self).with(tasks).outcome(Command::MoveDown),
            old(self).with(tasks).wf() ==> final(self).with(tasks).wf(),
    {
        match self.screen {
            Screen::Main => {
                let len = tasks.len();
                if len == 0 {
                    Outcome::Rejected(Rejection::EmptyList)
                } else {
                    if self.line < len - 1 {
                        self.line = self.line + 1;
                    } else {
                        self.line = len - 1;
                    }
                    Outcome::Applied
                }
            },
            Screen::Add => Outcome::Rejected(Rejection::WrongScreen),
        }
    }

    /// Flips the status of the task under the cursor.
    fn toggle_selected(&mut self, tasks: &mut TaskList) -> (outcome: Outcome)
        ensures
            final(self).with(final(tasks)) == old(self).with(old(tasks)).step(
                Command::ToggleSelected,
            ),
            outcome == old(self).with(old(tasks)).outcome(Command::ToggleSelected),
            old(self).with(old(tasks)).wf() ==> final(self).with(final(tasks)).wf(),
    {
        match self.screen {
            Screen::Main => {
                if tasks.is_empty() {
                    Outcome::Rejected(Rejection::EmptyList)
                } else {
                    match tasks.toggle(self.line) {
                        Ok(()) => Outcome::Applied,
                        Err(_) => Outcome::Rejected(Rejection::IndexOutOfRange),
                    }
                }
            },
            Screen::Add => Outcome::Rejected(Rejection::WrongScreen),
        }
    }

    /// Removes the task under the cursor. The cursor stays where it is
    /// unless it would fall behind the last task: then it moves onto the
    /// last, or to 0 when none is left.
    fn remove_selected(&mut self, tasks: &mut TaskList) -> (outcome: Outcome)
        ensures
            final(self).with(final(tasks)) == old(self).with(old(tasks)).step(
                Command::RemoveSelected,
            ),
            outcome == old(self).with(old(tasks)).outcome(Command::RemoveSelected),
            old(self).with(old(tasks)).wf() ==> final(self).with(final(tasks)).wf(),
    {
        match self.screen {
            Screen::Main => {
                if tasks.is_empty() {
                    Outcome::Rejected(Rejection::EmptyList)
                } else {
                    match tasks.remove(self.line) {
                        Ok(_) => {
                            let left = tasks.len();
                            if left == 0 {
                                self.line = 0;
                            } else if self.line > left - 1 {
                                self.line = left - 1;
                            }
                            Outcome::Applied
                        },
                        Err(_) => Outcome::Rejected(Rejection::IndexOutOfRange),
                    }
                }
            },
            Screen::Add => Outcome::Rejected(Rejection::WrongScreen),
        }
    }
}

} // verus!
