//! What holds of the state machine and of the renderer whatever the input,
//! proved from their definitions.

use crate::constants::{Screen, MAX_TASK_TITLE_LENGTH};
use crate::layout::Area;
use crate::state::{Command, Model, ScreenState};
use crate::task::{TaskList, TaskView};
use crate::view::{draw_spec, rows_spec, Frame};
use vstd::prelude::*;

verus! {

/// Every command of the sequence moves the cursor up or down.
pub open spec fn only_moves(commands: Seq<Command>) -> bool {
    forall|i: int|
        0 <= i < commands.len() ==> (#[trigger] commands[i]) == Command::MoveUp || commands[i]
            == Command::MoveDown
}

/// Every command of the sequence types a character.
pub open spec fn only_typing(commands: Seq<Command>) -> bool {
    forall|i: int| 0 <= i < commands.len() ==> (#[trigger] commands[i]) is TypeChar
}

/// The characters that a sequence of typing commands carries, in order.
pub open spec fn typed(commands: Seq<Command>) -> Seq<char> {
    Seq::new(commands.len(), |i: int| commands[i]->TypeChar_0)
}

/// No command takes a well-formed state to one that is not: the input and
/// the titles stay within the length limit and the cursor stays in bounds.
pub proof fn lemma_step_keeps_wf(m: Model, command: Command)
    requires
        m.wf(),
    ensures
        m.step(command).wf(),
{
}

/// No sequence of commands takes a well-formed state to one that is not.
pub proof fn lemma_run_keeps_wf(m: Model, commands: Seq<Command>)
    requires
        m.wf(),
    ensures
        m.run(commands).wf(),
    decreases commands.len(),
{
    if commands.len() > 0 {
        lemma_run_keeps_wf(m, commands.drop_last());
        lemma_step_keeps_wf(m.run(commands.drop_last()), commands.last());
    }
}

/// While the list is not empty, moving up and down, in any order and any
/// number of times, leaves the list as it is and the cursor on one of its
/// tasks.
pub proof fn lemma_moves_keep_cursor_on_a_task(m: Model, commands: Seq<Command>)
    requires
        m.tasks.len() > 0,
        m.cursor_in_bounds(),
        only_moves(commands),
    ensures
        m.run(commands).tasks == m.tasks,
        0 <= m.run(commands).ui.line < m.tasks.len(),
    decreases commands.len(),
{
    if commands.len() > 0 {
        lemma_moves_keep_cursor_on_a_task(m, commands.drop_last());
    }
}

/// Removing the only task of a list, on the list screen, leaves the list
/// empty and the cursor at 0.
pub proof fn lemma_remove_only_task(m: Model)
    requires
        m.ui.screen == Screen::Main,
        m.tasks.len() == 1,
        m.cursor_in_bounds(),
    ensures
        m.step(Command::RemoveSelected).tasks == Seq::<TaskView>::empty(),
        m.step(Command::RemoveSelected).ui.line == 0,
{
    assert(m.tasks.remove(0) =~= Seq::<TaskView>::empty());
}

/// Flipping a task's status twice gives the task back.
pub proof fn lemma_toggle_twice_task(task: TaskView)
    ensures
        task.toggled().toggled() == task,
{
}

/// Toggling the task under the cursor twice gives the state back: that
/// task has its first status again and nothing else has changed.
pub proof fn lemma_toggle_twice(m: Model)
    ensures
        m.step(Command::ToggleSelected).step(Command::ToggleSelected) == m,
{
    let once = m.step(Command::ToggleSelected);
    if m.rejection(Command::ToggleSelected).is_none() {
        let line = m.ui.line as int;
        assert(once.tasks.update(line, once.tasks[line].toggled()) =~= m.tasks);
    }
}

/// Toggling the task under the cursor changes the status of that task and
/// leaves every other task, the cursor, the screen and the input alone.
pub proof fn lemma_toggle_changes_one_status(m: Model)
    requires
        m.rejection(Command::ToggleSelected).is_none(),
    ensures
        m.step(Command::ToggleSelected).ui == m.ui,
        m.step(Command::ToggleSelected).tasks.len() == m.tasks.len(),
        forall|i: int|
            0 <= i < m.tasks.len() && i != m.ui.line ==> m.step(Command::ToggleSelected).tasks[i]
                == m.tasks[i],
        m.step(Command::ToggleSelected).tasks[m.ui.line as int].title
            == m.tasks[m.ui.line as int].title,
        m.step(Command::ToggleSelected).tasks[m.ui.line as int].status
            == m.tasks[m.ui.line as int].status.flipped(),
{
}

/// Typing on the input screen appends the typed characters until the input
/// is full, and drops the rest: the input never holds more than
/// `MAX_TASK_TITLE_LENGTH` characters.
pub proof fn lemma_typing_stops_at_the_limit(m: Model, commands: Seq<Command>)
    requires
        m.ui.screen == Screen::Add,
        m.ui.input.len() <= MAX_TASK_TITLE_LENGTH,
        only_typing(commands),
    ensures
        m.run(commands).ui.screen == Screen::Add,
        m.run(commands).ui.line == m.ui.line,
        m.run(commands).tasks == m.tasks,
        m.run(commands).ui.input.len() == if m.ui.input.len() + commands.len()
            <= MAX_TASK_TITLE_LENGTH {
            m.ui.input.len() + commands.len()
        } else {
            MAX_TASK_TITLE_LENGTH as nat
        },
        m.run(commands).ui.input == (m.ui.input + typed(commands)).take(
            m.run(commands).ui.input.len() as int,
        ),
    decreases commands.len(),
{
    if commands.len() > 0 {
        let before = commands.drop_last();
        lemma_typing_stops_at_the_limit(m, before);
        assert(m.run(commands).ui.input =~= (m.ui.input + typed(commands)).take(
            m.run(commands).ui.input.len() as int,
        ));
    } else {
        assert(m.ui.input =~= (m.ui.input + typed(commands)).take(m.ui.input.len() as int));
    }
}

/// The list screen has one row for every task, in the list's order, and
/// highlights the row under the cursor and no other.
pub proof fn lemma_one_row_per_task(tasks: Seq<TaskView>, line: nat)
    ensures
        rows_spec(tasks, line).len() == tasks.len(),
        forall|i: int|
            0 <= i < tasks.len() ==> ((#[trigger] rows_spec(tasks, line)[i]).highlighted <==> i
                == line),
{
}

/// Drawing is a function of its arguments: two frames drawn from screen
/// states, task lists and areas with the same content are the same in
/// every field, character for character.
pub proof fn lemma_same_state_same_frame(
    state1: ScreenState,
    tasks1: TaskList,
    frame1: Frame,
    state2: ScreenState,
    tasks2: TaskList,
    frame2: Frame,
    area: Area,
)
    requires
        state1@ == state2@,
        tasks1@ == tasks2@,
        frame1@ == draw_spec(state1@, tasks1@, area),
        frame2@ == draw_spec(state2@, tasks2@, area),
    ensures
        frame1@ == frame2@,
        frame1.body_area == frame2.body_area,
        frame1.footer_area == frame2.footer_area,
        frame1.footer@ == frame2.footer@,
{
}

} // verus!
