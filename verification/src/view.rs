//! The renderer: from a screen state and a task list to a frame, a plain
//! description of what is to be painted where.

use crate::constants::{
    Screen, ADD_FOOTER, BODY_MIN_HEIGHT, FOOTER_HEIGHT, INPUT_TITLE, LIST_TITLE, MAIN_FOOTER,
};
use crate::layout::{split_vertical, vertical_split, Area};
use crate::state::{ScreenState, ScreenView};
use crate::task::{Task, TaskList, TaskStatus, TaskView};
use vstd::prelude::*;
use vstd::view::View as _;

verus! {

/// What a row is: its text, and whether it is the one the cursor is on.
pub struct RowView {
    pub text: Seq<char>,
    pub highlighted: bool,
}

/// One line of the task list as it is to be drawn.
#[derive(Debug, Clone, PartialEq, Eq)]
pub struct Row {
    pub text: String,
    pub highlighted: bool,
}

impl vstd::view::View for Row {
    type V = RowView;

    open spec fn view(&self) -> RowView {
        RowView { text: self.text@, highlighted: self.highlighted }
    }
}

/// What the region above the footer holds.
pub enum ContentView {
    List { title: Seq<char>, rows: Seq<RowView> },
    Input { title: Seq<char>, text: Seq<char> },
}

/// The region above the footer: a framed region with a heading.
#[derive(Debug, Clone, PartialEq, Eq)]
pub enum Content {
    /// The task list, one row per task.
    List { title: String, rows: Vec<Row> },
    /// The input field with what was typed so far.
    Input { title: String, text: String },
}

impl vstd::view::View for Content {
    type V = ContentView;

    open spec fn view(&self) -> ContentView {
        match self {
            Content::List { title, rows } => ContentView::List {
                title: title@,
                rows: Seq::new(rows@.len(), |i: int| rows@[i]@),
            },
            Content::Input { title, text } => ContentView::Input { title: title@, text: text@ },
        }
    }
}

/// What a frame is.
pub struct FrameView {
    pub body_area: Area,
    pub footer_area: Area,
    pub body: ContentView,
    pub footer: Seq<char>,
}

/// A screen as it is to be drawn: where the two regions lie and what each
/// holds. It names no terminal; whoever paints it needs no more than this.
#[derive(Debug, Clone, PartialEq, Eq)]
pub struct Frame {
    pub body_area: Area,
    pub footer_area: Area,
    pub body: Content,
    pub footer: String,
}

impl vstd::view::View for Frame {
    type V = FrameView;

    open spec fn view(&self) -> FrameView {
        FrameView {
            body_area: self.body_area,
            footer_area: self.footer_area,
            body: self.body@,
            footer: self.footer@,
        }
    }
}

/// The mark in a task's checkbox.
pub open spec fn checkbox(status: TaskStatus) -> char {
    match status {
        TaskStatus::Completed => '✓',
        TaskStatus::Pending => ' ',
    }
}

/// The text of a task's row: checkbox, title and status.
pub open spec fn row_text_spec(task: TaskView) -> Seq<char> {
    " ["@.push(checkbox(task.status)) + "] "@ + task.title + " :: "@ + task.status.label()
}

/// The rows of the list: one per task, in the list's order, the one at
/// `line` highlighted and no other.
pub open spec fn rows_spec(tasks: Seq<TaskView>, line: nat) -> Seq<RowView> {
    Seq::new(
        tasks.len(),
        |i: int| RowView { text: row_text_spec(tasks[i]), highlighted: i == line },
    )
}

/// The list screen laid out in the two regions given.
pub open spec fn main_scene_spec(
    body_area: Area,
    footer_area: Area,
    line: nat,
    tasks: Seq<TaskView>,
) -> FrameView {
    FrameView {
        body_area,
        footer_area,
        body: ContentView::List { title: LIST_TITLE@, rows: rows_spec(tasks, line) },
        footer: MAIN_FOOTER@,
    }
}

/// The input screen laid out in the two regions given.
pub open spec fn add_task_scene_spec(
    body_area: Area,
    footer_area: Area,
    input: Seq<char>,
) -> FrameView {
    FrameView {
        body_area,
        footer_area,
        body: ContentView::Input { title: INPUT_TITLE@, text: input },
        footer: ADD_FOOTER@,
    }
}

/// The frame of a state on a terminal of the given area: the area is split
/// into body and footer, and the active screen is laid out in the two.
pub open spec fn draw_spec(ui: ScreenView, tasks: Seq<TaskView>, area: Area) -> FrameView {
    let parts = vertical_split(area, BODY_MIN_HEIGHT, FOOTER_HEIGHT);
    match ui.screen {
        Screen::Main => main_scene_spec(parts.0, parts.1, ui.line, tasks),
        Screen::Add => add_task_scene_spec(parts.0, parts.1, ui.input),
    }
}

/// The renderer: from a screen state and a task list to a frame.
#[derive(Debug)]
pub struct View {}

impl Default for View {
    fn default() -> Self {
        View {  }
    }
}

impl View {
    /// The frame that shows `state` and `tasks` on a terminal of `area`.
    pub fn draw(state: &ScreenState, tasks: &TaskList, area: Area) -> (frame: Frame)
        ensures
            frame@ == draw_spec(state@, tasks@, area),
            frame.body_area.is_band_of(area),
            frame.footer_area.is_band_of(area),
    {
        match state.screen() {
            Screen::Main => View::draw_main_scene(area, state, tasks),
            Screen::Add => View::draw_add_task_scene(area, state),
        }
    }

    /// The list screen on a terminal of `area`.
    pub fn draw_main_scene(area: Area, state: &ScreenState, tasks: &TaskList) -> (frame: Frame)
        ensures
            frame@ == main_scene_spec(
                vertical_split(area, BODY_MIN_HEIGHT, FOOTER_HEIGHT).0,
                vertical_split(area, BODY_MIN_HEIGHT, FOOTER_HEIGHT).1,
                state@.line,
                tasks@,
            ),
            frame.body_area.is_band_of(area),
            frame.footer_area.is_band_of(area),
    {
        let (body_area, footer_area) = split_vertical(area, BODY_MIN_HEIGHT, FOOTER_HEIGHT);
        View::main_scene(body_area, footer_area, state.line(), tasks)
    }

    /// The input screen on a terminal of `area`.
    pub fn draw_add_task_scene(area: Area, state: &ScreenState) -> (frame: Frame)
        ensures
            frame@ == add_task_scene_spec(
                vertical_split(area, BODY_MIN_HEIGHT, FOOTER_HEIGHT).0,
                vertical_split(area, BODY_MIN_HEIGHT, FOOTER_HEIGHT).1,
                state@.input,
            ),
            frame.body_area.is_band_of(area),
            frame.footer_area.is_band_of(area),
    {
        let (body_area, footer_area) = split_vertical(area, BODY_MIN_HEIGHT, FOOTER_HEIGHT);
        View::add_task_scene(body_area, footer_area, state.input())
    }

    /// The list screen in two regions that are already laid out: a row for
    /// every task, the one under the cursor highlighted, and the key help
    /// in the footer.
    pub fn main_scene(body_area: Area, footer_area: Area, line: usize, tasks: &TaskList) -> (frame:
        Frame)
        ensures
            frame@ == main_scene_spec(body_area, footer_area, line as nat, tasks@),
            frame.body_area == body_area,
            frame.footer_area == footer_area,
    {
        let list = tasks.iterate();
        let mut rows: Vec<Row> = Vec::new();
        let mut i: usize = 0;
        while i < list.len()
            invariant
                i <= list@.len(),
                list@.len() == tasks@.len(),
                forall|j: int| 0 <= j < list@.len() ==> (#[trigger] list@[j])@ == tasks@[j],
                rows@.len() == i,
                forall|j: int|
                    0 <= j < i ==> (#[trigger] rows@[j])@ == rows_spec(tasks@, line as nat)[j],
            decreases list@.len() - i,
        {
            let text = View::row_text(&list[i]);
            rows.push(Row { text, highlighted: i == line });
            i += 1;
        }
        let frame = Frame {
            body_area,
            footer_area,
            body: Content::List { title: String::from_str(LIST_TITLE), rows },
            footer: String::from_str(MAIN_FOOTER),
        };
        assert(frame@.body->List_rows =~= rows_spec(tasks@, line as nat));
        frame
    }

    /// The input screen in two regions that are already laid out: what was
    /// typed so far, and the key help in the footer.
    pub fn add_task_scene(body_area: Area, footer_area: Area, input: &str) -> (frame: Frame)
        ensures
            frame@ == add_task_scene_spec(body_area, footer_area, input@),
            frame.body_area == body_area,
            frame.footer_area == footer_area,
    {
        Frame {
            body_area,
            footer_area,
            body: Content::Input {
                title: String::from_str(INPUT_TITLE),
                text: String::from_str(input),
            },
            footer: String::from_str(ADD_FOOTER),
        }
    }

    /// The text of one row: ` [✓] title :: completed` for a task that is
    /// done, ` [ ] title :: pending` for one that is not.
    pub fn row_text(task: &Task) -> (text: String)
        ensures
            text@ == row_text_spec(task@),
    {
        let mark = match task.status() {
            TaskStatus::Completed => '✓',
            TaskStatus::Pending => ' ',
        };
        let mut text = String::from_str(" [");
        text.push(mark);
        text.append("] ");
        text.append(task.title());
        text.append(" :: ");
        text.append(task.status().as_str());
        text
    }
}

} // verus!
