//! Tasks and the ordered list of them.

use crate::constants::MAX_TASK_TITLE_LENGTH;
use vstd::prelude::*;

verus! {

/// Whether a task is still open or done.
#[derive(Debug, Clone, Copy, PartialEq, Eq, Structural)]
pub enum TaskStatus {
    Pending,
    Completed,
}

impl TaskStatus {
    /// The other status.
    pub open spec fn flipped(self) -> TaskStatus {
        match self {
            TaskStatus::Pending => TaskStatus::Completed,
            TaskStatus::Completed => TaskStatus::Pending,
        }
    }

    /// The word a status is shown and stored as.
    pub open spec fn label(self) -> Seq<char> {
        match self {
            TaskStatus::Pending => "pending"@,
            TaskStatus::Completed => "completed"@,
        }
    }

    /// Pending becomes completed and completed becomes pending.
    pub fn toggled(self) -> (other: TaskStatus)
        ensures
            other == self.flipped(),
    {
        match self {
            TaskStatus::Pending => TaskStatus::Completed,
            TaskStatus::Completed => TaskStatus::Pending,
        }
    }

    /// The status as a word: `"pending"` or `"completed"`.
    pub fn as_str(self) -> (word: &'static str)
        ensures
            word@ == self.label(),
    {
        match self {
            TaskStatus::Pending => "pending",
            TaskStatus::Completed => "completed",
        }
    }
}

/// Why the task list turned an operation down. The list is unchanged then.
#[derive(Debug, Clone, Copy, PartialEq, Eq, Structural)]
pub enum TaskError {
    /// The title has more than `MAX_TASK_TITLE_LENGTH` characters.
    TitleTooLong,
    /// The index does not name a task of the list.
    IndexOutOfRange,
}

/// What a task is: its title as a sequence of characters, and its status.
pub struct TaskView {
    pub title: Seq<char>,
    pub status: TaskStatus,
}

impl TaskView {
    /// The title keeps to the length limit.
    pub open spec fn wf(self) -> bool {
        self.title.len() <= MAX_TASK_TITLE_LENGTH
    }

    /// The same task with the other status.
    pub open spec fn toggled(self) -> TaskView {
        TaskView { title: self.title, status: self.status.flipped() }
    }
}

/// One to-do item.
#[derive(Debug, Clone, PartialEq, Eq)]
pub struct Task {
    title: String,
    status: TaskStatus,
}

impl View for Task {
    type V = TaskView;

    closed spec fn view(&self) -> TaskView {
        TaskView { title: self.title@, status: self.status }
    }
}

impl Task {
    /// A task with the given title and status. A title of more than
    /// `MAX_TASK_TITLE_LENGTH` characters is turned down.
    pub fn new(title: String, status: TaskStatus) -> (made: Result<Task, TaskError>)
        ensures
            title@.len() <= MAX_TASK_TITLE_LENGTH ==> made.is_ok() && made.unwrap()@ == (TaskView {
                title: title@,
                status,
            }),
            title@.len() > MAX_TASK_TITLE_LENGTH ==> made == Err::<Task, TaskError>(
                TaskError::TitleTooLong,
            ),
    {
        if title.as_str().unicode_len() > MAX_TASK_TITLE_LENGTH {
            Err(TaskError::TitleTooLong)
        } else {
            Ok(Task { title, status })
        }
    }

    pub fn title(&self) -> (title: &str)
        ensures
            title@ == self@.title,
    {
        self.title.as_str()
    }

    pub fn status(&self) -> (status: TaskStatus)
        ensures
            status == self@.status,
    {
        self.status
    }

    /// Flips the status and leaves the title alone.
    pub fn toggle(&mut self)
        ensures
            final(self)@ == old(self)@.toggled(),
    {
        self.status = self.status.toggled();
    }
}

/// Every task of the sequence keeps to the title limit.
pub open spec fn all_wf(tasks: Seq<TaskView>) -> bool {
    forall|i: int| 0 <= i < tasks.len() ==> (#[trigger] tasks[i]).wf()
}

/// The tasks in the order in which they were added, which is the order in
/// which they are shown and stored.
#[derive(Debug, Clone, PartialEq, Eq)]
pub struct TaskList {
    tasks: Vec<Task>,
}

impl View for TaskList {
    type V = Seq<TaskView>;

    closed spec fn view(&self) -> Seq<TaskView> {
        Seq::new(self.tasks@.len(), |i: int| self.tasks@[i]@)
    }
}

impl TaskList {
    /// No title of the list is over the limit.
    pub open spec fn wf(&self) -> bool {
        all_wf(self@)
    }

    /// The empty list.
    pub fn new() -> (list: TaskList)
        ensures
            list@ == Seq::<TaskView>::empty(),
    {
        TaskList { tasks: Vec::new() }
    }

    pub fn len(&self) -> (n: usize)
        ensures
            n == self@.len(),
    {
        self.tasks.len()
    }

    pub fn is_empty(&self) -> (empty: bool)
        ensures
            empty == (self@.len() == 0),
    {
        self.tasks.len() == 0
    }

    /// The task at `index`, if there is one.
    pub fn get(&self, index: usize) -> (task: Option<&Task>)
        ensures
            index < self@.len() ==> task.is_some() && task.unwrap()@ == self@[index as int],
            index >= self@.len() ==> task.is_none(),
    {
        if index < self.tasks.len() {
            Some(&self.tasks[index])
        } else {
            None
        }
    }

    /// All tasks, first to last, for reading.
    pub fn iterate(&self) -> (tasks: &Vec<Task>)
        ensures
            tasks@.len() == self@.len(),
            forall|i: int| 0 <= i < tasks@.len() ==> (#[trigger] tasks@[i])@ == self@[i],
    {
        &self.tasks
    }

    /// Appends a pending task with this title. A title over the limit is
    /// turned down and the list stays as it was.
    pub fn add(&mut self, title: String) -> (added: Result<(), TaskError>)
        ensures
            title@.len() <= MAX_TASK_TITLE_LENGTH ==> added.is_ok() && final(self)@ == old(
                self,
            )@.push(TaskView { title: title@, status: TaskStatus::Pending }),
            title@.len() > MAX_TASK_TITLE_LENGTH ==> added == Err::<(), TaskError>(
                TaskError::TitleTooLong,
            ) && final(self)@ == old(self)@,
            old(self).wf() ==> final(self).wf(),
    {
        match Task::new(title, TaskStatus::Pending) {
            Ok(task) => {
                self.push(task);
                Ok(())
            },
            Err(e) => Err(e),
        }
    }

    /// Appends a task as it is, with its status.
    pub fn push(&mut self, task: Task)
        ensures
            final(self)@ == old(self)@.push(task@),
            old(self).wf() && task@.wf() ==> final(self).wf(),
    {
        self.tasks.push(task);
        assert(self@ =~= old(self)@.push(task@));
    }

    /// Flips the status of the task at `index`. An index that names no task
    /// is turned down and the list stays as it was.
    pub fn toggle(&mut self, index: usize) -> (toggled: Result<(), TaskError>)
        ensures
            index < old(self)@.len() ==> toggled.is_ok() && final(self)@ == old(self)@.update(
                index as int,
                old(self)@[index as int].toggled(),
            ),
            index >= old(self)@.len() ==> toggled == Err::<(), TaskError>(
                TaskError::IndexOutOfRange,
            ) && final(self)@ == old(self)@,
            old(self).wf() ==> final(self).wf(),
    {
        if index < self.tasks.len() {
            self.tasks[index].toggle();
            assert(self@ =~= old(self)@.update(index as int, old(self)@[index as int].toggled()));
            Ok(())
        } else {
            Err(TaskError::IndexOutOfRange)
        }
    }

    /// Takes the task at `index` out of the list and hands it over; the
    /// tasks behind it move up by one. An index that names no task is turned
    /// down and the list stays as it was.
    pub fn remove(&mut self, index: usize) -> (removed: Result<Task, TaskError>)
        ensures
            index < old(self)@.len() ==> removed.is_ok() && removed.unwrap()@ == old(
                self,
            )@[index as int] && final(self)@ == old(self)@.remove(index as int),
            index >= old(self)@.len() ==> removed == Err::<Task, TaskError>(
                TaskError::IndexOutOfRange,
            ) && final(self)@ == old(self)@,
            old(self).wf() ==> final(self).wf(),
    {
        if index < self.tasks.len() {
            let task = self.tasks.remove(index);
            assert(self@ =~= old(self)@.remove(index as int));
            Ok(task)
        } else {
            Err(TaskError::IndexOutOfRange)
        }
    }
}

} // verus!
