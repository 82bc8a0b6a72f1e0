//! The task entity and the payloads that create and change it.

use crate::validation::{canonical_text, coerce_optional_title, coerce_title, TitleInput};
use vstd::prelude::*;

verus! {

/// A unit of work: an identifier that never changes, a title and a
/// completion flag.
#[derive(Debug, PartialEq, Eq)]
pub struct Task {
    pub id: String,
    pub title: String,
    pub completed: bool,
}

/// What a [`Task`] is, as a mathematical value.
pub struct TaskView {
    pub id: Seq<char>,
    pub title: Seq<char>,
    pub completed: bool,
}

impl View for Task {
    type V = TaskView;

    open spec fn view(&self) -> TaskView {
        TaskView { id: self.id@, title: self.title@, completed: self.completed }
    }
}

/// The views of `tasks`, in their order.
pub open spec fn views(tasks: Seq<Task>) -> Seq<TaskView> {
    tasks.map_values(|t: Task| t@)
}

impl Clone for Task {
    fn clone(&self) -> (r: Self)
        ensures
            r == *self,
    {
        Task { id: self.id.clone(), title: self.title.clone(), completed: self.completed }
    }
}

/// The payload that asks for a new task.
#[derive(Debug, PartialEq, Eq)]
pub struct CreateTask {
    pub title: String,
}

/// The payload that asks for a change to a task. A field that is absent
/// leaves the task's value as it is.
#[derive(Debug, PartialEq, Eq)]
pub struct UpdateTask {
    pub title: Option<String>,
    pub completed: Option<bool>,
}

/// What an [`UpdateTask`] is, as a mathematical value.
pub struct UpdateTaskView {
    pub title: Option<Seq<char>>,
    pub completed: Option<bool>,
}

impl View for UpdateTask {
    type V = UpdateTaskView;

    open spec fn view(&self) -> UpdateTaskView {
        UpdateTaskView {
            title: match self.title {
                Some(t) => Some(t@),
                None => None,
            },
            completed: self.completed,
        }
    }
}

/// `task` with the fields that `patch` provides put in place of its own. The
/// identifier is never touched.
pub open spec fn patched(task: TaskView, patch: UpdateTaskView) -> TaskView {
    TaskView {
        id: task.id,
        title: match patch.title {
            Some(t) => t,
            None => task.title,
        },
        completed: match patch.completed {
            Some(c) => c,
            None => task.completed,
        },
    }
}

impl Task {
    /// A copy of `self` with the fields that `patch` provides put in place of its
    /// own.
    pub fn patched(&self, patch: &UpdateTask) -> (r: Task)
        ensures
            r@ == patched(self@, patch@),
    {
        let title = match &patch.title {
            Some(t) => t.clone(),
            None => self.title.clone(),
        };
        let completed = match patch.completed {
            Some(c) => c,
            None => self.completed,
        };
        Task { id: self.id.clone(), title, completed }
    }
}

impl CreateTask {
    /// The payload for a title that was sent as `input`, coerced to a text.
    pub fn from_input(input: TitleInput) -> (r: CreateTask)
        ensures
            r.title@ == canonical_text(input),
    {
        CreateTask { title: coerce_title(input) }
    }
}

impl UpdateTask {
    /// The payload for an optional title that was sent as `title`, coerced to
    /// a text where it is present, and an optional completion flag.
    pub fn from_input(title: Option<TitleInput>, completed: Option<bool>) -> (r: UpdateTask)
        ensures
            r@.completed == completed,
            title is None <==> r@.title is None,
            title matches Some(given) ==> r@.title == Some(canonical_text(given)),
    {
        UpdateTask { title: coerce_optional_title(title), completed }
    }
}

} // verus!
