//! The orchestration layer: it turns a request into a call of the
//! repository and the result of that call into a response.
//!
//! The transport that carries requests and responses is not part of this
//! library. A response is a status and a payload; how they are written out
//! is left to the caller.

use crate::models::{views, CreateTask, Task, TaskView, UpdateTask};
use crate::repository::{
    admission, after_delete, after_toggle, after_update, consistent, delete_outcome, holds_id,
    outcome_view, toggle_outcome, update_outcome, RepoError, Repository,
};
use crate::validation::ValidationError;
use vstd::prelude::*;

verus! {

/// The class of a response.
#[derive(Clone, Copy, Debug, PartialEq, Eq, Structural)]
pub enum Status {
    /// The request was carried out.
    Success,
    /// The request was carried out and a task was created.
    Created,
    /// The request was at fault: a title failed validation or is taken.
    ClientError,
    /// No task has the identifier of the request.
    NotFound,
    /// The store failed.
    ServerError,
}

/// The number that stands for `status` on the wire.
pub open spec fn status_code(status: Status) -> u16 {
    match status {
        Status::Success => 200,
        Status::Created => 201,
        Status::ClientError => 400,
        Status::NotFound => 404,
        Status::ServerError => 500,
    }
}

impl Status {
    /// The number that stands for this status on the wire.
    pub fn code(&self) -> (c: u16)
        ensures
            c == status_code(*self),
    {
        match self {
            Status::Success => 200,
            Status::Created => 201,
            Status::ClientError => 400,
            Status::NotFound => 404,
            Status::ServerError => 500,
        }
    }
}

/// What a response carries.
#[derive(Debug, PartialEq, Eq)]
pub enum Payload {
    /// All tasks, in the order in which they were created.
    Tasks(Vec<Task>),
    /// The task that was created or changed.
    Task(Task),
    /// The confirmation of a deletion.
    Deleted,
    /// The confirmation that the store can be reached.
    Healthy,
    /// The rule that a title broke.
    Invalid(ValidationError),
    /// The notice that a title is taken.
    Duplicate,
    /// The notice that no task has the identifier.
    Missing,
    /// The notice that the store failed. It says nothing of the cause.
    Unavailable,
}

/// What a [`Payload`] is, as a mathematical value.
pub enum PayloadView {
    Tasks(Seq<TaskView>),
    Task(TaskView),
    Deleted,
    Healthy,
    Invalid(ValidationError),
    Duplicate,
    Missing,
    Unavailable,
}

impl View for Payload {
    type V = PayloadView;

    open spec fn view(&self) -> PayloadView {
        match self {
            Payload::Tasks(tasks) => PayloadView::Tasks(views(tasks@)),
            Payload::Task(task) => PayloadView::Task(task@),
            Payload::Deleted => PayloadView::Deleted,
            Payload::Healthy => PayloadView::Healthy,
            Payload::Invalid(e) => PayloadView::Invalid(*e),
            Payload::Duplicate => PayloadView::Duplicate,
            Payload::Missing => PayloadView::Missing,
            Payload::Unavailable => PayloadView::Unavailable,
        }
    }
}

/// The text that goes out for a payload that carries no task.
pub open spec fn payload_text(payload: PayloadView) -> Option<Seq<char>> {
    match payload {
        PayloadView::Tasks(_) => None,
        PayloadView::Task(_) => None,
        PayloadView::Deleted => Some("Task deleted"@),
        PayloadView::Healthy => Some("Storage reachable"@),
        PayloadView::Invalid(ValidationError::EmptyTitle) => Some(
            "Validation error: empty_title"@,
        ),
        PayloadView::Invalid(ValidationError::TooLong) => Some("Validation error: too_long"@),
        PayloadView::Invalid(ValidationError::InvalidCharacters) => Some(
            "Validation error: invalid_characters"@,
        ),
        PayloadView::Duplicate => Some("Duplicate title"@),
        PayloadView::Missing => Some("Task not found"@),
        PayloadView::Unavailable => Some("Internal server error"@),
    }
}

impl Payload {
    /// The text that goes out for this payload, where it carries no task.
    pub fn text(&self) -> (r: Option<&'static str>)
        ensures
            r is Some <==> payload_text(self@) is Some,
            r matches Some(t) ==> payload_text(self@) == Some(t@),
    {
        match self {
            Payload::Tasks(_) => None,
            Payload::Task(_) => None,
            Payload::Deleted => Some("Task deleted"),
            Payload::Healthy => Some("Storage reachable"),
            Payload::Invalid(ValidationError::EmptyTitle) => Some("Validation error: empty_title"),
            Payload::Invalid(ValidationError::TooLong) => Some("Validation error: too_long"),
            Payload::Invalid(ValidationError::InvalidCharacters) => Some(
                "Validation error: invalid_characters",
            ),
            Payload::Duplicate => Some("Duplicate title"),
            Payload::Missing => Some("Task not found"),
            Payload::Unavailable => Some("Internal server error"),
        }
    }
}

/// The outward result of a request.
#[derive(Debug, PartialEq, Eq)]
pub struct Response {
    pub status: Status,
    pub payload: Payload,
}

/// What a [`Response`] is, as a mathematical value.
pub struct ResponseView {
    pub status: Status,
    pub payload: PayloadView,
}

impl View for Response {
    type V = ResponseView;

    open spec fn view(&self) -> ResponseView {
        ResponseView { status: self.status, payload: self.payload@ }
    }
}

/// The response to a request that failed with `error`.
pub open spec fn error_response(error: RepoError) -> ResponseView {
    match error {
        RepoError::ValidationFailed(e) => ResponseView {
            status: Status::ClientError,
            payload: PayloadView::Invalid(e),
        },
        RepoError::DuplicateTitle => ResponseView {
            status: Status::ClientError,
            payload: PayloadView::Duplicate,
        },
        RepoError::NotFound => ResponseView {
            status: Status::NotFound,
            payload: PayloadView::Missing,
        },
        RepoError::StorageUnavailable => ResponseView {
            status: Status::ServerError,
            payload: PayloadView::Unavailable,
        },
    }
}

/// The response to a listing that found `tasks`.
pub open spec fn list_response(tasks: Seq<TaskView>) -> ResponseView {
    ResponseView { status: Status::Success, payload: PayloadView::Tasks(tasks) }
}

/// The response to a creation that ended in `outcome`.
pub open spec fn create_response(outcome: Result<TaskView, RepoError>) -> ResponseView {
    match outcome {
        Ok(task) => ResponseView { status: Status::Created, payload: PayloadView::Task(task) },
        Err(e) => error_response(e),
    }
}

/// The response to an update or a toggle that ended in `outcome`.
pub open spec fn update_response(outcome: Result<TaskView, RepoError>) -> ResponseView {
    match outcome {
        Ok(task) => ResponseView { status: Status::Success, payload: PayloadView::Task(task) },
        Err(e) => error_response(e),
    }
}

/// The response to a deletion that ended in `outcome`.
pub open spec fn delete_response(outcome: Result<(), RepoError>) -> ResponseView {
    match outcome {
        Ok(_) => ResponseView { status: Status::Success, payload: PayloadView::Deleted },
        Err(e) => error_response(e),
    }
}

/// The response to a health check that found the store reachable or not.
pub open spec fn health_response(reachable: bool) -> ResponseView {
    if reachable {
        ResponseView { status: Status::Success, payload: PayloadView::Healthy }
    } else {
        ResponseView { status: Status::ServerError, payload: PayloadView::Unavailable }
    }
}

/// Builds [`error_response`].
pub fn respond_error(error: RepoError) -> (r: Response)
    ensures
        r@ == error_response(error),
{
    match error {
        RepoError::ValidationFailed(e) => Response {
            status: Status::ClientError,
            payload: Payload::Invalid(e),
        },
        RepoError::DuplicateTitle => Response {
            status: Status::ClientError,
            payload: Payload::Duplicate,
        },
        RepoError::NotFound => Response { status: Status::NotFound, payload: Payload::Missing },
        RepoError::StorageUnavailable => Response {
            status: Status::ServerError,
            payload: Payload::Unavailable,
        },
    }
}

/// Builds [`list_response`].
pub fn respond_list(tasks: Vec<Task>) -> (r: Response)
    ensures
        r@ == list_response(views(tasks@)),
{
    Response { status: Status::Success, payload: Payload::Tasks(tasks) }
}

/// Builds [`create_response`].
pub fn respond_create(result: Result<Task, RepoError>) -> (r: Response)
    ensures
        r@ == create_response(outcome_view(result)),
{
    match result {
        Ok(task) => Response { status: Status::Created, payload: Payload::Task(task) },
        Err(e) => respond_error(e),
    }
}

/// Builds [`update_response`].
pub fn respond_update(result: Result<Task, RepoError>) -> (r: Response)
    ensures
        r@ == update_response(outcome_view(result)),
{
    match result {
        Ok(task) => Response { status: Status::Success, payload: Payload::Task(task) },
        Err(e) => respond_error(e),
    }
}

/// Builds [`delete_response`].
pub fn respond_delete(result: Result<(), RepoError>) -> (r: Response)
    ensures
        r@ == delete_response(result),
{
    match result {
        Ok(_) => Response { status: Status::Success, payload: Payload::Deleted },
        Err(e) => respond_error(e),
    }
}

/// Answers a health check, given whether the store could be reached.
pub fn health_check(reachable: bool) -> (r: Response)
    ensures
        r@ == health_response(reachable),
{
    if reachable {
        Response { status: Status::Success, payload: Payload::Healthy }
    } else {
        Response { status: Status::ServerError, payload: Payload::Unavailable }
    }
}

/// Lists all tasks of `repo`.
pub fn get_tasks(repo: &Repository) -> (r: Response)
    ensures
        r@ == list_response(repo@),
{
    respond_list(repo.list())
}

/// Creates a task from `payload` in `repo`.
///
/// Where the title is not admitted, the response reports the error of
/// [`admission`] and nothing changes. Else the response carries the new task
/// with status `Created`, or reports a server error where the random
/// identifier was one that is taken, which cannot happen while `repo` is
/// empty.
pub fn create_task(repo: &mut Repository, payload: &CreateTask) -> (r: Response)
    ensures
        final(repo).policy() == old(repo).policy(),
        consistent(final(repo).policy(), final(repo)@),
        admission(old(repo).policy(), old(repo)@, payload.title@) is Ok && old(repo)@.len() == 0
            ==> r@.status == Status::Created,
        match admission(old(repo).policy(), old(repo)@, payload.title@) {
            Err(e) => r@ == error_response(e) && final(repo)@ == old(repo)@,
            Ok(_) => {
                ||| {
                    &&& r@.status == Status::Created
                    &&& r@.payload matches PayloadView::Task(task)
                    &&& task.title == payload.title@
                    &&& !task.completed
                    &&& !holds_id(old(repo)@, task.id)
                    &&& final(repo)@ == old(repo)@.push(task)
                }
                ||| {
                    &&& r@ == error_response(RepoError::StorageUnavailable)
                    &&& final(repo)@ == old(repo)@
                }
            },
        },
{
    respond_create(repo.create(payload.title.as_str()))
}

/// Changes the task `id` of `repo`: with a payload, by applying it as a
/// patch; without one, by negating the completion flag.
pub fn update_task(repo: &mut Repository, id: &str, payload: Option<&UpdateTask>) -> (r: Response)
    ensures
        final(repo).policy() == old(repo).policy(),
        consistent(final(repo).policy(), final(repo)@),
        match payload {
            Some(patch) => {
                &&& r@ == update_response(
                    update_outcome(old(repo).policy(), old(repo)@, id@, patch@),
                )
                &&& final(repo)@ == after_update(old(repo).policy(), old(repo)@, id@, patch@)
            },
            None => {
                &&& r@ == update_response(toggle_outcome(old(repo)@, id@))
                &&& final(repo)@ == after_toggle(old(repo)@, id@)
            },
        },
{
    match payload {
        Some(patch) => respond_update(repo.update(id, patch)),
        None => respond_update(repo.toggle(id)),
    }
}

/// Deletes the task `id` of `repo`.
pub fn delete_task(repo: &mut Repository, id: &str) -> (r: Response)
    ensures
        final(repo).policy() == old(repo).policy(),
        consistent(final(repo).policy(), final(repo)@),
        r@ == delete_response(delete_outcome(old(repo)@, id@)),
        final(repo)@ == after_delete(old(repo)@, id@),
{
    respond_delete(repo.delete(id))
}

} // verus!
