//! The decisions of the service where the tasks live in a store outside the
//! process, such as a database.
//!
//! Such a store is reached by exchanges that this library cannot make. So
//! each operation is cut into stages: a stage looks at what the store
//! answered last and returns a [`Step`], which is either the next request to
//! put to the store or the response that ends the operation. The caller puts
//! the request to the store and comes back with the answer. An answer of
//! `None` stands for an exchange that failed.
//!
//! A creation counts the tasks that have the title before it inserts, and an
//! update that brings a title counts the other tasks that have it before it
//! writes. The caller has to make each such pair of exchanges atomic, in one
//! transaction or under a unique index on the folded title.

use crate::handlers::{
    create_response, delete_response, error_response, list_response, respond_create,
    respond_delete, respond_error, respond_list, respond_update, update_response, Response,
};
use crate::identifier::{fresh_identifier, is_random_uuid_text};
use crate::models::{patched, views, CreateTask, Task, UpdateTask};
use crate::repository::RepoError;
use crate::validation::{title_verdict, validate_title, TitlePolicy};
use vstd::prelude::*;

verus! {

/// What the store is asked to do.
#[derive(Debug, PartialEq, Eq)]
pub enum StoreRequest {
    /// Count the tasks whose title is this one, the case of letters ignored.
    CountTitle(String),
    /// Count the tasks, other than the one with the identifier `id`, whose
    /// title is `title`, the case of letters ignored.
    CountTitleElsewhere { title: String, id: String },
    /// Insert the given task and hand it back.
    Insert(Task),
    /// Hand back the task with this identifier, if there is one.
    Fetch(String),
    /// Put the given task in the place of the one with its identifier and
    /// hand it back, if there is one.
    Write(Task),
}

/// What the store answered to an `Insert` or a `Write`.
#[derive(Debug, PartialEq, Eq)]
pub enum WriteReply {
    /// The task as the store now holds it.
    Stored(Task),
    /// The store refused the title, which another task has.
    TitleTaken,
    /// The store holds no task with the identifier.
    Missing,
    /// The exchange failed.
    Failed,
}

/// What a stage of an operation decided.
#[derive(Debug, PartialEq, Eq)]
pub enum Step {
    /// Put this request to the store, then go on with the next stage.
    Ask(StoreRequest),
    /// The operation is over, with this response.
    Done(Response),
}

/// What the number of tasks that have a title means for a creation or an
/// update: any such task makes the title a duplicate.
pub open spec fn count_outcome(count: i64) -> Result<(), RepoError> {
    if count > 0 {
        Err(RepoError::DuplicateTitle)
    } else {
        Ok(())
    }
}

/// What the number of rows that a deletion removed means: none removed
/// means that no task had the identifier.
pub open spec fn rows_outcome(rows: u64) -> Result<(), RepoError> {
    if rows > 0 {
        Ok(())
    } else {
        Err(RepoError::NotFound)
    }
}

/// Decides [`count_outcome`].
pub fn duplicate_count_outcome(count: i64) -> (r: Result<(), RepoError>)
    ensures
        r == count_outcome(count),
{
    if count > 0 {
        Err(RepoError::DuplicateTitle)
    } else {
        Ok(())
    }
}

/// Decides [`rows_outcome`].
pub fn rows_affected_outcome(rows: u64) -> (r: Result<(), RepoError>)
    ensures
        r == rows_outcome(rows),
{
    if rows > 0 {
        Ok(())
    } else {
        Err(RepoError::NotFound)
    }
}

/// The end of a listing: the tasks that the store handed back, or a server
/// error where the exchange failed.
pub fn list_fetched(tasks: Option<Vec<Task>>) -> (r: Response)
    ensures
        r@ == match tasks {
            Some(found) => list_response(views(found@)),
            None => error_response(RepoError::StorageUnavailable),
        },
{
    match tasks {
        Some(found) => respond_list(found),
        None => respond_error(RepoError::StorageUnavailable),
    }
}

/// The first stage of a creation: a title that fails validation ends it,
/// else the store is asked how many tasks have the title.
pub fn create_start(policy: TitlePolicy, payload: &CreateTask) -> (r: Step)
    ensures
        match title_verdict(policy, payload.title@) {
            Err(e) => r matches Step::Done(response) && response@ == error_response(
                RepoError::ValidationFailed(e),
            ),
            Ok(_) => r matches Step::Ask(StoreRequest::CountTitle(title)) && title@
                == payload.title@,
        },
{
    match validate_title(policy, payload.title.as_str()) {
        Err(e) => Step::Done(respond_error(RepoError::ValidationFailed(e))),
        Ok(_) => Step::Ask(StoreRequest::CountTitle(payload.title.clone())),
    }
}

/// The second stage of a creation, with the count that the store handed
/// back: a failed exchange or a title that is taken ends it, else the store
/// is asked to insert the new task, not completed, under a fresh random
/// identifier.
pub fn create_counted(payload: &CreateTask, count: Option<i64>) -> (r: Step)
    ensures
        match count {
            None => r matches Step::Done(response) && response@ == error_response(
                RepoError::StorageUnavailable,
            ),
            Some(n) => match count_outcome(n) {
                Err(e) => r matches Step::Done(response) && response@ == error_response(e),
                Ok(_) => {
                    &&& r matches Step::Ask(StoreRequest::Insert(task))
                    &&& task.title@ == payload.title@
                    &&& !task.completed
                    &&& is_random_uuid_text(task.id@)
                },
            },
        },
{
    match count {
        None => Step::Done(respond_error(RepoError::StorageUnavailable)),
        Some(n) => match duplicate_count_outcome(n) {
            Err(e) => Step::Done(respond_error(e)),
            Ok(_) => Step::Ask(
                StoreRequest::Insert(
                    Task { id: fresh_identifier(), title: payload.title.clone(), completed: false },
                ),
            ),
        },
    }
}

/// The end of a creation, with what the store answered to the insertion:
/// the task that it inserted; `DuplicateTitle` where it refused the title;
/// a server error otherwise.
pub fn create_inserted(reply: WriteReply) -> (r: Response)
    ensures
        r@ == match reply {
            WriteReply::Stored(task) => create_response(Ok(task@)),
            WriteReply::TitleTaken => error_response(RepoError::DuplicateTitle),
            WriteReply::Missing => error_response(RepoError::StorageUnavailable),
            WriteReply::Failed => error_response(RepoError::StorageUnavailable),
        },
{
    match reply {
        WriteReply::Stored(task) => respond_create(Ok(task)),
        WriteReply::TitleTaken => respond_error(RepoError::DuplicateTitle),
        WriteReply::Missing => respond_error(RepoError::StorageUnavailable),
        WriteReply::Failed => respond_error(RepoError::StorageUnavailable),
    }
}

/// The first stage of an update: the store is asked for the task.
pub fn update_start(id: &str) -> (r: Step)
    ensures
        r matches Step::Ask(StoreRequest::Fetch(wanted)) && wanted@ == id@,
{
    Step::Ask(StoreRequest::Fetch(id.to_owned()))
}

/// The second stage of an update, with the task that the store handed
/// back. A failed exchange, a task that is not there, or a title that fails
/// validation ends it. Else, where the patch brings a title, the store is
/// asked how many other tasks have it; where it brings none, the store is
/// asked to write the task with the patch applied.
pub fn update_fetched(policy: TitlePolicy, patch: &UpdateTask, fetched: Option<Option<Task>>) -> (r:
    Step)
    ensures
        match fetched {
            None => r matches Step::Done(response) && response@ == error_response(
                RepoError::StorageUnavailable,
            ),
            Some(None) => r matches Step::Done(response) && response@ == error_response(
                RepoError::NotFound,
            ),
            Some(Some(task)) => match patch@.title {
                None => r matches Step::Ask(StoreRequest::Write(changed)) && changed@ == patched(
                    task@,
                    patch@,
                ),
                Some(title) => match title_verdict(policy, title) {
                    Err(e) => r matches Step::Done(response) && response@ == error_response(
                        RepoError::ValidationFailed(e),
                    ),
                    Ok(_) => {
                        &&& r matches Step::Ask(
                            StoreRequest::CountTitleElsewhere { title: asked, id },
                        )
                        &&& asked@ == title
                        &&& id@ == task.id@
                    },
                },
            },
        },
{
    match fetched {
        None => Step::Done(respond_error(RepoError::StorageUnavailable)),
        Some(None) => Step::Done(respond_error(RepoError::NotFound)),
        Some(Some(task)) => match &patch.title {
            None => Step::Ask(StoreRequest::Write(task.patched(patch))),
            Some(title) => match validate_title(policy, title.as_str()) {
                Err(e) => Step::Done(respond_error(RepoError::ValidationFailed(e))),
                Ok(_) => Step::Ask(
                    StoreRequest::CountTitleElsewhere { title: title.clone(), id: task.id },
                ),
            },
        },
    }
}

/// The third stage of an update that brings a title, with the count that
/// the store handed back: a failed exchange or a title that another task
/// has ends it, else the store is asked to write `task` with the patch
/// applied.
pub fn update_counted(task: &Task, patch: &UpdateTask, count: Option<i64>) -> (r: Step)
    ensures
        match count {
            None => r matches Step::Done(response) && response@ == error_response(
                RepoError::StorageUnavailable,
            ),
            Some(n) => match count_outcome(n) {
                Err(e) => r matches Step::Done(response) && response@ == error_response(e),
                Ok(_) => r matches Step::Ask(StoreRequest::Write(changed)) && changed@ == patched(
                    task@,
                    patch@,
                ),
            },
        },
{
    match count {
        None => Step::Done(respond_error(RepoError::StorageUnavailable)),
        Some(n) => match duplicate_count_outcome(n) {
            Err(e) => Step::Done(respond_error(e)),
            Ok(_) => Step::Ask(StoreRequest::Write(task.patched(patch))),
        },
    }
}

/// The end of an update, with what the store answered to the write: the
/// task as it wrote it; `DuplicateTitle` where it refused the title;
/// `NotFound` where the task was no longer there; a server error where the
/// exchange failed.
pub fn update_written(reply: WriteReply) -> (r: Response)
    ensures
        r@ == match reply {
            WriteReply::Stored(task) => update_response(Ok(task@)),
            WriteReply::TitleTaken => error_response(RepoError::DuplicateTitle),
            WriteReply::Missing => error_response(RepoError::NotFound),
            WriteReply::Failed => error_response(RepoError::StorageUnavailable),
        },
{
    match reply {
        WriteReply::Stored(task) => respond_update(Ok(task)),
        WriteReply::TitleTaken => respond_error(RepoError::DuplicateTitle),
        WriteReply::Missing => respond_error(RepoError::NotFound),
        WriteReply::Failed => respond_error(RepoError::StorageUnavailable),
    }
}

/// The end of a deletion, with the number of rows that the store removed,
/// or a server error where the exchange failed.
pub fn delete_removed(rows: Option<u64>) -> (r: Response)
    ensures
        r@ == match rows {
            Some(n) => delete_response(rows_outcome(n)),
            None => error_response(RepoError::StorageUnavailable),
        },
{
    match rows {
        Some(n) => respond_delete(rows_affected_outcome(n)),
        None => respond_error(RepoError::StorageUnavailable),
    }
}

} // verus!
