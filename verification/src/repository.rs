//! The task repository: the one owner of the collection of tasks.
//!
//! Every operation takes the repository by reference, so the borrow rules
//! give each change exclusive access: a reader sees the collection either
//! before a change or after it, never in between. What each operation
//! returns and what it leaves behind is stated over the sequence of tasks
//! that the repository holds, by the `*_outcome` and `after_*` functions
//! below.

use crate::identifier::{fresh_identifier, is_random_uuid_text};
use crate::models::{patched, views, Task, TaskView, UpdateTask, UpdateTaskView};
use crate::text::{chars_of, fold_chars, folded, same_chars, same_ignoring_case};
use crate::validation::{title_verdict, validate_title, TitlePolicy, ValidationError};
use vstd::prelude::*;

verus! {

/// Why an operation of the repository failed.
#[derive(Clone, Copy, Debug, PartialEq, Eq, Structural)]
pub enum RepoError {
    /// The title that was handed in broke a validation rule.
    ValidationFailed(ValidationError),
    /// Another task already has this title, the case of letters ignored.
    DuplicateTitle,
    /// No task has the identifier that was handed in.
    NotFound,
    /// The store could not take the change.
    StorageUnavailable,
}

/// Whether some task of `tasks` has the identifier `id`.
pub open spec fn holds_id(tasks: Seq<TaskView>, id: Seq<char>) -> bool {
    exists|i: int| 0 <= i < tasks.len() && (#[trigger] tasks[i]).id == id
}

/// The place in `tasks` of a task with the identifier `id`. Where identifiers
/// are distinct there is at most one such place.
pub open spec fn slot_of(tasks: Seq<TaskView>, id: Seq<char>) -> int {
    choose|i: int| 0 <= i < tasks.len() && (#[trigger] tasks[i]).id == id
}

/// Whether some task of `tasks` has the title `title`, the case of letters
/// ignored.
pub open spec fn holds_title(tasks: Seq<TaskView>, title: Seq<char>) -> bool {
    exists|i: int| 0 <= i < tasks.len() && same_ignoring_case((#[trigger] tasks[i]).title, title)
}

/// Whether some task of `tasks` other than the one at `slot` has the title
/// `title`, the case of letters ignored.
pub open spec fn holds_title_elsewhere(tasks: Seq<TaskView>, title: Seq<char>, slot: int) -> bool {
    exists|i: int|
        0 <= i < tasks.len() && i != slot && same_ignoring_case((#[trigger] tasks[i]).title, title)
}

/// The invariant of the collection: every title passes validation under
/// `policy`, no two tasks share an identifier, and no two tasks share a title,
/// the case of letters ignored.
pub open spec fn consistent(policy: TitlePolicy, tasks: Seq<TaskView>) -> bool {
    &&& forall|i: int|
        0 <= i < tasks.len() ==> title_verdict(policy, (#[trigger] tasks[i]).title) is Ok
    &&& forall|i: int, j: int|
        0 <= i < j < tasks.len() ==> (#[trigger] tasks[i]).id != (#[trigger] tasks[j]).id
    &&& forall|i: int, j: int|
        0 <= i < j < tasks.len() ==> !same_ignoring_case(
            (#[trigger] tasks[i]).title,
            (#[trigger] tasks[j]).title,
        )
}

/// Whether a new task may take `title`: the title must pass validation, and
/// no task may have it yet.
pub open spec fn admission(policy: TitlePolicy, tasks: Seq<TaskView>, title: Seq<char>) -> Result<
    (),
    RepoError,
> {
    match title_verdict(policy, title) {
        Err(e) => Err(RepoError::ValidationFailed(e)),
        Ok(_) => if holds_title(tasks, title) {
            Err(RepoError::DuplicateTitle)
        } else {
            Ok(())
        },
    }
}

/// What creating a task with `title` under the identifier `id` returns: the
/// error of [`admission`]; else `StorageUnavailable` where `id` is taken;
/// else the new task, not completed.
pub open spec fn create_outcome(
    policy: TitlePolicy,
    tasks: Seq<TaskView>,
    title: Seq<char>,
    id: Seq<char>,
) -> Result<TaskView, RepoError> {
    match admission(policy, tasks, title) {
        Err(e) => Err(e),
        Ok(_) => if holds_id(tasks, id) {
            Err(RepoError::StorageUnavailable)
        } else {
            Ok(TaskView { id, title, completed: false })
        },
    }
}

/// The collection after that creation: the new task at the end, or `tasks`
/// as it was where the creation failed.
pub open spec fn after_create(
    policy: TitlePolicy,
    tasks: Seq<TaskView>,
    title: Seq<char>,
    id: Seq<char>,
) -> Seq<TaskView> {
    match create_outcome(policy, tasks, title, id) {
        Ok(task) => tasks.push(task),
        Err(_) => tasks,
    }
}

/// What updating the task `id` with `patch` returns: `NotFound` where no
/// task has `id`; else, where the patch brings a title, the error of its
/// validation, or `DuplicateTitle` where another task has that title; else
/// the task with the patch applied.
pub open spec fn update_outcome(
    policy: TitlePolicy,
    tasks: Seq<TaskView>,
    id: Seq<char>,
    patch: UpdateTaskView,
) -> Result<TaskView, RepoError> {
    if !holds_id(tasks, id) {
        Err(RepoError::NotFound)
    } else {
        let slot = slot_of(tasks, id);
        match patch.title {
            None => Ok(patched(tasks[slot], patch)),
            Some(title) => match title_verdict(policy, title) {
                Err(e) => Err(RepoError::ValidationFailed(e)),
                Ok(_) => if holds_title_elsewhere(tasks, title, slot) {
                    Err(RepoError::DuplicateTitle)
                } else {
                    Ok(patched(tasks[slot], patch))
                },
            },
        }
    }
}

/// The collection after that update: the changed task in the place of the
/// old one, or `tasks` as it was where the update failed.
pub open spec fn after_update(
    policy: TitlePolicy,
    tasks: Seq<TaskView>,
    id: Seq<char>,
    patch: UpdateTaskView,
) -> Seq<TaskView> {
    match update_outcome(policy, tasks, id, patch) {
        Ok(task) => tasks.update(slot_of(tasks, id), task),
        Err(_) => tasks,
    }
}

/// `task` with its completion flag negated.
pub open spec fn toggled(task: TaskView) -> TaskView {
    TaskView { id: task.id, title: task.title, completed: !task.completed }
}

/// What toggling the task `id` returns: `NotFound` where no task has `id`,
/// else the task with its completion flag negated.
pub open spec fn toggle_outcome(tasks: Seq<TaskView>, id: Seq<char>) -> Result<
    TaskView,
    RepoError,
> {
    if !holds_id(tasks, id) {
        Err(RepoError::NotFound)
    } else {
        Ok(toggled(tasks[slot_of(tasks, id)]))
    }
}

/// The collection after that toggle.
pub open spec fn after_toggle(tasks: Seq<TaskView>, id: Seq<char>) -> Seq<TaskView> {
    match toggle_outcome(tasks, id) {
        Ok(task) => tasks.update(slot_of(tasks, id), task),
        Err(_) => tasks,
    }
}

/// What deleting the task `id` returns: `NotFound` where no task has `id`,
/// else success.
pub open spec fn delete_outcome(tasks: Seq<TaskView>, id: Seq<char>) -> Result<(), RepoError> {
    if !holds_id(tasks, id) {
        Err(RepoError::NotFound)
    } else {
        Ok(())
    }
}

/// The collection after that deletion: `tasks` without the task `id`, the
/// others in their order.
pub open spec fn after_delete(tasks: Seq<TaskView>, id: Seq<char>) -> Seq<TaskView> {
    if !holds_id(tasks, id) {
        tasks
    } else {
        tasks.remove(slot_of(tasks, id))
    }
}

/// What `result` is, as a mathematical value: the same error, or the view
/// of the task.
pub open spec fn outcome_view(result: Result<Task, RepoError>) -> Result<TaskView, RepoError> {
    match result {
        Ok(task) => Ok(task@),
        Err(e) => Err(e),
    }
}

/// The collection of tasks, in the order in which they were created, and the
/// title policy that it was made with.
pub struct Repository {
    policy: TitlePolicy,
    tasks: Vec<Task>,
}

impl View for Repository {
    type V = Seq<TaskView>;

    closed spec fn view(&self) -> Seq<TaskView> {
        views(self.tasks@)
    }
}

impl Repository {
    /// The title policy that the repository was made with.
    pub closed spec fn policy(&self) -> TitlePolicy {
        self.policy
    }

    #[verifier::type_invariant]
    spec fn well_formed(self) -> bool {
        consistent(self.policy, self@)
    }

    /// An empty repository that judges titles under `policy`.
    pub fn new(policy: TitlePolicy) -> (r: Repository)
        ensures
            r@ == Seq::<TaskView>::empty(),
            r.policy() == policy,
            consistent(r.policy(), r@),
    {
        Repository { policy, tasks: Vec::new() }
    }

    /// The title policy that the repository was made with.
    pub fn title_policy(&self) -> (p: TitlePolicy)
        ensures
            p == self.policy(),
    {
        self.policy
    }

    /// The number of tasks.
    pub fn len(&self) -> (n: usize)
        ensures
            n == self@.len(),
    {
        self.tasks.len()
    }

    /// Whether the repository holds no task.
    pub fn is_empty(&self) -> (r: bool)
        ensures
            r == (self@.len() == 0),
    {
        self.tasks.len() == 0
    }

    /// A snapshot of all tasks in the order in which they were created. The
    /// snapshot is the caller's own: later changes to the repository do not
    /// reach it.
    pub fn list(&self) -> (r: Vec<Task>)
        ensures
            views(r@) == self@,
            consistent(self.policy(), self@),
    {
        proof {
            use_type_invariant(self);
        }
        let mut out: Vec<Task> = Vec::new();
        let mut i: usize = 0;
        while i < self.tasks.len()
            invariant
                i <= self.tasks.len(),
                out@.len() == i,
                forall|j: int| 0 <= j < i ==> out@[j] == self.tasks@[j],
            decreases self.tasks.len() - i,
        {
            out.push(self.tasks[i].clone());
            i += 1;
        }
        out
    }

    /// The place of the task with the identifier `id`, if there is one.
    fn find(&self, id: &str) -> (r: Option<usize>)
        ensures
            r is Some <==> holds_id(self@, id@),
            r matches Some(i) ==> i == slot_of(self@, id@) && i < self@.len() && self@[i as int].id
                == id@,
    {
        proof {
            use_type_invariant(self);
        }
        let wanted: String = id.to_owned();
        let mut i: usize = 0;
        while i < self.tasks.len()
            invariant
                i <= self.tasks.len(),
                wanted@ == id@,
                consistent(self.policy(), self@),
                forall|j: int| 0 <= j < i ==> (#[trigger] self@[j]).id != id@,
            decreases self.tasks.len() - i,
        {
            if self.tasks[i].id == wanted {
                assert(self@[i as int].id == id@);
                return Some(i);
            }
            i += 1;
        }
        None
    }

    /// Whether some task other than the one at `skip` has the title `title`,
    /// the case of letters ignored. With `skip` at or beyond the number of
    /// tasks, no task is left out.
    fn title_taken(&self, title: &Vec<char>, skip: usize) -> (r: bool)
        ensures
            r == holds_title_elsewhere(self@, title@, skip as int),
            skip >= self@.len() ==> r == holds_title(self@, title@),
    {
        let wanted = fold_chars(title);
        let mut i: usize = 0;
        while i < self.tasks.len()
            invariant
                i <= self.tasks.len(),
                wanted@ == folded(title@),
                forall|j: int|
                    0 <= j < i && j != skip ==> !same_ignoring_case(
                        (#[trigger] self@[j]).title,
                        title@,
                    ),
            decreases self.tasks.len() - i,
        {
            if i != skip {
                let held = fold_chars(&chars_of(self.tasks[i].title.as_str()));
                if same_chars(&held, &wanted) {
                    assert(same_ignoring_case(self@[i as int].title, title@));
                    return true;
                }
            }
            i += 1;
        }
        false
    }

    /// Whether a new task may take `title`: the judgement of [`admission`]
    /// on the tasks that the repository holds now.
    pub fn admits(&self, title: &str) -> (r: Result<(), RepoError>)
        ensures
            r == admission(self.policy(), self@, title@),
    {
        match validate_title(self.policy, title) {
            Err(e) => Err(RepoError::ValidationFailed(e)),
            Ok(_) => {
                let chars = chars_of(title);
                if self.title_taken(&chars, self.tasks.len()) {
                    Err(RepoError::DuplicateTitle)
                } else {
                    Ok(())
                }
            },
        }
    }

    /// Puts a new task at the end, once its title is known to be admitted.
    fn store(&mut self, title: &str, id: String) -> (r: Result<Task, RepoError>)
        requires
            admission(old(self).policy(), old(self)@, title@) is Ok,
        ensures
            final(self).policy() == old(self).policy(),
            final(self)@ == after_create(old(self).policy(), old(self)@, title@, id@),
            outcome_view(r) == create_outcome(old(self).policy(), old(self)@, title@, id@),
            consistent(final(self).policy(), final(self)@),
    {
        proof {
            use_type_invariant(&*self);
        }
        if self.find(id.as_str()).is_some() {
            return Err(RepoError::StorageUnavailable);
        }
        let task = Task { id, title: title.to_owned(), completed: false };
        let copy = task.clone();
        let mut tasks: Vec<Task> = Vec::new();
        std::mem::swap(&mut tasks, &mut self.tasks);
        tasks.push(task);
        assert(views(tasks@) =~= old(self)@.push(copy@));
        self.tasks = tasks;
        Ok(copy)
    }

    /// Creates a task with `title` under the identifier `id`, which the caller
    /// supplies. Returns [`create_outcome`] and leaves [`after_create`].
    pub fn create_with_id(&mut self, title: &str, id: String) -> (r: Result<Task, RepoError>)
        ensures
            final(self).policy() == old(self).policy(),
            final(self)@ == after_create(old(self).policy(), old(self)@, title@, id@),
            outcome_view(r) == create_outcome(old(self).policy(), old(self)@, title@, id@),
            consistent(final(self).policy(), final(self)@),
    {
        proof {
            use_type_invariant(&*self);
        }
        match self.admits(title) {
            Err(e) => Err(e),
            Ok(_) => self.store(title, id),
        }
    }

    /// Creates a task with `title` under a fresh random identifier.
    ///
    /// Where `title` is not admitted, the error of [`admission`] comes back
    /// and nothing changes. Else the new task comes back, not completed,
    /// under an identifier that no task had, and stands at the end of the
    /// collection; or, should the random identifier be one that is taken,
    /// `StorageUnavailable` comes back and nothing changes. That cannot
    /// happen while the collection is empty.
    pub fn create(&mut self, title: &str) -> (r: Result<Task, RepoError>)
        ensures
            final(self).policy() == old(self).policy(),
            consistent(final(self).policy(), final(self)@),
            admission(old(self).policy(), old(self)@, title@) is Ok && old(self)@.len() == 0
                ==> r is Ok,
            match admission(old(self).policy(), old(self)@, title@) {
                Err(e) => r matches Err(err) && err == e && final(self)@ == old(self)@,
                Ok(_) => match r {
                    Ok(task) => {
                        &&& is_random_uuid_text(task@.id)
                        &&& !holds_id(old(self)@, task@.id)
                        &&& task@ == (TaskView { id: task@.id, title: title@, completed: false })
                        &&& final(self)@ == old(self)@.push(task@)
                    },
                    Err(err) => err == RepoError::StorageUnavailable && final(self)@ == old(self)@,
                },
            },
    {
        proof {
            use_type_invariant(&*self);
        }
        match self.admits(title) {
            Err(e) => Err(e),
            Ok(_) => {
                let id = fresh_identifier();
                self.store(title, id)
            },
        }
    }

    /// Applies `patch` to the task `id`. Returns [`update_outcome`] and
    /// leaves [`after_update`].
    pub fn update(&mut self, id: &str, patch: &UpdateTask) -> (r: Result<Task, RepoError>)
        ensures
            final(self).policy() == old(self).policy(),
            final(self)@ == after_update(old(self).policy(), old(self)@, id@, patch@),
            outcome_view(r) == update_outcome(old(self).policy(), old(self)@, id@, patch@),
            consistent(final(self).policy(), final(self)@),
    {
        proof {
            use_type_invariant(&*self);
        }
        let slot = match self.find(id) {
            None => {
                return Err(RepoError::NotFound);
            },
            Some(slot) => slot,
        };
        match &patch.title {
            None => {},
            Some(title) => {
                match validate_title(self.policy, title.as_str()) {
                    Err(e) => {
                        return Err(RepoError::ValidationFailed(e));
                    },
                    Ok(_) => {},
                }
                let chars = chars_of(title.as_str());
                if self.title_taken(&chars, slot) {
                    return Err(RepoError::DuplicateTitle);
                }
            },
        }
        let changed = self.tasks[slot].patched(patch);
        let copy = changed.clone();
        let mut tasks: Vec<Task> = Vec::new();
        std::mem::swap(&mut tasks, &mut self.tasks);
        tasks.set(slot, changed);
        assert(views(tasks@) =~= old(self)@.update(slot as int, copy@));
        self.tasks = tasks;
        Ok(copy)
    }

    /// Negates the completion flag of the task `id`. Returns
    /// [`toggle_outcome`] and leaves [`after_toggle`].
    pub fn toggle(&mut self, id: &str) -> (r: Result<Task, RepoError>)
        ensures
            final(self).policy() == old(self).policy(),
            final(self)@ == after_toggle(old(self)@, id@),
            outcome_view(r) == toggle_outcome(old(self)@, id@),
            consistent(final(self).policy(), final(self)@),
    {
        proof {
            use_type_invariant(&*self);
        }
        let slot = match self.find(id) {
            None => {
                return Err(RepoError::NotFound);
            },
            Some(slot) => slot,
        };
        let held = &self.tasks[slot];
        let changed = Task {
            id: held.id.clone(),
            title: held.title.clone(),
            completed: !held.completed,
        };
        let copy = changed.clone();
        let mut tasks: Vec<Task> = Vec::new();
        std::mem::swap(&mut tasks, &mut self.tasks);
        tasks.set(slot, changed);
        assert(views(tasks@) =~= old(self)@.update(slot as int, copy@));
        self.tasks = tasks;
        Ok(copy)
    }

    /// Removes the task `id`. Returns [`delete_outcome`] and leaves
    /// [`after_delete`].
    pub fn delete(&mut self, id: &str) -> (r: Result<(), RepoError>)
        ensures
            final(self).policy() == old(self).policy(),
            final(self)@ == after_delete(old(self)@, id@),
            r == delete_outcome(old(self)@, id@),
            consistent(final(self).policy(), final(self)@),
    {
        proof {
            use_type_invariant(&*self);
        }
        match self.find(id) {
            None => Err(RepoError::NotFound),
            Some(slot) => {
                let mut tasks: Vec<Task> = Vec::new();
                std::mem::swap(&mut tasks, &mut self.tasks);
                tasks.remove(slot);
                assert(views(tasks@) =~= old(self)@.remove(slot as int));
                self.tasks = tasks;
                Ok(())
            },
        }
    }
}

} // verus!
