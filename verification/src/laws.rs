//! What holds of the repository and of title validation whatever the
//! inputs, proved over the functions that the operations' contracts use.

use crate::models::{TaskView, UpdateTaskView};
use crate::repository::{
    after_create, after_delete, after_toggle, after_update, consistent, create_outcome,
    delete_outcome, holds_id, holds_title, slot_of, toggle_outcome, update_outcome, RepoError,
};
use crate::text::{
    all_ascii, ascii_lower, folded, is_blank, is_plain, is_whitespace, same_ignoring_case,
};
use crate::validation::{
    all_permitted, permitted, title_verdict, TitlePolicy, ValidationError, MAX_TITLE_CHARS,
};
use vstd::prelude::*;

verus! {

/// Lowering the case of an ASCII letter changes neither whether a character
/// is white space nor whether a policy admits it.
pub proof fn law_lowering_keeps_class(policy: TitlePolicy, c: char)
    ensures
        is_whitespace(ascii_lower(c)) == is_whitespace(c),
        permitted(policy, ascii_lower(c)) == permitted(policy, c),
{
}

/// On a text of ASCII characters, folding replaces each capital letter by
/// its small letter and changes nothing else.
pub proof fn law_folded_ascii(s: Seq<char>)
    requires
        all_ascii(s),
    ensures
        folded(s).len() == s.len(),
        forall|i: int| 0 <= i < s.len() ==> #[trigger] folded(s)[i] == ascii_lower(s[i]),
    decreases s.len(),
{
    if s.len() > 0 {
        law_folded_ascii(s.drop_last());
    }
}

/// Two texts of ASCII characters that differ only in the case of letters get
/// the same judgement as titles.
pub proof fn law_verdict_ignores_case(policy: TitlePolicy, a: Seq<char>, b: Seq<char>)
    requires
        all_ascii(a),
        all_ascii(b),
        same_ignoring_case(a, b),
    ensures
        a.len() == b.len(),
        title_verdict(policy, a) == title_verdict(policy, b),
{
    law_folded_ascii(a);
    law_folded_ascii(b);
    assert forall|i: int| 0 <= i < a.len() implies is_whitespace(a[i]) == is_whitespace(b[i])
        && permitted(policy, a[i]) == permitted(policy, b[i]) by {
        assert(folded(a)[i] == folded(b)[i]);
        law_lowering_keeps_class(policy, a[i]);
        law_lowering_keeps_class(policy, b[i]);
    }
    assert(is_blank(a) == is_blank(b));
    assert(all_permitted(policy, a) == all_permitted(policy, b));
}

/// A creation leaves the collection consistent.
pub proof fn law_create_keeps_consistency(
    policy: TitlePolicy,
    tasks: Seq<TaskView>,
    title: Seq<char>,
    id: Seq<char>,
)
    requires
        consistent(policy, tasks),
    ensures
        consistent(policy, after_create(policy, tasks, title, id)),
{
}

/// An update leaves the collection consistent.
pub proof fn law_update_keeps_consistency(
    policy: TitlePolicy,
    tasks: Seq<TaskView>,
    id: Seq<char>,
    patch: UpdateTaskView,
)
    requires
        consistent(policy, tasks),
    ensures
        consistent(policy, after_update(policy, tasks, id, patch)),
{
}

/// A toggle leaves the collection consistent.
pub proof fn law_toggle_keeps_consistency(policy: TitlePolicy, tasks: Seq<TaskView>, id: Seq<char>)
    requires
        consistent(policy, tasks),
    ensures
        consistent(policy, after_toggle(tasks, id)),
{
}

/// A deletion leaves the collection consistent.
pub proof fn law_delete_keeps_consistency(policy: TitlePolicy, tasks: Seq<TaskView>, id: Seq<char>)
    requires
        consistent(policy, tasks),
    ensures
        consistent(policy, after_delete(tasks, id)),
{
}

/// The collection after the first `n` of the creations `titles[k]` under
/// `ids[k]`, made one after another on `tasks`.
pub open spec fn after_creations(
    policy: TitlePolicy,
    tasks: Seq<TaskView>,
    titles: Seq<Seq<char>>,
    ids: Seq<Seq<char>>,
    n: nat,
) -> Seq<TaskView>
    decreases n,
{
    if n == 0 {
        tasks
    } else {
        after_create(
            policy,
            after_creations(policy, tasks, titles, ids, (n - 1) as nat),
            titles[n - 1],
            ids[n - 1],
        )
    }
}

/// Creations never take a title away: a title that the collection holds
/// after `from` creations is still held after `to` of them.
pub proof fn law_creations_keep_titles(
    policy: TitlePolicy,
    tasks: Seq<TaskView>,
    titles: Seq<Seq<char>>,
    ids: Seq<Seq<char>>,
    from: nat,
    to: nat,
    title: Seq<char>,
)
    requires
        from <= to,
        holds_title(after_creations(policy, tasks, titles, ids, from), title),
    ensures
        holds_title(after_creations(policy, tasks, titles, ids, to), title),
    decreases to,
{
    if from < to {
        law_creations_keep_titles(policy, tasks, titles, ids, from, (to - 1) as nat, title);
        let before = after_creations(policy, tasks, titles, ids, (to - 1) as nat);
        let after = after_creations(policy, tasks, titles, ids, to);
        let i = choose|i: int|
            0 <= i < before.len() && same_ignoring_case((#[trigger] before[i]).title, title);
        assert(after[i] == before[i]);
    }
}

/// Of the creations in a sequence whose titles differ only in the case of
/// letters, at most one succeeds: once the creation at `first` has
/// succeeded, the creation at `later` fails, whatever other creations stand
/// between them and whatever identifiers are used. It fails with
/// `DuplicateTitle` where its title passes validation, as it does where
/// both titles are in ASCII.
pub proof fn law_case_variants_created_once(
    policy: TitlePolicy,
    tasks: Seq<TaskView>,
    titles: Seq<Seq<char>>,
    ids: Seq<Seq<char>>,
    first: nat,
    later: nat,
)
    requires
        consistent(policy, tasks),
        titles.len() == ids.len(),
        first < later < titles.len(),
        same_ignoring_case(titles[first as int], titles[later as int]),
        create_outcome(
            policy,
            after_creations(policy, tasks, titles, ids, first),
            titles[first as int],
            ids[first as int],
        ) is Ok,
    ensures
        create_outcome(
            policy,
            after_creations(policy, tasks, titles, ids, later),
            titles[later as int],
            ids[later as int],
        ) is Err,
        title_verdict(policy, titles[later as int]) is Ok || (all_ascii(titles[first as int])
            && all_ascii(titles[later as int])) ==> create_outcome(
            policy,
            after_creations(policy, tasks, titles, ids, later),
            titles[later as int],
            ids[later as int],
        ) == Err::<TaskView, RepoError>(RepoError::DuplicateTitle),
{
    let t1 = titles[first as int];
    let t2 = titles[later as int];
    let before = after_creations(policy, tasks, titles, ids, first);
    let created = after_creations(policy, tasks, titles, ids, first + 1);
    assert(holds_title(created, t1)) by {
        assert(same_ignoring_case(created[before.len() as int].title, t1));
    }
    law_creations_keep_titles(policy, tasks, titles, ids, first + 1, later, t1);
    assert(holds_title(after_creations(policy, tasks, titles, ids, later), t2));
    if all_ascii(t1) && all_ascii(t2) {
        law_verdict_ignores_case(policy, t1, t2);
    }
}

/// Neither an update nor a toggle changes an identifier: the task that
/// comes back has the identifier that was asked for, and every place of the
/// collection keeps the identifier it had.
pub proof fn law_identifiers_never_change(
    policy: TitlePolicy,
    tasks: Seq<TaskView>,
    id: Seq<char>,
    patch: UpdateTaskView,
)
    requires
        consistent(policy, tasks),
    ensures
        update_outcome(policy, tasks, id, patch) matches Ok(task) ==> task.id == id,
        toggle_outcome(tasks, id) matches Ok(task) ==> task.id == id,
        after_update(policy, tasks, id, patch).len() == tasks.len(),
        after_toggle(tasks, id).len() == tasks.len(),
        forall|k: int|
            0 <= k < tasks.len() ==> (#[trigger] after_update(policy, tasks, id, patch)[k]).id
                == tasks[k].id,
        forall|k: int|
            0 <= k < tasks.len() ==> (#[trigger] after_toggle(tasks, id)[k]).id == tasks[k].id,
{
}

/// A second deletion of the same identifier finds nothing: after `id` was
/// deleted with success, deleting `id` again fails with `NotFound`.
pub proof fn law_delete_twice(policy: TitlePolicy, tasks: Seq<TaskView>, id: Seq<char>)
    requires
        consistent(policy, tasks),
        delete_outcome(tasks, id) is Ok,
    ensures
        delete_outcome(after_delete(tasks, id), id) == Err::<(), RepoError>(RepoError::NotFound),
        after_delete(after_delete(tasks, id), id) == after_delete(tasks, id),
{
    let after = after_delete(tasks, id);
    assert forall|i: int| 0 <= i < after.len() implies (#[trigger] after[i]).id != id by {
        let from = if i < slot_of(tasks, id) {
            i
        } else {
            i + 1
        };
        assert(after[i] == tasks[from]);
    }
}

/// An update touches only what its patch provides. A patch without a title
/// always succeeds on a task that exists and leaves the title as it was; a
/// patch without a completion flag leaves the flag as it was. The task that
/// comes back is the one that the collection then holds in the same place,
/// and every other task is as it was.
pub proof fn law_partial_update(
    policy: TitlePolicy,
    tasks: Seq<TaskView>,
    id: Seq<char>,
    patch: UpdateTaskView,
)
    requires
        consistent(policy, tasks),
        holds_id(tasks, id),
    ensures
        patch.title is None ==> update_outcome(policy, tasks, id, patch) is Ok,
        update_outcome(policy, tasks, id, patch) matches Ok(task) ==> {
            let slot = slot_of(tasks, id);
            let after = after_update(policy, tasks, id, patch);
            &&& patch.title is None ==> task.title == tasks[slot].title
            &&& patch.title matches Some(title) ==> task.title == title
            &&& patch.completed is None ==> task.completed == tasks[slot].completed
            &&& patch.completed matches Some(flag) ==> task.completed == flag
            &&& after[slot] == task
            &&& forall|k: int| 0 <= k < tasks.len() && k != slot ==> #[trigger] after[k] == tasks[k]
        },
{
}

/// The boundary of validation: a title that is not blank, has at most
/// [`MAX_TITLE_CHARS`] characters and holds only admitted characters
/// passes; one that is not blank and longer fails with `TooLong`; a blank
/// one, the empty title among them, fails with `EmptyTitle`.
pub proof fn law_validation_boundary(policy: TitlePolicy, title: Seq<char>)
    ensures
        !is_blank(title) && title.len() <= MAX_TITLE_CHARS && all_permitted(policy, title)
            ==> title_verdict(policy, title) is Ok,
        !is_blank(title) && title.len() > MAX_TITLE_CHARS ==> title_verdict(policy, title) == Err::<
            (),
            ValidationError,
        >(ValidationError::TooLong),
        is_blank(title) ==> title_verdict(policy, title) == Err::<(), ValidationError>(
            ValidationError::EmptyTitle,
        ),
        title.len() == 0 ==> is_blank(title),
{
}

/// Under the strict policy a title that holds the character `@`, or any other
/// character that is no ASCII letter, ASCII digit or space, fails with
/// `InvalidCharacters`, provided that it is neither blank nor too long.
pub proof fn law_strict_rejects_other_characters(title: Seq<char>, at: int)
    requires
        0 <= at < title.len(),
        !is_plain(title[at]),
        !is_blank(title),
        title.len() <= MAX_TITLE_CHARS,
    ensures
        !is_plain('@'),
        title_verdict(TitlePolicy::Strict, title) == Err::<(), ValidationError>(
            ValidationError::InvalidCharacters,
        ),
{
}

} // verus!
