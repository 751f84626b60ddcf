use vstd::prelude::*;

use crate::entities::{Task, TaskId};
use crate::repositories::{has_id, index_of, flipped, RepoOp, RepoView};
use crate::services::{create_result, create_state, get_result, new_task, spec_lookup_result, TaskServiceError};

verus! {

/// Creating a task with a non-empty title and description, in a store where
/// the next identifier is free, succeeds; `get_by_id` on the identifier that
/// was issued then returns the task with the given fields and status false.
pub proof fn lemma_create_then_get(v: RepoView, title: String, description: String)
    requires
        v.wf(),
        v.last_id < i64::MAX,
        title@.len() > 0,
        description@.len() > 0,
        !has_id(v.tasks, (v.last_id + 1) as TaskId),
    ensures
        create_result(v, title, description) == Ok::<(), TaskServiceError>(()),
        create_state(v, title, description).wf(),
        get_result(create_state(v, title, description), (v.last_id + 1) as TaskId) == Ok::<
            Task,
            TaskServiceError,
        >(new_task(v.last_id + 1, title, description)),
        new_task(v.last_id + 1, title, description).status == false,
{
    let id = (v.last_id + 1) as TaskId;
    let t = new_task(v.last_id + 1, title, description);
    let u = create_state(v, title, description);
    let n = v.tasks.len() as int;
    assert(u.tasks == v.tasks.push(t));
    assert(u.tasks[n].id == id);
    let i = index_of(u.tasks, id);
    if i != n {
        assert(v.tasks[i].id == id);
    }
}

/// An identifier that no stored task carries is not found by `get_by_id`,
/// `delete` or `toggle`, and the failed `delete` and `toggle` change nothing.
pub proof fn lemma_unknown_id_not_found(v: RepoView, id: TaskId)
    requires
        !has_id(v.tasks, id),
    ensures
        get_result(v, id) == Err::<Task, TaskServiceError>(TaskServiceError::TaskNotFound),
        spec_lookup_result(v.found_result(id)) == Err::<(), TaskServiceError>(TaskServiceError::TaskNotFound),
        v.after_delete(id) == v,
        v.after_toggle(id) == v,
{
}

/// Toggling the same stored task twice restores the original state.
pub proof fn lemma_toggle_involution(v: RepoView, id: TaskId)
    requires
        v.wf(),
        has_id(v.tasks, id),
    ensures
        v.after_toggle(id).found_result(id) is Ok,
        v.after_toggle(id).after_toggle(id) == v,
{
    let i = index_of(v.tasks, id);
    let w = v.after_toggle(id);
    assert(w.tasks[i].id == id);
    let j = index_of(w.tasks, id);
    if j != i {
        assert(v.tasks[j].id == w.tasks[j].id);
    }
    assert(flipped(flipped(v.tasks[i])) == v.tasks[i]);
    assert(w.after_toggle(id).tasks =~= v.tasks);
}

/// No operation lowers the identifier counter.
pub proof fn lemma_counter_never_decreases(v: RepoView, ops: Seq<RepoOp>)
    ensures
        v.run(ops).last_id >= v.last_id,
    decreases ops.len(),
{
    if ops.len() > 0 {
        lemma_counter_never_decreases(v.apply(ops[0]), ops.drop_first());
    }
}

/// Identifiers issued by `next_id` strictly increase, whatever operations,
/// deletions included, happen between two calls.
pub proof fn lemma_next_id_increases(v: RepoView, ops: Seq<RepoOp>)
    ensures
        v.after_next_id().last_id < v.after_next_id().run(ops).after_next_id().last_id,
{
    lemma_counter_never_decreases(v.after_next_id(), ops);
}

} // verus!
