use vstd::prelude::*;

use crate::entities::{Task, TaskId};

verus! {

/// Failures that a storage backend reports.
#[derive(Debug, PartialEq, Eq, Structural, Clone, Copy)]
pub enum RepositoryError {
    TaskNotFound,
    TaskAlreadyExists,
    InternalError,
}

/// The abstract state of a repository: the stored tasks, in the backend's
/// order, and the last identifier that `next_id` handed out.
pub struct RepoView {
    pub tasks: Seq<Task>,
    pub last_id: int,
}

/// One operation on a repository, for reasoning about runs of them.
pub enum RepoOp {
    NextId,
    Create(Task),
    Delete(TaskId),
    Toggle(TaskId),
}

/// Some stored task carries identifier `id`.
pub open spec fn has_id(tasks: Seq<Task>, id: TaskId) -> bool {
    exists|i: int| 0 <= i < tasks.len() && #[trigger] tasks[i].id == id
}

/// No two stored tasks share an identifier.
pub open spec fn ids_unique(tasks: Seq<Task>) -> bool {
    forall|i: int, j: int|
        0 <= i < tasks.len() && 0 <= j < tasks.len() && i != j ==> #[trigger] tasks[i].id
            != #[trigger] tasks[j].id
}

/// The position of the task with identifier `id` (meaningful when `has_id`).
pub open spec fn index_of(tasks: Seq<Task>, id: TaskId) -> int {
    choose|i: int| 0 <= i < tasks.len() && #[trigger] tasks[i].id == id
}

/// The same task with its status flipped.
pub open spec fn flipped(t: Task) -> Task {
    Task { status: !t.status, ..t }
}

impl RepoView {
    /// The invariant that every repository keeps.
    pub open spec fn wf(self) -> bool {
        &&& ids_unique(self.tasks)
        &&& i64::MIN <= self.last_id <= i64::MAX
    }

    /// The state after `next_id`, which issues `last_id + 1`.
    pub open spec fn after_next_id(self) -> RepoView {
        RepoView { last_id: self.last_id + 1, ..self }
    }

    /// The task stored under `id`, if any.
    pub open spec fn lookup(self, id: TaskId) -> Option<Task> {
        if has_id(self.tasks, id) {
            Some(self.tasks[index_of(self.tasks, id)])
        } else {
            None
        }
    }

    /// What `create(task)` returns in this state.
    pub open spec fn create_result(self, task: Task) -> Result<(), RepositoryError> {
        if has_id(self.tasks, task.id) {
            Err(RepositoryError::TaskAlreadyExists)
        } else {
            Ok(())
        }
    }

    /// The state after `create(task)`: the task is appended unless its
    /// identifier is taken.
    pub open spec fn after_create(self, task: Task) -> RepoView {
        if has_id(self.tasks, task.id) {
            self
        } else {
            RepoView { tasks: self.tasks.push(task), ..self }
        }
    }

    /// What `delete(id)` and `toggle(id)` return in this state.
    pub open spec fn found_result(self, id: TaskId) -> Result<(), RepositoryError> {
        if has_id(self.tasks, id) {
            Ok(())
        } else {
            Err(RepositoryError::TaskNotFound)
        }
    }

    /// The state after `delete(id)`.
    pub open spec fn after_delete(self, id: TaskId) -> RepoView {
        if has_id(self.tasks, id) {
            RepoView { tasks: self.tasks.remove(index_of(self.tasks, id)), ..self }
        } else {
            self
        }
    }

    /// The state after `toggle(id)`.
    pub open spec fn after_toggle(self, id: TaskId) -> RepoView {
        if has_id(self.tasks, id) {
            let i = index_of(self.tasks, id);
            RepoView { tasks: self.tasks.update(i, flipped(self.tasks[i])), ..self }
        } else {
            self
        }
    }
}

impl RepoView {
    /// The state after one operation; one that fails leaves the state as it was.
    pub open spec fn apply(self, op: RepoOp) -> RepoView {
        match op {
            RepoOp::NextId => self.after_next_id(),
            RepoOp::Create(t) => self.after_create(t),
            RepoOp::Delete(id) => self.after_delete(id),
            RepoOp::Toggle(id) => self.after_toggle(id),
        }
    }

    /// The state after the operations `ops`, in order.
    pub open spec fn run(self, ops: Seq<RepoOp>) -> RepoView
        decreases ops.len(),
    {
        if ops.len() == 0 {
            self
        } else {
            self.apply(ops[0]).run(ops.drop_first())
        }
    }
}

/// The operations of a task store. A backend either performs an operation
/// exactly as the `RepoView` model says, or reports `InternalError` and leaves
/// its state as it was.
pub trait TaskRepository: Sized {
    /// The abstract state of the store.
    spec fn model(&self) -> RepoView;

    /// The backend never reports `InternalError`.
    spec fn never_faults(&self) -> bool;

    /// Every stored task.
    fn get_all(&self) -> (r: Vec<Task>)
        requires
            self.model().wf(),
        ensures
            r@ == self.model().tasks,
    ;

    /// The task with identifier `id`.
    fn get_by_id(&self, id: TaskId) -> (r: Result<Task, RepositoryError>)
        requires
            self.model().wf(),
        ensures
            r is Err ==> r == Err::<Task, RepositoryError>(RepositoryError::InternalError) || (
            r == Err::<Task, RepositoryError>(RepositoryError::TaskNotFound) && self.model().lookup(id) is None),
            r is Ok ==> self.model().lookup(id) == Some(r->Ok_0),
            self.never_faults() ==> r != Err::<Task, RepositoryError>(RepositoryError::InternalError),
    ;

    /// Stores `task`; fails when its identifier is taken.
    fn create(&mut self, task: Task) -> (r: Result<(), RepositoryError>)
        requires
            old(self).model().wf(),
        ensures
            final(self).model().wf(),
            final(self).never_faults() == old(self).never_faults(),
            old(self).never_faults() ==> r != Err::<(), RepositoryError>(RepositoryError::InternalError),
            r == Err::<(), RepositoryError>(RepositoryError::InternalError) ==> final(self).model() == old(self).model(),
            r != Err::<(), RepositoryError>(RepositoryError::InternalError) ==> {
                &&& r == old(self).model().create_result(task)
                &&& final(self).model() == old(self).model().after_create(task)
            },
    ;

    /// Removes the task with identifier `id`; fails when there is none.
    fn delete(&mut self, id: TaskId) -> (r: Result<(), RepositoryError>)
        requires
            old(self).model().wf(),
        ensures
            final(self).model().wf(),
            final(self).never_faults() == old(self).never_faults(),
            old(self).never_faults() ==> r != Err::<(), RepositoryError>(RepositoryError::InternalError),
            r == Err::<(), RepositoryError>(RepositoryError::InternalError) ==> final(self).model() == old(self).model(),
            r != Err::<(), RepositoryError>(RepositoryError::InternalError) ==> {
                &&& r == old(self).model().found_result(id)
                &&& final(self).model() == old(self).model().after_delete(id)
            },
    ;

    /// Flips the status of the task with identifier `id`; fails when there is none.
    fn toggle(&mut self, id: TaskId) -> (r: Result<(), RepositoryError>)
        requires
            old(self).model().wf(),
        ensures
            final(self).model().wf(),
            final(self).never_faults() == old(self).never_faults(),
            old(self).never_faults() ==> r != Err::<(), RepositoryError>(RepositoryError::InternalError),
            r == Err::<(), RepositoryError>(RepositoryError::InternalError) ==> final(self).model() == old(self).model(),
            r != Err::<(), RepositoryError>(RepositoryError::InternalError) ==> {
                &&& r == old(self).model().found_result(id)
                &&& final(self).model() == old(self).model().after_toggle(id)
            },
    ;

    /// Issues a fresh identifier, one above the last one issued.
    fn next_id(&mut self) -> (r: TaskId)
        requires
            old(self).model().wf(),
            old(self).model().last_id < i64::MAX,
        ensures
            final(self).model() == old(self).model().after_next_id(),
            final(self).never_faults() == old(self).never_faults(),
            r == final(self).model().last_id,
    ;
}

} // verus!
