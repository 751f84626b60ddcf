use vstd::prelude::*;

use crate::entities::{Task, TaskId};
use crate::repositories::{has_id, ids_unique, index_of, RepoView, RepositoryError, TaskRepository};

verus! {

/// A repository that keeps its tasks in a vector, in insertion order.
pub struct InMemoryTaskRepository {
    tasks: Vec<Task>,
    last_id: TaskId,
}

impl InMemoryTaskRepository {
    /// An empty repository whose first issued identifier is 1.
    pub fn new() -> (r: InMemoryTaskRepository)
        ensures
            r.model().tasks == Seq::<Task>::empty(),
            r.model().last_id == 0,
            r.never_faults(),
    {
        InMemoryTaskRepository { tasks: Vec::new(), last_id: 0 }
    }

    /// The last identifier that `next_id` issued.
    pub fn last_id(&self) -> (r: TaskId)
        ensures
            r == self.model().last_id,
    {
        self.last_id
    }

    /// The position of the task with identifier `id`, if one is stored.
    fn position(&self, id: TaskId) -> (r: Option<usize>)
        requires
            ids_unique(self.tasks@),
        ensures
            r is None <==> !has_id(self.tasks@, id),
            r is Some ==> r->Some_0 == index_of(self.tasks@, id) && r->Some_0 < self.tasks@.len(),
    {
        let mut i: usize = 0;
        while i < self.tasks.len()
            invariant
                i <= self.tasks@.len(),
                ids_unique(self.tasks@),
                forall|k: int| 0 <= k < i ==> #[trigger] self.tasks@[k].id != id,
            decreases self.tasks@.len() - i,
        {
            if self.tasks[i].id == id {
                proof {
                    let c = index_of(self.tasks@, id);
                    assert(self.tasks@[i as int].id == id);
                    assert(0 <= c < self.tasks@.len() && self.tasks@[c].id == id);
                    if c != i as int {
                        assert(self.tasks@[c].id != self.tasks@[i as int].id);
                    }
                }
                return Some(i);
            }
            i = i + 1;
        }
        None
    }
}

impl TaskRepository for InMemoryTaskRepository {
    closed spec fn model(&self) -> RepoView {
        RepoView { tasks: self.tasks@, last_id: self.last_id as int }
    }

    closed spec fn never_faults(&self) -> bool {
        true
    }

    fn get_all(&self) -> (r: Vec<Task>) {
        let mut r: Vec<Task> = Vec::new();
        let mut i: usize = 0;
        while i < self.tasks.len()
            invariant
                i <= self.tasks@.len(),
                r@ == self.tasks@.subrange(0, i as int),
            decreases self.tasks@.len() - i,
        {
            r.push(self.tasks[i].duplicate());
            i = i + 1;
            assert(r@ =~= self.tasks@.subrange(0, i as int));
        }
        assert(r@ =~= self.tasks@);
        r
    }

    fn get_by_id(&self, id: TaskId) -> (r: Result<Task, RepositoryError>)
        ensures
            r == match self.model().lookup(id) {
                Some(t) => Ok::<Task, RepositoryError>(t),
                None => Err(RepositoryError::TaskNotFound),
            },
    {
        match self.position(id) {
            Some(i) => Ok(self.tasks[i].duplicate()),
            None => Err(RepositoryError::TaskNotFound),
        }
    }

    fn create(&mut self, task: Task) -> (r: Result<(), RepositoryError>)
        ensures
            r == old(self).model().create_result(task),
            final(self).model() == old(self).model().after_create(task),
    {
        match self.position(task.id) {
            Some(_) => Err(RepositoryError::TaskAlreadyExists),
            None => {
                self.tasks.push(task);
                Ok(())
            },
        }
    }

    fn delete(&mut self, id: TaskId) -> (r: Result<(), RepositoryError>)
        ensures
            r == old(self).model().found_result(id),
            final(self).model() == old(self).model().after_delete(id),
    {
        match self.position(id) {
            Some(i) => {
                self.tasks.remove(i);
                Ok(())
            },
            None => Err(RepositoryError::TaskNotFound),
        }
    }

    fn toggle(&mut self, id: TaskId) -> (r: Result<(), RepositoryError>)
        ensures
            r == old(self).model().found_result(id),
            final(self).model() == old(self).model().after_toggle(id),
    {
        match self.position(id) {
            Some(i) => {
                let mut t = self.tasks[i].duplicate();
                t.status = !t.status;
                self.tasks.set(i, t);
                Ok(())
            },
            None => Err(RepositoryError::TaskNotFound),
        }
    }

    fn next_id(&mut self) -> (r: TaskId) {
        self.last_id = self.last_id + 1;
        self.last_id
    }
}

} // verus!
