use vstd::prelude::*;

use crate::entities::{Task, TaskId};
use crate::repositories::{RepoView, RepositoryError, TaskRepository};

verus! {

/// Failures that the service reports to its callers.
#[derive(Debug, PartialEq, Eq, Structural, Clone, Copy)]
pub enum TaskServiceError {
    MissingTitle,
    MissingDescription,
    TaskNotFound,
    TaskAlreadyExists,
    UnexpectedError,
}

/// The service error for a repository error of a lookup, a delete or a toggle.
pub open spec fn spec_lookup_error(e: RepositoryError) -> TaskServiceError {
    match e {
        RepositoryError::TaskNotFound => TaskServiceError::TaskNotFound,
        _ => TaskServiceError::UnexpectedError,
    }
}

/// The service error for a repository error of an insertion.
pub open spec fn spec_insert_error(e: RepositoryError) -> TaskServiceError {
    match e {
        RepositoryError::TaskAlreadyExists => TaskServiceError::TaskAlreadyExists,
        _ => TaskServiceError::UnexpectedError,
    }
}

/// Validation of a new task's fields: the title is checked first.
pub open spec fn spec_validation(title: Seq<char>, description: Seq<char>) -> Result<(), TaskServiceError> {
    if title.len() == 0 {
        Err(TaskServiceError::MissingTitle)
    } else if description.len() == 0 {
        Err(TaskServiceError::MissingDescription)
    } else {
        Ok(())
    }
}

/// A repository result of a lookup, a delete or a toggle, as the service reports it.
pub open spec fn spec_lookup_result<T>(r: Result<T, RepositoryError>) -> Result<T, TaskServiceError> {
    match r {
        Ok(v) => Ok(v),
        Err(e) => Err(spec_lookup_error(e)),
    }
}

/// The task that `create` builds from the identifier it was issued.
pub open spec fn new_task(id: int, title: String, description: String) -> Task {
    Task { id: id as TaskId, title, description, status: false }
}

/// What `get_by_id(id)` reports in state `v` when the backend does not fault.
pub open spec fn get_result(v: RepoView, id: TaskId) -> Result<Task, TaskServiceError> {
    match v.lookup(id) {
        Some(t) => Ok(t),
        None => Err(TaskServiceError::TaskNotFound),
    }
}

/// What `create(title, description)` reports in state `v` when the backend
/// does not fault.
pub open spec fn create_result(v: RepoView, title: String, description: String) -> Result<(), TaskServiceError> {
    match spec_validation(title@, description@) {
        Err(e) => Err(e),
        Ok(_) => {
            let w = v.after_next_id();
            match w.create_result(new_task(w.last_id, title, description)) {
                Ok(_) => Ok(()),
                Err(e) => Err(spec_insert_error(e)),
            }
        },
    }
}

/// The state after `create(title, description)` when the backend does not fault.
pub open spec fn create_state(v: RepoView, title: String, description: String) -> RepoView {
    if spec_validation(title@, description@) is Err {
        v
    } else {
        let w = v.after_next_id();
        w.after_create(new_task(w.last_id, title, description))
    }
}

/// Maps a repository error of a lookup, a delete or a toggle.
pub fn lookup_error(e: RepositoryError) -> (r: TaskServiceError)
    ensures
        r == spec_lookup_error(e),
{
    match e {
        RepositoryError::TaskNotFound => TaskServiceError::TaskNotFound,
        _ => TaskServiceError::UnexpectedError,
    }
}

/// Maps a repository error of an insertion.
pub fn insert_error(e: RepositoryError) -> (r: TaskServiceError)
    ensures
        r == spec_insert_error(e),
{
    match e {
        RepositoryError::TaskAlreadyExists => TaskServiceError::TaskAlreadyExists,
        _ => TaskServiceError::UnexpectedError,
    }
}

/// Checks the fields of a new task: a missing title is reported before a
/// missing description.
pub fn validate(title: &str, description: &str) -> (r: Result<(), TaskServiceError>)
    ensures
        r == spec_validation(title@, description@),
{
    if title.is_empty() {
        Err(TaskServiceError::MissingTitle)
    } else if description.is_empty() {
        Err(TaskServiceError::MissingDescription)
    } else {
        Ok(())
    }
}

/// Validates requests and turns repository errors into service errors.
pub struct TaskService<R: TaskRepository> {
    task_repository: R,
}

impl<R: TaskRepository> TaskService<R> {
    /// The state of the repository that the service owns.
    pub closed spec fn model(&self) -> RepoView {
        self.task_repository.model()
    }

    /// The owned repository never reports an internal error.
    pub closed spec fn never_faults(&self) -> bool {
        self.task_repository.never_faults()
    }

    pub fn new(task_repository: R) -> (r: TaskService<R>)
        ensures
            r.model() == task_repository.model(),
            r.never_faults() == task_repository.never_faults(),
    {
        TaskService { task_repository }
    }

    /// The repository that the service owns.
    pub fn repository(&self) -> (r: &R)
        ensures
            r.model() == self.model(),
            r.never_faults() == self.never_faults(),
    {
        &self.task_repository
    }

    /// Every stored task.
    pub fn get_all(&self) -> (r: Vec<Task>)
        requires
            self.model().wf(),
        ensures
            r@ == self.model().tasks,
    {
        self.task_repository.get_all()
    }

    /// The task with identifier `id`.
    pub fn get_by_id(&self, id: TaskId) -> (r: Result<Task, TaskServiceError>)
        requires
            self.model().wf(),
        ensures
            r == get_result(self.model(), id) || r == Err::<Task, TaskServiceError>(TaskServiceError::UnexpectedError),
            self.never_faults() ==> r == get_result(self.model(), id),
    {
        match self.task_repository.get_by_id(id) {
            Ok(t) => Ok(t),
            Err(e) => Err(lookup_error(e)),
        }
    }

    /// Validates the fields, takes a fresh identifier and stores a new,
    /// incomplete task under it.
    pub fn create(&mut self, title: String, description: String) -> (r: Result<(), TaskServiceError>)
        requires
            old(self).model().wf(),
            old(self).model().last_id < i64::MAX,
        ensures
            final(self).model().wf(),
            final(self).never_faults() == old(self).never_faults(),
            title@.len() == 0 ==> r == Err::<(), TaskServiceError>(TaskServiceError::MissingTitle),
            title@.len() != 0 && description@.len() == 0 ==> r == Err::<(), TaskServiceError>(TaskServiceError::MissingDescription),
            r == Err::<(), TaskServiceError>(TaskServiceError::UnexpectedError) ==> final(self).model() == old(self).model().after_next_id(),
            r != Err::<(), TaskServiceError>(TaskServiceError::UnexpectedError) ==> {
                &&& r == create_result(old(self).model(), title, description)
                &&& final(self).model() == create_state(old(self).model(), title, description)
            },
            old(self).never_faults() ==> r == create_result(old(self).model(), title, description),
    {
        match validate(title.as_str(), description.as_str()) {
            Err(e) => Err(e),
            Ok(_) => {
                let id = self.task_repository.next_id();
                let task = Task { id, title, description, status: false };
                match self.task_repository.create(task) {
                    Ok(_) => Ok(()),
                    Err(e) => Err(insert_error(e)),
                }
            },
        }
    }

    /// Removes the task with identifier `id`.
    pub fn delete(&mut self, id: TaskId) -> (r: Result<(), TaskServiceError>)
        requires
            old(self).model().wf(),
        ensures
            final(self).model().wf(),
            final(self).never_faults() == old(self).never_faults(),
            r == Err::<(), TaskServiceError>(TaskServiceError::UnexpectedError) ==> final(self).model() == old(self).model(),
            r != Err::<(), TaskServiceError>(TaskServiceError::UnexpectedError) ==> {
                &&& r == spec_lookup_result(old(self).model().found_result(id))
                &&& final(self).model() == old(self).model().after_delete(id)
            },
            old(self).never_faults() ==> r == spec_lookup_result(old(self).model().found_result(id)),
    {
        match self.task_repository.delete(id) {
            Ok(_) => Ok(()),
            Err(e) => Err(lookup_error(e)),
        }
    }

    /// Flips the status of the task with identifier `id`.
    pub fn toggle(&mut self, id: TaskId) -> (r: Result<(), TaskServiceError>)
        requires
            old(self).model().wf(),
        ensures
            final(self).model().wf(),
            final(self).never_faults() == old(self).never_faults(),
            r == Err::<(), TaskServiceError>(TaskServiceError::UnexpectedError) ==> final(self).model() == old(self).model(),
            r != Err::<(), TaskServiceError>(TaskServiceError::UnexpectedError) ==> {
                &&& r == spec_lookup_result(old(self).model().found_result(id))
                &&& final(self).model() == old(self).model().after_toggle(id)
            },
            old(self).never_faults() ==> r == spec_lookup_result(old(self).model().found_result(id)),
    {
        match self.task_repository.toggle(id) {
            Ok(_) => Ok(()),
            Err(e) => Err(lookup_error(e)),
        }
    }
}

} // verus!
