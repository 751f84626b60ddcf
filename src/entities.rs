use vstd::prelude::*;

verus! {

/// Identifier of a task, unique within one repository.
pub type TaskId = i64;

/// A unit of trackable work.
#[derive(Clone, Debug)]
pub struct Task {
    pub id: TaskId,
    pub title: String,
    pub description: String,
    pub status: bool,
}

impl Task {
    /// A field-by-field copy of the task.
    pub fn duplicate(&self) -> (r: Task)
        ensures
            r == *self,
    {
        Task {
            id: self.id,
            title: self.title.clone(),
            description: self.description.clone(),
            status: self.status,
        }
    }
}

impl PartialEq for Task {
    fn eq(&self, other: &Task) -> (r: bool) {
        self.id == other.id && self.title == other.title && self.description == other.description
            && self.status == other.status
    }
}

impl vstd::std_specs::cmp::PartialEqSpecImpl for Task {
    open spec fn obeys_eq_spec() -> bool {
        true
    }

    open spec fn eq_spec(&self, other: &Task) -> bool {
        &&& self.id == other.id
        &&& self.title@ == other.title@
        &&& self.description@ == other.description@
        &&& self.status == other.status
    }
}

} // verus!
