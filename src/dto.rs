use vstd::prelude::*;

use crate::entities::{Task, TaskId};
use crate::services::TaskServiceError;

verus! {

/// The fields that a client sends to create a task.
#[derive(Clone, Debug)]
pub struct CreateTaskRequest {
    pub title: String,
    pub description: String,
}

/// A task as it is sent back to a client.
#[derive(Clone, Debug)]
pub struct TaskResponse {
    pub id: TaskId,
    pub title: String,
    pub description: String,
    pub status: bool,
}

impl From<Task> for TaskResponse {
    fn from(task: Task) -> (r: TaskResponse) {
        TaskResponse {
            id: task.id,
            title: task.title,
            description: task.description,
            status: task.status,
        }
    }
}

impl vstd::std_specs::convert::FromSpecImpl<Task> for TaskResponse {
    open spec fn obeys_from_spec() -> bool {
        true
    }

    open spec fn from_spec(task: Task) -> TaskResponse {
        TaskResponse {
            id: task.id,
            title: task.title,
            description: task.description,
            status: task.status,
        }
    }
}

/// How a service error is reported over HTTP: a status code, a short
/// machine-readable code and a message.
#[derive(Clone, Copy, Debug)]
pub struct ErrorReply {
    pub status: u16,
    pub code: &'static str,
    pub message: &'static str,
}

/// The HTTP status for a service error: validation failures are 400, a
/// missing task 404, a conflict 409 and anything else 500.
pub open spec fn spec_error_status(e: TaskServiceError) -> u16 {
    match e {
        TaskServiceError::MissingTitle => 400,
        TaskServiceError::MissingDescription => 400,
        TaskServiceError::TaskNotFound => 404,
        TaskServiceError::TaskAlreadyExists => 409,
        TaskServiceError::UnexpectedError => 500,
    }
}

/// The reply that reports service error `e`.
pub fn error_reply(e: TaskServiceError) -> (r: ErrorReply)
    ensures
        r.status == spec_error_status(e),
        e is MissingTitle ==> r.code@ == "validation_failed"@ && r.message@ == "Title is required"@,
        e is MissingDescription ==> r.code@ == "validation_failed"@ && r.message@
            == "Description is required"@,
        e is TaskNotFound ==> r.code@ == "not_found"@ && r.message@ == "Task not found"@,
        e is TaskAlreadyExists ==> r.code@ == "conflict"@ && r.message@ == "Task already exists"@,
        e is UnexpectedError ==> r.code@ == "internal_error"@ && r.message@ == "Unexpected error"@,
{
    match e {
        TaskServiceError::MissingTitle => ErrorReply {
            status: 400,
            code: "validation_failed",
            message: "Title is required",
        },
        TaskServiceError::MissingDescription => ErrorReply {
            status: 400,
            code: "validation_failed",
            message: "Description is required",
        },
        TaskServiceError::TaskNotFound => ErrorReply {
            status: 404,
            code: "not_found",
            message: "Task not found",
        },
        TaskServiceError::TaskAlreadyExists => ErrorReply {
            status: 409,
            code: "conflict",
            message: "Task already exists",
        },
        TaskServiceError::UnexpectedError => ErrorReply {
            status: 500,
            code: "internal_error",
            message: "Unexpected error",
        },
    }
}

} // verus!
