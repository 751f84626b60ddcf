use vstd::prelude::*;

use crate::entities::TaskId;
use crate::repositories::RepositoryError;

verus! {

/// SQLite's extended result code for a violated primary key constraint.
pub const PRIMARY_KEY_VIOLATION: &'static str = "1555";

/// The outcome of an `UPDATE` or `DELETE` on one identifier: no affected row
/// means that no task carries it.
pub fn affected_rows_result(rows: u64) -> (r: Result<(), RepositoryError>)
    ensures
        r == (if rows == 0 {
            Err::<(), RepositoryError>(RepositoryError::TaskNotFound)
        } else {
            Ok(())
        }),
{
    if rows == 0 {
        Err(RepositoryError::TaskNotFound)
    } else {
        Ok(())
    }
}

/// The repository error for a failed `INSERT`, from the database's error
/// code, if it gave one: a primary key violation means the identifier is taken.
pub fn insert_failure(code: Option<String>) -> (r: RepositoryError)
    ensures
        r == (if code is Some && code->Some_0@ == PRIMARY_KEY_VIOLATION@ {
            RepositoryError::TaskAlreadyExists
        } else {
            RepositoryError::InternalError
        }),
{
    match code {
        Some(c) => {
            let key = String::from_str(PRIMARY_KEY_VIOLATION);
            if c == key {
                RepositoryError::TaskAlreadyExists
            } else {
                RepositoryError::InternalError
            }
        },
        None => RepositoryError::InternalError,
    }
}

/// The counter of a repository opened on stored rows: the largest stored
/// identifier, or 0 when there are none, so that the next one issued is fresh.
pub fn initial_last_id(max_stored: Option<TaskId>) -> (r: TaskId)
    ensures
        r == (match max_stored {
            Some(m) => m,
            None => 0,
        }),
{
    match max_stored {
        Some(m) => m,
        None => 0,
    }
}

} // verus!
