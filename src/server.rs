use vstd::prelude::*;
use vstd::string::StringExecFns;

use crate::models::{User, UserRaw, UserView};

verus! {

pub const STATUS_NO_CONTENT: u16 = 204;

pub const STATUS_NOT_FOUND: u16 = 404;

pub const STATUS_INTERNAL_ERROR: u16 = 500;

/// An error answer of the REST interface: its HTTP status and a plain-text body.
pub struct ApiError {
    pub status: u16,
    pub body: String,
}

/// The record that an insert of `name` and `email` creates, under the id
/// that the storage assigned to the new row.
pub open spec fn inserted_record(id: i64, name: Seq<char>, email: Seq<char>) -> UserView {
    UserView { id, name, email }
}

/// The status of a delete answer, given how many rows the delete removed.
pub open spec fn deletion_status(removed: nat) -> u16 {
    if removed == 0 {
        STATUS_NOT_FOUND
    } else {
        STATUS_NO_CONTENT
    }
}

/// The status that a delete answer carries.
pub open spec fn answer_status(r: Result<u16, ApiError>) -> u16 {
    match r {
        Ok(status) => status,
        Err(e) => e.status,
    }
}

/// A storage failure: status 500, the storage's own text after a short context.
fn storage_failure(context: &str, detail: String) -> (r: ApiError)
    ensures
        r.status == STATUS_INTERNAL_ERROR,
        r.body@ == context@ + detail@,
{
    ApiError { status: STATUS_INTERNAL_ERROR, body: String::from_str(context).concat(detail.as_str()) }
}

/// The answer to `GET /api/users`: every row the storage returned, in its
/// order, or a storage failure.
pub fn list_outcome(fetched: Result<Vec<User>, String>) -> (r: Result<Vec<User>, ApiError>)
    ensures
        match fetched {
            Ok(rows) => match r {
                Ok(v) => v@ == rows@,
                Err(_) => false,
            },
            Err(e) => match r {
                Ok(_) => false,
                Err(a) => a.status == STATUS_INTERNAL_ERROR && a.body@ == "Database error: "@ + e@,
            },
        },
{
    match fetched {
        Ok(rows) => Ok(rows),
        Err(e) => Err(storage_failure("Database error: ", e)),
    }
}

/// The answer to `POST /api/users`: the submitted fields under the id that
/// the storage assigned to the inserted row, or a storage failure.
pub fn create_outcome(inserted: Result<i64, String>, payload: UserRaw) -> (r: Result<User, ApiError>)
    ensures
        match inserted {
            Ok(id) => match r {
                Ok(u) => u@ == inserted_record(id, payload.name@, payload.email@),
                Err(_) => false,
            },
            Err(e) => match r {
                Ok(_) => false,
                Err(a) => a.status == STATUS_INTERNAL_ERROR && a.body@ == "Insert error: "@ + e@,
            },
        },
{
    match inserted {
        Ok(id) => Ok(User { id, name: payload.name, email: payload.email }),
        Err(e) => Err(storage_failure("Insert error: ", e)),
    }
}

/// The answer to `DELETE /api/users/{id}`, given how many rows the delete
/// removed: no content when it removed any, not found when it removed none,
/// or a storage failure.
pub fn delete_outcome(deleted: Result<u64, String>) -> (r: Result<u16, ApiError>)
    ensures
        match deleted {
            Ok(n) => {
                &&& answer_status(r) == deletion_status(n as nat)
                &&& (r is Ok <==> n > 0)
                &&& match r {
                    Ok(_) => true,
                    Err(a) => a.body@ == "User not found"@,
                }
            },
            Err(e) => match r {
                Ok(_) => false,
                Err(a) => a.status == STATUS_INTERNAL_ERROR && a.body@ == "Delete error: "@ + e@,
            },
        },
{
    match deleted {
        Ok(n) => {
            if n == 0 {
                Err(ApiError { status: STATUS_NOT_FOUND, body: String::from_str("User not found") })
            } else {
                Ok(STATUS_NO_CONTENT)
            }
        },
        Err(e) => Err(storage_failure("Delete error: ", e)),
    }
}

} // verus!
