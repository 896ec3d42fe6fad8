use vstd::prelude::*;

verus! {

/// Why an operation of the users page did not reconcile. Every kind is only
/// reported to the diagnostic log; none is shown to the user or retried.
#[derive(Clone, Copy, Debug, PartialEq, Eq, Structural)]
pub enum Failure {
    /// The create form was submitted with an empty name or email.
    EmptyField,
    /// The request never got an answer (network unreachable, timeout).
    Transport,
    /// The answer's body was missing or malformed.
    Decode,
    /// The store answered with a non-success HTTP status.
    Status(u16),
}

/// What came back from one request to the store: nothing at all, or an
/// HTTP status together with the decoded body (`None` when decoding failed).
#[derive(Clone, Debug)]
pub enum Reply<T> {
    Unreachable,
    Answered(u16, Option<T>),
}

/// The HTTP success class, 200 to 299.
pub open spec fn is_success_status(status: u16) -> bool {
    200 <= status <= 299
}

/// A reply succeeds when it came with a success status and a decoded body;
/// otherwise it fails with the first thing that went wrong.
pub open spec fn settled<T>(reply: Reply<T>) -> Result<T, Failure> {
    match reply {
        Reply::Unreachable => Err(Failure::Transport),
        Reply::Answered(status, body) => {
            if !is_success_status(status) {
                Err(Failure::Status(status))
            } else {
                match body {
                    Some(v) => Ok(v),
                    None => Err(Failure::Decode),
                }
            }
        },
    }
}

/// The failure to log for an outcome, if any.
pub open spec fn failure_of<T>(r: Result<T, Failure>) -> Option<Failure> {
    match r {
        Ok(_) => None,
        Err(f) => Some(f),
    }
}

/// Tells whether an HTTP status is in the success class.
pub fn status_is_success(status: u16) -> (r: bool)
    ensures
        r == is_success_status(status),
{
    200 <= status && status <= 299
}

/// Turns a reply into the value it delivered or the failure to log.
pub fn settle<T>(reply: Reply<T>) -> (r: Result<T, Failure>)
    ensures
        r == settled(reply),
{
    match reply {
        Reply::Unreachable => Err(Failure::Transport),
        Reply::Answered(status, body) => {
            if !status_is_success(status) {
                Err(Failure::Status(status))
            } else {
                match body {
                    Some(v) => Ok(v),
                    None => Err(Failure::Decode),
                }
            }
        },
    }
}

} // verus!
