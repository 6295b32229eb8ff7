use vstd::prelude::*;

verus! {

use crate::error::ClientError;

/// Lifecycle state of an asynchronous gateway job, decoded from the integer
/// the gateway reports in the `jobStatus` field of a response envelope.
#[derive(Clone, Copy, Debug, PartialEq, Eq, Structural)]
pub enum Status {
    Failed,
    New,
    Running,
    DataAvailable,
    Completed,
    Stopping,
}

/// The fixed table mapping each in-range wire integer to its status, in
/// declaration order.
pub open spec fn spec_status(n: u64) -> Status {
    if n == 0 {
        Status::Failed
    } else if n == 1 {
        Status::New
    } else if n == 2 {
        Status::Running
    } else if n == 3 {
        Status::DataAvailable
    } else if n == 4 {
        Status::Completed
    } else {
        Status::Stopping
    }
}

/// A job in one of these states has not produced its outcome yet: a poll
/// must be repeated. Every other state ends the polling loop.
pub open spec fn spec_pending(s: Status) -> bool {
    s == Status::New || s == Status::Running
}

impl Status {
    /// Decode the wire integer. Integers outside 0..=5 are a protocol
    /// violation and fail with a decode error; decoding never silently
    /// defaults.
    pub fn from(n: u64) -> (r: Result<Status, ClientError>)
        ensures
            n <= 5 ==> r == Ok::<Status, ClientError>(spec_status(n)),
            n > 5 ==> r == Err::<Status, ClientError>(ClientError::Decode),
    {
        match n {
            0 => Ok(Status::Failed),
            1 => Ok(Status::New),
            2 => Ok(Status::Running),
            3 => Ok(Status::DataAvailable),
            4 => Ok(Status::Completed),
            5 => Ok(Status::Stopping),
            _ => Err(ClientError::Decode),
        }
    }

    /// Whether a poll that saw this status must be repeated (the job is
    /// still `New` or `Running`).
    pub fn is_pending(self) -> (r: bool)
        ensures
            r == spec_pending(self),
    {
        match self {
            Status::New => true,
            Status::Running => true,
            _ => false,
        }
    }
}

} // verus!
