//! Failures reported to the user interface.

use crate::text::{decimal, decimal_spec, owned};
use vstd::prelude::*;

verus! {

/// Represents an exception/failure instance.
#[derive(Debug, Clone)]
pub enum Status {
    ProcessSpawnFailed(String),
    ProcessStopFailed(String),
    NoSuchProfile(u32),
    ConnectionFailed,
    ResponseError,
    ThreadError,
    EmptyError,
}

/// The text shown to the user for a failure.
pub open spec fn status_text(s: Status) -> Seq<char> {
    match s {
        Status::ProcessSpawnFailed(name) => "Failed to spawn process: "@ + name@,
        Status::ProcessStopFailed(name) => "Failed to stop process: "@ + name@,
        Status::NoSuchProfile(id) => "No such profile exist (internal ID: "@ + decimal_spec(id as nat) + ")"@,
        Status::ConnectionFailed => "Failed to connect to server"@,
        Status::ResponseError => "Server replied with error"@,
        Status::ThreadError => "Thread panicked"@,
        Status::EmptyError => "Last error message was not set"@,
    }
}

impl Status {
    /// The text shown to the user for this failure.
    pub fn message(&self) -> (s: String)
        ensures
            s@ == status_text(*self),
    {
        match self {
            Status::ProcessSpawnFailed(name) => {
                let mut s = owned("Failed to spawn process: ");
                s.append(name.as_str());
                s
            },
            Status::ProcessStopFailed(name) => {
                let mut s = owned("Failed to stop process: ");
                s.append(name.as_str());
                s
            },
            Status::NoSuchProfile(id) => {
                let mut s = owned("No such profile exist (internal ID: ");
                let digits = decimal(*id);
                s.append(digits.as_str());
                s.append(")");
                s
            },
            Status::ConnectionFailed => owned("Failed to connect to server"),
            Status::ResponseError => owned("Server replied with error"),
            Status::ThreadError => owned("Thread panicked"),
            Status::EmptyError => owned("Last error message was not set"),
        }
    }
}

/// The text of the error dialogue: the failure that was recorded, or a
/// note that none was.
pub fn error_text(error: Option<Status>) -> (s: String)
    ensures
        s@ == match error {
            Some(e) => status_text(e),
            None => status_text(Status::EmptyError),
        },
{
    match error {
        Some(e) => e.message(),
        None => Status::EmptyError.message(),
    }
}

/// A failure of the sample front end.
#[derive(Clone, Copy, Debug, PartialEq, Eq, Structural)]
pub enum FailStatus {
    ConnectionFailed,
    ResponseError,
    ThreadError,
}

impl FailStatus {
    /// The text shown to the user for this failure.
    pub fn message(&self) -> (s: String)
        ensures
            s@ == match *self {
                FailStatus::ConnectionFailed => "Failed to connect to server"@,
                FailStatus::ResponseError => "Server replied with error"@,
                FailStatus::ThreadError => "Thread panicked"@,
            },
    {
        match *self {
            FailStatus::ConnectionFailed => owned("Failed to connect to server"),
            FailStatus::ResponseError => owned("Server replied with error"),
            FailStatus::ThreadError => owned("Thread panicked"),
        }
    }
}

} // verus!
