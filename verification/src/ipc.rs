//! Messages exchanged between the user interface and the broker service,
//! in the library's own terms.

use crate::status::{FailStatus, Status};
use crate::text::owned;
use vstd::prelude::*;

verus! {

/// The service's answer to a spawn request.
#[derive(Clone, Copy, Debug, PartialEq, Eq, Structural)]
pub struct SpawnResponse {
    /// Whether the process could not be started
    pub error: bool,
    /// The profile the answer is about
    pub id: u32,
    /// The process ID of the started process (0 when none)
    pub pid: u32,
}

/// The service's answer to a stop request.
#[derive(Clone, Copy, Debug, PartialEq, Eq, Structural)]
pub struct StopResponse {
    /// Whether the process could not be stopped
    pub error: bool,
    /// The profile the answer is about
    pub id: u32,
}

/// A request that the service refuses outright.
#[derive(Clone, Copy, Debug, PartialEq, Eq, Structural)]
pub enum RpcError {
    /// A spawn request without profile data
    InvalidProfileData,
    /// A stop request for a profile that is not running
    InvalidId,
}

impl RpcError {
    /// The message that accompanies the refusal.
    pub fn message(&self) -> (s: String)
        ensures
            s@ == match *self {
                RpcError::InvalidProfileData => "Invalid profile data"@,
                RpcError::InvalidId => "Invalid id"@,
            },
    {
        match *self {
            RpcError::InvalidProfileData => owned("Invalid profile data"),
            RpcError::InvalidId => owned("Invalid id"),
        }
    }
}

/// How a remote call ended, seen from the caller.
#[derive(Clone, Debug)]
pub enum CallOutcome<T> {
    /// No connection to the service could be made
    NotConnected,
    /// The service answered with an error
    Failed,
    /// The service answered
    Replied(T),
}

/// Represents types of messages sent through channels across threads of
/// the user interface.
#[derive(Clone, Debug)]
pub enum QueueMsg {
    Spawn { error: bool, id: u32, pid: u32 },
    Stop { error: bool, id: u32 },
    Echo(String),
    Fail(Status),
}

/// The message that a finished spawn call puts on the queue.
pub open spec fn spawn_message_spec(outcome: CallOutcome<SpawnResponse>) -> QueueMsg {
    match outcome {
        CallOutcome::NotConnected => QueueMsg::Fail(Status::ConnectionFailed),
        CallOutcome::Failed => QueueMsg::Fail(Status::ResponseError),
        CallOutcome::Replied(r) => QueueMsg::Spawn { error: r.error, id: r.id, pid: r.pid },
    }
}

/// The message that a finished spawn call puts on the queue.
pub fn spawn_message(outcome: CallOutcome<SpawnResponse>) -> (m: QueueMsg)
    ensures
        m == spawn_message_spec(outcome),
{
    match outcome {
        CallOutcome::NotConnected => QueueMsg::Fail(Status::ConnectionFailed),
        CallOutcome::Failed => QueueMsg::Fail(Status::ResponseError),
        CallOutcome::Replied(r) => QueueMsg::Spawn { error: r.error, id: r.id, pid: r.pid },
    }
}

/// The message that a finished stop call puts on the queue.
pub fn stop_message(outcome: CallOutcome<StopResponse>) -> (m: QueueMsg)
    ensures
        m == match outcome {
            CallOutcome::NotConnected => QueueMsg::Fail(Status::ConnectionFailed),
            CallOutcome::Failed => QueueMsg::Fail(Status::ResponseError),
            CallOutcome::Replied(r) => QueueMsg::Stop { error: r.error, id: r.id },
        },
{
    match outcome {
        CallOutcome::NotConnected => QueueMsg::Fail(Status::ConnectionFailed),
        CallOutcome::Failed => QueueMsg::Fail(Status::ResponseError),
        CallOutcome::Replied(r) => QueueMsg::Stop { error: r.error, id: r.id },
    }
}

/// The message that a finished echo call puts on the queue.
pub fn echo_message(outcome: CallOutcome<String>) -> (m: QueueMsg)
    ensures
        m == match outcome {
            CallOutcome::NotConnected => QueueMsg::Fail(Status::ConnectionFailed),
            CallOutcome::Failed => QueueMsg::Fail(Status::ResponseError),
            CallOutcome::Replied(text) => QueueMsg::Echo(text),
        },
{
    match outcome {
        CallOutcome::NotConnected => QueueMsg::Fail(Status::ConnectionFailed),
        CallOutcome::Failed => QueueMsg::Fail(Status::ResponseError),
        CallOutcome::Replied(text) => QueueMsg::Echo(text),
    }
}

/// What the sample front end makes of a finished echo call.
pub fn echo_result(outcome: CallOutcome<String>) -> (r: Result<String, FailStatus>)
    ensures
        r == match outcome {
            CallOutcome::NotConnected => Err(FailStatus::ConnectionFailed),
            CallOutcome::Failed => Err(FailStatus::ResponseError),
            CallOutcome::Replied(text) => Ok(text),
        },
{
    match outcome {
        CallOutcome::NotConnected => Err(FailStatus::ConnectionFailed),
        CallOutcome::Failed => Err(FailStatus::ResponseError),
        CallOutcome::Replied(text) => Ok(text),
    }
}

/// The sample service's answer to an echo request.
pub fn sample_echo_reply(payload: &str) -> (s: String)
    ensures
        s@ == "Hello, you sent me: "@ + payload@,
{
    let mut s = owned("Hello, you sent me: ");
    s.append(payload);
    s
}

/// A reply of the broker to a spawn request becomes a spawn message that
/// carries its error flag, profile and PID unchanged; so a failed start is
/// never taken for a running process. Without a reply, the message is a
/// failure.
pub proof fn lemma_spawn_message_keeps_reply(r: SpawnResponse)
    ensures
        spawn_message_spec(CallOutcome::Replied(r)) == (QueueMsg::Spawn { error: r.error, id: r.id, pid: r.pid }),
        r.error ==> spawn_message_spec(CallOutcome::Replied(r)) matches QueueMsg::Spawn { error: true, .. },
        spawn_message_spec(CallOutcome::NotConnected) matches QueueMsg::Fail(_),
        spawn_message_spec(CallOutcome::Failed) matches QueueMsg::Fail(_),
{
}

} // verus!
