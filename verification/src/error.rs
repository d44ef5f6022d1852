//! The failure taxonomy of the administrative operations, and the report
//! handed to the HTTP layer.

use vstd::prelude::*;
use vstd::string::StringExecFns;

use crate::gametype::InvalidGametype;

verus! {

/// How a single framed command exchange can fail.
#[derive(Clone, Copy, Debug, PartialEq, Eq, Structural)]
pub enum StepError {
    /// The encoded command would not fit in one safe UDP datagram.
    CommandTooLarge,
    /// No reply datagram arrived before the deadline.
    Timeout,
    /// The socket could not be bound, or the send or the receive failed.
    NetworkError,
    /// The reply was missing its framing or was shorter than the marker.
    ProtocolError,
}

/// How an administrative operation fails as a whole.  A single-command
/// operation passes its step's failure through unchanged; a two-command
/// operation must also report the mixed state left behind when its first
/// command succeeded and its second did not.
#[derive(Clone, Debug)]
pub enum OperationError {
    /// A constituent command failed and the game server's state was not
    /// changed by any later command of the operation.
    Step(StepError),
    /// The first command of a two-command operation succeeded and the
    /// second failed: the game server is now in a mixed state.  Carries the
    /// completed step's response and the failed step's failure.
    PartialFailure { completed: String, failed: StepError },
}

/// The fixed description of each step failure.
pub open spec fn step_error_text(error: StepError) -> Seq<char> {
    match error {
        StepError::CommandTooLarge => "command too large for one datagram"@,
        StepError::Timeout => "timeout waiting for a reply from the server"@,
        StepError::NetworkError => "network error while talking to the server"@,
        StepError::ProtocolError => "Invalid or empty response from server"@,
    }
}

/// The description of an operation failure: a step failure is described as
/// itself; a partial failure names the completed step's response and the
/// failed step's failure.
pub open spec fn operation_error_text(error: OperationError) -> Seq<char> {
    match error {
        OperationError::Step(step) => step_error_text(step),
        OperationError::PartialFailure { completed, failed } => "partial failure: first command completed with response "@
            + completed@ + "; second command failed: "@ + step_error_text(failed),
    }
}

impl StepError {
    /// Human-readable description of this failure.
    pub fn message(&self) -> (text: String)
        ensures
            text@ == step_error_text(*self),
    {
        match self {
            StepError::CommandTooLarge => String::from_str("command too large for one datagram"),
            StepError::Timeout => String::from_str("timeout waiting for a reply from the server"),
            StepError::NetworkError => String::from_str(
                "network error while talking to the server",
            ),
            StepError::ProtocolError => String::from_str("Invalid or empty response from server"),
        }
    }
}

impl OperationError {
    /// Human-readable description of this failure.
    pub fn message(&self) -> (text: String)
        ensures
            text@ == operation_error_text(*self),
    {
        match self {
            OperationError::Step(step) => step.message(),
            OperationError::PartialFailure { completed, failed } => {
                let mut text = String::from_str(
                    "partial failure: first command completed with response ",
                );
                text.append(completed.as_str());
                text.append("; second command failed: ");
                let detail = failed.message();
                text.append(detail.as_str());
                proof {
                    assert(text@ =~= operation_error_text(*self));
                }
                text
            },
        }
    }
}

impl PartialEq for OperationError {
    fn eq(&self, other: &Self) -> (same: bool) {
        match (self, other) {
            (OperationError::Step(a), OperationError::Step(b)) => *a == *b,
            (
                OperationError::PartialFailure { completed: a_completed, failed: a_failed },
                OperationError::PartialFailure { completed: b_completed, failed: b_failed },
            ) => *a_completed == *b_completed && *a_failed == *b_failed,
            _ => false,
        }
    }
}

impl vstd::std_specs::cmp::PartialEqSpecImpl for OperationError {
    open spec fn obeys_eq_spec() -> bool {
        true
    }

    open spec fn eq_spec(&self, other: &Self) -> bool {
        match (self, other) {
            (OperationError::Step(a), OperationError::Step(b)) => a == b,
            (
                OperationError::PartialFailure { completed: a_completed, failed: a_failed },
                OperationError::PartialFailure { completed: b_completed, failed: b_failed },
            ) => a_completed@ == b_completed@ && a_failed == b_failed,
            _ => false,
        }
    }
}

/// The failure report handed to the HTTP layer: a human-readable message
/// for the body of a generic server-side error response.
#[derive(Debug)]
pub struct ApiError {
    /// The message carried in the error response's body.
    pub message: String,
}

impl ApiError {
    /// The report for a failed administrative operation.
    pub fn from_operation_error(error: &OperationError) -> (api: ApiError)
        ensures
            api.message@ == "Internal server error: "@ + operation_error_text(*error),
    {
        let mut message = String::from_str("Internal server error: ");
        let detail = error.message();
        message.append(detail.as_str());
        ApiError { message }
    }

    /// The report for a request naming an unknown game mode.
    pub fn from_invalid_gametype(error: &InvalidGametype) -> (api: ApiError)
        ensures
            api.message@ == "Internal server error: "@ + ("Invalid gametype: "@ + error.0@),
    {
        let mut message = String::from_str("Internal server error: ");
        let detail = error.message();
        message.append(detail.as_str());
        ApiError { message }
    }
}

} // verus!
