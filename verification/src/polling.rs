//! Waiting for a persisted top-k task: what to do after each observation of
//! the task's row.

use vstd::prelude::*;
use vstd::string::*;
use crate::client::TensorZeroClientError;
use crate::text::concat3;

verus! {

/// The longest that a task is waited for, in milliseconds: one hour.
pub const POLL_TIMEOUT_MILLIS: u64 = 3_600_000;

/// The pause between two looks at the task's row, in milliseconds.
pub const POLL_INTERVAL_MILLIS: u64 = 500;

/// What was observed.
#[derive(Debug)]
pub enum PollEvent {
    /// A round begins, `elapsed_millis` after the waiting began.
    Round { elapsed_millis: u64 },
    /// The state of the task was read; absent where the row is not there.
    State(Option<String>),
    /// The state could not be read.
    StateQueryFailed(String),
    /// The error of a failed task was read; absent where none is recorded or
    /// it could not be read.
    FailureText(Option<String>),
    /// The payload of a completed task was read; absent where there is none.
    Payload(Option<String>),
    /// The payload could not be read.
    PayloadQueryFailed(String),
    /// The payload could not be decoded.
    DecodeFailed(String),
}

/// What to do next.
#[derive(Debug)]
pub enum PollAction {
    /// Read the state of the task.
    QueryState,
    /// Read the error of the failed task.
    QueryFailure,
    /// Read the payload of the completed task.
    QueryPayload,
    /// Pause for so many milliseconds, then begin a new round.
    Sleep(u64),
    /// Decode the payload into the output of the task.
    Decode(String),
    /// Give up with the error.
    Fail(TensorZeroClientError),
}

/// What an action says: its kind, with the text it carries.
pub enum ActionModel {
    QueryState,
    QueryFailure,
    QueryPayload,
    Sleep(u64),
    Decode(Seq<char>),
    /// An evaluation error with its text.
    Fail(Seq<char>),
    /// An error of another kind.
    Other,
}

impl View for PollAction {
    type V = ActionModel;

    open spec fn view(&self) -> ActionModel {
        match *self {
            PollAction::QueryState => ActionModel::QueryState,
            PollAction::QueryFailure => ActionModel::QueryFailure,
            PollAction::QueryPayload => ActionModel::QueryPayload,
            PollAction::Sleep(millis) => ActionModel::Sleep(millis),
            PollAction::Decode(payload) => ActionModel::Decode(payload@),
            PollAction::Fail(TensorZeroClientError::Evaluation(m)) => ActionModel::Fail(m@),
            PollAction::Fail(_) => ActionModel::Other,
        }
    }
}

/// The action that follows an event. A round that begins after more than the
/// timeout gives up; otherwise the state is read. A completed task has its
/// payload read, a failed one its error, and any other state, or none, is
/// looked at again after a pause. A failed task ends the waiting with its
/// error, or with `Unknown error` where none is known. A payload is decoded;
/// a missing one, and every failed read, ends the waiting.
pub open spec fn next_action(event: PollEvent) -> ActionModel {
    match event {
        PollEvent::Round { elapsed_millis } => if elapsed_millis > POLL_TIMEOUT_MILLIS {
            ActionModel::Fail("Top-k evaluation timed out"@)
        } else {
            ActionModel::QueryState
        },
        PollEvent::State(Some(state)) => if state@ == "completed"@ {
            ActionModel::QueryPayload
        } else if state@ == "failed"@ {
            ActionModel::QueryFailure
        } else {
            ActionModel::Sleep(POLL_INTERVAL_MILLIS)
        },
        PollEvent::State(None) => ActionModel::Sleep(POLL_INTERVAL_MILLIS),
        PollEvent::StateQueryFailed(reason) => ActionModel::Fail(
            "Failed to query task state: "@ + reason@,
        ),
        PollEvent::FailureText(Some(text)) => ActionModel::Fail("Top-k task failed: "@ + text@),
        PollEvent::FailureText(None) => ActionModel::Fail(
            "Top-k task failed: "@ + "Unknown error"@,
        ),
        PollEvent::Payload(Some(payload)) => ActionModel::Decode(payload@),
        PollEvent::Payload(None) => ActionModel::Fail("No task output found"@),
        PollEvent::PayloadQueryFailed(reason) => ActionModel::Fail(
            "Failed to query task result: "@ + reason@,
        ),
        PollEvent::DecodeFailed(reason) => ActionModel::Fail(
            "Failed to deserialize output: "@ + reason@,
        ),
    }
}

/// An evaluation error with the text `prefix` followed by `detail`.
fn failure(prefix: &str, detail: &str) -> (action: PollAction)
    ensures
        action@ == ActionModel::Fail(prefix@ + detail@),
{
    PollAction::Fail(TensorZeroClientError::Evaluation(String::from_str(prefix).concat(detail)))
}

/// Decides what to do after `event`.
pub fn poll_step(event: PollEvent) -> (action: PollAction)
    ensures
        action@ == next_action(event),
{
    match event {
        PollEvent::Round { elapsed_millis } => {
            if elapsed_millis > POLL_TIMEOUT_MILLIS {
                let action = failure("Top-k evaluation timed out", "");
                proof {
                    reveal_strlit("");
                    assert("Top-k evaluation timed out"@ + ""@ =~= "Top-k evaluation timed out"@);
                }
                action
            } else {
                PollAction::QueryState
            }
        },
        PollEvent::State(Some(state)) => {
            if state == String::from_str("completed") {
                PollAction::QueryPayload
            } else if state == String::from_str("failed") {
                PollAction::QueryFailure
            } else {
                PollAction::Sleep(POLL_INTERVAL_MILLIS)
            }
        },
        PollEvent::State(None) => PollAction::Sleep(POLL_INTERVAL_MILLIS),
        PollEvent::StateQueryFailed(reason) => failure("Failed to query task state: ", reason.as_str()),
        PollEvent::FailureText(Some(text)) => failure("Top-k task failed: ", text.as_str()),
        PollEvent::FailureText(None) => failure("Top-k task failed: ", "Unknown error"),
        PollEvent::Payload(Some(payload)) => PollAction::Decode(payload),
        PollEvent::Payload(None) => {
            let action = failure("No task output found", "");
            proof {
                reveal_strlit("");
                assert("No task output found"@ + ""@ =~= "No task output found"@);
            }
            action
        },
        PollEvent::PayloadQueryFailed(reason) => failure(
            "Failed to query task result: ",
            reason.as_str(),
        ),
        PollEvent::DecodeFailed(reason) => failure("Failed to deserialize output: ", reason.as_str()),
    }
}

/// The query that reads the column `column` of a task's row in the queue
/// `queue_name`.
pub open spec fn query_text(column: Seq<char>, queue_name: Seq<char>) -> Seq<char> {
    "SELECT "@ + column + " FROM durable.t_"@ + queue_name + " WHERE task_id = $1"@
}

/// The query that reads the column `column` of a task's row.
fn query(column: &str, queue_name: &str) -> (text: String)
    ensures
        text@ == query_text(column@, queue_name@),
{
    String::from_str("SELECT ").concat(column).concat(" FROM durable.t_").concat(queue_name).concat(
        " WHERE task_id = $1",
    )
}

/// The query that reads the state of a task.
pub fn state_query(queue_name: &str) -> (text: String)
    ensures
        text@ == query_text("state"@, queue_name@),
{
    query("state", queue_name)
}

/// The query that reads the error of a failed task.
pub fn failure_query(queue_name: &str) -> (text: String)
    ensures
        text@ == query_text("failed_error"@, queue_name@),
{
    query("failed_error", queue_name)
}

/// The query that reads the payload of a completed task.
pub fn payload_query(queue_name: &str) -> (text: String)
    ensures
        text@ == query_text("completed_payload"@, queue_name@),
{
    query("completed_payload", queue_name)
}

} // verus!
