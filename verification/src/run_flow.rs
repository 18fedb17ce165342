//! Following a run of the game master: what each polled status of the run asks
//! for, and what a run that stopped for an action asks.
use vstd::prelude::*;

use crate::error::{AppError, Error, ShadowrunError};
use crate::strmap::str_eq;
use crate::text::{concat, owned};

verus! {

broadcast use vstd::string::group_string_axioms;

/// The states of a run.
#[derive(Debug, Clone, Copy, PartialEq, Eq, Structural)]
pub enum RunStatus {
    Queued,
    InProgress,
    RequiresAction,
    Cancelling,
    Cancelled,
    Failed,
    Completed,
    Incomplete,
    Expired,
}

/// The name of a status as it is reported.
pub open spec fn status_name(s: RunStatus) -> Seq<char> {
    match s {
        RunStatus::Queued => "Queued"@,
        RunStatus::InProgress => "InProgress"@,
        RunStatus::RequiresAction => "RequiresAction"@,
        RunStatus::Cancelling => "Cancelling"@,
        RunStatus::Cancelled => "Cancelled"@,
        RunStatus::Failed => "Failed"@,
        RunStatus::Completed => "Completed"@,
        RunStatus::Incomplete => "Incomplete"@,
        RunStatus::Expired => "Expired"@,
    }
}

fn status_text(s: RunStatus) -> (t: String)
    ensures
        t@ == status_name(s),
{
    match s {
        RunStatus::Queued => owned("Queued"),
        RunStatus::InProgress => owned("InProgress"),
        RunStatus::RequiresAction => owned("RequiresAction"),
        RunStatus::Cancelling => owned("Cancelling"),
        RunStatus::Cancelled => owned("Cancelled"),
        RunStatus::Failed => owned("Failed"),
        RunStatus::Completed => owned("Completed"),
        RunStatus::Incomplete => owned("Incomplete"),
        RunStatus::Expired => owned("Expired"),
    }
}

/// How long a run may take before it is cancelled, in milliseconds.
pub const RUN_TIMEOUT_MS: u64 = 180000;

/// How long to wait between two polls of a run, in milliseconds.
pub const POLL_INTERVAL_MS: u64 = 200;

/// What a polled status asks for.
#[derive(Debug)]
pub enum RunStep {
    /// The run is done: read the game master's answer.
    Completed,
    /// The run waits for the outputs of the game master's calls.
    RequiresAction,
    /// Wait `POLL_INTERVAL_MS` and poll again.
    Wait,
    /// Cancel the run and report the error.
    Abort(Error),
}

/// What a status polled `elapsed_ms` after the run started asks for: past the time
/// limit the run is cancelled for a timeout; a run that failed, was cancelled,
/// expired or stopped incomplete is cancelled with its status; a queued or running
/// one is polled again.
pub open spec fn run_step_spec(status: RunStatus, elapsed_ms: u64, step: RunStep) -> bool {
    if elapsed_ms > RUN_TIMEOUT_MS {
        step matches RunStep::Abort(e) && e == Error::App(AppError::Timeout)
    } else {
        match status {
            RunStatus::Completed => step is Completed,
            RunStatus::RequiresAction => step is RequiresAction,
            RunStatus::InProgress | RunStatus::Queued => step is Wait,
            _ => {
                &&& step matches RunStep::Abort(e)
                &&& e matches Error::String(m)
                &&& m@ == "Run failed with status: "@ + status_name(status)
            },
        }
    }
}

/// Decides what to do with a polled status.
pub fn run_step(status: RunStatus, elapsed_ms: u64) -> (step: RunStep)
    ensures
        run_step_spec(status, elapsed_ms, step),
{
    if elapsed_ms > RUN_TIMEOUT_MS {
        return RunStep::Abort(Error::App(AppError::Timeout));
    }
    match status {
        RunStatus::Completed => RunStep::Completed,
        RunStatus::RequiresAction => RunStep::RequiresAction,
        RunStatus::InProgress | RunStatus::Queued => RunStep::Wait,
        _ => {
            let name = status_text(status);
            RunStep::Abort(Error::String(concat("Run failed with status: ", name.as_str())))
        },
    }
}

/// What the action a run stopped for asks: the outputs of its calls when it asks
/// for them; an error naming any other action, or saying that none was given.
pub open spec fn required_action_spec(action_type: Option<Seq<char>>, r: Result<(), Error>) -> bool {
    match action_type {
        None => {
            &&& r matches Err(Error::Shadowrun(ShadowrunError::Game(m)))
            &&& m@ == "No required action found"@
        },
        Some(t) => if t == "submit_tool_outputs"@ {
            r is Ok
        } else {
            &&& r matches Err(Error::Shadowrun(ShadowrunError::Game(m)))
            &&& m@ == "Unknown required action type: "@ + t
        },
    }
}

/// Checks the action a run stopped for.
pub fn check_required_action(action_type: Option<&str>) -> (r: Result<(), Error>)
    ensures
        required_action_spec(
            match action_type {
                Some(t) => Some(t@),
                None => None,
            },
            r,
        ),
{
    match action_type {
        None => Err(Error::Shadowrun(ShadowrunError::Game(owned("No required action found")))),
        Some(t) => {
            if str_eq(t, "submit_tool_outputs") {
                Ok(())
            } else {
                Err(
                    Error::Shadowrun(
                        ShadowrunError::Game(concat("Unknown required action type: ", t)),
                    ),
                )
            }
        },
    }
}

} // verus!
