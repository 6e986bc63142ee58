//! Commands that enable, disable and query the Kubernetes operator.

use super::{join_url, url_join, ClientError, Level, Report};
use crate::models::{ChangeStateRequest, Status};
use crate::text::owned;
use vstd::prelude::*;

verus! {

/// An operator command of the client.
#[derive(Clone, Copy, Debug, PartialEq, Eq, Structural)]
pub enum Command {
    /// Enable the operator.
    Enable,
    /// Disable the operator.
    Disable,
    /// Check whether the operator is running.
    Status,
}

/// The path of the operator's state.
pub open spec fn state_path() -> Seq<char> {
    "/operator/state"@
}

/// The request a command sends.
pub enum OperatorRequest {
    /// POST the desired state to this URL.
    ChangeState { url: String, body: ChangeStateRequest },
    /// GET the state from this URL.
    GetState { url: String },
}

/// The request of a command to the server at `address`: enabling and
/// disabling post the desired state, checking gets the state;
/// `InvalidAddress`, with the reason, when the address and the path make no URL.
pub fn request(address: &String, command: Command) -> (r: Result<OperatorRequest, ClientError>)
    ensures
        match url_join(address@, state_path()) {
            Ok(u) => match command {
                Command::Enable => r matches Ok(OperatorRequest::ChangeState { url, body }) && url@
                    == u && body.desired == Status::Enabled,
                Command::Disable => r matches Ok(OperatorRequest::ChangeState { url, body }) && url@
                    == u && body.desired == Status::Disabled,
                Command::Status => r matches Ok(OperatorRequest::GetState { url }) && url@ == u,
            },
            Err(m) => r matches Err(ClientError::InvalidAddress(e)) && e@ == m,
        },
{
    let path = owned("/operator/state");
    let url = match join_url(address, &path) {
        Ok(u) => u,
        Err(m) => return Err(ClientError::InvalidAddress(m)),
    };
    match command {
        Command::Enable => Ok(
            OperatorRequest::ChangeState { url, body: ChangeStateRequest { desired: Status::Enabled } },
        ),
        Command::Disable => Ok(
            OperatorRequest::ChangeState {
                url,
                body: ChangeStateRequest { desired: Status::Disabled },
            },
        ),
        Command::Status => Ok(OperatorRequest::GetState { url }),
    }
}

/// What the user is told after asking for a change of state.
pub open spec fn change_state_message(desired: Status, success: bool) -> (Level, Seq<char>) {
    match desired {
        Status::Enabled => if success {
            (Level::Info, "successfully enabled operator"@)
        } else {
            (Level::Warn, "failed to enable operator, check server logs"@)
        },
        Status::Disabled => (Level::Info, "successfully disabled operator"@),
    }
}

/// See [`change_state_message`].
pub fn change_state_report(desired: Status, success: bool) -> (r: Report)
    ensures
        (r.level, r.message@) == change_state_message(desired, success),
{
    match desired {
        Status::Enabled => if success {
            Report { level: Level::Info, message: owned("successfully enabled operator") }
        } else {
            Report {
                level: Level::Warn,
                message: owned("failed to enable operator, check server logs"),
            }
        },
        Status::Disabled => Report {
            level: Level::Info,
            message: owned("successfully disabled operator"),
        },
    }
}

/// What the user is told about the operator's state.
pub fn state_report(running: bool) -> (r: Report)
    ensures
        r.level == Level::Info,
        r.message@ == (if running {
            "operator is running"@
        } else {
            "operator is stopped"@
        }),
{
    if running {
        Report { level: Level::Info, message: owned("operator is running") }
    } else {
        Report { level: Level::Info, message: owned("operator is stopped") }
    }
}

} // verus!
