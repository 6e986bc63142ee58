//! The bodies exchanged by the management API and its command-line client.

use vstd::prelude::*;

verus! {

/// The body returned when a request to the management API fails.
pub struct ErrorResponse {
    pub code: u16,
    pub message: String,
}

/// Ask the server to create (or repair) a database owned by a user of the same name.
pub struct CreateRequest {
    pub name: String,
    pub password: String,
}

/// The query string of a database removal.
pub struct DeleteOptions {
    pub retain: Option<bool>,
}

/// Whether the Kubernetes operator is running.
pub struct StateResponse {
    pub running: bool,
}

/// Ask the server to enable or disable the Kubernetes operator.
pub struct ChangeStateRequest {
    pub desired: Status,
}

/// The desired state of the Kubernetes operator.
#[derive(Clone, Copy, Debug, PartialEq, Eq, Structural)]
pub enum Status {
    Enabled,
    Disabled,
}

/// Whether a change of the operator's state took effect.
pub struct ChangeStateResponse {
    pub success: bool,
}

} // verus!
