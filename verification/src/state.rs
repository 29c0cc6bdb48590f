//! Connection state of the supervised gateway, and its mathematical model.

use vstd::prelude::*;

verus! {

/// Mathematical model of a [`GatewayState`]: the same four variants, with
/// every string abstracted to its sequence of characters.
#[verifier::ext_equal]
pub enum StateModel {
    /// Not connected to any gateway.
    Disconnected,
    /// A sidecar launch attempt is in progress.
    Starting,
    /// A gateway answers at `url`; `is_sidecar` tells whether this
    /// supervisor owns the process behind it.
    Connected { url: Seq<char>, is_sidecar: bool },
    /// The last attempt failed, with a human-readable diagnostic.
    Failed { error: Seq<char> },
}

/// Handle to a child process this supervisor launched.  Only the identity of
/// the process is modelled; the operating-system handle itself stays with
/// the caller, which releases it exactly when a transition hands one of
/// these back.
#[derive(Clone, Copy, PartialEq, Eq, Structural, Debug)]
pub struct ProcessHandle {
    /// Process identifier reported at spawn time.
    pub pid: u32,
}

/// Connection state of the gateway.  Exactly one variant is active at a
/// time, and only the supervisor's transition methods mutate it.
pub enum GatewayState {
    /// Not connected to any gateway.
    Disconnected,
    /// A sidecar launch attempt is in progress.
    Starting,
    /// Connected to a gateway at `url`.
    Connected { url: String, is_sidecar: bool },
    /// The last connection or launch attempt failed.
    Failed { error: String },
}

impl View for GatewayState {
    type V = StateModel;

    open spec fn view(&self) -> StateModel {
        match self {
            GatewayState::Disconnected => StateModel::Disconnected,
            GatewayState::Starting => StateModel::Starting,
            GatewayState::Connected { url, is_sidecar } => (StateModel::Connected {
                url: url@,
                is_sidecar: *is_sidecar,
            }),
            GatewayState::Failed { error } => (StateModel::Failed { error: error@ }),
        }
    }
}

} // verus!
