//! The read-only snapshot handed to consumers, and the shape of a start
//! request.

use vstd::prelude::*;

use crate::state::{GatewayState, StateModel};
use crate::supervisor::Supervisor;

verus! {

/// Mathematical model of a [`GatewayStatus`].
#[verifier::ext_equal]
pub struct StatusModel {
    /// Name of the active state variant.
    pub state: Seq<char>,
    /// Connected address, if connected.
    pub url: Option<Seq<char>>,
    /// Whether a connected gateway is an owned sidecar; during bring-up,
    /// whether one is being launched.
    pub is_sidecar: bool,
    /// The last diagnostic, if the last attempt failed.
    pub error: Option<Seq<char>>,
}

/// Read-only snapshot of the gateway connection state, in the shape the
/// consumer displays: a state name, the address and sidecar flag when
/// connected, and the diagnostic when failed.
pub struct GatewayStatus {
    /// Name of the active state variant: `disconnected`, `starting`,
    /// `connected` or `failed`.
    pub state: String,
    /// Connected address, if connected.
    pub url: Option<String>,
    /// Whether a connected gateway is an owned sidecar; during bring-up,
    /// whether one is being launched.
    pub is_sidecar: bool,
    /// The last diagnostic, if the last attempt failed.
    pub error: Option<String>,
}

impl View for GatewayStatus {
    type V = StatusModel;

    open spec fn view(&self) -> StatusModel {
        StatusModel {
            state: self.state@,
            url: match self.url {
                Some(u) => Some(u@),
                None => None,
            },
            is_sidecar: self.is_sidecar,
            error: match self.error {
                Some(e) => Some(e@),
                None => None,
            },
        }
    }
}

/// A start request from the consumer: connect to `url` when one is given,
/// else bring up a sidecar.
pub struct StartGatewayRequest {
    /// Address of an external gateway to connect to, if any.
    pub url: Option<String>,
}

/// The snapshot each connection state maps to.
pub open spec fn spec_status_of(st: StateModel) -> StatusModel {
    match st {
        StateModel::Disconnected => StatusModel {
            state: "disconnected"@,
            url: None,
            is_sidecar: false,
            error: None,
        },
        StateModel::Starting => StatusModel {
            state: "starting"@,
            url: None,
            is_sidecar: true,
            error: None,
        },
        StateModel::Connected { url, is_sidecar } => StatusModel {
            state: "connected"@,
            url: Some(url),
            is_sidecar,
            error: None,
        },
        StateModel::Failed { error } => StatusModel {
            state: "failed"@,
            url: None,
            is_sidecar: false,
            error: Some(error),
        },
    }
}

/// The snapshot of one connection state.
pub fn status_of(st: &GatewayState) -> (r: GatewayStatus)
    ensures
        r@ == spec_status_of(st@),
{
    let r = match st {
        GatewayState::Disconnected => GatewayStatus {
            state: "disconnected".to_owned(),
            url: None,
            is_sidecar: false,
            error: None,
        },
        GatewayState::Starting => GatewayStatus {
            state: "starting".to_owned(),
            url: None,
            is_sidecar: true,
            error: None,
        },
        GatewayState::Connected { url, is_sidecar } => GatewayStatus {
            state: "connected".to_owned(),
            url: Some(url.clone()),
            is_sidecar: *is_sidecar,
            error: None,
        },
        GatewayState::Failed { error } => GatewayStatus {
            state: "failed".to_owned(),
            url: None,
            is_sidecar: false,
            error: Some(error.clone()),
        },
    };
    proof {
        assert(r@ =~= spec_status_of(st@));
    }
    r
}

impl Supervisor {
    /// Read-only snapshot of the current state, always reflecting the
    /// latest transition, including the last error while failed.
    pub fn status(&self) -> (r: GatewayStatus)
        ensures
            r@ == spec_status_of(self@.state),
    {
        status_of(self.state())
    }
}

} // verus!
