use vstd::prelude::*;
use crate::piapi_handler::{AuthPiHoleAPI, DeviceCall, call_url};
use crate::response::{Reading, read_status, status_field};

verus! {

/// What a toggle does once the device's status has been read.
#[derive(Clone, Debug)]
pub enum ToggleStep {
    /// Send this one request to the given address.
    Call(DeviceCall, String),
    /// The status field holds a value that the device does not promise;
    /// nothing is sent.
    UnexpectedStatus(String),
    /// The reply has no status field; nothing is sent.
    MissingStatus,
    /// The status could not be read; nothing is sent.
    StatusUnavailable,
}

/// The status that a toggle reads, if the read succeeded.
pub open spec fn toggle_status(reply: Option<&Vec<(String, String)>>) -> Option<Option<Seq<char>>> {
    match reply {
        Some(pairs) => Some(status_field(pairs@)),
        None => None,
    }
}

/// `step` sends exactly the request `call` of `api`.
pub open spec fn sends(step: ToggleStep, api: AuthPiHoleAPI, call: DeviceCall) -> bool {
    step matches ToggleStep::Call(c, url) && c == call && url@ == call_url(
        api@.host,
        api@.key,
        call,
    )
}

/// `step` is what a toggle of `api` does on `reply`: blocking that is on is
/// turned off until enabled again, blocking that is off is turned on, and any
/// other reply is an anomaly on which nothing is sent.
pub open spec fn toggle_decided(
    step: ToggleStep,
    api: AuthPiHoleAPI,
    reply: Option<&Vec<(String, String)>>,
) -> bool {
    match toggle_status(reply) {
        None => step is StatusUnavailable,
        Some(None) => step is MissingStatus,
        Some(Some(v)) => if v == "enabled"@ {
            sends(step, api, DeviceCall::Disable(0))
        } else if v == "disabled"@ {
            sends(step, api, DeviceCall::Enable)
        } else {
            step matches ToggleStep::UnexpectedStatus(s) && s@ == v
        },
    }
}

/// Decides a toggle from the reply to the status request that it made
/// (`None` where that request failed).
pub fn toggle_pihole(api: &AuthPiHoleAPI, reply: Option<&Vec<(String, String)>>) -> (r: ToggleStep)
    ensures
        toggle_decided(r, *api, reply),
{
    match reply {
        None => ToggleStep::StatusUnavailable,
        Some(pairs) => match read_status(pairs) {
            Reading::Enabled => ToggleStep::Call(DeviceCall::Disable(0), api.disable_url(0)),
            Reading::Disabled => ToggleStep::Call(DeviceCall::Enable, api.enable_url()),
            Reading::Unexpected(v) => ToggleStep::UnexpectedStatus(v),
            Reading::Missing => ToggleStep::MissingStatus,
        },
    }
}

} // verus!
