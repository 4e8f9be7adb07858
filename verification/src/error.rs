//! The bridge's error taxonomy. Every failure of a run is one value of
//! [`BridgeError`]; a single top-level handler decides the exit, guided by
//! [`is_fatal`]: everything ends the run except a render failure that
//! happens after the initial startup render.

use vstd::prelude::*;
use vstd::string::StringExecFns;

verus! {

/// Everything that can go wrong in one run of the bridge. The `detail`
/// payloads carry the reporting client's own text.
#[derive(Debug)]
pub enum BridgeError {
    /// The discovery query itself failed.
    Discovery { detail: String },
    /// Discovery found no device and none was requested by identifier.
    NoDevices,
    /// A device was requested by identifier and no discovered device has it.
    DeviceNotFound { device_id: String },
    /// The verification step of the device-authorization flow failed.
    Verification { detail: String },
    /// Polling for the user's approval failed or timed out.
    Authentication { detail: String },
    /// The event subscription could not be opened.
    Subscription { detail: String },
    /// A render command was not acknowledged by the display.
    Render { detail: String },
}

/// The human-readable report for each error.
pub open spec fn spec_message(e: BridgeError) -> Seq<char> {
    match e {
        BridgeError::Discovery { detail } => "Error while looking for Divoom devices: "@ + detail@,
        BridgeError::NoDevices => "No Pixoo device found!"@,
        BridgeError::DeviceNotFound { device_id } => "No Divoom device found with ID "@
            + device_id@,
        BridgeError::Verification { detail } => "Error obtaining verification token: "@ + detail@,
        BridgeError::Authentication { detail } => "Failure authenticating: "@ + detail@,
        BridgeError::Subscription { detail } => "Error trying to listen to Webex events: "@
            + detail@,
        BridgeError::Render { detail } => "Not able to play gif: "@ + detail@,
    }
}

impl BridgeError {
    /// Render the error as one line for the operator.
    pub fn message(&self) -> (r: String)
        ensures
            r@ == spec_message(*self),
    {
        match self {
            BridgeError::Discovery { detail } => {
                let mut m: String = String::from_str("Error while looking for Divoom devices: ");
                m.append(detail.as_str());
                m
            },
            BridgeError::NoDevices => String::from_str("No Pixoo device found!"),
            BridgeError::DeviceNotFound { device_id } => {
                let mut m: String = String::from_str("No Divoom device found with ID ");
                m.append(device_id.as_str());
                m
            },
            BridgeError::Verification { detail } => {
                let mut m: String = String::from_str("Error obtaining verification token: ");
                m.append(detail.as_str());
                m
            },
            BridgeError::Authentication { detail } => {
                let mut m: String = String::from_str("Failure authenticating: ");
                m.append(detail.as_str());
                m
            },
            BridgeError::Subscription { detail } => {
                let mut m: String = String::from_str("Error trying to listen to Webex events: ");
                m.append(detail.as_str());
                m
            },
            BridgeError::Render { detail } => {
                let mut m: String = String::from_str("Not able to play gif: ");
                m.append(detail.as_str());
                m
            },
        }
    }
}

/// Whether an error ends the run: every error is fatal except a render
/// failure once the event loop has started.
pub open spec fn spec_is_fatal(e: BridgeError, during_event_loop: bool) -> bool {
    !(e is Render && during_event_loop)
}

/// Decide whether the run stops on this error. A render failure during the
/// event loop is reported and the loop goes on awaiting the next event;
/// every other failure, the initial startup render included, is fatal.
pub fn is_fatal(e: &BridgeError, during_event_loop: bool) -> (r: bool)
    ensures
        r == spec_is_fatal(*e, during_event_loop),
{
    match e {
        BridgeError::Render { detail: _ } => !during_event_loop,
        _ => true,
    }
}

} // verus!
