//! Errors of the zone layer.

use vstd::prelude::*;

verus! {

/// A failure to reach or to command a zone.
#[derive(Debug)]
pub enum ControllerError {
    /// A control facet that a zone needs is missing on a device: the facet's
    /// name, then the device's name.
    ServiceUnavailable(String, String),
    /// The network exchange with the device failed.
    TransportError(rupnp::Error),
    /// A volume was absent or not an integer.
    VolumeError,
    /// A field that a response must hold was absent or not understood.
    MalformedResponse,
}

impl ControllerError {
    /// A sentence that describes the error.
    pub fn message(&self) -> (r: String)
        ensures
            self is TransportError ==> r@ == "transport error"@,
            self is VolumeError ==> r@ == "volume should be an integer between 0 and 100"@,
            self is MalformedResponse ==> r@ == "response malformed"@,
            self matches ControllerError::ServiceUnavailable(service, device) ==> r@ == "service "@
                + service@ + " not available on device "@ + device@,
    {
        match self {
            ControllerError::ServiceUnavailable(service, device) => {
                let r = String::from_str("service ");
                let r = r.concat(service.as_str());
                let r = r.concat(" not available on device ");
                r.concat(device.as_str())
            },
            ControllerError::TransportError(_) => String::from_str("transport error"),
            ControllerError::VolumeError => String::from_str(
                "volume should be an integer between 0 and 100",
            ),
            ControllerError::MalformedResponse => String::from_str("response malformed"),
        }
    }
}

} // verus!
