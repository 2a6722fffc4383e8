//! The two control facets of a zone, and the commands sent through them.

use crate::decimal::decimal_digits;
use crate::error::ControllerError;
use crate::text::same_text;
use crate::upnp::{device_name, find_service, friendly_name, service_lookup, service_urn};
use crate::volume::{level_of_text, Volume};
use rupnp::ssdp::URN;
use rupnp::{Device, Service};
use vstd::prelude::*;

verus! {

/// The domain of the standard service types.
pub const UPNP_DOMAIN: &'static str = "schemas-upnp-org";

/// The facet that moves through the play queue.
#[derive(Debug)]
pub struct AVTransport {
    service: Service,
}

/// The facet that sets how the zone sounds.
#[derive(Debug)]
pub struct RenderingControl {
    service: Service,
}

/// The error for a facet that a device does not offer.
pub open spec fn unavailable(r: Result<Service, ControllerError>, facet: Seq<char>, device: Seq<char>) -> bool {
    r matches Err(ControllerError::ServiceUnavailable(f, d)) && f@ == facet && d@ == device
}

/// The facet service that a lookup found, or the error that names what is
/// missing where it found none.
pub fn facet_from_lookup(found: Option<Service>, facet: &str, device_name: &str) -> (r: Result<Service, ControllerError>)
    ensures
        found matches Some(s) ==> r == Ok::<Service, ControllerError>(s),
        found is None ==> unavailable(r, facet@, device_name@),
{
    match found {
        Some(s) => Ok(s),
        None => Err(ControllerError::ServiceUnavailable(String::from_str(facet), String::from_str(device_name))),
    }
}

/// The service type of the transport facet.
pub open spec fn av_transport_type() -> URN {
    service_urn("schemas-upnp-org"@, "AVTransport"@, 1)
}

/// The service type of the rendering facet.
pub open spec fn rendering_control_type() -> URN {
    service_urn("schemas-upnp-org"@, "RenderingControl"@, 1)
}

/// The error for a device that lacks the facet named `facet`.
pub open spec fn missing_facet(e: ControllerError, facet: Seq<char>, device: Device) -> bool {
    e matches ControllerError::ServiceUnavailable(f, d) && f@ == facet && d@ == device_name(device)
}

impl AVTransport {
    /// The service that the facet commands.
    pub closed spec fn found_service(&self) -> Service {
        self.service
    }

    /// The facet as it stands on a device: an error that names the facet and
    /// the device where the device does not offer it.
    pub fn from_device(device: &Device) -> (r: Result<AVTransport, ControllerError>)
        ensures
            match service_lookup(*device, av_transport_type()) {
                Some(s) => r matches Ok(t) && t.found_service() == s,
                None => r matches Err(e) && missing_facet(e, "AVTransport"@, *device),
            },
    {
        let urn = URN::service("schemas-upnp-org", "AVTransport", 1);
        let found = find_service(device, &urn);
        let name = friendly_name(device);
        match facet_from_lookup(found, "AVTransport", name) {
            Ok(service) => Ok(AVTransport { service }),
            Err(e) => Err(e),
        }
    }

    pub fn service(&self) -> (r: &Service)
        ensures
            *r == self.found_service(),
    {
        &self.service
    }
}

impl RenderingControl {
    /// The service that the facet commands.
    pub closed spec fn found_service(&self) -> Service {
        self.service
    }

    /// The facet as it stands on a device: an error that names the facet and
    /// the device where the device does not offer it.
    pub fn from_device(device: &Device) -> (r: Result<RenderingControl, ControllerError>)
        ensures
            match service_lookup(*device, rendering_control_type()) {
                Some(s) => r matches Ok(c) && c.found_service() == s,
                None => r matches Err(e) && missing_facet(e, "RenderingControl"@, *device),
            },
    {
        let urn = URN::service("schemas-upnp-org", "RenderingControl", 1);
        let found = find_service(device, &urn);
        let name = friendly_name(device);
        match facet_from_lookup(found, "RenderingControl", name) {
            Ok(service) => Ok(RenderingControl { service }),
            Err(e) => Err(e),
        }
    }

    pub fn service(&self) -> (r: &Service)
        ensures
            *r == self.found_service(),
    {
        &self.service
    }
}

/// What a zone's transport is doing.
#[derive(Debug, Clone, Copy, PartialEq, Eq, Structural)]
pub enum AVTransportState {
    Playing,
    Paused,
    Stopped,
    Transitioning,
}

/// The state that a transport reports under a given name.
pub open spec fn state_named(name: Seq<char>) -> Option<AVTransportState> {
    if name == "PLAYING"@ {
        Some(AVTransportState::Playing)
    } else if name == "PAUSED_PLAYBACK"@ {
        Some(AVTransportState::Paused)
    } else if name == "STOPPED"@ {
        Some(AVTransportState::Stopped)
    } else if name == "TRANSITIONING"@ {
        Some(AVTransportState::Transitioning)
    } else {
        None
    }
}

impl AVTransportState {
    /// The state that the response field `CurrentTransportState` holds.
    pub fn from_response(value: Option<&String>) -> (r: Result<AVTransportState, ControllerError>)
        ensures
            value is None ==> r matches Err(ControllerError::MalformedResponse),
            value matches Some(s) ==> match state_named(s@) {
                Some(st) => r == Ok::<AVTransportState, ControllerError>(st),
                None => r matches Err(ControllerError::MalformedResponse),
            },
    {
        match value {
            None => Err(ControllerError::MalformedResponse),
            Some(s) => {
                let s = s.as_str();
                if same_text(s, "PLAYING") {
                    Ok(AVTransportState::Playing)
                } else if same_text(s, "PAUSED_PLAYBACK") {
                    Ok(AVTransportState::Paused)
                } else if same_text(s, "STOPPED") {
                    Ok(AVTransportState::Stopped)
                } else if same_text(s, "TRANSITIONING") {
                    Ok(AVTransportState::Transitioning)
                } else {
                    Err(ControllerError::MalformedResponse)
                }
            },
        }
    }

    /// The command that toggles between playing and pausing from this state.
    pub fn toggle(&self) -> (r: TransportCommand)
        ensures
            r == toggle_of(*self),
    {
        match self {
            AVTransportState::Paused | AVTransportState::Stopped => TransportCommand::Play,
            AVTransportState::Playing | AVTransportState::Transitioning => TransportCommand::Pause,
        }
    }
}

pub open spec fn toggle_of(s: AVTransportState) -> TransportCommand {
    match s {
        AVTransportState::Paused | AVTransportState::Stopped => TransportCommand::Play,
        AVTransportState::Playing | AVTransportState::Transitioning => TransportCommand::Pause,
    }
}

/// A command of the transport facet whose answer carries nothing.
#[derive(Debug, Clone, Copy, PartialEq, Eq, Structural)]
pub enum TransportCommand {
    Play,
    Pause,
    Next,
    Previous,
}

impl TransportCommand {
    /// The name of the action on the transport service.
    pub fn action_name(&self) -> (r: &'static str)
        ensures
            *self == TransportCommand::Play ==> r@ == "Play"@,
            *self == TransportCommand::Pause ==> r@ == "Pause"@,
            *self == TransportCommand::Next ==> r@ == "Next"@,
            *self == TransportCommand::Previous ==> r@ == "Previous"@,
    {
        match self {
            TransportCommand::Play => "Play",
            TransportCommand::Pause => "Pause",
            TransportCommand::Next => "Next",
            TransportCommand::Previous => "Previous",
        }
    }

    /// The arguments of the action: the transport instance, and for playing
    /// the normal speed.
    pub fn arguments(&self) -> (r: &'static str)
        ensures
            *self == TransportCommand::Play ==> r@ == "<InstanceID>0</InstanceID><Speed>1</Speed>"@,
            *self != TransportCommand::Play ==> r@ == "<InstanceID>0</InstanceID>"@,
    {
        match self {
            TransportCommand::Play => "<InstanceID>0</InstanceID><Speed>1</Speed>",
            _ => "<InstanceID>0</InstanceID>",
        }
    }
}

/// The query of the transport's state: action, arguments, and the response
/// field that holds the answer.
pub const GET_TRANSPORT_INFO: &'static str = "GetTransportInfo";
pub const GET_TRANSPORT_INFO_ARGS: &'static str = "<InstanceID>0</InstanceID>";
pub const TRANSPORT_STATE_FIELD: &'static str = "CurrentTransportState";

/// The query of the volume: action, arguments, and the response field that
/// holds the answer.
pub const GET_VOLUME: &'static str = "GetVolume";
pub const GET_VOLUME_ARGS: &'static str = "<InstanceID>0</InstanceID><Channel>Master</Channel>";
pub const VOLUME_FIELD: &'static str = "CurrentVolume";

/// The action that sets the volume.
pub const SET_VOLUME: &'static str = "SetVolume";

/// The arguments that set the master channel to `volume`.
pub open spec fn set_volume_args_of(level: nat) -> Seq<char> {
    "<InstanceID>0</InstanceID><Channel>Master</Channel><DesiredVolume>"@ + decimal_digits(level)
        + "</DesiredVolume>"@
}

impl RenderingControl {
    /// The arguments of the action that sets the master channel to `volume`.
    pub fn set_volume_arguments(volume: &Volume) -> (r: String)
        ensures
            r@ == set_volume_args_of(volume@),
    {
        let r = String::from_str("<InstanceID>0</InstanceID><Channel>Master</Channel><DesiredVolume>");
        let digits = volume.to_decimal();
        let r = r.concat(digits.as_str());
        r.concat("</DesiredVolume>")
    }

    /// The volume that a `GetVolume` response holds in its `CurrentVolume`
    /// field.
    pub fn volume_from_response(value: Option<&String>) -> (r: Result<Volume, ControllerError>)
        ensures
            value is None ==> r matches Err(ControllerError::VolumeError),
            value matches Some(s) ==> match level_of_text(s@) {
                Some(n) => r matches Ok(v) && v@ == n,
                None => r matches Err(ControllerError::VolumeError),
            },
    {
        Volume::try_from(value)
    }
}

} // verus!
