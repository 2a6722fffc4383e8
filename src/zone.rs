//! Zones: one addressable audio endpoint each, with the decisions of
//! discovery and of the play/pause toggle.

use crate::error::ControllerError;
use crate::services::{
    av_transport_type, missing_facet, rendering_control_type, toggle_of, AVTransport, AVTransportState, RenderingControl,
    TransportCommand,
};
use crate::upnp::{device_name, service_lookup};
use rupnp::Device;
use vstd::prelude::*;

verus! {

/// The service type that discovery searches for, and whose
/// `GetZoneGroupAttributes` action tells coordinators apart.
pub const ZONE_GROUP_TOPOLOGY: &'static str = "ZoneGroupTopology";
pub const ZONE_GROUP_ATTRIBUTES: &'static str = "GetZoneGroupAttributes";
pub const ZONE_GROUP_ATTRIBUTES_ARGS: &'static str = "";
pub const ZONE_GROUP_ID_FIELD: &'static str = "CurrentZoneGroupID";

/// A device with both control facets resolved.
#[derive(Debug)]
pub struct Zone {
    primary_device: Device,
    av_transport: AVTransport,
    rendering_control: RenderingControl,
}

impl Zone {
    /// The device that the zone commands.
    pub closed spec fn device(&self) -> Device {
        self.primary_device
    }

    /// The zone of a device: an error that names the first missing facet and
    /// the device where the device lacks one.
    pub fn from_device(primary_device: Device) -> (r: Result<Zone, ControllerError>)
        ensures
            r is Ok <==> offers_facets(primary_device),
            r matches Ok(z) ==> z.device() == primary_device,
            r matches Err(e) ==> facet_error(e, primary_device),
    {
        let av_transport = match AVTransport::from_device(&primary_device) {
            Ok(t) => t,
            Err(e) => return Err(e),
        };
        let rendering_control = match RenderingControl::from_device(&primary_device) {
            Ok(c) => c,
            Err(e) => return Err(e),
        };
        Ok(Zone { primary_device, av_transport, rendering_control })
    }

    /// The device's own name for itself.
    pub fn name(&self) -> (r: &str)
        ensures
            r@ == device_name(self.device()),
    {
        crate::upnp::friendly_name(&self.primary_device)
    }

    pub fn primary_device(&self) -> (r: &Device)
        ensures
            *r == self.device(),
    {
        &self.primary_device
    }

    pub fn av_transport(&self) -> &AVTransport {
        &self.av_transport
    }

    pub fn rendering_control(&self) -> &RenderingControl {
        &self.rendering_control
    }
}

/// Whether a device offers both control facets.
pub open spec fn offers_facets(d: Device) -> bool {
    service_lookup(d, av_transport_type()) is Some && service_lookup(d, rendering_control_type()) is Some
}

/// The error for a device that lacks a facet: it names the first facet
/// missing, the transport facet before the rendering one, and the device.
pub open spec fn facet_error(e: ControllerError, d: Device) -> bool {
    if service_lookup(d, av_transport_type()) is None {
        missing_facet(e, "AVTransport"@, d)
    } else {
        missing_facet(e, "RenderingControl"@, d)
    }
}

/// Whether every device that answered with a group identifier offers both
/// facets.
pub open spec fn coordinators_complete(replies: Seq<(Device, Option<String>)>) -> bool {
    forall|i: int| 0 <= i < replies.len() && (#[trigger] replies[i]).1 is Some ==> offers_facets(replies[i].0)
}

/// The devices that answered the group query with a group identifier, in
/// the order in which they answered.
pub open spec fn coordinator_devices(replies: Seq<(Device, Option<String>)>) -> Seq<Device>
    decreases replies.len(),
{
    if replies.len() == 0 {
        Seq::empty()
    } else {
        let rest = coordinator_devices(replies.drop_last());
        if replies.last().1 is Some {
            rest.push(replies.last().0)
        } else {
            rest
        }
    }
}

pub open spec fn zone_devices(zones: Seq<Zone>) -> Seq<Device> {
    zones.map_values(|z: Zone| z.device())
}

impl Zone {
    /// The zones among the devices that discovery found, each with what its
    /// group query answered in `CurrentZoneGroupID`. Devices without a group
    /// identifier are left out; the others become one zone each, in order. A
    /// kept device that lacks a facet is an error that names it.
    pub fn from_replies(replies: Vec<(Device, Option<String>)>) -> (r: Result<Vec<Zone>, ControllerError>)
        ensures
            r is Ok <==> coordinators_complete(replies@),
            r matches Ok(zones) ==> zone_devices(zones@) == coordinator_devices(replies@),
            r matches Err(e) ==> exists|i: int|
                0 <= i < replies@.len() && (#[trigger] replies@[i]).1 is Some && !offers_facets(replies@[i].0)
                    && facet_error(e, replies@[i].0),
            (forall|i: int| 0 <= i < replies@.len() ==> (#[trigger] replies@[i]).1 is None) ==> (r matches Ok(
                zones,
            ) && zones@.len() == 0),
    {
        let ghost all = replies@;
        let mut rest = replies;
        let mut zones: Vec<Zone> = Vec::new();
        let ghost mut i: int = 0;
        while rest.len() > 0
            invariant
                0 <= i <= all.len(),
                all == replies@,
                rest@ == all.subrange(i, all.len() as int),
                zone_devices(zones@) == coordinator_devices(all.subrange(0, i)),
                forall|k: int| 0 <= k < i && (#[trigger] all[k]).1 is Some ==> offers_facets(all[k].0),
            decreases rest.len(),
        {
            let (device, group) = rest.remove(0);
            proof {
                assert(all[i] == (device, group));
                assert(all.subrange(0, i + 1).drop_last() =~= all.subrange(0, i));
            }
            if group.is_some() {
                match Zone::from_device(device) {
                    Ok(z) => {
                        let ghost before = zones@;
                        zones.push(z);
                        assert(zone_devices(zones@) =~= zone_devices(before).push(z.device()));
                    },
                    Err(e) => {
                        assert(i < all.len() && all[i].1 is Some && !offers_facets(all[i].0));
                        return Err(e);
                    },
                }
            }
            proof {
                i = i + 1;
                assert(rest@ =~= all.subrange(i, all.len() as int));
            }
        }
        assert(all.subrange(0, i) =~= all);
        assert(coordinators_complete(all));
        proof {
            if forall|k: int| 0 <= k < all.len() ==> (#[trigger] all[k]).1 is None {
                lemma_no_coordinators_no_zones(all);
                assert(zone_devices(zones@).len() == zones@.len());
            }
        }
        Ok(zones)
    }
}

/// The zone that the bridge commands: the last one that discovery found, if
/// discovery succeeded and found any.
pub fn pick_zone(found: Result<Vec<Zone>, ControllerError>) -> (r: Option<Zone>)
    ensures
        found matches Ok(zones) ==> (zones@.len() > 0 ==> r == Some(zones@.last())) && (zones@.len() == 0
            ==> r is None),
        found is Err ==> r is None,
{
    match found {
        Ok(mut zones) => zones.pop(),
        Err(_) => None,
    }
}

/// Discovery with no devices, or with no device that answered with a group
/// identifier, finds no zones.
pub proof fn lemma_no_coordinators_no_zones(replies: Seq<(Device, Option<String>)>)
    requires
        forall|i: int| 0 <= i < replies.len() ==> (#[trigger] replies[i]).1 is None,
    ensures
        coordinator_devices(replies) == Seq::<Device>::empty(),
    decreases replies.len(),
{
    if replies.len() > 0 {
        let rest = replies.drop_last();
        assert forall|i: int| 0 <= i < rest.len() implies (#[trigger] rest[i]).1 is None by {
            assert(rest[i] == replies[i]);
        }
        lemma_no_coordinators_no_zones(rest);
        assert(replies.last() == replies[replies.len() - 1]);
    }
}

/// Where the toggle between playing and pausing stands.
#[derive(Debug, Clone, Copy, PartialEq, Eq, Structural)]
pub enum PlayPause {
    /// The transport's state has been asked for.
    AwaitingState,
    /// A command has been issued.
    AwaitingCommand,
    /// The toggle has ended.
    Done,
}

/// An answer from the zone.
#[derive(Debug)]
pub enum PlayPauseEvent {
    StateReply(Result<AVTransportState, ControllerError>),
    CommandReply(Result<(), ControllerError>),
}

/// What the caller is to do next.
#[derive(Debug)]
pub enum PlayPauseAction {
    /// Ask the transport for its state.
    QueryState,
    /// Issue this transport command.
    Issue(TransportCommand),
    /// The toggle ends with this outcome.
    Finish(Result<(), ControllerError>),
}

/// Whether a toggle in state `s` expects the answer `e`.
pub open spec fn expects(s: PlayPause, e: PlayPauseEvent) -> bool {
    match s {
        PlayPause::AwaitingState => e is StateReply,
        PlayPause::AwaitingCommand => e is CommandReply,
        PlayPause::Done => false,
    }
}

/// The toggle's next state and action on an answer that it expects: the
/// state decides the command, and every failure ends the toggle unchanged.
pub open spec fn play_pause_next(s: PlayPause, e: PlayPauseEvent) -> (PlayPause, PlayPauseAction) {
    match e {
        PlayPauseEvent::StateReply(Ok(st)) => (PlayPause::AwaitingCommand, PlayPauseAction::Issue(toggle_of(st))),
        PlayPauseEvent::StateReply(Err(err)) => (PlayPause::Done, PlayPauseAction::Finish(Err(err))),
        PlayPauseEvent::CommandReply(res) => (PlayPause::Done, PlayPauseAction::Finish(res)),
    }
}

impl PlayPause {
    /// A toggle begins by asking for the transport's state.
    pub fn start() -> (r: (PlayPause, PlayPauseAction))
        ensures
            r.0 == PlayPause::AwaitingState,
            r.1 is QueryState,
    {
        (PlayPause::AwaitingState, PlayPauseAction::QueryState)
    }

    /// The step that an answer leads to.
    pub fn on_event(self, event: PlayPauseEvent) -> (r: (PlayPause, PlayPauseAction))
        requires
            expects(self, event),
        ensures
            r == play_pause_next(self, event),
    {
        match event {
            PlayPauseEvent::StateReply(Ok(st)) => (PlayPause::AwaitingCommand, PlayPauseAction::Issue(st.toggle())),
            PlayPauseEvent::StateReply(Err(err)) => (PlayPause::Done, PlayPauseAction::Finish(Err(err))),
            PlayPauseEvent::CommandReply(res) => (PlayPause::Done, PlayPauseAction::Finish(res)),
        }
    }
}

/// A paused or stopped zone is told to play, a playing or transitioning one
/// to pause; an answer never leads to a second state query, and a failed
/// command ends the toggle with that very error.
pub proof fn lemma_play_pause(s: PlayPause, e: PlayPauseEvent)
    requires
        expects(s, e),
    ensures
        play_pause_next(s, PlayPauseEvent::StateReply(Ok(AVTransportState::Paused))).1
            == PlayPauseAction::Issue(TransportCommand::Play),
        play_pause_next(s, PlayPauseEvent::StateReply(Ok(AVTransportState::Stopped))).1
            == PlayPauseAction::Issue(TransportCommand::Play),
        play_pause_next(s, PlayPauseEvent::StateReply(Ok(AVTransportState::Playing))).1
            == PlayPauseAction::Issue(TransportCommand::Pause),
        play_pause_next(s, PlayPauseEvent::StateReply(Ok(AVTransportState::Transitioning))).1
            == PlayPauseAction::Issue(TransportCommand::Pause),
        !(play_pause_next(s, e).1 is QueryState),
        e matches PlayPauseEvent::CommandReply(Err(err)) ==> play_pause_next(s, e) == (
        PlayPause::Done,
        PlayPauseAction::Finish(Err(err)),
        ),
{
}

} // verus!
