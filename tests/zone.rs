use sonos_deck::error::ControllerError;
use sonos_deck::services::{facet_from_lookup, AVTransportState, TransportCommand};
use sonos_deck::zone::{pick_zone, PlayPause, PlayPauseAction, PlayPauseEvent, Zone};

fn run_toggle(state: Result<AVTransportState, ControllerError>, command: Result<(), ControllerError>) -> (Vec<String>, Result<(), ControllerError>) {
    let mut calls = Vec::new();
    let mut state = Some(state);
    let mut command = Some(command);
    let (mut machine, mut action) = PlayPause::start();
    loop {
        match action {
            PlayPauseAction::QueryState => {
                calls.push("query".to_string());
                let reply = state.take().expect("state queried twice");
                (machine, action) = machine.on_event(PlayPauseEvent::StateReply(reply));
            }
            PlayPauseAction::Issue(cmd) => {
                calls.push(cmd.action_name().to_string());
                let reply = command.take().expect("command issued twice");
                (machine, action) = machine.on_event(PlayPauseEvent::CommandReply(reply));
            }
            PlayPauseAction::Finish(r) => {
                assert_eq!(machine, PlayPause::Done);
                return (calls, r);
            }
        }
    }
}

#[test]
fn play_pause_plays_when_paused() {
    let (calls, r) = run_toggle(Ok(AVTransportState::Paused), Ok(()));
    assert_eq!(calls, vec!["query", "Play"]);
    assert!(r.is_ok());
}

#[test]
fn play_pause_plays_when_stopped() {
    let (calls, _) = run_toggle(Ok(AVTransportState::Stopped), Ok(()));
    assert_eq!(calls, vec!["query", "Play"]);
}

#[test]
fn play_pause_pauses_when_playing() {
    let (calls, r) = run_toggle(Ok(AVTransportState::Playing), Ok(()));
    assert_eq!(calls, vec!["query", "Pause"]);
    assert!(r.is_ok());
}

#[test]
fn play_pause_pauses_when_transitioning() {
    let (calls, _) = run_toggle(Ok(AVTransportState::Transitioning), Ok(()));
    assert_eq!(calls, vec!["query", "Pause"]);
}

#[test]
fn play_pause_command_failure_propagates_without_second_query() {
    let (calls, r) = run_toggle(Ok(AVTransportState::Paused), Err(ControllerError::MalformedResponse));
    assert_eq!(calls, vec!["query", "Play"]);
    assert!(matches!(r, Err(ControllerError::MalformedResponse)));
}

#[test]
fn play_pause_state_failure_issues_no_command() {
    let (calls, r) = run_toggle(Err(ControllerError::VolumeError), Ok(()));
    assert_eq!(calls, vec!["query"]);
    assert!(matches!(r, Err(ControllerError::VolumeError)));
}

#[test]
fn transport_state_from_response() {
    let cases = [
        ("PLAYING", AVTransportState::Playing),
        ("PAUSED_PLAYBACK", AVTransportState::Paused),
        ("STOPPED", AVTransportState::Stopped),
        ("TRANSITIONING", AVTransportState::Transitioning),
    ];
    for (text, state) in cases {
        let text = String::from(text);
        assert_eq!(AVTransportState::from_response(Some(&text)).unwrap(), state);
    }
    let odd = String::from("playing");
    assert!(matches!(AVTransportState::from_response(Some(&odd)), Err(ControllerError::MalformedResponse)));
    assert!(matches!(AVTransportState::from_response(None), Err(ControllerError::MalformedResponse)));
}

#[test]
fn toggle_command_of_each_state() {
    assert_eq!(AVTransportState::Paused.toggle(), TransportCommand::Play);
    assert_eq!(AVTransportState::Stopped.toggle(), TransportCommand::Play);
    assert_eq!(AVTransportState::Playing.toggle(), TransportCommand::Pause);
    assert_eq!(AVTransportState::Transitioning.toggle(), TransportCommand::Pause);
}

#[test]
fn transport_command_actions() {
    assert_eq!(TransportCommand::Play.action_name(), "Play");
    assert_eq!(TransportCommand::Pause.action_name(), "Pause");
    assert_eq!(TransportCommand::Next.action_name(), "Next");
    assert_eq!(TransportCommand::Previous.action_name(), "Previous");
    assert_eq!(TransportCommand::Play.arguments(), "<InstanceID>0</InstanceID><Speed>1</Speed>");
    assert_eq!(TransportCommand::Next.arguments(), "<InstanceID>0</InstanceID>");
}

#[test]
fn discovery_with_no_devices_is_empty() {
    let zones = Zone::from_replies(Vec::new()).unwrap();
    assert!(zones.is_empty());
}

#[test]
fn missing_facet_is_reported() {
    let r = facet_from_lookup(None, "AVTransport", "Kitchen");
    match r {
        Err(e @ ControllerError::ServiceUnavailable(..)) => {
            assert_eq!(e.message(), "service AVTransport not available on device Kitchen");
        }
        other => panic!("unexpected {other:?}"),
    }
}

#[test]
fn error_messages() {
    assert_eq!(ControllerError::VolumeError.message(), "volume should be an integer between 0 and 100");
    assert_eq!(ControllerError::MalformedResponse.message(), "response malformed");
}

#[test]
fn no_zone_is_picked_without_zones() {
    assert!(pick_zone(Ok(Vec::new())).is_none());
    assert!(pick_zone(Err(ControllerError::MalformedResponse)).is_none());
}
