use sonos_deck::dispatch::{initialize, DispatchState, Step};
use sonos_deck::event::{decode_frame, Action, EventError, Frame, Log, SendEvent};

const PLAY_PAUSE: &str = "sh.viora.controller-for-sonos.play-pause";

fn key_up(action: &str, context: &str) -> String {
    format!(
        r#"{{"event":"keyUp","action":"{action}","context":"{context}","payload":{{"settings":{{}},"coordinates":{{"column":0,"row":0}},"isInMultiAction":false}}}}"#
    )
}

#[test]
fn registration_is_the_first_frame() {
    let mut c = initialize("UUID-1");
    assert_eq!(c.current_state(), DispatchState::Registered);
    let pending = c.take_pending();
    assert_eq!(pending.len(), 2);
    assert_eq!(pending[0], SendEvent::RegisterPlugin { uuid: "UUID-1".to_string() });
    assert!(matches!(pending[1], SendEvent::Log { .. }));
    assert!(matches!(pending[0].to_frame(), Frame::Binary(_)));
    assert!(matches!(pending[1].to_frame(), Frame::Text(_)));
    assert!(c.take_pending().is_empty());
}

#[test]
fn later_log_events_are_text_frames() {
    let mut c = initialize("u");
    c.take_pending();
    c.log("first");
    c.log("second");
    let pending = c.take_pending();
    assert_eq!(
        pending,
        vec![
            SendEvent::Log { payload: Log { message: "first".to_string() } },
            SendEvent::Log { payload: Log { message: "second".to_string() } },
        ]
    );
    for e in &pending {
        assert!(matches!(e.to_frame(), Frame::Text(_)));
    }
}

#[test]
fn unknown_action_does_not_halt_ingestion() {
    let mut c = initialize("u");
    let frames = [key_up("com.example.unknown", "c0"), "42".to_string(), key_up(PLAY_PAUSE, "c1")];
    let steps: Vec<Step> = frames.iter().map(|f| c.ingest(decode_frame(f))).collect();
    assert!(matches!(steps[0], Step::Report(EventError::UnknownAction)));
    assert!(matches!(steps[1], Step::Ignore));
    match &steps[2] {
        Step::Perform { action, context } => {
            assert_eq!(*action, Action::PlayPause);
            assert_eq!(context, "c1");
        }
        other => panic!("unexpected {other:?}"),
    }
    assert_eq!(c.current_state(), DispatchState::Running);
}

#[test]
fn key_down_and_other_events_are_ignored() {
    let mut c = initialize("u");
    let key_down = key_up(PLAY_PAUSE, "c").replace("keyUp", "keyDown");
    assert!(matches!(c.ingest(decode_frame(&key_down)), Step::Ignore));
    assert!(matches!(c.ingest(decode_frame(r#"{"event":"systemDidWakeUp"}"#)), Step::Ignore));
}

#[test]
fn connection_shuts_down_after_pending_events() {
    let mut c = initialize("u");
    c.close();
    assert_eq!(c.current_state(), DispatchState::ShuttingDown);
    assert!(!c.finish());
    c.take_pending();
    assert!(c.finish());
    assert_eq!(c.current_state(), DispatchState::Terminated);
}

#[test]
fn errors_anywhere_in_a_run_do_not_stop_later_key_releases() {
    let mut c = initialize("u");
    let frames = [
        "{bad json".to_string(),
        key_up(PLAY_PAUSE, "a"),
        key_up("com.example.unknown", "b"),
        r#"{"event":"nope"}"#.to_string(),
        "7".to_string(),
        key_up(PLAY_PAUSE, "c"),
    ];
    let performed: Vec<String> = frames
        .iter()
        .filter_map(|f| match c.ingest(decode_frame(f)) {
            Step::Perform { context, .. } => Some(context),
            _ => None,
        })
        .collect();
    assert_eq!(performed, vec!["a", "c"]);
    assert_eq!(c.current_state(), DispatchState::Running);
}
