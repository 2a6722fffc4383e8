use sonos_deck::event::{
    decode_frame, Action, Coordinates, EventError, Frame, KeyPress, Log, Presence, ReceiveEvent, SendEvent,
};
use sonos_deck::json::Json;

const PLAY_PAUSE: &str = "sh.viora.controller-for-sonos.play-pause";

fn key_frame(event: &str, action: &str) -> String {
    format!(
        r#"{{"event":"{event}","action":"{action}","context":"ctx1","device":"dev1","payload":{{"settings":{{"a":1}},"coordinates":{{"column":2,"row":1}},"isInMultiAction":false}}}}"#
    )
}

fn expected_key_press() -> KeyPress {
    KeyPress {
        settings: Json::Object(vec![("a".to_string(), Json::Int(1))]),
        coordinates: Coordinates { column: 2, row: 1 },
        state: None,
        user_desired_state: None,
        is_in_multi_action: false,
    }
}

#[test]
fn action_from_identifier() {
    assert_eq!(Action::from_identifier(PLAY_PAUSE).unwrap(), Action::PlayPause);
    assert!(matches!(Action::from_identifier("play-pause"), Err(EventError::UnknownAction)));
    assert_eq!(Action::PlayPause.identifier(), PLAY_PAUSE);
}

#[test]
fn decode_key_up() {
    let e = ReceiveEvent::from_message(&key_frame("keyUp", PLAY_PAUSE)).unwrap();
    assert_eq!(
        e,
        ReceiveEvent::KeyUp { action: Action::PlayPause, context: "ctx1".to_string(), payload: expected_key_press() }
    );
}

#[test]
fn decode_key_down_with_states() {
    let text = format!(
        r#"{{"event":"keyDown","action":"{PLAY_PAUSE}","context":"c","payload":{{"settings":null,"coordinates":{{"column":0,"row":3}},"state":1,"userDesiredState":null,"isInMultiAction":true}}}}"#
    );
    let e = ReceiveEvent::from_message(&text).unwrap();
    let expected = KeyPress {
        settings: Json::Null,
        coordinates: Coordinates { column: 0, row: 3 },
        state: Some(1),
        user_desired_state: None,
        is_in_multi_action: true,
    };
    assert_eq!(e, ReceiveEvent::KeyDown { action: Action::PlayPause, context: "c".to_string(), payload: expected });
}

#[test]
fn decode_key_up_with_unknown_action() {
    let r = ReceiveEvent::from_message(&key_frame("keyUp", "com.example.other"));
    assert!(matches!(r, Err(EventError::UnknownAction)));
}

#[test]
fn decode_unknown_event() {
    let r = ReceiveEvent::from_message(r#"{"event":"titleParametersDidChange"}"#);
    assert!(matches!(r, Err(EventError::UnrecognizedEvent)));
}

#[test]
fn decode_missing_fields() {
    assert!(matches!(ReceiveEvent::from_message(r#"{"action":"x"}"#), Err(EventError::MissingData)));
    assert!(matches!(ReceiveEvent::from_message(r#"{"event":7}"#), Err(EventError::MissingData)));
    assert!(matches!(ReceiveEvent::from_message("[1,2]"), Err(EventError::MissingData)));
    let no_context = format!(r#"{{"event":"keyUp","action":"{PLAY_PAUSE}","payload":{{}}}}"#);
    assert!(matches!(ReceiveEvent::from_message(&no_context), Err(EventError::MissingData)));
    let bad_row = format!(
        r#"{{"event":"keyUp","action":"{PLAY_PAUSE}","context":"c","payload":{{"settings":{{}},"coordinates":{{"column":1,"row":"x"}},"isInMultiAction":false}}}}"#
    );
    assert!(matches!(ReceiveEvent::from_message(&bad_row), Err(EventError::MissingData)));
}

#[test]
fn decode_malformed_json() {
    assert!(matches!(ReceiveEvent::from_message("{not json"), Err(EventError::MalformedJson(_))));
    assert!(matches!(decode_frame(""), Err(EventError::MalformedJson(_))));
}

#[test]
fn decode_lifecycle_events() {
    assert_eq!(ReceiveEvent::from_message(r#"{"event":"systemDidWakeUp"}"#).unwrap(), ReceiveEvent::SystemDidWakeUp);
    assert_eq!(
        ReceiveEvent::from_message(r#"{"event":"propertyInspectorDidAppear","context":"c"}"#).unwrap(),
        ReceiveEvent::PropertyInspectorDidAppear
    );
    assert_eq!(
        ReceiveEvent::from_message(r#"{"event":"deviceDidConnect","device":"D1","deviceInfo":{}}"#).unwrap(),
        ReceiveEvent::DeviceDidConnect { device: "D1".to_string() }
    );
    assert_eq!(
        ReceiveEvent::from_message(r#"{"event":"didReceiveGlobalSettings","payload":{"settings":[true]}}"#).unwrap(),
        ReceiveEvent::DidReceiveGlobalSettings {
            payload: Json::Object(vec![("settings".to_string(), Json::Array(vec![Json::Bool(true)]))])
        }
    );
}

#[test]
fn decode_will_appear() {
    let text = format!(
        r#"{{"event":"willAppear","action":"{PLAY_PAUSE}","context":"c","device":"d","payload":{{"settings":{{}},"coordinates":{{"column":4,"row":0}},"controller":"Keypad","isInMultiAction":false}}}}"#
    );
    let e = ReceiveEvent::from_message(&text).unwrap();
    let expected = Presence {
        settings: Json::Object(vec![]),
        coordinates: Coordinates { column: 4, row: 0 },
        controller: "Keypad".to_string(),
        state: None,
        is_in_multi_action: false,
    };
    assert_eq!(
        e,
        ReceiveEvent::WillAppear {
            action: Action::PlayPause,
            context: "c".to_string(),
            device: "d".to_string(),
            payload: expected
        }
    );
}

#[test]
fn decode_numbers_outside_i64_keep_their_text() {
    let e = ReceiveEvent::from_message(r#"{"event":"didReceiveDeepLink","payload":1.5}"#).unwrap();
    assert_eq!(e, ReceiveEvent::DidReceiveDeepLink { payload: Json::Number("1.5".to_string()) });
}

#[test]
fn digits_only_frame_is_ignored() {
    assert!(matches!(decode_frame("12345"), Ok(None)));
    assert!(matches!(decode_frame("-3"), Ok(None)));
    assert!(matches!(decode_frame("123456789012345678901234567890"), Ok(None)));
}

#[test]
fn frame_with_event_is_decoded() {
    let r = decode_frame(&key_frame("keyUp", PLAY_PAUSE)).unwrap();
    assert!(matches!(r, Some(ReceiveEvent::KeyUp { action: Action::PlayPause, .. })));
}

#[test]
fn decoded_event_re_encodes_with_same_fields() {
    let frames = [
        key_frame("keyUp", PLAY_PAUSE),
        key_frame("keyDown", PLAY_PAUSE),
        format!(r#"{{"event":"sendToPlugin","action":"{PLAY_PAUSE}","context":"c","payload":{{"k":[1,"two",null]}}}}"#),
        format!(r#"{{"event":"didReceiveSettings","action":"{PLAY_PAUSE}","context":"c","device":"d","payload":{{}}}}"#),
        r#"{"event":"deviceDidDisconnect","device":"D2"}"#.to_string(),
    ];
    for frame in frames {
        let first = ReceiveEvent::from_message(&frame).unwrap();
        let again = ReceiveEvent::from_message(&frame).unwrap();
        let json = first.to_json();
        match &json {
            Json::Object(fields) => {
                let event = fields.iter().find(|(k, _)| k == "event").map(|(_, v)| v);
                let original: serde_json::Value = serde_json::from_str(&frame).unwrap();
                assert_eq!(event, Some(&Json::Str(original["event"].as_str().unwrap().to_string())));
            }
            other => panic!("not an object: {other:?}"),
        }
        assert_eq!(ReceiveEvent::from_json(json).unwrap(), again);
    }
}

#[test]
fn register_is_a_binary_frame() {
    let e = SendEvent::RegisterPlugin { uuid: "ABC".to_string() };
    assert!(e.is_binary());
    assert_eq!(e.to_frame(), Frame::Binary(br#"{"event":"registerPlugin","uuid":"ABC"}"#.to_vec()));
}

#[test]
fn log_is_a_text_frame() {
    let e = SendEvent::Log { payload: Log { message: "hi".to_string() } };
    assert!(!e.is_binary());
    assert_eq!(e.to_frame(), Frame::Text(r#"{"event":"logMessage","payload":{"message":"hi"}}"#.to_string()));
}

#[test]
fn encoded_strings_are_escaped() {
    let e = SendEvent::Log { payload: Log { message: "say \"hi\"\n".to_string() } };
    assert_eq!(e.to_text(), r#"{"event":"logMessage","payload":{"message":"say \"hi\"\n"}}"#);
    let control = SendEvent::RegisterPlugin { uuid: "a\u{1}b\\c\u{1f}\t".to_string() };
    assert_eq!(control.to_text(), r#"{"event":"registerPlugin","uuid":"a\u0001b\\c\u001f\t"}"#);
    assert_eq!(
        control.to_text(),
        format!(r#"{{"event":"registerPlugin","uuid":{}}}"#, serde_json::to_string("a\u{1}b\\c\u{1f}\t").unwrap())
    );
    let parsed: serde_json::Value = serde_json::from_str(&e.to_text()).unwrap();
    assert_eq!(parsed["payload"]["message"], "say \"hi\"\n");
}
