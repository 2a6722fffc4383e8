//! The event protocol: the events that the host sends and receives, and
//! their decoding from and encoding to wire frames.

use crate::decimal::{all_digits, is_integer, is_integer_text};
use crate::json::{field, get, json_string_literal, parse_json, parsed_json, quote_json, take, Json};
use vstd::utf8::encode_utf8;
use crate::text::same_text;
use vstd::prelude::*;

verus! {

/// A remote-control action that this bridge knows.
#[derive(Debug, Clone, Copy, PartialEq, Eq, Structural)]
pub enum Action {
    PlayPause,
}

/// The action that the host names with `id`.
pub open spec fn action_named(id: Seq<char>) -> Option<Action> {
    if id == "sh.viora.controller-for-sonos.play-pause"@ {
        Some(Action::PlayPause)
    } else {
        None
    }
}

impl Action {
    /// The action that the host names with `identifier`.
    pub fn from_identifier(identifier: &str) -> (r: Result<Action, EventError>)
        ensures
            match action_named(identifier@) {
                Some(a) => r == Ok::<Action, EventError>(a),
                None => r matches Err(EventError::UnknownAction),
            },
    {
        if same_text(identifier, "sh.viora.controller-for-sonos.play-pause") {
            Ok(Action::PlayPause)
        } else {
            Err(EventError::UnknownAction)
        }
    }

    /// The name under which the host knows this action.
    pub fn identifier(&self) -> (r: &'static str)
        ensures
            action_named(r@) == Some(*self),
    {
        "sh.viora.controller-for-sonos.play-pause"
    }
}

/// Where a key sits on the device.
#[derive(Debug, Clone, Copy, PartialEq, Eq, Structural)]
pub struct Coordinates {
    pub column: i32,
    pub row: i32,
}

/// What a key press reports.
#[derive(Debug, PartialEq)]
pub struct KeyPress {
    pub settings: Json,
    pub coordinates: Coordinates,
    pub state: Option<i32>,
    pub user_desired_state: Option<i32>,
    pub is_in_multi_action: bool,
}

/// What an action's appearing or disappearing reports.
#[derive(Debug, PartialEq)]
pub struct Presence {
    pub settings: Json,
    pub coordinates: Coordinates,
    pub controller: String,
    pub state: Option<i32>,
    pub is_in_multi_action: bool,
}

/// The text of a diagnostic message for the host's log.
#[derive(Debug, Clone, PartialEq)]
pub struct Log {
    pub message: String,
}

/// An event that the host sends.
#[derive(Debug, PartialEq)]
pub enum ReceiveEvent {
    DidReceiveSettings { action: Action, context: String, device: String, payload: Json },
    DidReceiveGlobalSettings { payload: Json },
    DidReceiveDeepLink { payload: Json },
    KeyDown { action: Action, context: String, payload: KeyPress },
    KeyUp { action: Action, context: String, payload: KeyPress },
    WillAppear { action: Action, context: String, device: String, payload: Presence },
    WillDisappear { action: Action, context: String, device: String, payload: Presence },
    DeviceDidConnect { device: String },
    DeviceDidDisconnect { device: String },
    PropertyInspectorDidAppear,
    PropertyInspectorDidDisappear,
    SystemDidWakeUp,
    SendToPlugin { action: Action, context: String, payload: Json },
}

/// An event sent to the host.
#[derive(Debug, Clone, PartialEq)]
pub enum SendEvent {
    RegisterPlugin { uuid: String },
    Log { payload: Log },
}

/// A failure of the event protocol.
#[derive(Debug)]
pub enum EventError {
    /// The event's name is not one of the protocol's.
    UnrecognizedEvent,
    /// The frame is not JSON.
    MalformedJson(serde_json::Error),
    /// A field is absent or of the wrong kind.
    MissingData,
    /// The action's identifier is not one that this bridge knows.
    UnknownAction,
    /// The handler of an event failed, for the reason given.
    HandlerFailed(String),
    /// An event could not be handed on for sending.
    SendError(SendEvent),
    /// A frame could not be read from the connection, for the reason given.
    ReadError(String),
}

pub type StreamDeckError = EventError;

// Reading fields. Each reader gives `MissingData` where the field is absent
// or of the wrong kind.

pub open spec fn str_of(v: Option<Json>) -> Result<String, EventError> {
    match v {
        Some(Json::Str(s)) => Ok(s),
        _ => Err(EventError::MissingData),
    }
}

pub open spec fn fits_i32(i: i64) -> bool {
    i32::MIN <= i && i <= i32::MAX
}

pub open spec fn i32_of(v: Option<Json>) -> Result<i32, EventError> {
    match v {
        Some(Json::Int(i)) => if fits_i32(i) {
            Ok(i as i32)
        } else {
            Err(EventError::MissingData)
        },
        _ => Err(EventError::MissingData),
    }
}

/// An optional integer: absent and `null` are both `None`.
pub open spec fn opt_i32_of(v: Option<Json>) -> Result<Option<i32>, EventError> {
    match v {
        None => Ok(None),
        Some(Json::Null) => Ok(None),
        Some(Json::Int(i)) => if fits_i32(i) {
            Ok(Some(i as i32))
        } else {
            Err(EventError::MissingData)
        },
        _ => Err(EventError::MissingData),
    }
}

pub open spec fn bool_of(v: Option<Json>) -> Result<bool, EventError> {
    match v {
        Some(Json::Bool(b)) => Ok(b),
        _ => Err(EventError::MissingData),
    }
}

pub open spec fn any_of(v: Option<Json>) -> Result<Json, EventError> {
    match v {
        Some(j) => Ok(j),
        None => Err(EventError::MissingData),
    }
}

/// An action field: a string that names a known action.
pub open spec fn action_of(v: Option<Json>) -> Result<Action, EventError> {
    match str_of(v) {
        Ok(s) => match action_named(s@) {
            Some(a) => Ok(a),
            None => Err(EventError::UnknownAction),
        },
        Err(e) => Err(e),
    }
}

pub open spec fn coordinates_of(v: Option<Json>) -> Result<Coordinates, EventError> {
    match v {
        Some(Json::Object(fs)) => match (i32_of(field(fs@, "column"@)), i32_of(field(fs@, "row"@))) {
            (Ok(column), Ok(row)) => Ok(Coordinates { column, row }),
            (Err(e), _) => Err(e),
            (_, Err(e)) => Err(e),
        },
        _ => Err(EventError::MissingData),
    }
}

/// A key press payload; its fields are read in the order written here.
pub open spec fn key_press_of(v: Option<Json>) -> Result<KeyPress, EventError> {
    match v {
        Some(Json::Object(fs)) => match (
            coordinates_of(field(fs@, "coordinates"@)),
            opt_i32_of(field(fs@, "state"@)),
            opt_i32_of(field(fs@, "userDesiredState"@)),
            bool_of(field(fs@, "isInMultiAction"@)),
            any_of(field(fs@, "settings"@)),
        ) {
            (Ok(coordinates), Ok(state), Ok(user_desired_state), Ok(is_in_multi_action), Ok(settings)) => Ok(
                KeyPress { settings, coordinates, state, user_desired_state, is_in_multi_action },
            ),
            (Err(e), _, _, _, _) => Err(e),
            (_, Err(e), _, _, _) => Err(e),
            (_, _, Err(e), _, _) => Err(e),
            (_, _, _, Err(e), _) => Err(e),
            (_, _, _, _, Err(e)) => Err(e),
        },
        _ => Err(EventError::MissingData),
    }
}

/// A presence payload; its fields are read in the order written here.
pub open spec fn presence_of(v: Option<Json>) -> Result<Presence, EventError> {
    match v {
        Some(Json::Object(fs)) => match (
            coordinates_of(field(fs@, "coordinates"@)),
            str_of(field(fs@, "controller"@)),
            opt_i32_of(field(fs@, "state"@)),
            bool_of(field(fs@, "isInMultiAction"@)),
            any_of(field(fs@, "settings"@)),
        ) {
            (Ok(coordinates), Ok(controller), Ok(state), Ok(is_in_multi_action), Ok(settings)) => Ok(
                Presence { settings, coordinates, controller, state, is_in_multi_action },
            ),
            (Err(e), _, _, _, _) => Err(e),
            (_, Err(e), _, _, _) => Err(e),
            (_, _, Err(e), _, _) => Err(e),
            (_, _, _, Err(e), _) => Err(e),
            (_, _, _, _, Err(e)) => Err(e),
        },
        _ => Err(EventError::MissingData),
    }
}

// The readers as executable functions.

fn read_str(fs: &Vec<(String, Json)>, key: &str) -> (r: Result<String, EventError>)
    ensures
        r == str_of(field(fs@, key@)),
{
    match get(fs, key) {
        Some(Json::Str(s)) => Ok(s.clone()),
        _ => Err(EventError::MissingData),
    }
}

fn read_i32(fs: &Vec<(String, Json)>, key: &str) -> (r: Result<i32, EventError>)
    ensures
        r == i32_of(field(fs@, key@)),
{
    match get(fs, key) {
        Some(Json::Int(i)) => if i32::MIN as i64 <= *i && *i <= i32::MAX as i64 {
            Ok(*i as i32)
        } else {
            Err(EventError::MissingData)
        },
        _ => Err(EventError::MissingData),
    }
}

fn read_opt_i32(fs: &Vec<(String, Json)>, key: &str) -> (r: Result<Option<i32>, EventError>)
    ensures
        r == opt_i32_of(field(fs@, key@)),
{
    match get(fs, key) {
        None => Ok(None),
        Some(Json::Null) => Ok(None),
        Some(Json::Int(i)) => if i32::MIN as i64 <= *i && *i <= i32::MAX as i64 {
            Ok(Some(*i as i32))
        } else {
            Err(EventError::MissingData)
        },
        _ => Err(EventError::MissingData),
    }
}

fn read_bool(fs: &Vec<(String, Json)>, key: &str) -> (r: Result<bool, EventError>)
    ensures
        r == bool_of(field(fs@, key@)),
{
    match get(fs, key) {
        Some(Json::Bool(b)) => Ok(*b),
        _ => Err(EventError::MissingData),
    }
}

fn read_action(fs: &Vec<(String, Json)>, key: &str) -> (r: Result<Action, EventError>)
    ensures
        r == action_of(field(fs@, key@)),
{
    match get(fs, key) {
        Some(Json::Str(s)) => Action::from_identifier(s.as_str()),
        _ => Err(EventError::MissingData),
    }
}

fn read_coordinates(fs: &Vec<(String, Json)>, key: &str) -> (r: Result<Coordinates, EventError>)
    ensures
        r == coordinates_of(field(fs@, key@)),
{
    match get(fs, key) {
        Some(Json::Object(inner)) => {
            let column = match read_i32(inner, "column") {
                Ok(c) => c,
                Err(e) => return Err(e),
            };
            let row = match read_i32(inner, "row") {
                Ok(r) => r,
                Err(e) => return Err(e),
            };
            Ok(Coordinates { column, row })
        },
        _ => Err(EventError::MissingData),
    }
}

fn take_any(fs: Vec<(String, Json)>, key: &str) -> (r: Result<Json, EventError>)
    ensures
        r == any_of(field(fs@, key@)),
{
    match take(fs, key) {
        Some(j) => Ok(j),
        None => Err(EventError::MissingData),
    }
}

fn read_key_press(v: Option<Json>) -> (r: Result<KeyPress, EventError>)
    ensures
        r == key_press_of(v),
{
    match v {
        Some(Json::Object(fs)) => {
            let coordinates = match read_coordinates(&fs, "coordinates") {
                Ok(c) => c,
                Err(e) => return Err(e),
            };
            let state = match read_opt_i32(&fs, "state") {
                Ok(s) => s,
                Err(e) => return Err(e),
            };
            let user_desired_state = match read_opt_i32(&fs, "userDesiredState") {
                Ok(s) => s,
                Err(e) => return Err(e),
            };
            let is_in_multi_action = match read_bool(&fs, "isInMultiAction") {
                Ok(b) => b,
                Err(e) => return Err(e),
            };
            let settings = match take_any(fs, "settings") {
                Ok(s) => s,
                Err(e) => return Err(e),
            };
            Ok(KeyPress { settings, coordinates, state, user_desired_state, is_in_multi_action })
        },
        _ => Err(EventError::MissingData),
    }
}

fn read_presence(v: Option<Json>) -> (r: Result<Presence, EventError>)
    ensures
        r == presence_of(v),
{
    match v {
        Some(Json::Object(fs)) => {
            let coordinates = match read_coordinates(&fs, "coordinates") {
                Ok(c) => c,
                Err(e) => return Err(e),
            };
            let controller = match read_str(&fs, "controller") {
                Ok(s) => s,
                Err(e) => return Err(e),
            };
            let state = match read_opt_i32(&fs, "state") {
                Ok(s) => s,
                Err(e) => return Err(e),
            };
            let is_in_multi_action = match read_bool(&fs, "isInMultiAction") {
                Ok(b) => b,
                Err(e) => return Err(e),
            };
            let settings = match take_any(fs, "settings") {
                Ok(s) => s,
                Err(e) => return Err(e),
            };
            Ok(Presence { settings, coordinates, controller, state, is_in_multi_action })
        },
        _ => Err(EventError::MissingData),
    }
}

// Events by their discriminator.

pub open spec fn key_event_of(fs: Seq<(String, Json)>, up: bool) -> Result<ReceiveEvent, EventError> {
    match (action_of(field(fs, "action"@)), str_of(field(fs, "context"@)), key_press_of(field(fs, "payload"@))) {
        (Ok(action), Ok(context), Ok(payload)) => Ok(
            if up {
                ReceiveEvent::KeyUp { action, context, payload }
            } else {
                ReceiveEvent::KeyDown { action, context, payload }
            },
        ),
        (Err(e), _, _) => Err(e),
        (_, Err(e), _) => Err(e),
        (_, _, Err(e)) => Err(e),
    }
}

pub open spec fn presence_event_of(fs: Seq<(String, Json)>, appear: bool) -> Result<ReceiveEvent, EventError> {
    match (
        action_of(field(fs, "action"@)),
        str_of(field(fs, "context"@)),
        str_of(field(fs, "device"@)),
        presence_of(field(fs, "payload"@)),
    ) {
        (Ok(action), Ok(context), Ok(device), Ok(payload)) => Ok(
            if appear {
                ReceiveEvent::WillAppear { action, context, device, payload }
            } else {
                ReceiveEvent::WillDisappear { action, context, device, payload }
            },
        ),
        (Err(e), _, _, _) => Err(e),
        (_, Err(e), _, _) => Err(e),
        (_, _, Err(e), _) => Err(e),
        (_, _, _, Err(e)) => Err(e),
    }
}

pub open spec fn settings_event_of(fs: Seq<(String, Json)>) -> Result<ReceiveEvent, EventError> {
    match (
        action_of(field(fs, "action"@)),
        str_of(field(fs, "context"@)),
        str_of(field(fs, "device"@)),
        any_of(field(fs, "payload"@)),
    ) {
        (Ok(action), Ok(context), Ok(device), Ok(payload)) => Ok(
            ReceiveEvent::DidReceiveSettings { action, context, device, payload },
        ),
        (Err(e), _, _, _) => Err(e),
        (_, Err(e), _, _) => Err(e),
        (_, _, Err(e), _) => Err(e),
        (_, _, _, Err(e)) => Err(e),
    }
}

pub open spec fn to_plugin_event_of(fs: Seq<(String, Json)>) -> Result<ReceiveEvent, EventError> {
    match (action_of(field(fs, "action"@)), str_of(field(fs, "context"@)), any_of(field(fs, "payload"@))) {
        (Ok(action), Ok(context), Ok(payload)) => Ok(ReceiveEvent::SendToPlugin { action, context, payload }),
        (Err(e), _, _) => Err(e),
        (_, Err(e), _) => Err(e),
        (_, _, Err(e)) => Err(e),
    }
}

pub open spec fn payload_event_of(fs: Seq<(String, Json)>, deep_link: bool) -> Result<ReceiveEvent, EventError> {
    match any_of(field(fs, "payload"@)) {
        Ok(payload) => Ok(
            if deep_link {
                ReceiveEvent::DidReceiveDeepLink { payload }
            } else {
                ReceiveEvent::DidReceiveGlobalSettings { payload }
            },
        ),
        Err(e) => Err(e),
    }
}

pub open spec fn device_event_of(fs: Seq<(String, Json)>, connect: bool) -> Result<ReceiveEvent, EventError> {
    match str_of(field(fs, "device"@)) {
        Ok(device) => Ok(
            if connect {
                ReceiveEvent::DeviceDidConnect { device }
            } else {
                ReceiveEvent::DeviceDidDisconnect { device }
            },
        ),
        Err(e) => Err(e),
    }
}

/// The event that the members `fs` of an object whose `event` field is
/// `name` stand for.
pub open spec fn named_event_of(name: Seq<char>, fs: Seq<(String, Json)>) -> Result<ReceiveEvent, EventError> {
    if name == "keyDown"@ {
        key_event_of(fs, false)
    } else if name == "keyUp"@ {
        key_event_of(fs, true)
    } else if name == "willAppear"@ {
        presence_event_of(fs, true)
    } else if name == "willDisappear"@ {
        presence_event_of(fs, false)
    } else if name == "didReceiveSettings"@ {
        settings_event_of(fs)
    } else if name == "sendToPlugin"@ {
        to_plugin_event_of(fs)
    } else if name == "didReceiveGlobalSettings"@ {
        payload_event_of(fs, false)
    } else if name == "didReceiveDeepLink"@ {
        payload_event_of(fs, true)
    } else if name == "deviceDidConnect"@ {
        device_event_of(fs, true)
    } else if name == "deviceDidDisconnect"@ {
        device_event_of(fs, false)
    } else if name == "propertyInspectorDidAppear"@ {
        Ok(ReceiveEvent::PropertyInspectorDidAppear)
    } else if name == "propertyInspectorDidDisappear"@ {
        Ok(ReceiveEvent::PropertyInspectorDidDisappear)
    } else if name == "systemDidWakeUp"@ {
        Ok(ReceiveEvent::SystemDidWakeUp)
    } else {
        Err(EventError::UnrecognizedEvent)
    }
}

/// The event that a JSON document stands for: an object whose string field
/// `event` names it, with the fields that this event carries.
pub open spec fn event_of(j: Json) -> Result<ReceiveEvent, EventError> {
    match j {
        Json::Object(fs) => match str_of(field(fs@, "event"@)) {
            Ok(name) => named_event_of(name@, fs@),
            Err(e) => Err(e),
        },
        _ => Err(EventError::MissingData),
    }
}

fn read_key_event(fs: Vec<(String, Json)>, up: bool) -> (r: Result<ReceiveEvent, EventError>)
    ensures
        r == key_event_of(fs@, up),
{
    let action = match read_action(&fs, "action") {
        Ok(a) => a,
        Err(e) => return Err(e),
    };
    let context = match read_str(&fs, "context") {
        Ok(c) => c,
        Err(e) => return Err(e),
    };
    let payload = match read_key_press(take(fs, "payload")) {
        Ok(p) => p,
        Err(e) => return Err(e),
    };
    if up {
        Ok(ReceiveEvent::KeyUp { action, context, payload })
    } else {
        Ok(ReceiveEvent::KeyDown { action, context, payload })
    }
}

fn read_presence_event(fs: Vec<(String, Json)>, appear: bool) -> (r: Result<ReceiveEvent, EventError>)
    ensures
        r == presence_event_of(fs@, appear),
{
    let action = match read_action(&fs, "action") {
        Ok(a) => a,
        Err(e) => return Err(e),
    };
    let context = match read_str(&fs, "context") {
        Ok(c) => c,
        Err(e) => return Err(e),
    };
    let device = match read_str(&fs, "device") {
        Ok(d) => d,
        Err(e) => return Err(e),
    };
    let payload = match read_presence(take(fs, "payload")) {
        Ok(p) => p,
        Err(e) => return Err(e),
    };
    if appear {
        Ok(ReceiveEvent::WillAppear { action, context, device, payload })
    } else {
        Ok(ReceiveEvent::WillDisappear { action, context, device, payload })
    }
}

fn read_settings_event(fs: Vec<(String, Json)>) -> (r: Result<ReceiveEvent, EventError>)
    ensures
        r == settings_event_of(fs@),
{
    let action = match read_action(&fs, "action") {
        Ok(a) => a,
        Err(e) => return Err(e),
    };
    let context = match read_str(&fs, "context") {
        Ok(c) => c,
        Err(e) => return Err(e),
    };
    let device = match read_str(&fs, "device") {
        Ok(d) => d,
        Err(e) => return Err(e),
    };
    let payload = match take_any(fs, "payload") {
        Ok(p) => p,
        Err(e) => return Err(e),
    };
    Ok(ReceiveEvent::DidReceiveSettings { action, context, device, payload })
}

fn read_to_plugin_event(fs: Vec<(String, Json)>) -> (r: Result<ReceiveEvent, EventError>)
    ensures
        r == to_plugin_event_of(fs@),
{
    let action = match read_action(&fs, "action") {
        Ok(a) => a,
        Err(e) => return Err(e),
    };
    let context = match read_str(&fs, "context") {
        Ok(c) => c,
        Err(e) => return Err(e),
    };
    let payload = match take_any(fs, "payload") {
        Ok(p) => p,
        Err(e) => return Err(e),
    };
    Ok(ReceiveEvent::SendToPlugin { action, context, payload })
}

fn read_named_event(name: &str, fs: Vec<(String, Json)>) -> (r: Result<ReceiveEvent, EventError>)
    ensures
        r == named_event_of(name@, fs@),
{
    if same_text(name, "keyDown") {
        read_key_event(fs, false)
    } else if same_text(name, "keyUp") {
        read_key_event(fs, true)
    } else if same_text(name, "willAppear") {
        read_presence_event(fs, true)
    } else if same_text(name, "willDisappear") {
        read_presence_event(fs, false)
    } else if same_text(name, "didReceiveSettings") {
        read_settings_event(fs)
    } else if same_text(name, "sendToPlugin") {
        read_to_plugin_event(fs)
    } else if same_text(name, "didReceiveGlobalSettings") {
        match take_any(fs, "payload") {
            Ok(payload) => Ok(ReceiveEvent::DidReceiveGlobalSettings { payload }),
            Err(e) => Err(e),
        }
    } else if same_text(name, "didReceiveDeepLink") {
        match take_any(fs, "payload") {
            Ok(payload) => Ok(ReceiveEvent::DidReceiveDeepLink { payload }),
            Err(e) => Err(e),
        }
    } else if same_text(name, "deviceDidConnect") {
        match read_str(&fs, "device") {
            Ok(device) => Ok(ReceiveEvent::DeviceDidConnect { device }),
            Err(e) => Err(e),
        }
    } else if same_text(name, "deviceDidDisconnect") {
        match read_str(&fs, "device") {
            Ok(device) => Ok(ReceiveEvent::DeviceDidDisconnect { device }),
            Err(e) => Err(e),
        }
    } else if same_text(name, "propertyInspectorDidAppear") {
        Ok(ReceiveEvent::PropertyInspectorDidAppear)
    } else if same_text(name, "propertyInspectorDidDisappear") {
        Ok(ReceiveEvent::PropertyInspectorDidDisappear)
    } else if same_text(name, "systemDidWakeUp") {
        Ok(ReceiveEvent::SystemDidWakeUp)
    } else {
        Err(EventError::UnrecognizedEvent)
    }
}

/// A frame holds only an integer: the host sends such frames now and then,
/// and they carry no event.
pub open spec fn is_heartbeat(text: Seq<char>) -> bool {
    is_integer_text(text)
}

/// Every frame of digits alone is a heartbeat, which decoding ignores.
pub proof fn lemma_digit_frames_are_heartbeats(text: Seq<char>)
    requires
        text.len() > 0,
        all_digits(text),
    ensures
        is_heartbeat(text),
{
    assert(text[0] != '-' && text[0] != '+') by {
        assert(crate::decimal::is_digit(text[0]));
    }
}

impl ReceiveEvent {
    /// The event that a JSON document stands for.
    pub fn from_json(j: Json) -> (r: Result<ReceiveEvent, EventError>)
        ensures
            r == event_of(j),
    {
        match j {
            Json::Object(fs) => {
                let name = match read_str(&fs, "event") {
                    Ok(n) => n,
                    Err(e) => return Err(e),
                };
                read_named_event(name.as_str(), fs)
            },
            _ => Err(EventError::MissingData),
        }
    }

    /// The event that a text frame holds. This reads every frame as an event;
    /// the decoder of received frames is `decode_frame`, which first sets
    /// heartbeat frames aside.
    pub fn from_message(event: &str) -> (r: Result<ReceiveEvent, EventError>)
        ensures
            parsed_json(event@) is None ==> r is Err && r->Err_0 is MalformedJson,
            parsed_json(event@) matches Some(j) ==> r == event_of(j),
    {
        match parse_json(event) {
            Ok(j) => ReceiveEvent::from_json(j),
            Err(e) => Err(EventError::MalformedJson(e)),
        }
    }
}

/// The decoder of received frames: `None` for a heartbeat, a frame that holds
/// only an integer, which is ignored rather than refused; else the event that
/// the frame holds, or the error that says why it holds none.
pub fn decode_frame(text: &str) -> (r: Result<Option<ReceiveEvent>, EventError>)
    ensures
        is_heartbeat(text@) ==> r matches Ok(None),
        !is_heartbeat(text@) && parsed_json(text@) is None ==> r is Err && r->Err_0 is MalformedJson,
        !is_heartbeat(text@) ==> (parsed_json(text@) matches Some(j) ==> match event_of(j) {
            Ok(e) => r == Ok::<Option<ReceiveEvent>, EventError>(Some(e)),
            Err(e) => r == Err::<Option<ReceiveEvent>, EventError>(e),
        }),
{
    if is_integer(text) {
        return Ok(None);
    }
    match ReceiveEvent::from_message(text) {
        Ok(e) => Ok(Some(e)),
        Err(e) => Err(e),
    }
}

// Encoding.

/// A WebSocket frame to send.
#[derive(Debug, Clone, PartialEq)]
pub enum Frame {
    Text(String),
    Binary(Vec<u8>),
}

/// The JSON text of an outbound event: its discriminator `event`, then its
/// fields.
pub open spec fn send_text(e: SendEvent) -> Seq<char> {
    match e {
        SendEvent::RegisterPlugin { uuid } => "{\"event\":\"registerPlugin\",\"uuid\":"@ + json_string_literal(uuid@)
            + "}"@,
        SendEvent::Log { payload } => "{\"event\":\"logMessage\",\"payload\":{\"message\":"@ + json_string_literal(
            payload.message@,
        ) + "}}"@,
    }
}

impl SendEvent {
    /// Whether the event goes out as a binary frame: only registration does.
    pub fn is_binary(&self) -> (r: bool)
        ensures
            r == (self is RegisterPlugin),
    {
        match self {
            SendEvent::RegisterPlugin { .. } => true,
            _ => false,
        }
    }

    /// The event's JSON text.
    pub fn to_text(&self) -> (r: String)
        ensures
            r@ == send_text(*self),
    {
        match self {
            SendEvent::RegisterPlugin { uuid } => {
                let r = String::from_str("{\"event\":\"registerPlugin\",\"uuid\":");
                let q = quote_json(uuid.as_str());
                let r = r.concat(q.as_str());
                r.concat("}")
            },
            SendEvent::Log { payload } => {
                let r = String::from_str("{\"event\":\"logMessage\",\"payload\":{\"message\":");
                let q = quote_json(payload.message.as_str());
                let r = r.concat(q.as_str());
                r.concat("}}")
            },
        }
    }

    /// The frame that carries the event: registration as the UTF-8 bytes of
    /// its text in a binary frame, every other event as a text frame.
    pub fn to_frame(&self) -> (r: Frame)
        ensures
            self is RegisterPlugin ==> r == Frame::Binary(r->Binary_0) && r->Binary_0@ == encode_utf8(
                send_text(*self),
            ),
            !(self is RegisterPlugin) ==> r == Frame::Text(r->Text_0) && r->Text_0@ == send_text(*self),
    {
        let text = self.to_text();
        if self.is_binary() {
            Frame::Binary(text.as_str().as_bytes_vec())
        } else {
            Frame::Text(text)
        }
    }
}

/// The discriminator of an inbound event.
pub open spec fn event_name(e: ReceiveEvent) -> Seq<char> {
    match e {
        ReceiveEvent::DidReceiveSettings { .. } => "didReceiveSettings"@,
        ReceiveEvent::DidReceiveGlobalSettings { .. } => "didReceiveGlobalSettings"@,
        ReceiveEvent::DidReceiveDeepLink { .. } => "didReceiveDeepLink"@,
        ReceiveEvent::KeyDown { .. } => "keyDown"@,
        ReceiveEvent::KeyUp { .. } => "keyUp"@,
        ReceiveEvent::WillAppear { .. } => "willAppear"@,
        ReceiveEvent::WillDisappear { .. } => "willDisappear"@,
        ReceiveEvent::DeviceDidConnect { .. } => "deviceDidConnect"@,
        ReceiveEvent::DeviceDidDisconnect { .. } => "deviceDidDisconnect"@,
        ReceiveEvent::PropertyInspectorDidAppear => "propertyInspectorDidAppear"@,
        ReceiveEvent::PropertyInspectorDidDisappear => "propertyInspectorDidDisappear"@,
        ReceiveEvent::SystemDidWakeUp => "systemDidWakeUp"@,
        ReceiveEvent::SendToPlugin { .. } => "sendToPlugin"@,
    }
}

/// The discriminator that a JSON document carries, if it is an object with
/// a string field `event`.
pub open spec fn discriminator(j: Json) -> Option<Seq<char>> {
    match j {
        Json::Object(fs) => match field(fs@, "event"@) {
            Some(Json::Str(s)) => Some(s@),
            _ => None,
        },
        _ => None,
    }
}

/// The names of the members of protocol objects differ from each other.
proof fn lemma_member_names()
    ensures
        "column"@.len() == 6,
        "row"@.len() == 3,
        "coordinates"@.len() == 11,
        "controller"@.len() == 10,
        "state"@.len() == 5,
        "userDesiredState"@.len() == 16,
        "isInMultiAction"@.len() == 15,
        "settings"@.len() == 8,
        "event"@.len() == 5,
        "action"@.len() == 6,
        "device"@.len() == 6,
        "action"@[0] == 'a',
        "device"@[0] == 'd',
        "context"@.len() == 7,
        "payload"@.len() == 7,
        "context"@[0] == 'c',
        "payload"@[0] == 'p',
{
    reveal_strlit("column");
    reveal_strlit("row");
    reveal_strlit("coordinates");
    reveal_strlit("controller");
    reveal_strlit("state");
    reveal_strlit("userDesiredState");
    reveal_strlit("isInMultiAction");
    reveal_strlit("settings");
    reveal_strlit("event");
    reveal_strlit("action");
    reveal_strlit("device");
    reveal_strlit("context");
    reveal_strlit("payload");
}

fn member(key: &str, value: Json) -> (r: (String, Json))
    ensures
        r.0@ == key@,
        r.1 == value,
{
    (String::from_str(key), value)
}

fn opt_int(v: Option<i32>) -> (r: Json)
    ensures
        opt_i32_of(Some(r)) == Ok::<Option<i32>, EventError>(v),
{
    match v {
        Some(i) => Json::Int(i as i64),
        None => Json::Null,
    }
}

impl Coordinates {
    /// The object that holds the coordinates.
    pub fn to_json(&self) -> (r: Json)
        ensures
            coordinates_of(Some(r)) == Ok::<Coordinates, EventError>(*self),
    {
        let fs = vec![member("column", Json::Int(self.column as i64)), member("row", Json::Int(self.row as i64))];
        proof {
            lemma_member_names();
            reveal_with_fuel(field, 3);
        }
        Json::Object(fs)
    }
}

impl KeyPress {
    /// The object that holds the payload, `null` standing for an absent state.
    pub fn to_json(self) -> (r: Json)
        ensures
            key_press_of(Some(r)) == Ok::<KeyPress, EventError>(self),
    {
        let fs = vec![
            member("coordinates", self.coordinates.to_json()),
            member("state", opt_int(self.state)),
            member("userDesiredState", opt_int(self.user_desired_state)),
            member("isInMultiAction", Json::Bool(self.is_in_multi_action)),
            member("settings", self.settings),
        ];
        proof {
            lemma_member_names();
            reveal_with_fuel(field, 6);
        }
        Json::Object(fs)
    }
}

impl Presence {
    /// The object that holds the payload, `null` standing for an absent state.
    pub fn to_json(self) -> (r: Json)
        ensures
            presence_of(Some(r)) == Ok::<Presence, EventError>(self),
    {
        let fs = vec![
            member("coordinates", self.coordinates.to_json()),
            member("controller", Json::Str(self.controller)),
            member("state", opt_int(self.state)),
            member("isInMultiAction", Json::Bool(self.is_in_multi_action)),
            member("settings", self.settings),
        ];
        proof {
            lemma_member_names();
            reveal_with_fuel(field, 6);
        }
        Json::Object(fs)
    }
}

/// The discriminators of the protocol's events differ from each other.
proof fn lemma_event_names()
    ensures
        "keyDown"@.len() == 7,
        "keyUp"@.len() == 5,
        "willAppear"@.len() == 10,
        "willDisappear"@.len() == 13,
        "didReceiveSettings"@.len() == 18,
        "sendToPlugin"@.len() == 12,
        "didReceiveGlobalSettings"@.len() == 24,
        "didReceiveDeepLink"@.len() == 18,
        "didReceiveSettings"@[10] == 'S',
        "didReceiveDeepLink"@[10] == 'D',
        "deviceDidConnect"@.len() == 16,
        "deviceDidDisconnect"@.len() == 19,
        "propertyInspectorDidAppear"@.len() == 26,
        "propertyInspectorDidDisappear"@.len() == 29,
        "systemDidWakeUp"@.len() == 15,
{
    reveal_strlit("keyDown");
    reveal_strlit("keyUp");
    reveal_strlit("willAppear");
    reveal_strlit("willDisappear");
    reveal_strlit("didReceiveSettings");
    reveal_strlit("sendToPlugin");
    reveal_strlit("didReceiveGlobalSettings");
    reveal_strlit("didReceiveDeepLink");
    reveal_strlit("deviceDidConnect");
    reveal_strlit("deviceDidDisconnect");
    reveal_strlit("propertyInspectorDidAppear");
    reveal_strlit("propertyInspectorDidDisappear");
    reveal_strlit("systemDidWakeUp");
}

fn text_json(s: &str) -> (r: Json)
    ensures
        r == Json::Str(r->Str_0),
        r->Str_0@ == s@,
{
    Json::Str(String::from_str(s))
}

impl ReceiveEvent {
    /// The JSON document of the event, which decodes back to the same event
    /// and carries its discriminator.
    #[verifier::rlimit(50)]
    pub fn to_json(self) -> (r: Json)
        ensures
            event_of(r) == Ok::<ReceiveEvent, EventError>(self),
            discriminator(r) == Some(event_name(self)),
    {
        proof {
            lemma_member_names();
            lemma_event_names();
            reveal_with_fuel(field, 5);
        }
        let fs = match self {
            ReceiveEvent::DidReceiveSettings { action, context, device, payload } => vec![
                member("event", text_json("didReceiveSettings")),
                member("action", text_json(action.identifier())),
                member("context", Json::Str(context)),
                member("device", Json::Str(device)),
                member("payload", payload),
            ],
            ReceiveEvent::DidReceiveGlobalSettings { payload } => vec![
                member("event", text_json("didReceiveGlobalSettings")),
                member("payload", payload),
            ],
            ReceiveEvent::DidReceiveDeepLink { payload } => vec![
                member("event", text_json("didReceiveDeepLink")),
                member("payload", payload),
            ],
            ReceiveEvent::KeyDown { action, context, payload } => vec![
                member("event", text_json("keyDown")),
                member("action", text_json(action.identifier())),
                member("context", Json::Str(context)),
                member("payload", payload.to_json()),
            ],
            ReceiveEvent::KeyUp { action, context, payload } => vec![
                member("event", text_json("keyUp")),
                member("action", text_json(action.identifier())),
                member("context", Json::Str(context)),
                member("payload", payload.to_json()),
            ],
            ReceiveEvent::WillAppear { action, context, device, payload } => vec![
                member("event", text_json("willAppear")),
                member("action", text_json(action.identifier())),
                member("context", Json::Str(context)),
                member("device", Json::Str(device)),
                member("payload", payload.to_json()),
            ],
            ReceiveEvent::WillDisappear { action, context, device, payload } => vec![
                member("event", text_json("willDisappear")),
                member("action", text_json(action.identifier())),
                member("context", Json::Str(context)),
                member("device", Json::Str(device)),
                member("payload", payload.to_json()),
            ],
            ReceiveEvent::DeviceDidConnect { device } => vec![
                member("event", text_json("deviceDidConnect")),
                member("device", Json::Str(device)),
            ],
            ReceiveEvent::DeviceDidDisconnect { device } => vec![
                member("event", text_json("deviceDidDisconnect")),
                member("device", Json::Str(device)),
            ],
            ReceiveEvent::PropertyInspectorDidAppear => vec![
                member("event", text_json("propertyInspectorDidAppear")),
            ],
            ReceiveEvent::PropertyInspectorDidDisappear => vec![
                member("event", text_json("propertyInspectorDidDisappear")),
            ],
            ReceiveEvent::SystemDidWakeUp => vec![member("event", text_json("systemDidWakeUp"))],
            ReceiveEvent::SendToPlugin { action, context, payload } => vec![
                member("event", text_json("sendToPlugin")),
                member("action", text_json(action.identifier())),
                member("context", Json::Str(context)),
                member("payload", payload),
            ],
        };
        Json::Object(fs)
    }
}

/// A key release that names an action this bridge does not know is refused
/// with `UnknownAction`.
pub proof fn lemma_unknown_action_rejected(j: Json)
    requires
        j is Object,
        field(j->Object_0@, "event"@) matches Some(Json::Str(n)) && n@ == "keyUp"@,
        field(j->Object_0@, "action"@) matches Some(Json::Str(a)) && action_named(a@) is None,
    ensures
        event_of(j) matches Err(EventError::UnknownAction),
{
    lemma_event_names();
}

/// An event decoded from a document carries the document's discriminator.
/// With the round trip of `ReceiveEvent::to_json`, re-encoding a decoded
/// event keeps its discriminator and every field that its schema declares.
pub proof fn lemma_decoded_keeps_discriminator(j: Json)
    requires
        event_of(j) is Ok,
    ensures
        discriminator(j) == Some(event_name(event_of(j)->Ok_0)),
{
    lemma_event_names();
}

} // verus!
