use sonos_deck::decimal::is_integer;
use sonos_deck::error::ControllerError;
use sonos_deck::services::RenderingControl;
use sonos_deck::volume::Volume;

#[test]
fn volume_new_keeps_levels_in_range() {
    assert_eq!(Volume::new(0).value(), 0);
    assert_eq!(Volume::new(42).value(), 42);
    assert_eq!(Volume::new(100).value(), 100);
}

#[test]
fn volume_new_clamps_above_maximum() {
    assert_eq!(Volume::new(101).value(), 100);
    assert_eq!(Volume::new(150).value(), 100);
    assert_eq!(Volume::new(255).value(), 100);
}

#[test]
fn volume_from_wire_text() {
    let text = String::from("42");
    assert_eq!(Volume::try_from(Some(&text)).unwrap().value(), 42);
    let text = String::from("+7");
    assert_eq!(Volume::try_from(Some(&text)).unwrap().value(), 7);
    let text = String::from("200");
    assert_eq!(Volume::try_from(Some(&text)).unwrap().value(), 100);
}

#[test]
fn volume_from_out_of_range_text_is_clamped() {
    for (text, level) in [("300", 100), ("101", 100), ("99999999999999999999999", 100), ("-5", 0), ("-0", 0), ("007", 7)] {
        let text = String::from(text);
        assert_eq!(Volume::try_from(Some(&text)).unwrap().value(), level, "{text}");
    }
}

#[test]
fn volume_from_absent_field_is_an_error() {
    assert!(matches!(Volume::try_from(None), Err(ControllerError::VolumeError)));
}

#[test]
fn volume_from_non_numeric_text_is_an_error() {
    for bad in ["abc", "", "+", "-", "4 2", "1.5", " 1"] {
        let text = String::from(bad);
        assert!(matches!(Volume::try_from(Some(&text)), Err(ControllerError::VolumeError)), "{bad}");
    }
}

#[test]
fn volume_in_decimal() {
    assert_eq!(Volume::new(0).to_decimal(), "0");
    assert_eq!(Volume::new(7).to_decimal(), "7");
    assert_eq!(Volume::new(180).to_decimal(), "100");
}

#[test]
fn set_volume_arguments_carry_the_level() {
    assert_eq!(
        RenderingControl::set_volume_arguments(&Volume::new(42)),
        "<InstanceID>0</InstanceID><Channel>Master</Channel><DesiredVolume>42</DesiredVolume>"
    );
}

#[test]
fn volume_response_field() {
    let text = String::from("35");
    assert_eq!(RenderingControl::volume_from_response(Some(&text)).unwrap().value(), 35);
    assert!(matches!(RenderingControl::volume_from_response(None), Err(ControllerError::VolumeError)));
}

#[test]
fn integers_of_any_length() {
    for text in ["12345", "-12345", "+5", "0", "123456789012345678901234567890"] {
        assert!(is_integer(text), "{text}");
    }
    for text in ["", "-", "+", "1.5", "{}", "12a", " 1", "--1"] {
        assert!(!is_integer(text), "{text}");
    }
}
