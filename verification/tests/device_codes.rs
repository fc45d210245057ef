use screen_calibrator::input::Key;
use screen_calibrator::platform::miyoo;

#[test]
fn named_codes_are_those_of_the_input_layer() {
    assert_eq!(miyoo::EV_KEY, evdev::EventType::KEY.0);
    assert_eq!(miyoo::KEY_UP, evdev::Key::KEY_UP.code());
    assert_eq!(miyoo::KEY_DOWN, evdev::Key::KEY_DOWN.code());
    assert_eq!(miyoo::KEY_LEFT, evdev::Key::KEY_LEFT.code());
    assert_eq!(miyoo::KEY_RIGHT, evdev::Key::KEY_RIGHT.code());
    assert_eq!(miyoo::KEY_SPACE, evdev::Key::KEY_SPACE.code());
    assert_eq!(miyoo::KEY_LEFTCTRL, evdev::Key::KEY_LEFTCTRL.code());
    assert_eq!(miyoo::KEY_LEFTSHIFT, evdev::Key::KEY_LEFTSHIFT.code());
    assert_eq!(miyoo::KEY_LEFTALT, evdev::Key::KEY_LEFTALT.code());
    assert_eq!(miyoo::KEY_ENTER, evdev::Key::KEY_ENTER.code());
    assert_eq!(miyoo::KEY_RIGHTCTRL, evdev::Key::KEY_RIGHTCTRL.code());
    assert_eq!(miyoo::KEY_E, evdev::Key::KEY_E.code());
    assert_eq!(miyoo::KEY_T, evdev::Key::KEY_T.code());
    assert_eq!(miyoo::KEY_ESC, evdev::Key::KEY_ESC.code());
    assert_eq!(miyoo::KEY_TAB, evdev::Key::KEY_TAB.code());
    assert_eq!(miyoo::KEY_BACKSPACE, evdev::Key::KEY_BACKSPACE.code());
    assert_eq!(miyoo::KEY_POWER, evdev::Key::KEY_POWER.code());
    assert_eq!(miyoo::KEY_VOLUMEDOWN, evdev::Key::KEY_VOLUMEDOWN.code());
    assert_eq!(miyoo::KEY_VOLUMEUP, evdev::Key::KEY_VOLUMEUP.code());
}

#[test]
fn input_layer_keys_translate_to_buttons() {
    assert_eq!(miyoo::translate(evdev::Key::KEY_UP.code()), Key::Up);
    assert_eq!(miyoo::translate(evdev::Key::KEY_SPACE.code()), Key::A);
    assert_eq!(miyoo::translate(evdev::Key::KEY_ESC.code()), Key::Menu);
    assert_eq!(miyoo::translate(evdev::Key::KEY_A.code()), Key::Unknown);
    assert_eq!(miyoo::translate(evdev::Key::KEY_Q.code()), Key::Unknown);
}

#[test]
fn input_layer_records_convert_field_by_field() {
    let event = evdev::InputEvent::new(evdev::EventType::KEY, evdev::Key::KEY_LEFT.code(), 1);
    let record = miyoo::RawRecord {
        event_type: event.event_type().0,
        code: event.code(),
        value: event.value(),
    };
    assert!(record.is_valid());
    assert!(!record.needs_age());
    assert_eq!(record, miyoo::RawRecord { event_type: 1, code: 105, value: 1 });
}
