use termgame::joystick::JoystickEvent;
use termgame::keyboard::{apply_key_event, RawKeyEvent, KEY_W};

#[test]
fn short_joystick_buffer_is_no_event() {
    assert!(JoystickEvent::decode(&[]).is_none());
    assert!(JoystickEvent::decode(&[0u8; 7]).is_none());
    assert!(JoystickEvent::decode(&[0xffu8; 7]).is_none());
}

#[test]
fn short_keyboard_buffer_is_no_event() {
    assert!(RawKeyEvent::decode(&[]).is_none());
    assert!(RawKeyEvent::decode(&[0u8; 23]).is_none());
}

#[test]
fn decode_button_press_record() {
    // timestamp = 100, value = 1, category = 1 (button), index = 0
    let buf: [u8; 8] = [100, 0, 0, 0, 1, 0, 1, 0];
    let ev = JoystickEvent::decode(&buf).unwrap();
    assert_eq!(ev.timestamp, 100);
    assert_eq!(ev.value, 1);
    assert_eq!(ev.event, 1);
    assert_eq!(ev.index, 0);
}

#[test]
fn button_round_trip() {
    let ev = JoystickEvent { timestamp: 5, value: 1, event: 1, index: 3 };
    let bytes = ev.encode();
    assert_eq!(bytes.len(), 8);
    let back = JoystickEvent::decode(&bytes).unwrap();
    assert_eq!(back, ev);
    assert!(back.value == 0 || back.value == 1);
}

#[test]
fn axis_round_trip_extremes() {
    for value in [-32767i16, 0, 32767] {
        let ev = JoystickEvent { timestamp: 77, value, event: 2, index: 2 };
        let back = JoystickEvent::decode(&ev.encode()).unwrap();
        assert_eq!(back, ev);
        assert!(-32767 <= back.value && back.value <= 32767);
    }
}

#[test]
fn decode_negative_axis_value() {
    // value = -32767 is 0x8001 little-endian
    let buf: [u8; 8] = [0, 0, 0, 0, 0x01, 0x80, 2, 6];
    let ev = JoystickEvent::decode(&buf).unwrap();
    assert_eq!(ev.value, -32767);
    assert_eq!(ev.event, 2);
    assert_eq!(ev.index, 6);
}

#[test]
fn decode_keyboard_record() {
    let mut buf = [0u8; 24];
    buf[0] = 9;  // tv_sec = 9
    buf[8] = 7;  // tv_usec = 7
    buf[16] = 1;  // kind = 1 (key transition)
    buf[18] = 17;  // code = KEY_W
    buf[20] = 1;  // value = 1 (pressed)
    let ev = RawKeyEvent::decode(&buf).unwrap();
    assert_eq!(ev.tv_sec, 9);
    assert_eq!(ev.tv_usec, 7);
    assert_eq!(ev.kind, 1);
    assert_eq!(ev.code, KEY_W);
    assert_eq!(ev.value, 1);
}

#[test]
fn key_table_follows_transitions() {
    let mut keys = vec![false; 256];
    let press = RawKeyEvent { tv_sec: 0, tv_usec: 0, kind: 1, code: 17, value: 1 };
    apply_key_event(&mut keys, &press);
    assert!(keys[17]);

    let repeat = RawKeyEvent { value: 2, ..press };
    keys[17] = false;
    apply_key_event(&mut keys, &repeat);
    assert!(keys[17]);

    let release = RawKeyEvent { value: 0, ..press };
    apply_key_event(&mut keys, &release);
    assert!(!keys[17]);
}

#[test]
fn key_table_ignores_other_kinds() {
    let mut keys = vec![false; 256];
    let sync = RawKeyEvent { tv_sec: 0, tv_usec: 0, kind: 0, code: 17, value: 1 };
    apply_key_event(&mut keys, &sync);
    assert!(keys.iter().all(|held| !held));
    let misc = RawKeyEvent { kind: 4, ..sync };
    apply_key_event(&mut keys, &misc);
    assert!(keys.iter().all(|held| !held));
}
