use keycode::{KeyMap, KeyMapping, KeyMappingCode, KeyMappingId, KeyModifiers, KeyState,
    KeyboardState};

#[test]
fn resolving_by_id_finds_the_record_for_that_id() {
    let ids = [
        KeyMappingId::UsA,
        KeyMappingId::UsZ,
        KeyMappingId::Digit1,
        KeyMappingId::Digit0,
        KeyMappingId::Enter,
        KeyMappingId::Escape,
        KeyMappingId::Backspace,
        KeyMappingId::Tab,
        KeyMappingId::Space,
        KeyMappingId::CapsLock,
        KeyMappingId::F1,
        KeyMappingId::F12,
        KeyMappingId::Del,
        KeyMappingId::ArrowUp,
        KeyMappingId::ControlLeft,
        KeyMappingId::MetaRight,
    ];
    for id in ids {
        let record = KeyMap::from_key_mapping(KeyMapping::Id(id)).unwrap();
        assert_eq!(record.id, id);
    }
}

#[test]
fn function_and_navigation_keys_carry_their_usual_codes() {
    let f5 = KeyMap::from(KeyMappingId::F5);
    assert_eq!(f5.usb, 0x3e);
    assert_eq!(f5.evdev, 63);
    assert_eq!(f5.code, Some(KeyMappingCode::F5));
    let del = KeyMap::from(KeyMappingId::Del);
    assert_eq!(del.usb, 0x4c);
    assert_eq!(del.code, Some(KeyMappingCode::Delete));
    let up = KeyMap::from(KeyMappingCode::ArrowUp);
    assert_eq!(up.usb, 0x52);
    assert_eq!(up.id, KeyMappingId::ArrowUp);
}

#[test]
fn record_is_reachable_through_each_of_its_own_encodings() {
    let ids = [
        KeyMappingId::UsA,
        KeyMappingId::UsQ,
        KeyMappingId::Digit7,
        KeyMappingId::Space,
        KeyMappingId::Backquote,
        KeyMappingId::F11,
        KeyMappingId::PageDown,
        KeyMappingId::ArrowLeft,
        KeyMappingId::ShiftRight,
    ];
    for id in ids {
        let r = KeyMap::from(id);
        assert_eq!(KeyMap::from_key_mapping(KeyMapping::Usb(r.usb)).unwrap(), r);
        assert_eq!(KeyMap::from_key_mapping(KeyMapping::Evdev(r.evdev)).unwrap(), r);
        assert_eq!(KeyMap::from_key_mapping(KeyMapping::Xkb(r.xkb)).unwrap(), r);
        assert_eq!(KeyMap::from_key_mapping(KeyMapping::Win(r.win)).unwrap(), r);
        assert_eq!(KeyMap::from_key_mapping(KeyMapping::Mac(r.mac)).unwrap(), r);
        assert_eq!(
            KeyMap::from_key_mapping(KeyMapping::Code(r.code.unwrap())).unwrap(),
            r
        );
    }
}

#[test]
fn unknown_numeric_queries_are_not_found() {
    assert!(KeyMap::from_key_mapping(KeyMapping::Usb(0xffff)).is_err());
    assert!(KeyMap::from_key_mapping(KeyMapping::Evdev(0xffff)).is_err());
    assert!(KeyMap::from_key_mapping(KeyMapping::Xkb(0xffff)).is_err());
    assert!(KeyMap::from_key_mapping(KeyMapping::Win(0xffff)).is_err());
    assert!(KeyMap::from_key_mapping(KeyMapping::Mac(0xffff)).is_err());
}

#[test]
fn modifier_press_and_release_round_trips_each_bit() {
    let cases = [
        (KeyMappingId::ControlLeft, 0x01u8),
        (KeyMappingId::ShiftLeft, 0x02),
        (KeyMappingId::AltLeft, 0x04),
        (KeyMappingId::MetaLeft, 0x08),
        (KeyMappingId::ControlRight, 0x10),
        (KeyMappingId::ShiftRight, 0x20),
        (KeyMappingId::AltRight, 0x40),
        (KeyMappingId::MetaRight, 0x80),
    ];
    for (id, bit) in cases {
        let mut state = KeyboardState::new(None);
        let key = KeyMap::from(id);
        state.update_key(key, KeyState::Pressed);
        let held = state.usb_input_report();
        assert_eq!(held[0], bit);
        assert_eq!(&held[1..], &[0u8; 7]);
        assert!(state.pressed_keys().is_empty());
        state.update_key(key, KeyState::Released);
        assert_eq!(state.usb_input_report(), vec![0; 8]);
    }
}

#[test]
fn pressing_a_key_twice_reports_it_once() {
    let mut state = KeyboardState::new(None);
    let a = KeyMap::from(KeyMappingId::UsA);
    state.update_key(a, KeyState::Pressed);
    let once = state.usb_input_report();
    assert_eq!(state.pressed_keys().len(), 1);
    state.update_key(a, KeyState::Pressed);
    let twice = state.usb_input_report();
    assert_eq!(state.pressed_keys().len(), 1);
    assert_eq!(once, vec![0, 0, 4, 0, 0, 0, 0, 0]);
    assert_eq!(twice, once);
}

#[test]
fn seventh_press_is_dropped_with_rollover_of_six() {
    let mut state = KeyboardState::new(Some(6));
    let keys = [
        KeyMappingId::UsA,
        KeyMappingId::UsB,
        KeyMappingId::UsC,
        KeyMappingId::UsD,
        KeyMappingId::UsE,
        KeyMappingId::UsF,
        KeyMappingId::UsG,
    ];
    for id in keys {
        state.update_key(KeyMap::from(id), KeyState::Pressed);
    }
    assert_eq!(state.pressed_keys().len(), 6);
    assert_eq!(state.usb_input_report(), vec![0, 0, 4, 5, 6, 7, 8, 9]);
}

#[test]
fn report_of_a_new_state_is_eight_zero_bytes() {
    let mut no_rollover = KeyboardState::new(None);
    assert_eq!(no_rollover.usb_input_report(), vec![0; 8]);
    let mut with_rollover = KeyboardState::new(Some(6));
    assert_eq!(with_rollover.usb_input_report(), vec![0; 8]);
}

#[test]
fn report_grows_with_a_larger_rollover_limit() {
    let mut state = KeyboardState::new(Some(10));
    assert_eq!(state.usb_input_report(), vec![0; 12]);
    state.update_key(KeyMap::from(KeyMappingId::UsA), KeyState::Pressed);
    assert_eq!(
        state.usb_input_report(),
        vec![0, 0, 4, 0, 0, 0, 0, 0, 0, 0, 0, 0]
    );
}

#[test]
fn without_rollover_the_report_grows_past_the_boot_size() {
    let mut state = KeyboardState::new(None);
    let keys = [
        KeyMappingId::UsA,
        KeyMappingId::UsB,
        KeyMappingId::UsC,
        KeyMappingId::UsD,
        KeyMappingId::UsE,
        KeyMappingId::UsF,
        KeyMappingId::UsG,
    ];
    for id in keys {
        state.update_key(KeyMap::from(id), KeyState::Pressed);
    }
    assert_eq!(state.usb_input_report(), vec![0, 0, 4, 5, 6, 7, 8, 9, 10]);
}

#[test]
fn releasing_a_middle_key_keeps_the_order_of_the_rest() {
    let mut state = KeyboardState::new(Some(6));
    let a = KeyMap::from(KeyMappingId::UsA);
    let b = KeyMap::from(KeyMappingId::UsB);
    let c = KeyMap::from(KeyMappingId::UsC);
    state.update_key(a, KeyState::Pressed);
    state.update_key(b, KeyState::Pressed);
    state.update_key(c, KeyState::Pressed);
    state.update_key(b, KeyState::Released);
    assert_eq!(state.pressed_keys(), vec![a, c]);
    assert_eq!(state.usb_input_report(), vec![0, 0, 4, 6, 0, 0, 0, 0]);
}

#[test]
fn releasing_an_unheld_key_changes_nothing() {
    let mut state = KeyboardState::new(Some(6));
    state.update_key(KeyMap::from(KeyMappingId::UsA), KeyState::Pressed);
    let before = state.usb_input_report();
    state.update_key(KeyMap::from(KeyMappingId::UsB), KeyState::Released);
    assert_eq!(state.usb_input_report(), before);
    let mut empty = KeyboardState::new(None);
    empty.update_key(KeyMap::from(KeyMappingId::UsB), KeyState::Released);
    assert_eq!(empty.usb_input_report(), vec![0; 8]);
}

#[test]
fn usb_code_is_truncated_to_its_low_byte_in_the_report() {
    let mut state = KeyboardState::new(None);
    state.update_key(KeyMap::from(KeyMappingId::ControlLeft), KeyState::Pressed);
    state.update_key(KeyMap::from(KeyMappingId::UsZ), KeyState::Pressed);
    assert_eq!(state.usb_input_report(), vec![1, 0, 0x1d, 0, 0, 0, 0, 0]);

    // A record with a usage code above one byte keeps only the low byte.
    let wide = KeyMap {
        usb: 0x0104,
        ..KeyMap::from(KeyMappingId::UsA)
    };
    let mut custom = KeyboardState::new(None);
    custom.update_key(wide, KeyState::Pressed);
    assert_eq!(custom.usb_input_report(), vec![0, 0, 4, 0, 0, 0, 0, 0]);
}

#[test]
fn code_names_round_trip_through_from_str() {
    let cases = [
        (KeyMappingCode::KeyA, "KeyA"),
        (KeyMappingCode::Digit0, "Digit0"),
        (KeyMappingCode::Backspace, "Backspace"),
        (KeyMappingCode::Delete, "Delete"),
        (KeyMappingCode::F10, "F10"),
        (KeyMappingCode::ArrowDown, "ArrowDown"),
        (KeyMappingCode::MetaRight, "MetaRight"),
    ];
    for (code, name) in cases {
        assert_eq!(code.name(), name);
        assert_eq!(KeyMappingCode::from_str(name).unwrap(), code);
    }
    assert!(KeyMappingCode::from_str("NoSuchKey").is_err());
    assert!(KeyMappingCode::from_str("").is_err());
    assert!(KeyMappingCode::from_str("keya").is_err());
}

#[test]
fn keyboard_states_compare_by_their_whole_state() {
    let a = KeyMap::from(KeyMappingId::UsA);
    let b = KeyMap::from(KeyMappingId::UsB);
    let shift = KeyMap::from(KeyMappingId::ShiftLeft);

    let mut one = KeyboardState::new(Some(6));
    let mut two = KeyboardState::new(Some(6));
    assert!(one == two);

    one.update_key(a, KeyState::Pressed);
    assert!(one != two);
    two.update_key(a, KeyState::Pressed);
    assert!(one == two);

    one.update_key(shift, KeyState::Pressed);
    assert!(one != two);
    two.update_key(shift, KeyState::Pressed);
    assert!(one == two);

    one.update_key(a, KeyState::Released);
    one.update_key(b, KeyState::Pressed);
    assert!(one != two);

    assert!(KeyboardState::new(None) != KeyboardState::new(Some(6)));
}

#[test]
fn modifier_mask_operations_follow_the_hid_bit_order() {
    let mut mask = KeyModifiers::empty();
    assert_eq!(mask.bits(), 0);
    mask.insert(KeyModifiers::control_left());
    mask.insert(KeyModifiers::meta_right());
    assert_eq!(mask.bits(), 0x81);
    assert!(mask.contains(KeyModifiers::control_left()));
    assert!(!mask.contains(KeyModifiers::shift_left()));
    mask.remove(KeyModifiers::control_left());
    assert_eq!(mask.bits(), 0x80);
    mask.remove(KeyModifiers::control_left());
    assert_eq!(mask.bits(), 0x80);
}
