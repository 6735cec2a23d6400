use evdev::Key;
use keyboard_bridge::host::handle_key_event;
use keyboard_bridge::keymap::key_to_hid_usage_id;
use keyboard_bridge::keyset::KeySet;
use keyboard_bridge::modifier::UsbHidModifier;
use keyboard_bridge::report::WhyNoDeriveDeserializeManSadFaceHere;
use usbd_hid::descriptor::KeyboardUsage;


#[test]
fn test_standard_modifiers() {
    let mut keyset = KeySet::new();
    let presses = [
        Key::KEY_LEFTCTRL,
        Key::KEY_LEFTSHIFT,
        Key::KEY_LEFTALT,
        Key::KEY_LEFTMETA,
        Key::KEY_RIGHTCTRL,
        Key::KEY_RIGHTSHIFT,
        Key::KEY_RIGHTALT,
        Key::KEY_RIGHTMETA,
    ];
    for (i, key) in presses.into_iter().enumerate() {
        keyset.press_key(key.code());
        assert_eq!(keyset.modifier, u8::MAX >> (7 - i));
    }

    for (i, key) in presses.into_iter().rev().enumerate() {
        keyset.release_key(key.code());
        assert_eq!(
            keyset.modifier,
            u8::MAX.checked_shr(i as u32 + 1).unwrap_or(0)
        );
    }
}

#[test]
fn test_press_a_release_a() {
    let mut keyset = KeySet::new();
    let key = Key::KEY_A;
    keyset.press_key(key.code());
    assert_eq!(keyset.keys, [KeyboardUsage::KeyboardAa as u8, 0, 0, 0, 0, 0]);
    keyset.release_key(key.code());
    assert_eq!(keyset.keys, [0; 6]);
}

#[test]
fn test_press_ab_release_ba() {
    let mut keyset = KeySet::new();
    let a = Key::KEY_A.code();
    let b = Key::KEY_B.code();
    keyset.press_key(a);
    assert_eq!(keyset.keys, [KeyboardUsage::KeyboardAa as u8, 0, 0, 0, 0, 0]);
    keyset.press_key(b);
    assert_eq!(keyset.keys, [
            KeyboardUsage::KeyboardAa as u8,
            KeyboardUsage::KeyboardBb as u8,
            0,
            0,
            0,
            0
        ]);
    keyset.release_key(b);
    assert_eq!(keyset.keys, [KeyboardUsage::KeyboardAa as u8, 0, 0, 0, 0, 0]);
    keyset.release_key(a);
    assert_eq!(keyset.keys, [0; 6]);
}

#[test]
fn test_press_abcdefg_release_abcdefg() {
    let mut keyset = KeySet::new();
    let a = KeyboardUsage::KeyboardAa as u8;

    keyset.press_key(Key::KEY_A.code());
    keyset.press_key(Key::KEY_B.code());
    keyset.press_key(Key::KEY_C.code());
    keyset.press_key(Key::KEY_D.code());
    keyset.press_key(Key::KEY_E.code());
    keyset.press_key(Key::KEY_F.code());
    assert_eq!(keyset.keys, [a, a + 1, a + 2, a + 3, a + 4, a + 5]);
    keyset.press_key(Key::KEY_G.code());
    assert_eq!(keyset.keys, [a, a + 1, a + 2, a + 3, a + 4, a + 5]);
    keyset.release_key(Key::KEY_G.code());
    assert_eq!(keyset.keys, [a, a + 1, a + 2, a + 3, a + 4, a + 5]);
    keyset.release_key(Key::KEY_F.code());
    assert_eq!(keyset.keys, [a + 4, a + 3, a + 2, a + 1, a, 0]);
    keyset.release_key(Key::KEY_E.code());
    keyset.release_key(Key::KEY_D.code());
    keyset.release_key(Key::KEY_C.code());
    keyset.release_key(Key::KEY_B.code());
    keyset.release_key(Key::KEY_A.code());
    assert_eq!(keyset.keys, [0; 6]);
}

#[test]
fn modifier_byte_is_or_of_held_modifiers_in_any_order() {
    let mut first = KeySet::new();
    first.press_key(Key::KEY_RIGHTALT.code());
    first.press_key(Key::KEY_LEFTSHIFT.code());
    first.press_key(Key::KEY_A.code());
    first.press_key(Key::KEY_LEFTCTRL.code());
    first.release_key(Key::KEY_LEFTSHIFT.code());

    let mut second = KeySet::new();
    second.press_key(Key::KEY_LEFTCTRL.code());
    second.press_key(Key::KEY_LEFTSHIFT.code());
    second.release_key(Key::KEY_LEFTSHIFT.code());
    second.press_key(Key::KEY_RIGHTALT.code());

    assert_eq!(first.modifier, 0x01 | 0x40);
    assert_eq!(second.modifier, 0x01 | 0x40);
}

#[test]
fn pressing_a_held_key_changes_nothing() {
    let mut keyset = KeySet::new();
    keyset.press_key(Key::KEY_LEFTMETA.code());
    keyset.press_key(Key::KEY_Q.code());
    keyset.press_key(Key::KEY_W.code());
    let before = keyset;
    keyset.press_key(Key::KEY_Q.code());
    keyset.press_key(Key::KEY_LEFTMETA.code());
    assert_eq!(keyset, before);
    assert_eq!(keyset.keys, [0x14, 0x1A, 0, 0, 0, 0]);
    assert_eq!(keyset.modifier, 0x08);
}

#[test]
fn unmapped_keys_are_ignored() {
    let mut keyset = KeySet::new();
    keyset.press_key(Key::KEY_PLAYPAUSE.code());
    assert_eq!(keyset, KeySet::new());
    keyset.press_key(Key::KEY_Z.code());
    keyset.release_key(Key::KEY_PLAYPAUSE.code());
    assert_eq!(keyset.keys, [0x1D, 0, 0, 0, 0, 0]);
}

#[test]
fn release_sorts_remaining_keys_descending() {
    let mut keyset = KeySet::new();
    keyset.press_key(Key::KEY_Z.code());
    keyset.press_key(Key::KEY_A.code());
    keyset.press_key(Key::KEY_M.code());
    keyset.press_key(Key::KEY_ESC.code());
    assert_eq!(keyset.keys, [0x1D, 0x04, 0x10, 0x29, 0, 0]);
    keyset.release_key(Key::KEY_A.code());
    assert_eq!(keyset.keys, [0x29, 0x1D, 0x10, 0, 0, 0]);
    keyset.press_key(Key::KEY_B.code());
    assert_eq!(keyset.keys, [0x29, 0x1D, 0x10, 0x05, 0, 0]);
}

#[test]
fn key_table_values() {
    assert_eq!(key_to_hid_usage_id(Key::KEY_ESC.code()), Some(0x29));
    assert_eq!(key_to_hid_usage_id(Key::KEY_UP.code()), Some(0x52));
    assert_eq!(key_to_hid_usage_id(Key::KEY_F24.code()), Some(0x73));
    assert_eq!(key_to_hid_usage_id(Key::KEY_BACKSLASH.code()), Some(0x32));
    assert_eq!(key_to_hid_usage_id(Key::KEY_ALTERASE.code()), Some(0x99));
    assert_eq!(key_to_hid_usage_id(Key::KEY_MACRO.code()), None);
    assert_eq!(key_to_hid_usage_id(0), None);
}

#[test]
fn key_table_agrees_with_hid_usages() {
    let pairs = [
        (Key::KEY_A, KeyboardUsage::KeyboardAa),
        (Key::KEY_Q, KeyboardUsage::KeyboardQq),
        (Key::KEY_1, KeyboardUsage::Keyboard1Exclamation),
        (Key::KEY_ENTER, KeyboardUsage::KeyboardEnter),
        (Key::KEY_SPACE, KeyboardUsage::KeyboardSpacebar),
        (Key::KEY_KP5, KeyboardUsage::Keypad5),
        (Key::KEY_RIGHT, KeyboardUsage::KeyboardRightArrow),
        (Key::KEY_F13, KeyboardUsage::KeyboardF13),
        (Key::KEY_COMPOSE, KeyboardUsage::KeyboardApplication),
    ];
    for (key, usage) in pairs {
        assert_eq!(key_to_hid_usage_id(key.code()), Some(usage as u8));
    }
}

#[test]
fn modifier_keys_and_bits() {
    assert_eq!(
        UsbHidModifier::from_key(Key::KEY_RIGHTMETA.code()),
        Some(UsbHidModifier::RightMeta)
    );
    assert_eq!(UsbHidModifier::from_key(Key::KEY_A.code()), None);
    assert_eq!(UsbHidModifier::LeftControl.bit(), 0x01);
    assert_eq!(UsbHidModifier::RightShift.bit(), 0x20);
    assert_eq!(UsbHidModifier::RightMeta.bit(), 0x80);
}

#[test]
fn key_events_produce_frames_for_press_and_release_only() {
    let mut keyset = KeySet::new();
    let frame = handle_key_event(&mut keyset, Key::KEY_A.code(), 1).unwrap();
    assert_eq!(frame, vec![0x01, 0x02, 0x04, 0x01, 0x01, 0x01, 0x01, 0x01, 0x00]);
    assert_eq!(handle_key_event(&mut keyset, Key::KEY_A.code(), 2), None);
    assert_eq!(keyset.keys, [0x04, 0, 0, 0, 0, 0]);
    let frame = handle_key_event(&mut keyset, Key::KEY_A.code(), 0).unwrap();
    assert_eq!(frame, vec![0x01; 8].into_iter().chain([0x00]).collect::<Vec<u8>>());
    assert_eq!(keyset, KeySet::new());
}

#[test]
fn keyset_converts_to_report() {
    let mut keyset = KeySet::new();
    keyset.press_key(Key::KEY_RIGHTSHIFT.code());
    keyset.press_key(Key::KEY_X.code());
    let report = WhyNoDeriveDeserializeManSadFaceHere::from(keyset);
    assert_eq!(report.modifier, 0x20);
    assert_eq!(report.keys, [0x1B, 0, 0, 0, 0, 0]);
    assert_eq!(keyset.report(), report);
}
