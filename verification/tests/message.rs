use ip_kvm::hid::keyboard::Keyboard;
use ip_kvm::message::{
    apply_key_message, byte_as_signed, decode_keyboard, decode_mouse, decode_mouse_legacy,
    KeyMessage, MouseLegacyMessage, MouseMessage,
};

#[test]
fn byte_as_signed_is_twos_complement() {
    assert_eq!(byte_as_signed(0), 0);
    assert_eq!(byte_as_signed(0x7f), 127);
    assert_eq!(byte_as_signed(0x80), -128);
    assert_eq!(byte_as_signed(0xfd), -3);
    assert_eq!(byte_as_signed(0xff), -1);
    for b in 0u8..=255 {
        assert_eq!(byte_as_signed(b), b as i8);
    }
}

#[test]
fn mouse_message_is_decoded() {
    assert_eq!(
        decode_mouse(&[0x01, 0x34, 0x12, 0x78, 0x56, 0xfd]),
        Some(MouseMessage { button: 1, x: 0x1234, y: 0x5678, wheel: -3 })
    );
    assert_eq!(
        decode_mouse(&[0xff, 0xff, 0x7f, 0xff, 0x7f, 0x81]),
        Some(MouseMessage { button: 0xff, x: 0x7fff, y: 0x7fff, wheel: -127 })
    );
    assert_eq!(
        decode_mouse(&[0, 0, 0, 0, 0, 0x7f]),
        Some(MouseMessage { button: 0, x: 0, y: 0, wheel: 127 })
    );
}

#[test]
fn mouse_message_out_of_range_is_refused() {
    assert_eq!(decode_mouse(&[0, 0x00, 0x80, 0, 0, 0]), None);
    assert_eq!(decode_mouse(&[0, 0, 0, 0xff, 0xff, 0]), None);
    assert_eq!(decode_mouse(&[0, 0, 0, 0, 0, 0x80]), None);
}

#[test]
fn mouse_message_of_wrong_length_is_refused() {
    assert_eq!(decode_mouse(&[]), None);
    assert_eq!(decode_mouse(&[0, 0, 0, 0, 0]), None);
    assert_eq!(decode_mouse(&[0, 0, 0, 0, 0, 0, 0]), None);
}

#[test]
fn mouse_legacy_message_is_decoded() {
    assert_eq!(
        decode_mouse_legacy(&[0x02, 0x01, 0xff, 0x00]),
        Some(MouseLegacyMessage { button: 2, x: 1, y: -1, wheel: 0 })
    );
    assert_eq!(
        decode_mouse_legacy(&[0x00, 0x7f, 0x81, 0x81]),
        Some(MouseLegacyMessage { button: 0, x: 127, y: -127, wheel: -127 })
    );
}

#[test]
fn mouse_legacy_message_is_refused() {
    assert_eq!(decode_mouse_legacy(&[0, 0x80, 0, 0]), None);
    assert_eq!(decode_mouse_legacy(&[0, 0, 0x80, 0]), None);
    assert_eq!(decode_mouse_legacy(&[0, 0, 0, 0x80]), None);
    assert_eq!(decode_mouse_legacy(&[0, 0, 0]), None);
    assert_eq!(decode_mouse_legacy(&[0, 0, 0, 0, 0]), None);
}

#[test]
fn keyboard_message_is_decoded() {
    assert_eq!(decode_keyboard(&[0, 0x04, 1]), Some(KeyMessage::Key { usage_id: 4, down: true }));
    assert_eq!(
        decode_keyboard(&[0, 0xe1, 0]),
        Some(KeyMessage::Key { usage_id: 0xe1, down: false })
    );
}

#[test]
fn keyboard_message_about_system_control_is_decoded() {
    assert_eq!(
        decode_keyboard(&[1, 0x81, 1]),
        Some(KeyMessage::SysControl { usage_id: 0x81, down: true })
    );
    assert_eq!(
        decode_keyboard(&[1, 0x8f, 0]),
        Some(KeyMessage::SysControl { usage_id: 0x8f, down: false })
    );
}

#[test]
fn keyboard_message_is_refused() {
    assert_eq!(decode_keyboard(&[0, 4, 2]), None);
    assert_eq!(decode_keyboard(&[1, 0x81, 2]), None);
    assert_eq!(decode_keyboard(&[2, 4, 1]), None);
    assert_eq!(decode_keyboard(&[0xff, 4, 0]), None);
    assert_eq!(decode_keyboard(&[0, 4]), None);
    assert_eq!(decode_keyboard(&[0, 4, 1, 0]), None);
    assert_eq!(decode_keyboard(&[]), None);
}

#[test]
fn key_message_changes_the_keyboard() {
    let mut k = Keyboard::default();
    assert!(apply_key_message(&mut k, KeyMessage::Key { usage_id: 4, down: true }));
    assert!(k.get_key(4));
    assert!(!apply_key_message(&mut k, KeyMessage::Key { usage_id: 4, down: true }));
    assert!(apply_key_message(&mut k, KeyMessage::SysControl { usage_id: 0x82, down: true }));
    assert!(k.get_sys_control_key(0x82));
    assert_eq!(k.sys_control_keys, [0x02, 0x00]);
    assert!(!apply_key_message(&mut k, KeyMessage::SysControl { usage_id: 0x82, down: true }));
    assert!(!apply_key_message(&mut k, KeyMessage::SysControl { usage_id: 0x04, down: true }));
    assert!(!apply_key_message(&mut k, KeyMessage::Key { usage_id: 0x100, down: true }));
    assert!(apply_key_message(&mut k, KeyMessage::Key { usage_id: 4, down: false }));
    assert_eq!(k.keys, [0u8; 0x20]);
}
