use ip_kvm::hid::keyboard::usage_id;
use ip_kvm::hid::keyboard::Keyboard;

#[test]
fn new_keyboard_is_clear() {
    let k = Keyboard::default();
    assert_eq!(k.led, [0u8; 0x20]);
    assert_eq!(k.keys, [0u8; 0x20]);
    assert_eq!(k.sys_control_keys, [0u8; 2]);
    assert_eq!(k.get_payload(), [0u8; 0x22]);
    assert_eq!(k.get_legacy_payload(), [0u8; 8]);
}

#[test]
fn set_key_reports_change() {
    let mut k = Keyboard::default();
    assert!(!k.get_key(usage_id::KEYBOARD_A));
    assert!(k.set_key(usage_id::KEYBOARD_A, true));
    assert!(k.get_key(usage_id::KEYBOARD_A));
    assert!(!k.set_key(usage_id::KEYBOARD_A, true));
    assert!(k.get_key(usage_id::KEYBOARD_A));
    assert!(k.set_key(usage_id::KEYBOARD_A, false));
    assert!(!k.get_key(usage_id::KEYBOARD_A));
    assert!(!k.set_key(usage_id::KEYBOARD_A, false));
}

#[test]
fn set_key_round_trip_over_all_usages() {
    for usage in 0u16..0x100 {
        let mut k = Keyboard::default();
        assert!(k.set_key(usage, true));
        for other in 0u16..0x100 {
            assert_eq!(k.get_key(other), other == usage);
        }
        assert_eq!(k.keys[(usage / 8) as usize], 1u8 << (usage % 8));
        assert!(k.set_key(usage, false));
        assert_eq!(k.keys, [0u8; 0x20]);
    }
}

#[test]
fn set_key_leaves_other_state_alone() {
    let mut k = Keyboard::default();
    k.led[3] = 0x55;
    k.sys_control_keys[1] = 0x0f;
    k.set_key(0x2c, true);
    assert_eq!(k.led[3], 0x55);
    assert_eq!(k.sys_control_keys, [0, 0x0f]);
}

#[test]
fn usage_without_key_is_ignored() {
    let mut k = Keyboard::default();
    assert!(!k.set_key(0x100, true));
    assert!(!k.get_key(0x100));
    assert!(!k.set_key(0xffff, true));
    assert!(!k.get_key(0xffff));
    assert_eq!(k.keys, [0u8; 0x20]);
}

#[test]
fn get_led_reads_bits() {
    let mut k = Keyboard::default();
    k.led[0] = 0x02;
    k.led[0x1f] = 0x80;
    assert!(!k.get_led(0));
    assert!(k.get_led(1));
    assert!(k.get_led(0xff));
    assert!(!k.get_led(0xfe));
    assert!(!k.get_led(0x100));
}

#[test]
fn sys_control_keys_are_numbered_from_power_down() {
    let mut k = Keyboard::default();
    assert!(k.set_sys_control_key(0x81, true));
    assert_eq!(k.sys_control_keys, [0x01, 0x00]);
    assert!(k.get_sys_control_key(0x81));
    assert!(k.set_sys_control_key(0x8f, true));
    assert_eq!(k.sys_control_keys, [0x01, 0x40]);
    assert!(k.get_sys_control_key(0x8f));
    assert!(!k.get_sys_control_key(0x82));
    assert!(!k.set_sys_control_key(0x8f, true));
    assert!(k.set_sys_control_key(0x81, false));
    assert_eq!(k.sys_control_keys, [0x00, 0x40]);
}

#[test]
fn sys_control_usage_out_of_range_is_ignored() {
    let mut k = Keyboard::default();
    assert!(!k.set_sys_control_key(0x80, true));
    assert!(!k.set_sys_control_key(0x00, true));
    assert!(!k.set_sys_control_key(0x91, true));
    assert!(!k.get_sys_control_key(0x80));
    assert!(!k.get_sys_control_key(0x91));
    assert_eq!(k.sys_control_keys, [0, 0]);
    assert!(k.set_sys_control_key(0x90, true));
    assert_eq!(k.sys_control_keys, [0x00, 0x80]);
}

#[test]
fn clear_releases_everything() {
    let mut k = Keyboard::default();
    k.set_key(4, true);
    k.set_sys_control_key(0x82, true);
    k.led[0] = 7;
    k.clear();
    assert_eq!(k.led, [0u8; 0x20]);
    assert_eq!(k.keys, [0u8; 0x20]);
    assert_eq!(k.sys_control_keys, [0u8; 2]);
}

#[test]
fn payload_is_keys_then_sys_control() {
    let mut k = Keyboard::default();
    k.set_key(0x04, true);
    k.set_key(0xe1, true);
    k.set_sys_control_key(0x82, true);
    let p = k.get_payload();
    assert_eq!(p.len(), 0x22);
    assert_eq!(&p[..0x20], &k.keys[..]);
    assert_eq!(&p[0x20..], &k.sys_control_keys[..]);
    assert_eq!(p[0], 0x10);
    assert_eq!(p[0x1c], 0x02);
    assert_eq!(p[0x20], 0x02);
    assert_eq!(p[0x21], 0x00);
}

#[test]
fn composite_payload_starts_with_keyboard_report_id() {
    let mut k = Keyboard::default();
    k.set_key(0x04, true);
    k.set_sys_control_key(0x81, true);
    let r = k.get_composite_payload();
    assert_eq!(r.len(), 0x23);
    assert_eq!(r[0], 0x02);
    assert_eq!(&r[1..], &k.get_payload()[..]);
    assert_eq!(r[1], 0x10);
    assert_eq!(r[0x21], 0x01);
}

#[test]
fn legacy_single_key_press() {
    let mut k = Keyboard::default();
    k.set_key(0x04, true);
    assert_eq!(k.get_legacy_payload(), [0, 0, 0x04, 0, 0, 0, 0, 0]);
}

#[test]
fn legacy_modifier_and_key() {
    let mut k = Keyboard::default();
    k.set_key(0xe1, true);
    k.set_key(0x04, true);
    assert_eq!(k.get_legacy_payload(), [0x02, 0, 0x04, 0, 0, 0, 0, 0]);
}

#[test]
fn legacy_six_key_rollover() {
    let mut k = Keyboard::default();
    for usage in [0x04u16, 0x05, 0x06, 0x07, 0x08, 0x09, 0x0a] {
        k.set_key(usage, true);
    }
    assert_eq!(k.get_legacy_payload(), [0, 0, 0x04, 0x05, 0x06, 0x07, 0x08, 0x09]);
}

#[test]
fn legacy_keys_come_in_ascending_order() {
    let mut k = Keyboard::default();
    for usage in [0x65u16, 0x10, 0x2c, 0x05] {
        k.set_key(usage, true);
    }
    assert_eq!(k.get_legacy_payload(), [0, 0, 0x05, 0x10, 0x2c, 0x65, 0, 0]);
}

#[test]
fn legacy_all_modifiers() {
    let mut k = Keyboard::default();
    for i in 0u16..8 {
        k.set_key(0xe0 + i, true);
        assert_eq!(k.get_legacy_payload()[0].count_ones(), (i + 1) as u32);
        assert_eq!(k.get_legacy_payload()[0], (1u16 << (i + 1)).wrapping_sub(1) as u8);
    }
    assert_eq!(k.get_legacy_payload(), [0xff, 0, 0, 0, 0, 0, 0, 0]);
}

#[test]
fn legacy_leaves_out_keys_above_application() {
    let mut k = Keyboard::default();
    k.set_key(0x66, true);
    k.set_key(0xdd, true);
    assert_eq!(k.get_legacy_payload(), [0, 0, 0, 0, 0, 0, 0, 0]);
    k.set_key(0x65, true);
    assert_eq!(k.get_legacy_payload(), [0, 0, 0x65, 0, 0, 0, 0, 0]);
}

#[test]
fn legacy_counts_usage_zero_as_a_key() {
    let mut k = Keyboard::default();
    k.set_key(0, true);
    k.set_key(4, true);
    assert_eq!(k.get_legacy_payload(), [0, 0, 0, 4, 0, 0, 0, 0]);
}

#[test]
fn legacy_led_frame_updates_first_byte_and_notifies_once() {
    let mut k = Keyboard::default();
    let mut published = [0u8; 0x20];
    assert!(k.recv_legacy(0x02, &mut published));
    assert_eq!(k.led[0], 0x02);
    assert_eq!(published[0], 0x02);
    assert!(!k.recv_legacy(0x02, &mut published));
    assert_eq!(k.led[0], 0x02);
    assert_eq!(published[0], 0x02);
    assert_eq!(&published[1..], &[0u8; 0x1f][..]);
}

#[test]
fn legacy_led_frame_keeps_high_bits() {
    let mut k = Keyboard::default();
    k.led[0] = 0xe0;
    k.led[1] = 0x77;
    let mut published = [0xaau8; 0x20];
    assert!(k.recv_legacy(0xff, &mut published));
    assert_eq!(k.led[0], 0xff);
    assert_eq!(k.led[1], 0x77);
    assert_eq!(published[0], 0xff);
    assert_eq!(published[1], 0xaa);
    assert!(k.recv_legacy(0x00, &mut published));
    assert_eq!(k.led[0], 0xe0);
    assert_eq!(published[0], 0xe0);
}

#[test]
fn repeated_legacy_frames_notify_at_most_once() {
    for frame in [0x00u8, 0x01, 0x1f, 0x20, 0xff] {
        let mut k = Keyboard::default();
        let mut published = [0u8; 0x20];
        let mut notifications = 0;
        for _ in 0..5 {
            if k.recv_legacy(frame, &mut published) {
                notifications += 1;
            }
        }
        assert!(notifications <= 1);
        assert_eq!(notifications, if frame & 0x1f != 0 { 1 } else { 0 });
    }
}

#[test]
fn led_report_replaces_led_state() {
    let mut k = Keyboard::default();
    let mut published = [0u8; 0x20];
    let mut frame = [0u8; 0x21];
    frame[0] = 0x02;
    frame[1] = 0x03;
    frame[0x20] = 0x80;
    assert!(k.recv(&frame, &mut published));
    assert_eq!(k.led[0], 0x03);
    assert_eq!(k.led[0x1f], 0x80);
    assert_eq!(published, k.led);
    assert!(k.get_led(0));
    assert!(k.get_led(1));
    assert!(k.get_led(0xff));
    assert!(!k.recv(&frame, &mut published));
    assert_eq!(published, k.led);
    frame[5] = 1;
    assert!(k.recv(&frame, &mut published));
    assert_eq!(published[4], 1);
}

#[test]
fn legacy_payload_holds_lowest_keys_and_modifier_count() {
    let sets: Vec<Vec<u16>> = vec![
        vec![],
        vec![0x65],
        vec![0x04, 0xe0, 0xe7],
        vec![0x10, 0x04, 0x65, 0x30, 0x20, 0x15, 0x05],
        vec![0x01, 0x02, 0x03, 0x04, 0x05, 0x06, 0x07, 0x08, 0xe2, 0xe3, 0xe4],
        vec![0x66, 0x70, 0xdf, 0xe8, 0xff, 0x64],
        (0u16..0x100).collect(),
        (0u16..0x100).filter(|u| u % 3 == 0).collect(),
        (0u16..0x100).filter(|u| u % 7 == 5).collect(),
    ];
    for set in sets {
        let mut k = Keyboard::default();
        for usage in &set {
            k.set_key(*usage, true);
        }
        let payload = k.get_legacy_payload();
        let modifiers = set.iter().filter(|u| (0xe0..=0xe7).contains(*u)).count();
        assert_eq!(payload[0].count_ones() as usize, modifiers);
        for i in 0u16..8 {
            assert_eq!(payload[0] >> i & 1 == 1, set.contains(&(0xe0 + i)));
        }
        assert_eq!(payload[1], 0);
        let mut keys: Vec<u16> = set.iter().copied().filter(|u| *u <= 0x65).collect();
        keys.sort();
        keys.truncate(6);
        for slot in 0..6 {
            let expected = keys.get(slot).copied().unwrap_or(0) as u8;
            assert_eq!(payload[2 + slot], expected);
        }
    }
}
