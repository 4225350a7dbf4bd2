use ip_kvm::configfs::FsOp;
use ip_kvm::error::{DeserializedError, ErrorKind};
use ip_kvm::gadget::Configurable;
use ip_kvm::hid::hid_composite::{self, hid_composite_fho, ReportTarget, HID_COMPOSITE_REPORT_DESC};
use ip_kvm::hid::keyboard::{
    keyboard_fho, keyboard_legacy_fho, KEYBOARD_LEGACY_REPORT_DESC, KEYBOARD_REPORT_DESC,
};
use ip_kvm::hid::mouse::{mouse_legacy_fho, MOUSE_ABSOLUTE_REPORT_DESC, MOUSE_LEGACY_REPORT_DESC};
use ip_kvm::hid::{FunctionHidOpts, DEV_PATTERN};

fn write(path: &str, contents: &[u8]) -> FsOp {
    FsOp::Write { path: path.to_string(), contents: contents.to_vec(), required: true }
}

#[test]
fn default_options_are_zero() {
    let opts = FunctionHidOpts::default();
    assert_eq!(
        opts,
        FunctionHidOpts {
            major: 0,
            minor: 0,
            no_out_endpoint: 0,
            protocol: 0,
            report_desc: vec![],
            report_length: 0,
            subclass: 0,
        }
    );
}

#[test]
fn keyboard_legacy_function() {
    let opts = keyboard_legacy_fho();
    assert_eq!((opts.major, opts.minor), (0, 0));
    assert_eq!(opts.no_out_endpoint, 1);
    assert_eq!(opts.subclass, 1);
    assert_eq!(opts.protocol, 1);
    assert_eq!(opts.report_length, 8);
    assert_eq!(opts.report_desc, KEYBOARD_LEGACY_REPORT_DESC.to_vec());
    assert_eq!(
        opts.report_desc,
        vec![
            0x05, 0x01, 0x09, 0x06, 0xa1, 0x01, 0x75, 0x08, 0x95, 0x08, 0x81, 0x03, 0x05, 0x08,
            0x19, 0x01, 0x29, 0x05, 0x75, 0x01, 0x95, 0x05, 0x91, 0x02, 0x75, 0x03, 0x95, 0x01,
            0x91, 0x03, 0xc0
        ]
    );
}

#[test]
fn keyboard_function() {
    let opts = keyboard_fho();
    assert_eq!(opts.no_out_endpoint, 1);
    assert_eq!(opts.subclass, 1);
    assert_eq!(opts.protocol, 1);
    assert_eq!(opts.report_length, 0x22);
    assert_eq!(opts.report_desc, KEYBOARD_REPORT_DESC.to_vec());
    assert_eq!(opts.report_desc.len(), 63);
    assert_eq!(&opts.report_desc[..6], &[0x05, 0x01, 0x09, 0x06, 0xa1, 0x01]);
    assert_eq!(&opts.report_desc[6..13], &[0x05, 0x07, 0x19, 0x00, 0x2a, 0xff, 0x00]);
    assert_eq!(*opts.report_desc.last().unwrap(), 0xc0);
}

#[test]
fn mouse_legacy_function() {
    let opts = mouse_legacy_fho();
    assert_eq!(opts.no_out_endpoint, 1);
    assert_eq!(opts.subclass, 1);
    assert_eq!(opts.protocol, 2);
    assert_eq!(opts.report_length, 4);
    assert_eq!(opts.report_desc, MOUSE_LEGACY_REPORT_DESC.to_vec());
    assert_eq!(
        opts.report_desc,
        vec![
            0x05, 0x01, 0x09, 0x02, 0xa1, 0x01, 0x09, 0x01, 0xa1, 0x00, 0x05, 0x09, 0x19, 0x01,
            0x29, 0x08, 0x15, 0x00, 0x25, 0x01, 0x75, 0x01, 0x95, 0x08, 0x81, 0x02, 0x05, 0x01,
            0x09, 0x30, 0x09, 0x31, 0x09, 0x38, 0x15, 0x81, 0x25, 0x7f, 0x75, 0x08, 0x95, 0x03,
            0x81, 0x06, 0xc0, 0xc0
        ]
    );
}

#[test]
fn composite_function() {
    let opts = hid_composite_fho();
    assert_eq!(opts.no_out_endpoint, 1);
    assert_eq!(opts.subclass, 1);
    assert_eq!(opts.protocol, 1);
    assert_eq!(opts.report_length, 0x23);
    assert_eq!(opts.report_desc, HID_COMPOSITE_REPORT_DESC.to_vec());
    assert_eq!(opts.report_desc.len(), 131);
    assert_eq!(&opts.report_desc[6..8], &[0x85, 0x01]);
    assert_eq!(&opts.report_desc[72..74], &[0x85, 0x02]);
}

#[test]
fn composite_descriptor_is_made_of_mouse_and_keyboard() {
    let mouse = MOUSE_ABSOLUTE_REPORT_DESC.to_vec();
    let keyboard = KEYBOARD_REPORT_DESC.to_vec();
    let mut expected = Vec::new();
    expected.extend_from_slice(&mouse[..6]);
    expected.extend_from_slice(&[0x85, 0x01]);
    expected.extend_from_slice(&mouse[6..56]);
    expected.extend_from_slice(&[0x75, 0x08, 0x95, 0x1c, 0x81, 0x03]);
    expected.extend_from_slice(&mouse[56..]);
    expected.extend_from_slice(&keyboard[..6]);
    expected.extend_from_slice(&[0x85, 0x02]);
    expected.extend_from_slice(&keyboard[6..]);
    assert_eq!(HID_COMPOSITE_REPORT_DESC.to_vec(), expected);
}

#[test]
fn absolute_axes_have_logical_range_from_zero_to_7fff() {
    let d = MOUSE_ABSOLUTE_REPORT_DESC;
    let at = d.windows(6).position(|w| w == [0x16, 0x00, 0x00, 0x26, 0xff, 0x7f]);
    assert!(at.is_some());
    let c = HID_COMPOSITE_REPORT_DESC;
    assert!(c.windows(6).any(|w| w == [0x16, 0x00, 0x00, 0x26, 0xff, 0x7f]));
}

#[test]
fn apply_config_plan() {
    let opts = keyboard_legacy_fho();
    let ops = opts.apply_config("/g/functions/hid.k");
    assert_eq!(
        ops,
        vec![
            FsOp::CreateDir { path: "/g/functions/hid.k".to_string() },
            FsOp::Write {
                path: "/g/functions/hid.k/no_out_endpoint".to_string(),
                contents: b"1".to_vec(),
                required: false,
            },
            write("/g/functions/hid.k/protocol", b"1"),
            write("/g/functions/hid.k/report_desc", &KEYBOARD_LEGACY_REPORT_DESC),
            write("/g/functions/hid.k/report_length", b"8"),
            write("/g/functions/hid.k/subclass", b"1"),
            FsOp::ReadDev { path: "/g/functions/hid.k/dev".to_string() },
        ]
    );
}

#[test]
fn cleanup_plan() {
    assert_eq!(
        FunctionHidOpts::cleanup("/g/functions/hid.k", true),
        vec![FsOp::RemoveDir { path: "/g/functions/hid.k".to_string() }]
    );
    assert_eq!(FunctionHidOpts::cleanup("/g/functions/hid.k", false), vec![]);
}

#[test]
fn dev_pattern_is_major_colon_minor() {
    assert_eq!(DEV_PATTERN, r"^(\d+):(\d+)$");
}

#[test]
fn read_dev_takes_major_and_minor() {
    let mut opts = mouse_legacy_fho();
    opts.read_dev("236:2\n").unwrap();
    assert_eq!((opts.major, opts.minor), (236, 2));
    opts.read_dev("  0:15  ").unwrap();
    assert_eq!((opts.major, opts.minor), (0, 15));
    assert_eq!(opts.protocol, 2);
    assert_eq!(opts.report_desc, MOUSE_LEGACY_REPORT_DESC.to_vec());
}

#[test]
fn read_dev_refuses_other_forms() {
    for text in ["", "236", "236:", ":2", "a:b", "1:2:3", "1 : 2", "-1:2", "1:2 x"] {
        let mut opts = FunctionHidOpts::default();
        opts.major = 7;
        opts.minor = 9;
        let err = opts.read_dev(text).unwrap_err();
        match err.kind() {
            ErrorKind::Deserialized(DeserializedError::Custom(msg)) => {
                assert_eq!(msg, &format!("Can not deserialize dev_string: {text}"));
            }
            other => panic!("unexpected kind {:?}", other),
        }
        assert_eq!((opts.major, opts.minor), (7, 9));
    }
}

#[test]
fn read_dev_refuses_numbers_that_do_not_fit() {
    let mut opts = FunctionHidOpts::default();
    let err = opts.read_dev("99999999999:1").unwrap_err();
    assert!(matches!(err.kind(), ErrorKind::Deserialized(DeserializedError::ParseInt(_))));
    assert_eq!((opts.major, opts.minor), (0, 0));
    let err = opts.read_dev("5:99999999999").unwrap_err();
    assert!(matches!(err.kind(), ErrorKind::Deserialized(DeserializedError::ParseInt(_))));
    assert_eq!((opts.major, opts.minor), (5, 0));
}

#[test]
fn read_dev_captures_takes_groups_as_given() {
    let mut opts = FunctionHidOpts::default();
    let groups = Some(vec![Some("1:2".to_string()), Some("1".to_string()), Some("2".to_string())]);
    opts.read_dev_captures(&groups, "1:2").unwrap();
    assert_eq!((opts.major, opts.minor), (1, 2));
    let groups = Some(vec![Some("+3:-4".to_string()), Some("+3".to_string()), Some("-4".to_string())]);
    opts.read_dev_captures(&groups, "+3:-4").unwrap();
    assert_eq!((opts.major, opts.minor), (3, -4));
    let short = Some(vec![Some("1".to_string()), Some("1".to_string())]);
    assert!(opts.read_dev_captures(&short, "1").is_err());
    let missing = Some(vec![Some("1:".to_string()), Some("1".to_string()), None]);
    assert!(opts.read_dev_captures(&missing, "1:").is_err());
    assert!(opts.read_dev_captures(&None, "x").is_err());
    assert_eq!((opts.major, opts.minor), (3, -4));
}

#[test]
fn from_config_takes_all_attributes() {
    let mut opts = FunctionHidOpts::default();
    opts.from_config("236:1\n", Some("1\n"), "2\n", vec![1, 2, 3], "0x23\n", "1\n").unwrap();
    assert_eq!(
        opts,
        FunctionHidOpts {
            major: 236,
            minor: 1,
            no_out_endpoint: 1,
            protocol: 2,
            report_desc: vec![1, 2, 3],
            report_length: 0x23,
            subclass: 1,
        }
    );
}

#[test]
fn from_config_passes_over_missing_no_out_endpoint() {
    let mut opts = FunctionHidOpts::default();
    opts.no_out_endpoint = 5;
    opts.from_config("1:2", None, "1", vec![], "8", "1").unwrap();
    assert_eq!(opts.no_out_endpoint, 0);
    opts.no_out_endpoint = 5;
    opts.from_config("1:2", Some("junk"), "1", vec![], "8", "1").unwrap();
    assert_eq!(opts.no_out_endpoint, 0);
}

#[test]
fn from_config_stops_at_first_content_not_understood() {
    let mut opts = keyboard_legacy_fho();
    let err = opts.from_config("1:2", Some("0"), "2", vec![9], "many", "7").unwrap_err();
    assert!(matches!(err.kind(), ErrorKind::Deserialized(DeserializedError::ParseInt(_))));
    assert_eq!((opts.major, opts.minor), (1, 2));
    assert_eq!(opts.no_out_endpoint, 0);
    assert_eq!(opts.protocol, 2);
    assert_eq!(opts.report_desc, vec![9]);
    assert_eq!(opts.report_length, 8);
    assert_eq!(opts.subclass, 1);

    let mut opts = keyboard_legacy_fho();
    assert!(opts.from_config("nothing", Some("0"), "2", vec![9], "4", "7").is_err());
    assert_eq!(opts, keyboard_legacy_fho());
}

#[test]
fn what_apply_writes_reads_back() {
    let opts = hid_composite_fho();
    let ops = opts.apply_config("f");
    let text = |i: usize| match &ops[i] {
        FsOp::Write { contents, .. } => String::from_utf8(contents.clone()).unwrap(),
        other => panic!("unexpected operation {:?}", other),
    };
    let mut read = FunctionHidOpts::default();
    read.from_config("0:0", Some(&text(1)), &text(2), opts.report_desc.clone(), &text(4), &text(5))
        .unwrap();
    assert_eq!(read, opts);
}

#[test]
fn composite_recv_passes_whole_frames_only() {
    let mut data = [0u8; 0x21];
    data[0] = 2;
    data[1] = 7;
    assert_eq!(hid_composite::recv(data, 0x21).unwrap(), data);
    for len in [0usize, 1, 0x20, 0x22] {
        let err = hid_composite::recv(data, len).unwrap_err();
        assert!(matches!(err.kind(), ErrorKind::Ignore));
    }
}

#[test]
fn composite_route_goes_by_report_id() {
    let mut frame = [0u8; 0x21];
    frame[0] = 2;
    assert_eq!(hid_composite::route(&frame), ReportTarget::Keyboard);
    for id in [0u8, 1, 3, 0xff] {
        frame[0] = id;
        assert_eq!(hid_composite::route(&frame), ReportTarget::Unknown);
    }
}

#[test]
fn composite_lengths_and_report_ids() {
    assert_eq!(hid_composite::HID_COMPOSITE_RECV_LENGTH, 0x21);
    assert_eq!(hid_composite::HID_COMPOSITE_SEND_LENGTH, 0x23);
    assert_eq!(hid_composite::HID_REPORT_ID_MOUSE, 1);
    assert_eq!(hid_composite::HID_REPORT_ID_KEYBOARD, 2);
}
