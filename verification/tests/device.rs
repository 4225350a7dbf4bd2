use ip_kvm::configfs::FsOp;
use ip_kvm::device::{
    all_present, hid_minor, hidg_path, kvm_gadget, select_udc, usb_gadget_path, CONFIGFS_BASE,
    CONFIGURE_NAME, FUNCTION_NAME_HID_COMPOSITE, FUNCTION_NAME_KEYBOARD_LEGACY,
    FUNCTION_NAME_MOUSE_LEGACY, FUNCTION_NAME_MSG, GADGET_NAME, HIDG_POLL_INTERVAL_MS, LUN_COUNT,
    NO_UDC_MESSAGE, UDC_PATH,
};
use ip_kvm::error::ErrorKind;
use ip_kvm::gadget::{Configurable, FunctionOpts, GadgetConfigName, GadgetStrings};
use ip_kvm::hid::hid_composite::hid_composite_fho;
use ip_kvm::hid::keyboard::keyboard_legacy_fho;
use ip_kvm::hid::mouse::mouse_legacy_fho;
use ip_kvm::mass_storage::MsgLun;

#[test]
fn names_and_places() {
    assert_eq!(CONFIGFS_BASE, "/sys/kernel/config/usb_gadget");
    assert_eq!(UDC_PATH, "/sys/class/udc");
    assert_eq!(GADGET_NAME, "ip-kvm");
    assert_eq!(CONFIGURE_NAME, "c.1");
    assert_eq!(FUNCTION_NAME_KEYBOARD_LEGACY, "hid.keyboard_legacy");
    assert_eq!(FUNCTION_NAME_MOUSE_LEGACY, "hid.mouse_legacy");
    assert_eq!(FUNCTION_NAME_HID_COMPOSITE, "hid.hid_composite");
    assert_eq!(FUNCTION_NAME_MSG, "mass_storage.msg");
    assert_eq!(LUN_COUNT, 8);
    assert_eq!(HIDG_POLL_INTERVAL_MS, 500);
}

#[test]
fn gadget_path() {
    assert_eq!(usb_gadget_path(CONFIGFS_BASE), "/sys/kernel/config/usb_gadget/ip-kvm");
    assert_eq!(usb_gadget_path("/tmp/x"), "/tmp/x/ip-kvm");
}

#[test]
fn hidg_paths() {
    assert_eq!(hidg_path(0), "/dev/hidg0");
    assert_eq!(hidg_path(2), "/dev/hidg2");
    assert_eq!(hidg_path(15), "/dev/hidg15");
    assert_eq!(hidg_path(-1), "/dev/hidg-1");
}

#[test]
fn select_udc_takes_first_name() {
    let entries = vec![Some("fe980000.usb".to_string()), Some("dummy_udc.0".to_string())];
    assert_eq!(select_udc(&entries).unwrap(), "fe980000.usb");
    let entries = vec![None, None, Some("dummy_udc.0".to_string()), Some("x".to_string())];
    assert_eq!(select_udc(&entries).unwrap(), "dummy_udc.0");
}

#[test]
fn select_udc_without_controller() {
    for entries in [vec![], vec![None], vec![None, None]] {
        let err = select_udc(&entries).unwrap_err();
        match err.kind() {
            ErrorKind::Custom { msg, .. } => {
                assert_eq!(msg, NO_UDC_MESSAGE);
                assert_eq!(msg, "Can not found udc");
            }
            other => panic!("unexpected kind {:?}", other),
        }
    }
}

#[test]
fn kvm_gadget_structure() {
    let gadget = kvm_gadget("fe980000.usb".to_string());
    assert_eq!(gadget.udc, "fe980000.usb");
    assert_eq!(gadget.bcd_usb, 0x210);
    assert_eq!(gadget.bcd_device, 0x515);
    assert_eq!(gadget.functions.len(), 4);
    assert_eq!(gadget.functions[0], ("hid.keyboard_legacy".to_string(), FunctionOpts::Hid(keyboard_legacy_fho())));
    assert_eq!(gadget.functions[1], ("hid.mouse_legacy".to_string(), FunctionOpts::Hid(mouse_legacy_fho())));
    assert_eq!(gadget.functions[2], ("hid.hid_composite".to_string(), FunctionOpts::Hid(hid_composite_fho())));
    assert_eq!(gadget.functions[3].0, "mass_storage.msg");
    match &gadget.functions[3].1 {
        FunctionOpts::Msg(msg) => {
            assert!(!msg.stall);
            assert_eq!(msg.luns.len(), 8);
            for (i, (name, lun)) in msg.luns.iter().enumerate() {
                assert_eq!(name, &format!("lun.{i}"));
                assert_eq!(lun, &MsgLun::default());
                assert!(lun.removable);
            }
        }
        other => panic!("unexpected function {:?}", other),
    }
    assert_eq!(gadget.configs.len(), 1);
    assert_eq!(gadget.configs[0].0, "c.1");
    assert_eq!(gadget.configs[0].1.bm_attributes, 0x80);
    assert_eq!(gadget.configs[0].1.max_power, 2);
    assert_eq!(gadget.configs[0].1.strings, vec![(0x409, GadgetConfigName::default())]);
    assert_eq!(
        gadget.configs[0].1.functions,
        vec!["hid.keyboard_legacy", "hid.mouse_legacy", "hid.hid_composite", "mass_storage.msg"]
    );
    assert_eq!(gadget.strings, vec![(0x409, GadgetStrings::default())]);
    assert!(gadget.is_well_formed());
}

#[test]
fn kvm_gadget_plan_binds_last() {
    let gadget = kvm_gadget("fe980000.usb".to_string());
    let base = usb_gadget_path(CONFIGFS_BASE);
    let ops = gadget.apply_config(&base);
    assert_eq!(ops[0], FsOp::CreateDir { path: base.clone() });
    assert_eq!(
        ops.last().unwrap(),
        &FsOp::Write {
            path: format!("{base}/UDC"),
            contents: b"fe980000.usb".to_vec(),
            required: true,
        }
    );
    let reads: Vec<_> = ops.iter().filter(|op| matches!(op, FsOp::ReadDev { .. })).collect();
    assert_eq!(reads.len(), 3);
    let links = ops.iter().filter(|op| matches!(op, FsOp::Symlink { .. })).count();
    assert_eq!(links, 4);
    let made: Vec<_> = ops
        .iter()
        .filter_map(|op| match op {
            FsOp::EnsureDir { path } => Some(path.clone()),
            _ => None,
        })
        .collect();
    assert_eq!(made.len(), 7);
    assert!(made.iter().all(|p| !p.ends_with("/lun.0")));
}

#[test]
fn hid_minor_after_read_dev() {
    let mut gadget = kvm_gadget("u".to_string());
    assert_eq!(hid_minor(&gadget, FUNCTION_NAME_KEYBOARD_LEGACY), Some(0));
    let ops = gadget.apply_config("/g");
    let mut next = 0;
    for op in ops {
        if let FsOp::ReadDev { path } = op {
            gadget.read_dev("/g", &path, &format!("236:{next}\n")).unwrap();
            next += 1;
        }
    }
    assert_eq!(hid_minor(&gadget, FUNCTION_NAME_KEYBOARD_LEGACY), Some(0));
    assert_eq!(hid_minor(&gadget, FUNCTION_NAME_MOUSE_LEGACY), Some(1));
    assert_eq!(hid_minor(&gadget, FUNCTION_NAME_HID_COMPOSITE), Some(2));
    assert_eq!(hid_minor(&gadget, FUNCTION_NAME_MSG), None);
    assert_eq!(hid_minor(&gadget, "hid.other"), None);
}

#[test]
fn all_present_needs_every_device() {
    assert!(all_present(&[]));
    assert!(all_present(&[true, true, true]));
    assert!(!all_present(&[true, false, true]));
    assert!(!all_present(&[false]));
}
