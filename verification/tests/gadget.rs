use ip_kvm::configfs::{DirEntry, FsOp};
use ip_kvm::error::{DeserializedError, ErrorKind};
use ip_kvm::gadget::{
    has_distinct_names, ConfigSnapshot, Configurable, FunctionOpts, FunctionSnapshot,
    GadgetConfigName, GadgetInfo, GadgetSnapshot, GadgetStrings, OsDesc, UsbConfiguration,
    UsbDeviceSpeed, LANGUAGE_CODE_ENGLISH,
};
use ip_kvm::hid::keyboard::{keyboard_legacy_fho, KEYBOARD_LEGACY_REPORT_DESC};
use ip_kvm::mass_storage::FunctionMsgOpts;

fn write(path: &str, contents: &str) -> FsOp {
    FsOp::Write { path: path.to_string(), contents: contents.as_bytes().to_vec(), required: true }
}

fn optional(path: &str, contents: &str) -> FsOp {
    FsOp::Write { path: path.to_string(), contents: contents.as_bytes().to_vec(), required: false }
}

fn mkdir(path: &str) -> FsOp {
    FsOp::CreateDir { path: path.to_string() }
}

fn rmdir(path: &str) -> FsOp {
    FsOp::RemoveDir { path: path.to_string() }
}

fn dir(name: &str) -> DirEntry {
    DirEntry { name: name.to_string(), is_dir: true, is_symlink: false }
}

fn file(name: &str) -> DirEntry {
    DirEntry { name: name.to_string(), is_dir: false, is_symlink: false }
}

fn link(name: &str) -> DirEntry {
    DirEntry { name: name.to_string(), is_dir: true, is_symlink: true }
}

fn small_gadget() -> GadgetInfo {
    let mut gadget = GadgetInfo::default();
    gadget.bcd_usb = 0x210;
    gadget.id_vendor = 0x1d6b;
    gadget.id_product = 0x0104;
    gadget.functions.push(("hid.k".to_string(), FunctionOpts::Hid(keyboard_legacy_fho())));
    gadget.functions.push(("mass_storage.m".to_string(), FunctionOpts::Msg(FunctionMsgOpts::default())));
    let mut config = UsbConfiguration::default();
    config.strings.push((LANGUAGE_CODE_ENGLISH, GadgetConfigName { configuration: "kvm".to_string() }));
    config.functions.push("hid.k".to_string());
    config.functions.push("mass_storage.m".to_string());
    gadget.configs.push(("c.1".to_string(), config));
    gadget.strings.push((
        LANGUAGE_CODE_ENGLISH,
        GadgetStrings {
            manufacturer: "acme".to_string(),
            product: "kvm".to_string(),
            serialnumber: "0001".to_string(),
        },
    ));
    gadget.udc = "fe980000.usb".to_string();
    gadget
}

fn small_snapshot(udc: &[u8]) -> GadgetSnapshot {
    GadgetSnapshot {
        udc: udc.to_vec(),
        configs: vec![ConfigSnapshot {
            name: "c.1".to_string(),
            is_dir: true,
            entries: vec![
                file("MaxPower"),
                file("bmAttributes"),
                link("hid.k"),
                link("mass_storage.m"),
                dir("strings"),
            ],
            strings: vec![dir("0x409")],
        }],
        functions: vec![
            FunctionSnapshot {
                name: "hid.k".to_string(),
                is_dir: true,
                entries: vec![file("dev"), file("protocol")],
            },
            FunctionSnapshot {
                name: "mass_storage.m".to_string(),
                is_dir: true,
                entries: vec![file("stall"), dir("lun.0"), dir("lun.1")],
            },
            FunctionSnapshot { name: "acm.0".to_string(), is_dir: true, entries: vec![] },
        ],
        strings: vec![dir("0x409")],
    }
}

#[test]
fn speed_names() {
    assert_eq!(UsbDeviceSpeed::UsbSpeedUnknown.as_str(), "unknown");
    assert_eq!(UsbDeviceSpeed::UsbSpeedLow.as_str(), "low-speed");
    assert_eq!(UsbDeviceSpeed::UsbSpeedFull.as_str(), "full-speed");
    assert_eq!(UsbDeviceSpeed::UsbSpeedHigh.as_str(), "high-speed");
    assert_eq!(UsbDeviceSpeed::UsbSpeedWireless.as_str(), "wireless");
    assert_eq!(UsbDeviceSpeed::UsbSpeedSuper.as_str(), "super-speed");
    assert_eq!(UsbDeviceSpeed::UsbSpeedSuperPlus.as_str(), "super-speed-plus");
}

#[test]
fn language_code_of_english() {
    assert_eq!(LANGUAGE_CODE_ENGLISH, 0x409);
}

#[test]
fn defaults() {
    assert_eq!(GadgetConfigName::default().configuration, "\n");
    assert_eq!(
        GadgetStrings::default(),
        GadgetStrings {
            manufacturer: "\n".to_string(),
            product: "\n".to_string(),
            serialnumber: "\n".to_string(),
        }
    );
    assert_eq!(
        OsDesc::default(),
        OsDesc { in_use: false, b_vendor_code: 0, qw_sign: "\n\n".to_string() }
    );
    let config = UsbConfiguration::default();
    assert_eq!(config.bm_attributes, 0x80);
    assert_eq!(config.max_power, 2);
    assert!(config.functions.is_empty());
    assert!(config.strings.is_empty());
    let gadget = GadgetInfo::default();
    assert_eq!(gadget.bcd_device, 0x515);
    assert_eq!(gadget.bcd_usb, 0);
    assert_eq!(gadget.b_device_class, 0);
    assert_eq!(gadget.b_device_protocol, 0);
    assert_eq!(gadget.b_device_sub_class, 0);
    assert_eq!(gadget.b_max_packet_size0, 0);
    assert!(gadget.configs.is_empty());
    assert!(gadget.functions.is_empty());
    assert_eq!(gadget.id_product, 0);
    assert_eq!(gadget.id_vendor, 0);
    assert_eq!(gadget.max_speed, UsbDeviceSpeed::UsbSpeedSuperPlus);
    assert_eq!(gadget.os_desc, OsDesc::default());
    assert!(gadget.strings.is_empty());
    assert_eq!(gadget.udc, "\n");
}

#[test]
fn config_name_plan() {
    let name = GadgetConfigName { configuration: "kvm".to_string() };
    assert_eq!(
        name.apply_config("/c/strings/0x409"),
        vec![mkdir("/c/strings/0x409"), write("/c/strings/0x409/configuration", "kvm")]
    );
}

#[test]
fn strings_plan() {
    let strings = GadgetStrings {
        manufacturer: "acme".to_string(),
        product: "kvm".to_string(),
        serialnumber: "0001".to_string(),
    };
    assert_eq!(
        strings.apply_config("/g/strings/0x409"),
        vec![
            mkdir("/g/strings/0x409"),
            write("/g/strings/0x409/manufacturer", "acme"),
            write("/g/strings/0x409/product", "kvm"),
            write("/g/strings/0x409/serialnumber", "0001"),
        ]
    );
}

#[test]
fn strings_keep_text_that_is_not_ascii() {
    let name = GadgetConfigName { configuration: "K\u{fc}che \u{2013} \u{4e2d}".to_string() };
    let ops = name.apply_config("d");
    assert_eq!(ops[1], write("d/configuration", "K\u{fc}che \u{2013} \u{4e2d}"));
}

#[test]
fn os_desc_plan() {
    let os_desc = OsDesc { in_use: true, b_vendor_code: 0xcd, qw_sign: "MSFT100".to_string() };
    assert_eq!(
        os_desc.apply_config("/g/os_desc"),
        vec![
            write("/g/os_desc/use", "1"),
            write("/g/os_desc/b_vendor_code", "205"),
            write("/g/os_desc/qw_sign", "MSFT100"),
        ]
    );
    assert_eq!(OsDesc::cleanup("/g/os_desc"), vec![write("/g/os_desc/use", "0")]);
}

#[test]
fn configuration_plan_links_functions() {
    let mut config = UsbConfiguration::default();
    config.max_power = 500;
    config.strings.push((0x409, GadgetConfigName { configuration: "kvm".to_string() }));
    config.strings.push((0x407, GadgetConfigName { configuration: "kvm-de".to_string() }));
    config.functions.push("hid.k".to_string());
    config.functions.push("mass_storage.m".to_string());
    assert_eq!(
        config.apply_config("/g/configs/c.1"),
        vec![
            mkdir("/g/configs/c.1"),
            write("/g/configs/c.1/bmAttributes", "128"),
            write("/g/configs/c.1/MaxPower", "500"),
            mkdir("/g/configs/c.1/strings/0x409"),
            write("/g/configs/c.1/strings/0x409/configuration", "kvm"),
            mkdir("/g/configs/c.1/strings/0x407"),
            write("/g/configs/c.1/strings/0x407/configuration", "kvm-de"),
            FsOp::Symlink {
                target: "../../functions/hid.k".to_string(),
                link: "/g/configs/c.1/hid.k".to_string(),
            },
            FsOp::Symlink {
                target: "../../functions/mass_storage.m".to_string(),
                link: "/g/configs/c.1/mass_storage.m".to_string(),
            },
        ]
    );
}

#[test]
fn configuration_cleanup_plan() {
    let entries = vec![file("MaxPower"), link("hid.k"), dir("strings"), link("mass_storage.m")];
    let strings = vec![dir("0x409"), file("stray")];
    assert_eq!(
        UsbConfiguration::cleanup("/g/configs/c.1", true, &entries, &strings),
        vec![
            FsOp::RemoveFile { path: "/g/configs/c.1/hid.k".to_string() },
            FsOp::RemoveFile { path: "/g/configs/c.1/mass_storage.m".to_string() },
            rmdir("/g/configs/c.1/strings/0x409"),
            rmdir("/g/configs/c.1"),
        ]
    );
    assert_eq!(UsbConfiguration::cleanup("/g/configs/c.1", false, &entries, &strings), vec![]);
}

#[test]
fn from_config_of_small_parts() {
    let mut name = GadgetConfigName::default();
    name.from_config("kvm\n");
    assert_eq!(name.configuration, "kvm\n");

    let mut strings = GadgetStrings::default();
    strings.from_config("a\n", "b\n", "c\n");
    assert_eq!((strings.manufacturer.as_str(), strings.product.as_str(), strings.serialnumber.as_str()), ("a\n", "b\n", "c\n"));

    let mut config = UsbConfiguration::default();
    config.from_config("0xc0\n", "250\n").unwrap();
    assert_eq!((config.bm_attributes, config.max_power), (0xc0, 250));
    assert!(config.from_config("0x80", "lots").is_err());
    assert_eq!((config.bm_attributes, config.max_power), (0x80, 250));
    assert!(config.from_config("lots", "1").is_err());
    assert_eq!((config.bm_attributes, config.max_power), (0x80, 250));
}

#[test]
fn os_desc_from_config() {
    let mut os_desc = OsDesc::default();
    os_desc.from_config("0xcd\n", "MSFT100\n", "1\n").unwrap();
    assert_eq!(os_desc, OsDesc { in_use: true, b_vendor_code: 0xcd, qw_sign: "MSFT100\n".to_string() });
    let err = os_desc.from_config("1", "x", "on").unwrap_err();
    assert!(matches!(err.kind(), ErrorKind::Deserialized(DeserializedError::Custom(_))));
    assert_eq!(os_desc, OsDesc { in_use: true, b_vendor_code: 1, qw_sign: "x".to_string() });
    let err = os_desc.from_config("300", "y", "0").unwrap_err();
    assert!(matches!(err.kind(), ErrorKind::Deserialized(DeserializedError::ParseInt(_))));
    assert_eq!(os_desc, OsDesc { in_use: true, b_vendor_code: 1, qw_sign: "x".to_string() });
}

#[test]
fn gadget_plan_in_order() {
    let gadget = small_gadget();
    let ops = gadget.apply_config("/g");
    let f = "/g/functions/hid.k";
    let m = "/g/functions/mass_storage.m";
    let expected = vec![
        mkdir("/g"),
        write("/g/bcdDevice", "1301"),
        write("/g/bcdUSB", "528"),
        write("/g/bDeviceClass", "0"),
        write("/g/bDeviceProtocol", "0"),
        write("/g/bDeviceSubClass", "0"),
        write("/g/bMaxPacketSize0", "0"),
        mkdir(f),
        optional(&format!("{f}/no_out_endpoint"), "1"),
        write(&format!("{f}/protocol"), "1"),
        FsOp::Write {
            path: format!("{f}/report_desc"),
            contents: KEYBOARD_LEGACY_REPORT_DESC.to_vec(),
            required: true,
        },
        write(&format!("{f}/report_length"), "8"),
        write(&format!("{f}/subclass"), "1"),
        FsOp::ReadDev { path: format!("{f}/dev") },
        mkdir(m),
        write(&format!("{m}/stall"), "0"),
        write(&format!("{m}/lun.0/forced_eject"), "1"),
        write(&format!("{m}/lun.0/cdrom"), "0"),
        write(&format!("{m}/lun.0/file"), "\n"),
        write(&format!("{m}/lun.0/inquiry_string"), "\n"),
        write(&format!("{m}/lun.0/nofua"), "0"),
        write(&format!("{m}/lun.0/removable"), "1"),
        write(&format!("{m}/lun.0/ro"), "0"),
        mkdir("/g/configs/c.1"),
        write("/g/configs/c.1/bmAttributes", "128"),
        write("/g/configs/c.1/MaxPower", "2"),
        mkdir("/g/configs/c.1/strings/0x409"),
        write("/g/configs/c.1/strings/0x409/configuration", "kvm"),
        FsOp::Symlink {
            target: "../../functions/hid.k".to_string(),
            link: "/g/configs/c.1/hid.k".to_string(),
        },
        FsOp::Symlink {
            target: "../../functions/mass_storage.m".to_string(),
            link: "/g/configs/c.1/mass_storage.m".to_string(),
        },
        write("/g/idProduct", "260"),
        write("/g/idVendor", "7531"),
        optional("/g/max_speed", "super-speed-plus"),
        write("/g/os_desc/use", "0"),
        write("/g/os_desc/b_vendor_code", "0"),
        write("/g/os_desc/qw_sign", "\n\n"),
        mkdir("/g/strings/0x409"),
        write("/g/strings/0x409/manufacturer", "acme"),
        write("/g/strings/0x409/product", "kvm"),
        write("/g/strings/0x409/serialnumber", "0001"),
        write("/g/UDC", "fe980000.usb"),
    ];
    assert_eq!(ops.len(), expected.len());
    for (i, (got, want)) in ops.iter().zip(expected.iter()).enumerate() {
        assert_eq!(got, want, "operation {i}");
    }
}

#[test]
fn binding_is_the_last_write_and_the_only_one_to_udc() {
    let gadget = small_gadget();
    let ops = gadget.apply_config("/sys/kernel/config/usb_gadget/ip-kvm");
    let udc = "/sys/kernel/config/usb_gadget/ip-kvm/UDC";
    assert_eq!(ops.last().unwrap(), &write(udc, "fe980000.usb"));
    for op in &ops[..ops.len() - 1] {
        let path = match op {
            FsOp::CreateDir { path }
            | FsOp::EnsureDir { path }
            | FsOp::Write { path, .. }
            | FsOp::ReadDev { path }
            | FsOp::RemoveFile { path }
            | FsOp::RemoveDir { path } => path,
            FsOp::Symlink { link, .. } => link,
        };
        assert_ne!(path, udc);
    }
}

#[test]
fn default_gadget_plan_unbinds() {
    let ops = GadgetInfo::default().apply_config("g");
    assert_eq!(ops.last().unwrap(), &write("g/UDC", "\n"));
    assert_eq!(ops.len(), 14);
}

#[test]
fn gadget_read_dev_finds_the_function() {
    let mut gadget = small_gadget();
    gadget.read_dev("/g", "/g/functions/hid.k/dev", "236:3\n").unwrap();
    match &gadget.functions[0].1 {
        FunctionOpts::Hid(opts) => assert_eq!((opts.major, opts.minor), (236, 3)),
        other => panic!("unexpected function {:?}", other),
    }
    assert_eq!(gadget.hid_function("hid.k").unwrap().minor, 3);
    let mut expected = small_gadget();
    if let FunctionOpts::Hid(opts) = &mut expected.functions[0].1 {
        opts.major = 236;
        opts.minor = 3;
    }
    assert_eq!(gadget, expected);
}

#[test]
fn gadget_read_dev_without_owner() {
    let mut gadget = small_gadget();
    for path in ["/g/functions/hid.x/dev", "/g/functions/mass_storage.m/dev", "/h/functions/hid.k/dev", "/g/functions/hid.k"] {
        let err = gadget.read_dev("/g", path, "236:3").unwrap_err();
        match err.kind() {
            ErrorKind::Custom { msg, .. } => {
                assert_eq!(msg, &format!("No HID function has the attribute {path}"))
            }
            other => panic!("unexpected kind {:?}", other),
        }
        assert_eq!(gadget, small_gadget());
    }
}

#[test]
fn gadget_read_dev_passes_on_refusal() {
    let mut gadget = small_gadget();
    let err = gadget.read_dev("/g", "/g/functions/hid.k/dev", "what").unwrap_err();
    assert!(matches!(err.kind(), ErrorKind::Deserialized(DeserializedError::Custom(_))));
    assert_eq!(gadget, small_gadget());
}

#[test]
fn every_read_dev_of_the_plan_has_an_owner() {
    let mut gadget = small_gadget();
    let mut reads = 0;
    for op in gadget.apply_config("/g") {
        if let FsOp::ReadDev { path } = op {
            gadget.read_dev("/g", &path, "240:7").unwrap();
            reads += 1;
        }
    }
    assert_eq!(reads, 1);
    assert_eq!(gadget.hid_function("hid.k").unwrap().minor, 7);
}

#[test]
fn find_function_and_hid_function() {
    let gadget = small_gadget();
    assert_eq!(gadget.find_function("hid.k"), Some(0));
    assert_eq!(gadget.find_function("mass_storage.m"), Some(1));
    assert_eq!(gadget.find_function("hid"), None);
    assert!(gadget.hid_function("hid.k").is_some());
    assert!(gadget.hid_function("mass_storage.m").is_none());
    assert!(gadget.hid_function("nothing").is_none());
}

#[test]
fn well_formed_gadgets() {
    assert!(GadgetInfo::default().is_well_formed());
    assert!(small_gadget().is_well_formed());

    let mut twice = small_gadget();
    twice.functions.push(("hid.k".to_string(), FunctionOpts::Hid(keyboard_legacy_fho())));
    assert!(!twice.is_well_formed());

    let mut dangling = small_gadget();
    dangling.configs[0].1.functions.push("hid.missing".to_string());
    assert!(!dangling.is_well_formed());

    let mut two_configs = small_gadget();
    two_configs.configs.push(("c.1".to_string(), UsbConfiguration::default()));
    assert!(!two_configs.is_well_formed());

    let mut two_languages = small_gadget();
    two_languages.strings.push((LANGUAGE_CODE_ENGLISH, GadgetStrings::default()));
    assert!(!two_languages.is_well_formed());
}

#[test]
fn distinct_names() {
    let names: Vec<(String, u8)> = vec![("a".to_string(), 1), ("b".to_string(), 2)];
    assert!(has_distinct_names(&names));
    let names: Vec<(String, u8)> = vec![("a".to_string(), 1), ("b".to_string(), 2), ("a".to_string(), 3)];
    assert!(!has_distinct_names(&names));
    let names: Vec<(String, u8)> = vec![];
    assert!(has_distinct_names(&names));
}

#[test]
fn cleanup_of_bound_gadget() {
    let snapshot = small_snapshot(b"fe980000.usb\n");
    let ops = GadgetInfo::cleanup("/g", Some(&snapshot));
    assert_eq!(
        ops,
        vec![
            write("/g/UDC", "\n"),
            FsOp::RemoveFile { path: "/g/configs/c.1/hid.k".to_string() },
            FsOp::RemoveFile { path: "/g/configs/c.1/mass_storage.m".to_string() },
            rmdir("/g/configs/c.1/strings/0x409"),
            rmdir("/g/configs/c.1"),
            rmdir("/g/functions/hid.k"),
            rmdir("/g/functions/mass_storage.m/lun.1"),
            rmdir("/g/functions/mass_storage.m"),
            rmdir("/g/functions/acm.0"),
            write("/g/os_desc/use", "0"),
            rmdir("/g/strings/0x409"),
            rmdir("/g"),
        ]
    );
}

#[test]
fn cleanup_of_unbound_gadget_does_not_write_udc() {
    let snapshot = small_snapshot(b"\n");
    let ops = GadgetInfo::cleanup("/g", Some(&snapshot));
    assert_eq!(ops.len(), 11);
    assert_eq!(ops[0], FsOp::RemoveFile { path: "/g/configs/c.1/hid.k".to_string() });
    assert!(!ops.contains(&write("/g/UDC", "\n")));
    assert_eq!(ops.last().unwrap(), &rmdir("/g"));
}

#[test]
fn cleanup_treats_empty_udc_as_bound() {
    let snapshot = small_snapshot(b"");
    let ops = GadgetInfo::cleanup("/g", Some(&snapshot));
    assert_eq!(ops[0], write("/g/UDC", "\n"));
    let snapshot = small_snapshot(b"\n\n");
    let ops = GadgetInfo::cleanup("/g", Some(&snapshot));
    assert_eq!(ops[0], write("/g/UDC", "\n"));
}

#[test]
fn cleanup_of_missing_gadget_does_nothing() {
    assert_eq!(GadgetInfo::cleanup("/g", None), vec![]);
}

#[test]
fn cleanup_of_empty_gadget() {
    let snapshot = GadgetSnapshot { udc: b"\n".to_vec(), configs: vec![], functions: vec![], strings: vec![] };
    assert_eq!(
        GadgetInfo::cleanup("/g", Some(&snapshot)),
        vec![write("/g/os_desc/use", "0"), rmdir("/g")]
    );
}

#[test]
fn cleanup_goes_by_name_of_function() {
    let snapshot = GadgetSnapshot {
        udc: b"\n".to_vec(),
        configs: vec![],
        functions: vec![
            FunctionSnapshot { name: "hid_mass_storage".to_string(), is_dir: true, entries: vec![dir("lun.1")] },
            FunctionSnapshot { name: "mass_storage".to_string(), is_dir: true, entries: vec![dir("lun.1")] },
            FunctionSnapshot { name: "mass".to_string(), is_dir: true, entries: vec![dir("lun.1")] },
            FunctionSnapshot { name: "hid.gone".to_string(), is_dir: false, entries: vec![] },
        ],
        strings: vec![file("stray")],
    };
    assert_eq!(
        GadgetInfo::cleanup("g", Some(&snapshot)),
        vec![
            rmdir("g/functions/hid_mass_storage"),
            rmdir("g/functions/mass_storage/lun.1"),
            rmdir("g/functions/mass_storage"),
            rmdir("g/functions/mass"),
            write("g/os_desc/use", "0"),
            rmdir("g"),
        ]
    );
}

#[test]
fn bind_unbind_lifecycle() {
    let gadget = small_gadget();
    let apply = gadget.apply_config("/g");
    assert_eq!(apply.last().unwrap(), &write("/g/UDC", "fe980000.usb"));
    let first = GadgetInfo::cleanup("/g", Some(&small_snapshot(b"fe980000.usb")));
    assert_eq!(first[0], write("/g/UDC", "\n"));
    assert_eq!(first.last().unwrap(), &rmdir("/g"));
    let second = GadgetInfo::cleanup("/g", None);
    assert!(second.is_empty());
}

#[test]
fn prefixes_of_function_names() {
    assert_eq!(GadgetInfo::HID, "hid");
    assert_eq!(GadgetInfo::MASS_STORAGE, "mass_storage");
}

#[test]
fn checked_plan_is_the_plan_of_a_well_formed_gadget() {
    let gadget = small_gadget();
    assert_eq!(gadget.checked_apply_config("/g"), Some(gadget.apply_config("/g")));
    assert_eq!(
        GadgetInfo::default().checked_apply_config("g"),
        Some(GadgetInfo::default().apply_config("g"))
    );
}

#[test]
fn checked_plan_refuses_a_gadget_that_is_not_well_formed() {
    let mut twice = small_gadget();
    twice.functions.push(("hid.k".to_string(), FunctionOpts::Hid(keyboard_legacy_fho())));
    assert_eq!(twice.checked_apply_config("/g"), None);

    let mut dangling = small_gadget();
    dangling.configs[0].1.functions.push("hid.missing".to_string());
    assert_eq!(dangling.checked_apply_config("/g"), None);
}

#[test]
fn links_are_relative_to_the_configuration() {
    let gadget = small_gadget();
    for op in gadget.apply_config("/sys/kernel/config/usb_gadget/g") {
        if let FsOp::Symlink { target, link } = op {
            let name = link.rsplit('/').next().unwrap();
            assert_eq!(target, format!("../../functions/{name}"));
            assert!(link.starts_with("/sys/kernel/config/usb_gadget/g/configs/c.1/"));
        }
    }
}

#[test]
fn speed_names_are_kebab_case_and_differ() {
    let speeds = [
        UsbDeviceSpeed::UsbSpeedUnknown,
        UsbDeviceSpeed::UsbSpeedLow,
        UsbDeviceSpeed::UsbSpeedFull,
        UsbDeviceSpeed::UsbSpeedHigh,
        UsbDeviceSpeed::UsbSpeedWireless,
        UsbDeviceSpeed::UsbSpeedSuper,
        UsbDeviceSpeed::UsbSpeedSuperPlus,
    ];
    for (i, a) in speeds.iter().enumerate() {
        let name = a.as_str();
        assert!(!name.is_empty());
        assert!(name.chars().all(|c| c.is_ascii_lowercase() || c == '-'));
        assert!(!name.starts_with('-') && !name.ends_with('-') && !name.contains("--"));
        for b in &speeds[i + 1..] {
            assert_ne!(name, b.as_str());
        }
    }
}

#[test]
fn function_names_must_tell_the_kind() {
    let mut misnamed = small_gadget();
    misnamed.functions[1].0 = "storage.m".to_string();
    misnamed.configs[0].1.functions[1] = "storage.m".to_string();
    assert!(!misnamed.is_well_formed());
    assert_eq!(misnamed.checked_apply_config("/g"), None);

    let mut misnamed = small_gadget();
    misnamed.functions[0].0 = "keyboard".to_string();
    misnamed.configs[0].1.functions[0] = "keyboard".to_string();
    assert!(!misnamed.is_well_formed());

    let mut swapped = small_gadget();
    swapped.functions[0].0 = "mass_storage.k".to_string();
    swapped.configs[0].1.functions[0] = "mass_storage.k".to_string();
    assert!(!swapped.is_well_formed());
}

#[test]
fn what_is_brought_up_is_taken_down() {
    let mut gadget = small_gadget();
    if let FunctionOpts::Msg(msg) = &mut gadget.functions[1].1 {
        msg.luns.push(("lun.1".to_string(), ip_kvm::mass_storage::MsgLun::default()));
    }
    let up = gadget.checked_apply_config("/g").unwrap();
    let mut made: Vec<String> = Vec::new();
    for op in &up {
        match op {
            FsOp::CreateDir { path } | FsOp::EnsureDir { path } => made.push(path.clone()),
            FsOp::Symlink { link, .. } => made.push(link.clone()),
            _ => {}
        }
    }
    let down = GadgetInfo::cleanup("/g", Some(&small_snapshot(b"fe980000.usb\n")));
    for op in &down {
        match op {
            FsOp::RemoveDir { path } | FsOp::RemoveFile { path } => made.retain(|p| p != path),
            _ => {}
        }
    }
    assert_eq!(made, Vec::<String>::new());
}
