use ip_kvm::configfs::{DirEntry, FsOp};
use ip_kvm::error::{DeserializedError, ErrorKind};
use ip_kvm::gadget::Configurable;
use ip_kvm::mass_storage::{FunctionMsgOpts, MsgLun, MsgLunFiles};

fn write(path: &str, contents: &str) -> FsOp {
    FsOp::Write { path: path.to_string(), contents: contents.as_bytes().to_vec(), required: true }
}

fn dir(name: &str) -> DirEntry {
    DirEntry { name: name.to_string(), is_dir: true, is_symlink: false }
}

fn file(name: &str) -> DirEntry {
    DirEntry { name: name.to_string(), is_dir: false, is_symlink: false }
}

fn files(name: &str, ro: &str) -> MsgLunFiles {
    MsgLunFiles {
        name: name.to_string(),
        cdrom: "1\n".to_string(),
        file: "/images/a.iso\n".to_string(),
        inquiry_string: "kvm\n".to_string(),
        nofua: "0\n".to_string(),
        removable: "1\n".to_string(),
        ro: ro.to_string(),
    }
}

#[test]
fn lun_names() {
    assert_eq!(FunctionMsgOpts::lun_name(0), "lun.0");
    assert_eq!(FunctionMsgOpts::lun_name(7), "lun.7");
    assert_eq!(FunctionMsgOpts::lun_name(255), "lun.255");
}

#[test]
fn default_lun() {
    assert_eq!(
        MsgLun::default(),
        MsgLun {
            cdrom: false,
            file: "\n".to_string(),
            inquiry_string: "\n".to_string(),
            nofua: false,
            removable: true,
            ro: false,
        }
    );
}

#[test]
fn default_function_has_unit_zero() {
    let opts = FunctionMsgOpts::default();
    assert!(!opts.stall);
    assert_eq!(opts.luns, vec![("lun.0".to_string(), MsgLun::default())]);
}

#[test]
fn lun_apply_plan_ejects_before_file_changes() {
    let lun = MsgLun {
        cdrom: true,
        file: "/images/a.iso".to_string(),
        inquiry_string: "kvm".to_string(),
        nofua: false,
        removable: true,
        ro: true,
    };
    let ops = lun.apply_config("/f/lun.1");
    assert_eq!(
        ops,
        vec![
            FsOp::EnsureDir { path: "/f/lun.1".to_string() },
            write("/f/lun.1/forced_eject", "1"),
            write("/f/lun.1/cdrom", "1"),
            write("/f/lun.1/file", "/images/a.iso"),
            write("/f/lun.1/inquiry_string", "kvm"),
            write("/f/lun.1/nofua", "0"),
            write("/f/lun.1/removable", "1"),
            write("/f/lun.1/ro", "1"),
        ]
    );
    assert_eq!(lun.attribute_ops("/f/lun.1"), ops[1..].to_vec());
}

#[test]
fn function_apply_plan_never_creates_unit_zero() {
    let mut opts = FunctionMsgOpts::default();
    opts.stall = true;
    opts.luns.push(("lun.1".to_string(), MsgLun::default()));
    let ops = opts.apply_config("/g/functions/mass_storage.msg");
    let base = "/g/functions/mass_storage.msg";
    let mut expected = vec![
        FsOp::CreateDir { path: base.to_string() },
        write(&format!("{base}/stall"), "1"),
    ];
    for (unit, create) in [("lun.0", false), ("lun.1", true)] {
        let d = format!("{base}/{unit}");
        if create {
            expected.push(FsOp::EnsureDir { path: d.clone() });
        }
        expected.push(write(&format!("{d}/forced_eject"), "1"));
        expected.push(write(&format!("{d}/cdrom"), "0"));
        expected.push(write(&format!("{d}/file"), "\n"));
        expected.push(write(&format!("{d}/inquiry_string"), "\n"));
        expected.push(write(&format!("{d}/nofua"), "0"));
        expected.push(write(&format!("{d}/removable"), "1"));
        expected.push(write(&format!("{d}/ro"), "0"));
    }
    assert_eq!(ops, expected);
    for op in &ops {
        match op {
            FsOp::CreateDir { path } | FsOp::EnsureDir { path } => assert!(!path.ends_with("lun.0")),
            _ => {}
        }
    }
}

#[test]
fn lun_cleanup_plan() {
    assert_eq!(MsgLun::cleanup("/f/lun.3"), vec![FsOp::RemoveDir { path: "/f/lun.3".to_string() }]);
}

#[test]
fn function_cleanup_keeps_unit_zero() {
    let entries = vec![file("stall"), dir("lun.0"), dir("lun.1"), dir("lun.2")];
    assert_eq!(
        FunctionMsgOpts::cleanup("/f", true, &entries),
        vec![
            FsOp::RemoveDir { path: "/f/lun.1".to_string() },
            FsOp::RemoveDir { path: "/f/lun.2".to_string() },
            FsOp::RemoveDir { path: "/f".to_string() },
        ]
    );
}

#[test]
fn function_cleanup_of_missing_directory_does_nothing() {
    assert_eq!(FunctionMsgOpts::cleanup("/f", false, &vec![dir("lun.1")]), vec![]);
}

#[test]
fn lun_from_config() {
    let mut lun = MsgLun::default();
    lun.from_config("1\n", "/a.iso\n", "x\n", "true", "0", "1").unwrap();
    assert_eq!(
        lun,
        MsgLun {
            cdrom: true,
            file: "/a.iso\n".to_string(),
            inquiry_string: "x\n".to_string(),
            nofua: true,
            removable: false,
            ro: true,
        }
    );
}

#[test]
fn lun_from_config_stops_at_first_content_not_understood() {
    let mut lun = MsgLun::default();
    let err = lun.from_config("1", "/a.iso", "x", "perhaps", "0", "1").unwrap_err();
    assert!(matches!(err.kind(), ErrorKind::Deserialized(DeserializedError::Custom(_))));
    assert_eq!(
        lun,
        MsgLun {
            cdrom: true,
            file: "/a.iso".to_string(),
            inquiry_string: "x".to_string(),
            nofua: false,
            removable: true,
            ro: false,
        }
    );
    let mut lun = MsgLun::default();
    assert!(lun.from_config("?", "/a.iso", "x", "1", "0", "1").is_err());
    assert_eq!(lun, MsgLun::default());
}

#[test]
fn function_from_config_replaces_units() {
    let mut opts = FunctionMsgOpts::default();
    opts.from_config("1\n", &vec![files("lun.0", "0"), files("lun.1", "1")]).unwrap();
    assert!(opts.stall);
    assert_eq!(opts.luns.len(), 2);
    assert_eq!(opts.luns[0].0, "lun.0");
    assert_eq!(opts.luns[1].0, "lun.1");
    assert!(!opts.luns[0].1.ro);
    assert!(opts.luns[1].1.ro);
    assert!(opts.luns[1].1.cdrom);
    assert_eq!(opts.luns[1].1.file, "/images/a.iso\n");
}

#[test]
fn function_from_config_stops_at_first_unit_not_understood() {
    let mut opts = FunctionMsgOpts::default();
    let units = vec![files("lun.0", "0"), files("lun.1", "?"), files("lun.2", "1")];
    assert!(opts.from_config("0", &units).is_err());
    assert_eq!(opts.luns.len(), 1);
    assert_eq!(opts.luns[0].0, "lun.0");

    let mut opts = FunctionMsgOpts::default();
    opts.stall = true;
    assert!(opts.from_config("?", &units).is_err());
    assert!(opts.stall);
    assert_eq!(opts.luns, vec![("lun.0".to_string(), MsgLun::default())]);
}

#[test]
fn what_lun_apply_writes_reads_back() {
    let lun = MsgLun {
        cdrom: true,
        file: "/images/b.img".to_string(),
        inquiry_string: "abc".to_string(),
        nofua: true,
        removable: false,
        ro: true,
    };
    let ops = lun.attribute_ops("d");
    let text = |i: usize| match &ops[i] {
        FsOp::Write { contents, .. } => String::from_utf8(contents.clone()).unwrap(),
        other => panic!("unexpected operation {:?}", other),
    };
    let mut read = MsgLun::default();
    read.from_config(&text(1), &text(2), &text(3), &text(4), &text(5), &text(6)).unwrap();
    assert_eq!(read, lun);
}
