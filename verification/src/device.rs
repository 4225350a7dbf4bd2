//! The gadget of the remote keyboard and mouse, and where its devices are
//! found.

use vstd::prelude::*;
use crate::error::{Error, ErrorKind};
use crate::gadget::{
    distinct_names, FunctionOpts, GadgetConfigName, GadgetInfo, GadgetStrings, UsbConfiguration,
    LANGUAGE_CODE_ENGLISH,
};
use crate::hid::hid_composite::{hid_composite_fho, HID_COMPOSITE_REPORT_DESC};
use crate::hid::keyboard::{keyboard_legacy_fho, KEYBOARD_LEGACY_REPORT_DESC};
use crate::hid::mouse::{mouse_legacy_fho, MOUSE_LEGACY_REPORT_DESC};
use crate::mass_storage::{lun_name_text, FunctionMsgOpts, MsgLun};
use crate::text::{join, join_path, signed_decimal, signed_decimal_string};

verus! {

/// Where the kernel keeps its USB gadgets.
pub const CONFIGFS_BASE: &'static str = "/sys/kernel/config/usb_gadget";

/// Where the kernel lists its USB device controllers.
pub const UDC_PATH: &'static str = "/sys/class/udc";

/// The name of the gadget.
pub const GADGET_NAME: &'static str = "ip-kvm";

/// The name of the one configuration of the gadget.
pub const CONFIGURE_NAME: &'static str = "c.1";

/// The name of the boot-protocol keyboard function.
pub const FUNCTION_NAME_KEYBOARD_LEGACY: &'static str = "hid.keyboard_legacy";

/// The name of the boot-protocol mouse function.
pub const FUNCTION_NAME_MOUSE_LEGACY: &'static str = "hid.mouse_legacy";

/// The name of the composite HID function.
pub const FUNCTION_NAME_HID_COMPOSITE: &'static str = "hid.hid_composite";

/// The name of the mass-storage function.
pub const FUNCTION_NAME_MSG: &'static str = "mass_storage.msg";

/// The number of logical units of the mass-storage function.
pub const LUN_COUNT: u8 = 8;

/// The time between two looks for the HID devices after the gadget was
/// bound, in milliseconds. The kernel makes them a while after the bind.
pub const HIDG_POLL_INTERVAL_MS: u64 = 500;

/// The message of the error that reports that the machine has no USB device
/// controller.
pub const NO_UDC_MESSAGE: &'static str = "Can not found udc";

/// The path of the HID device with the minor device number `minor`.
pub open spec fn hidg_path_text(minor: int) -> Seq<char> {
    "/dev/hidg"@ + signed_decimal(minor)
}

/// The first of `entries` that has a name.
pub open spec fn first_named(entries: Seq<Option<String>>) -> Option<String>
    decreases entries.len(),
{
    if entries.len() == 0 {
        None
    } else if entries[0] is Some {
        entries[0]
    } else {
        first_named(entries.drop_first())
    }
}

/// Whether `opts` are the options of a HID function with one output
/// endpoint, the boot subclass, the protocol `protocol`, reports of
/// `report_length` bytes and the report descriptor `report_desc`, which the
/// kernel has not numbered yet.
pub open spec fn is_hid_function(
    opts: FunctionOpts,
    protocol: u8,
    report_length: u16,
    report_desc: Seq<u8>,
) -> bool {
    &&& opts matches FunctionOpts::Hid(hid)
    &&& hid.major == 0
    &&& hid.minor == 0
    &&& hid.no_out_endpoint == 1
    &&& hid.subclass == 1
    &&& hid.protocol == protocol
    &&& hid.report_length == report_length
    &&& hid.report_desc@ == report_desc
}

/// Whether `opts` are the options of the mass-storage function of the
/// gadget: `LUN_COUNT` units, numbered from zero, each as a new unit is.
pub open spec fn is_msg_function(opts: FunctionOpts) -> bool {
    &&& opts matches FunctionOpts::Msg(msg)
    &&& !msg.stall
    &&& msg.luns@.len() == LUN_COUNT
    &&& forall|i: int|
        0 <= i < LUN_COUNT ==> (#[trigger] msg.luns@[i]).0@ == lun_name_text(i as nat)
            && msg.luns@[i].1.is_default()
}

/// Whether `gadget` is the gadget of the remote keyboard and mouse, bound
/// to the controller `udc`: a USB 2.1 device with the boot-protocol
/// keyboard, the boot-protocol mouse, the composite HID interface and the
/// mass-storage function, all four in its one configuration, and with
/// English strings.
pub open spec fn is_kvm_gadget(gadget: GadgetInfo, udc: Seq<char>) -> bool {
    &&& gadget.bcd_device == 0x515
    &&& gadget.bcd_usb == 0x210
    &&& gadget.b_device_class == 0
    &&& gadget.b_device_protocol == 0
    &&& gadget.b_device_sub_class == 0
    &&& gadget.b_max_packet_size0 == 0
    &&& gadget.id_product == 0
    &&& gadget.id_vendor == 0
    &&& gadget.max_speed == crate::gadget::UsbDeviceSpeed::UsbSpeedSuperPlus
    &&& !gadget.os_desc.in_use
    &&& gadget.os_desc.b_vendor_code == 0
    &&& gadget.os_desc.qw_sign@ == seq!['\n', '\n']
    &&& gadget.udc@ == udc
    &&& gadget.functions@.len() == 4
    &&& gadget.functions@[0].0@ == FUNCTION_NAME_KEYBOARD_LEGACY@
    &&& is_hid_function(gadget.functions@[0].1, 1, 8, KEYBOARD_LEGACY_REPORT_DESC@)
    &&& gadget.functions@[1].0@ == FUNCTION_NAME_MOUSE_LEGACY@
    &&& is_hid_function(gadget.functions@[1].1, 2, 4, MOUSE_LEGACY_REPORT_DESC@)
    &&& gadget.functions@[2].0@ == FUNCTION_NAME_HID_COMPOSITE@
    &&& is_hid_function(gadget.functions@[2].1, 1, 0x23, HID_COMPOSITE_REPORT_DESC@)
    &&& gadget.functions@[3].0@ == FUNCTION_NAME_MSG@
    &&& is_msg_function(gadget.functions@[3].1)
    &&& gadget.configs@.len() == 1
    &&& gadget.configs@[0].0@ == CONFIGURE_NAME@
    &&& gadget.configs@[0].1.bm_attributes == 0x80
    &&& gadget.configs@[0].1.max_power == 2
    &&& gadget.configs@[0].1.strings@.len() == 1
    &&& gadget.configs@[0].1.strings@[0].0 == LANGUAGE_CODE_ENGLISH
    &&& gadget.configs@[0].1.strings@[0].1.configuration@ == seq!['\n']
    &&& gadget.configs@[0].1.functions@.len() == 4
    &&& forall|i: int|
        0 <= i < 4 ==> (#[trigger] gadget.configs@[0].1.functions@[i])@ == gadget.functions@[i].0@
    &&& gadget.strings@.len() == 1
    &&& gadget.strings@[0].0 == LANGUAGE_CODE_ENGLISH
    &&& gadget.strings@[0].1.manufacturer@ == seq!['\n']
    &&& gadget.strings@[0].1.product@ == seq!['\n']
    &&& gadget.strings@[0].1.serialnumber@ == seq!['\n']
}

/// The mass-storage function of the gadget.
fn msg_function() -> (opts: FunctionOpts)
    ensures
        is_msg_function(opts),
{
    let mut msg = FunctionMsgOpts::default();
    let mut i: u8 = 1;
    while i < LUN_COUNT
        invariant
            1 <= i <= LUN_COUNT,
            !msg.stall,
            msg.luns@.len() == i,
            forall|k: int|
                0 <= k < i ==> (#[trigger] msg.luns@[k]).0@ == lun_name_text(k as nat)
                    && msg.luns@[k].1.is_default(),
        decreases LUN_COUNT - i,
    {
        msg.luns.push((FunctionMsgOpts::lun_name(i), MsgLun::default()));
        i += 1;
    }
    FunctionOpts::Msg(msg)
}

/// The gadget of the remote keyboard and mouse, to be bound to the
/// controller `udc`.
pub fn kvm_gadget(udc: String) -> (gadget: GadgetInfo)
    ensures
        is_kvm_gadget(gadget, udc@),
        gadget.well_formed(),
{
    let mut gadget = GadgetInfo::default();
    gadget.functions.push(
        (String::from_str(FUNCTION_NAME_KEYBOARD_LEGACY), FunctionOpts::Hid(keyboard_legacy_fho())),
    );
    gadget.functions.push(
        (String::from_str(FUNCTION_NAME_MOUSE_LEGACY), FunctionOpts::Hid(mouse_legacy_fho())),
    );
    gadget.functions.push(
        (String::from_str(FUNCTION_NAME_HID_COMPOSITE), FunctionOpts::Hid(hid_composite_fho())),
    );
    gadget.functions.push((String::from_str(FUNCTION_NAME_MSG), msg_function()));

    let mut usb_config = UsbConfiguration::default();
    usb_config.strings.push((LANGUAGE_CODE_ENGLISH, GadgetConfigName::default()));
    usb_config.functions.push(String::from_str(FUNCTION_NAME_KEYBOARD_LEGACY));
    usb_config.functions.push(String::from_str(FUNCTION_NAME_MOUSE_LEGACY));
    usb_config.functions.push(String::from_str(FUNCTION_NAME_HID_COMPOSITE));
    usb_config.functions.push(String::from_str(FUNCTION_NAME_MSG));

    gadget.configs.push((String::from_str(CONFIGURE_NAME), usb_config));
    gadget.strings.push((LANGUAGE_CODE_ENGLISH, GadgetStrings::default()));
    gadget.udc = udc;
    gadget.bcd_usb = 0x210;
    proof {
        reveal_strlit("hid.keyboard_legacy");
        reveal_strlit("hid.mouse_legacy");
        reveal_strlit("hid.hid_composite");
        reveal_strlit("mass_storage.msg");
        let names = gadget.functions@;
        assert(names[0].0@[4] == 'k');
        assert(names[1].0@[4] == 'm');
        assert(names[2].0@[4] == 'h');
        assert(names[3].0@[0] == 'm');
        assert(names[0].0@[0] == 'h');
        reveal_strlit("hid");
        reveal_strlit("mass_storage");
        assert(names[0].0@.subrange(0, 3) =~= "hid"@);
        assert(names[1].0@.subrange(0, 3) =~= "hid"@);
        assert(names[2].0@.subrange(0, 3) =~= "hid"@);
        assert(names[3].0@.subrange(0, 12) =~= "mass_storage"@);
        assert(distinct_names(gadget.functions@));
        assert(distinct_names(gadget.configs@));
        assert forall|c: int, f: int|
            0 <= c < gadget.configs@.len() && 0 <= f < gadget.configs@[c].1.functions@.len() implies gadget.has_function(
            #[trigger] gadget.configs@[c].1.functions@[f]@,
        ) by {
            assert(gadget.functions@[f].0@ == gadget.configs@[c].1.functions@[f]@);
        }
    }
    gadget
}

/// The controller that the gadget is bound to: the first that the kernel
/// lists. `entries` are the names in the directory `UDC_PATH`, `None` where
/// a name is no text. Without a controller the error says that none was
/// found.
pub fn select_udc(entries: &Vec<Option<String>>) -> (r: core::result::Result<String, Error>)
    ensures
        match first_named(entries@) {
            Some(name) => r is Ok && r->Ok_0@ == name@,
            None => r is Err && r->Err_0.is_custom(NO_UDC_MESSAGE@),
        },
{
    let mut i: usize = 0;
    assert(entries@.skip(0) =~= entries@);
    while i < entries.len()
        invariant
            i <= entries.len(),
            first_named(entries@) == first_named(entries@.skip(i as int)),
        decreases entries.len() - i,
    {
        proof {
            assert(entries@.skip(i as int)[0] == entries@[i as int]);
            assert(entries@.skip(i as int).drop_first() =~= entries@.skip(i + 1));
        }
        match &entries[i] {
            Some(name) => {
                return Ok(name.clone());
            },
            None => {},
        }
        i += 1;
    }
    Err(Error(Box::new(ErrorKind::custom(String::from_str(NO_UDC_MESSAGE)))))
}

/// The directory of the gadget below `configfs_base`.
pub fn usb_gadget_path(configfs_base: &str) -> (path: String)
    ensures
        path@ == join(configfs_base@, GADGET_NAME@),
{
    join_path(configfs_base, GADGET_NAME)
}

/// The path of the HID device with the minor device number `minor`.
pub fn hidg_path(minor: i32) -> (path: String)
    ensures
        path@ == hidg_path_text(minor as int),
{
    let mut path = String::from_str("/dev/hidg");
    path.append(signed_decimal_string(minor).as_str());
    path
}

/// The minor device number of the HID function `name` of `gadget`, where
/// the gadget has a HID function of that name.
pub fn hid_minor(gadget: &GadgetInfo, name: &str) -> (minor: Option<i32>)
    ensures
        match gadget.function_index(name@, gadget.functions@.len() as int) {
            Some(index) => match gadget.functions@[index].1 {
                FunctionOpts::Hid(opts) => minor == Some(opts.minor),
                FunctionOpts::Msg(_) => minor is None,
            },
            None => minor is None,
        },
{
    match gadget.hid_function(name) {
        Some(opts) => Some(opts.minor),
        None => None,
    }
}

/// Whether every HID device is there. `present` tells of each device
/// whether its path exists.
pub fn all_present(present: &[bool]) -> (all: bool)
    ensures
        all == forall|i: int| 0 <= i < present@.len() ==> present@[i],
{
    let mut i: usize = 0;
    while i < present.len()
        invariant
            i <= present.len(),
            forall|k: int| 0 <= k < i ==> present@[k],
        decreases present.len() - i,
    {
        if !present[i] {
            return false;
        }
        i += 1;
    }
    true
}

} // verus!
