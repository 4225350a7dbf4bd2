//! The composite HID interface: absolute mouse and full keyboard on one
//! endpoint, told apart by a leading report ID.

use vstd::prelude::*;
use vstd::slice::slice_to_vec;
use crate::error::{Error, ErrorKind};
use crate::hid::keyboard::KEYBOARD_REPORT_DESC;
use crate::hid::mouse::MOUSE_ABSOLUTE_REPORT_DESC;
use crate::hid::FunctionHidOpts;

verus! {

/// Length of a frame that the host sends to the composite interface.
pub const HID_COMPOSITE_RECV_LENGTH: usize = 0x21;

/// Length of a report that the composite interface sends to the host.
pub const HID_COMPOSITE_SEND_LENGTH: usize = 0x23;

/// Report ID of the absolute mouse.
pub const HID_REPORT_ID_MOUSE: u8 = 1;

/// Report ID of the full keyboard.
pub const HID_REPORT_ID_KEYBOARD: u8 = 2;

/// Report descriptor of the composite interface. Report `HID_REPORT_ID_MOUSE`
/// is the absolute mouse report followed by 0x1c bytes of padding, report
/// `HID_REPORT_ID_KEYBOARD` is the full keyboard report; with the report ID
/// in front both are `HID_COMPOSITE_SEND_LENGTH` bytes long.
pub const HID_COMPOSITE_REPORT_DESC: [u8; 131] = [
    0x05, 0x01, 0x09, 0x02, 0xa1, 0x01, 0x85, HID_REPORT_ID_MOUSE, 0x09, 0x01, 0xa1, 0x00,
    0x05, 0x09, 0x19, 0x01, 0x29, 0x08, 0x15, 0x00, 0x25, 0x01, 0x75, 0x01, 0x95, 0x08, 0x81,
    0x02, 0x05, 0x01, 0x09, 0x30, 0x09, 0x31, 0x16, 0x00, 0x00, 0x26, 0xff, 0x7f, 0x75, 0x10,
    0x95, 0x02, 0x81, 0x02, 0x09, 0x38, 0x15, 0x81, 0x25, 0x7f, 0x75, 0x08, 0x95, 0x01, 0x81,
    0x06, 0x75, 0x08, 0x95, 0x1c, 0x81, 0x03, 0xc0, 0xc0, 0x05, 0x01, 0x09, 0x06, 0xa1, 0x01,
    0x85, HID_REPORT_ID_KEYBOARD, 0x05, 0x07, 0x19, 0x00, 0x2a, 0xff, 0x00, 0x15, 0x00, 0x25,
    0x01, 0x75, 0x01, 0x96, 0x00, 0x01, 0x81, 0x02, 0x05, 0x01, 0x09, 0x80, 0x19, 0x81, 0x29,
    0x8f, 0x15, 0x00, 0x25, 0x01, 0x75, 0x01, 0x95, 0x0f, 0x81, 0x02, 0x75, 0x01, 0x95, 0x01,
    0x81, 0x03, 0x05, 0x08, 0x19, 0x00, 0x2a, 0xff, 0x00, 0x75, 0x01, 0x96, 0x00, 0x01, 0x91,
    0x02, 0xc0,
];

/// The HID function of the composite interface.
pub fn hid_composite_fho() -> (opts: FunctionHidOpts)
    ensures
        opts.major == 0,
        opts.minor == 0,
        opts.no_out_endpoint == 1,
        opts.subclass == 1,
        opts.protocol == 1,
        opts.report_length == HID_COMPOSITE_SEND_LENGTH,
        opts.report_desc@ == HID_COMPOSITE_REPORT_DESC@,
{
    FunctionHidOpts {
        major: 0,
        minor: 0,
        no_out_endpoint: 1,
        subclass: 1,
        protocol: 1,
        report_length: HID_COMPOSITE_SEND_LENGTH as u16,
        report_desc: slice_to_vec(HID_COMPOSITE_REPORT_DESC.as_slice()),
    }
}

/// Where a frame that the host sent to the composite interface belongs.
#[derive(Debug, Clone, Copy, PartialEq, Eq)]
pub enum ReportTarget {
    /// The frame is an LED report for the full keyboard.
    Keyboard,
    /// The frame has a report ID that no device takes. It is dropped.
    Unknown,
}

/// Where a frame with the report ID `report_id` belongs.
pub open spec fn target_of(report_id: u8) -> ReportTarget {
    if report_id == HID_REPORT_ID_KEYBOARD {
        ReportTarget::Keyboard
    } else {
        ReportTarget::Unknown
    }
}

/// Takes in what a read from the composite interface delivered: the buffer
/// `data`, of which the first `read_len` bytes were filled. Only a whole
/// frame is passed on. A short read is to be skipped: it is reported as
/// `ErrorKind::Ignore`, which the caller tells apart from a failure.
pub fn recv(data: [u8; 0x21], read_len: usize) -> (r: core::result::Result<[u8; 0x21], Error>)
    ensures
        read_len == HID_COMPOSITE_RECV_LENGTH ==> r == Ok::<[u8; 0x21], Error>(data),
        read_len != HID_COMPOSITE_RECV_LENGTH ==> r == Err::<[u8; 0x21], Error>(
            Error(Box::new(ErrorKind::Ignore)),
        ),
{
    if read_len != HID_COMPOSITE_RECV_LENGTH {
        return Err(Error(Box::new(ErrorKind::Ignore)));
    }
    Ok(data)
}

/// Where the frame `frame` belongs, which is told by its first byte, the
/// report ID.
pub fn route(frame: &[u8; 0x21]) -> (target: ReportTarget)
    ensures
        target == target_of(frame[0]),
{
    if frame[0] == HID_REPORT_ID_KEYBOARD {
        ReportTarget::Keyboard
    } else {
        ReportTarget::Unknown
    }
}

/// The items that end the mouse report of the composite interface: 0x1c
/// bytes of padding, which bring it to the length of the keyboard report.
pub open spec fn composite_padding_items() -> Seq<u8> {
    seq![0x75u8, 0x08, 0x95, 0x1c, 0x81, 0x03]
}

/// The item that gives a report the ID `report_id`.
pub open spec fn report_id_item(report_id: u8) -> Seq<u8> {
    seq![0x85u8, report_id]
}

/// The report descriptor of the composite interface is that of the absolute
/// mouse followed by that of the full keyboard, each with its report ID
/// after the opening of its collection, and the mouse report with padding
/// at its end.
pub proof fn lemma_composite_report_desc()
    ensures
        HID_COMPOSITE_REPORT_DESC@ == MOUSE_ABSOLUTE_REPORT_DESC@.subrange(0, 6) + report_id_item(
            HID_REPORT_ID_MOUSE,
        ) + MOUSE_ABSOLUTE_REPORT_DESC@.subrange(6, 56) + composite_padding_items()
            + MOUSE_ABSOLUTE_REPORT_DESC@.subrange(56, 58) + KEYBOARD_REPORT_DESC@.subrange(0, 6)
            + report_id_item(HID_REPORT_ID_KEYBOARD) + KEYBOARD_REPORT_DESC@.subrange(6, 63),
{
    let made = MOUSE_ABSOLUTE_REPORT_DESC@.subrange(0, 6) + report_id_item(HID_REPORT_ID_MOUSE)
        + MOUSE_ABSOLUTE_REPORT_DESC@.subrange(6, 56) + composite_padding_items()
        + MOUSE_ABSOLUTE_REPORT_DESC@.subrange(56, 58) + KEYBOARD_REPORT_DESC@.subrange(0, 6)
        + report_id_item(HID_REPORT_ID_KEYBOARD) + KEYBOARD_REPORT_DESC@.subrange(6, 63);
    assert(made.len() == 131);
    assert forall|i: int| 0 <= i < 131 implies HID_COMPOSITE_REPORT_DESC@[i] == made[i] by {
        if i < 6 {
        } else if i < 8 {
        } else if i < 58 {
            assert(made[i] == MOUSE_ABSOLUTE_REPORT_DESC@[i - 2]);
        } else if i < 64 {
        } else if i < 66 {
            assert(made[i] == MOUSE_ABSOLUTE_REPORT_DESC@[i - 8]);
        } else if i < 72 {
            assert(made[i] == KEYBOARD_REPORT_DESC@[i - 66]);
        } else if i < 74 {
        } else {
            assert(made[i] == KEYBOARD_REPORT_DESC@[i - 68]);
        }
    }
    assert(HID_COMPOSITE_REPORT_DESC@ =~= made);
}

} // verus!
