//! Mouse button state and the boot-protocol and absolute report encoders.
//!
//! Only the buttons are state. Position and wheel travel are handed to the
//! encoders with each report.

use vstd::prelude::*;
use crate::bitset::{byte_bit, byte_with_bit, lemma_byte_with_bit};
use crate::hid::hid_composite::HID_REPORT_ID_MOUSE;
use crate::hid::FunctionHidOpts;
use vstd::slice::slice_to_vec;

verus! {

/// Length of the absolute mouse report.
pub const MOUSE_PAYLOAD_LENGTH: usize = 6;

/// Length of the boot-protocol mouse report.
pub const MOUSE_LEGACY_PAYLOAD_LENGTH: usize = 4;

/// Report descriptor of the boot-protocol mouse: eight buttons, then X, Y
/// and wheel as signed bytes from -127 to 127, all relative.
pub const MOUSE_LEGACY_REPORT_DESC: [u8; 46] = [
    0x05, 0x01, 0x09, 0x02, 0xa1, 0x01, 0x09, 0x01, 0xa1, 0x00, 0x05, 0x09, 0x19, 0x01, 0x29,
    0x08, 0x15, 0x00, 0x25, 0x01, 0x75, 0x01, 0x95, 0x08, 0x81, 0x02, 0x05, 0x01, 0x09, 0x30,
    0x09, 0x31, 0x09, 0x38, 0x15, 0x81, 0x25, 0x7f, 0x75, 0x08, 0x95, 0x03, 0x81, 0x06, 0xc0,
    0xc0,
];

/// Report descriptor of the absolute mouse: eight buttons, X and Y as
/// unsigned 16-bit values from 0 to 32767, and the wheel as a signed byte
/// from -127 to 127. The logical minimum of the axes is zero: some hosts
/// refuse a negative one on a 16-bit absolute axis.
pub const MOUSE_ABSOLUTE_REPORT_DESC: [u8; 58] = [
    0x05, 0x01, 0x09, 0x02, 0xa1, 0x01, 0x09, 0x01, 0xa1, 0x00, 0x05, 0x09, 0x19, 0x01, 0x29,
    0x08, 0x15, 0x00, 0x25, 0x01, 0x75, 0x01, 0x95, 0x08, 0x81, 0x02, 0x05, 0x01, 0x09, 0x30,
    0x09, 0x31, 0x16, 0x00, 0x00, 0x26, 0xff, 0x7f, 0x75, 0x10, 0x95, 0x02, 0x81, 0x02, 0x09,
    0x38, 0x15, 0x81, 0x25, 0x7f, 0x75, 0x08, 0x95, 0x01, 0x81, 0x06, 0xc0, 0xc0,
];

/// The HID function of the boot-protocol mouse.
pub fn mouse_legacy_fho() -> (opts: FunctionHidOpts)
    ensures
        opts.major == 0,
        opts.minor == 0,
        opts.no_out_endpoint == 1,
        opts.subclass == 1,
        opts.protocol == 2,
        opts.report_length == MOUSE_LEGACY_PAYLOAD_LENGTH,
        opts.report_desc@ == MOUSE_LEGACY_REPORT_DESC@,
{
    FunctionHidOpts {
        major: 0,
        minor: 0,
        no_out_endpoint: 1,
        subclass: 1,
        protocol: 2,
        report_length: MOUSE_LEGACY_PAYLOAD_LENGTH as u16,
        report_desc: slice_to_vec(MOUSE_LEGACY_REPORT_DESC.as_slice()),
    }
}

/// Buttons of an eight-button mouse: button `n` is bit `n - 1`.
#[derive(Debug, Clone, PartialEq, Eq)]
pub struct Mouse {
    pub button: u8,
}

impl View for Mouse {
    type V = Set<int>;

    /// The numbers of the buttons that are down.
    open spec fn view(&self) -> Set<int> {
        Set::new(|button_id: int| self.button_down(button_id))
    }
}

/// An absolute coordinate limited to the logical range of the report.
pub open spec fn clamp_abs(v: u16) -> u16 {
    if v > Mouse::ABS_MAX {
        Mouse::ABS_MAX
    } else {
        v
    }
}

/// A relative movement limited to the logical range of the report, which
/// leaves out -128.
pub open spec fn clamp_rel(v: i8) -> i8 {
    if v < Mouse::REL_MIN {
        Mouse::REL_MIN
    } else {
        v
    }
}

/// The byte that carries a signed value in two's complement.
pub open spec fn signed_byte(v: i8) -> u8 {
    if v < 0 {
        (v + 0x100) as u8
    } else {
        v as u8
    }
}

/// The low byte of a 16-bit value.
pub open spec fn low_byte(v: u16) -> u8 {
    (v % 0x100) as u8
}

/// The high byte of a 16-bit value.
pub open spec fn high_byte(v: u16) -> u8 {
    (v / 0x100) as u8
}

impl Default for Mouse {
    /// A mouse with no button down.
    fn default() -> (mouse: Self)
        ensures
            mouse.button == 0,
    {
        Mouse { button: 0 }
    }
}

impl Mouse {
    /// Largest absolute coordinate.
    pub const ABS_MAX: u16 = 0x7fff;

    /// Smallest relative movement.
    pub const REL_MIN: i8 = -127;

    /// Smallest wheel travel.
    pub const WHEEL_MIN: i8 = -127;

    /// Whether button `button_id` is down. Buttons are numbered from 1 to 8;
    /// any other number reads as up.
    pub open spec fn button_down(&self, button_id: int) -> bool {
        1 <= button_id <= 8 && byte_bit(self.button, (button_id - 1) as u8)
    }

    /// The absolute mouse report for position `(x, y)` and wheel travel
    /// `wheel`: buttons, the clamped coordinates in little-endian order, the
    /// clamped wheel travel.
    pub open spec fn payload(&self, x: u16, y: u16, wheel: i8) -> Seq<u8> {
        seq![
            self.button,
            low_byte(clamp_abs(x)),
            high_byte(clamp_abs(x)),
            low_byte(clamp_abs(y)),
            high_byte(clamp_abs(y)),
            signed_byte(clamp_rel(wheel)),
        ]
    }

    /// The boot-protocol mouse report for movement `(x, y)` and wheel travel
    /// `wheel`: buttons, then the three clamped values.
    pub open spec fn legacy_payload(&self, x: i8, y: i8, wheel: i8) -> Seq<u8> {
        seq![
            self.button,
            signed_byte(clamp_rel(x)),
            signed_byte(clamp_rel(y)),
            signed_byte(clamp_rel(wheel)),
        ]
    }

    /// Releases every button.
    pub fn clear(&mut self)
        ensures
            final(self).button == 0,
    {
        self.button = 0;
    }

    /// Whether button `button_id` is down.
    pub fn get_button(&self, button_id: u16) -> (down: bool)
        ensures
            down == self.button_down(button_id as int),
            down == self@.contains(button_id as int),
    {
        if button_id > 8 || button_id == 0 {
            return false;
        }
        let k: u8 = (button_id - 1) as u8;
        (self.button >> k) & 1 == 1
    }

    /// Presses or releases button `button_id` and reports whether the state
    /// changed. A number outside 1 to 8 names no button: nothing changes.
    pub fn set_button(&mut self, button_id: u16, status: bool) -> (changed: bool)
        ensures
            final(self).button == if 1 <= button_id <= 8 {
                byte_with_bit(old(self).button, (button_id - 1) as u8, status)
            } else {
                old(self).button
            },
            forall|other: int|
                #[trigger] final(self).button_down(other) == if other == button_id && 1
                    <= button_id <= 8 {
                    status
                } else {
                    old(self).button_down(other)
                },
            final(self)@ == if 1 <= button_id <= 8 {
                if status {
                    old(self)@.insert(button_id as int)
                } else {
                    old(self)@.remove(button_id as int)
                }
            } else {
                old(self)@
            },
            changed == (1 <= button_id <= 8 && old(self).button_down(button_id as int) != status),
            changed == (final(self).button != old(self).button),
    {
        if button_id > 8 || button_id == 0 {
            return false;
        }
        let k: u8 = (button_id - 1) as u8;
        let prev: u8 = self.button;
        if status {
            self.button = prev | (1u8 << k);
        } else {
            self.button = prev & !(1u8 << k);
        }
        proof {
            lemma_byte_with_bit(prev, k, status);
            assert forall|other: int|
                #[trigger] self.button_down(other) == if other == button_id {
                    status
                } else {
                    old(self).button_down(other)
                } by {
                if 1 <= other <= 8 && other != button_id {
                    let j = (other - 1) as u8;
                    assert(j < 8 && j != k);
                }
            }
            if status {
                assert(self@ =~= old(self)@.insert(button_id as int));
            } else {
                assert(self@ =~= old(self)@.remove(button_id as int));
            }
        }
        prev != self.button
    }

    /// The absolute mouse report. Coordinates above `ABS_MAX` are sent as
    /// `ABS_MAX`, a wheel travel of -128 as -127.
    pub fn get_payload(&self, x: u16, y: u16, wheel: i8) -> (payload: [u8; 6])
        ensures
            payload@ == self.payload(x, y, wheel),
    {
        let x: u16 = if x > Self::ABS_MAX {
            Self::ABS_MAX
        } else {
            x
        };
        let y: u16 = if y > Self::ABS_MAX {
            Self::ABS_MAX
        } else {
            y
        };
        let wheel: i8 = if wheel < Self::WHEEL_MIN {
            Self::WHEEL_MIN
        } else {
            wheel
        };
        let mut ret = [0u8; 6];
        ret[0] = self.button;
        ret[1] = low_byte_of(x);
        ret[2] = high_byte_of(x);
        ret[3] = low_byte_of(y);
        ret[4] = high_byte_of(y);
        ret[5] = signed_byte_of(wheel);
        assert(ret@ =~= self.payload(x, y, wheel));
        ret
    }

    /// The boot-protocol mouse report. A value of -128 is sent as -127.
    pub fn get_legacy_payload(&self, x: i8, y: i8, wheel: i8) -> (payload: [u8; 4])
        ensures
            payload@ == self.legacy_payload(x, y, wheel),
    {
        let x: i8 = if x < Self::REL_MIN {
            Self::REL_MIN
        } else {
            x
        };
        let y: i8 = if y < Self::REL_MIN {
            Self::REL_MIN
        } else {
            y
        };
        let wheel: i8 = if wheel < Self::WHEEL_MIN {
            Self::WHEEL_MIN
        } else {
            wheel
        };
        let mut ret = [0u8; 4];
        ret[0] = self.button;
        ret[1] = signed_byte_of(x);
        ret[2] = signed_byte_of(y);
        ret[3] = signed_byte_of(wheel);
        assert(ret@ =~= self.legacy_payload(x, y, wheel));
        ret
    }

    /// The composite report that carries the absolute mouse report: the
    /// mouse report ID, the payload, and zeros up to the report length.
    pub fn get_composite_payload(&self, x: u16, y: u16, wheel: i8) -> (report: [u8; 0x23])
        ensures
            report@ == seq![HID_REPORT_ID_MOUSE] + self.payload(x, y, wheel) + Seq::new(
                0x1c,
                |i: int| 0u8,
            ),
    {
        let payload = self.get_payload(x, y, wheel);
        let mut ret = [0u8; 0x23];
        ret[0] = HID_REPORT_ID_MOUSE;
        let mut i: usize = 0;
        while i < 6
            invariant
                i <= 6,
                ret[0] == HID_REPORT_ID_MOUSE,
                forall|j: int| 1 <= j < 1 + i ==> ret[j] == payload[j - 1],
                forall|j: int| 1 + i <= j < 0x23 ==> ret[j] == 0,
            decreases 6 - i,
        {
            ret[1 + i] = payload[i];
            i += 1;
        }
        assert(ret@ =~= seq![HID_REPORT_ID_MOUSE] + self.payload(x, y, wheel) + Seq::new(
            0x1c,
            |i: int| 0u8,
        ));
        ret
    }

    /// Values inside the logical ranges are sent as they are.
    pub proof fn lemma_payload_in_range(&self, x: u16, y: u16, wheel: i8)
        requires
            x <= Self::ABS_MAX,
            y <= Self::ABS_MAX,
            -127 <= wheel <= 127,
        ensures
            self.payload(x, y, wheel) == seq![
                self.button,
                low_byte(x),
                high_byte(x),
                low_byte(y),
                high_byte(y),
                signed_byte(wheel),
            ],
            x == low_byte(x) + 0x100 * high_byte(x),
            y == low_byte(y) + 0x100 * high_byte(y),
    {
    }

    /// Clamping is idempotent: clamped values encode as the values they were
    /// clamped from, and a second clamping changes nothing.
    pub proof fn lemma_payload_clamp_idempotent(&self, x: u16, y: u16, wheel: i8)
        ensures
            clamp_abs(clamp_abs(x)) == clamp_abs(x),
            clamp_rel(clamp_rel(wheel)) == clamp_rel(wheel),
            self.payload(clamp_abs(x), clamp_abs(y), clamp_rel(wheel)) == self.payload(x, y, wheel),
            self.legacy_payload(clamp_rel(wheel), clamp_rel(wheel), clamp_rel(wheel))
                == self.legacy_payload(wheel, wheel, wheel),
    {
    }
}

/// The low byte of `v`.
fn low_byte_of(v: u16) -> (b: u8)
    ensures
        b == low_byte(v),
{
    assert((v & 0xff) == v % 0x100) by (bit_vector);
    (v & 0xff) as u8
}

/// The high byte of `v`.
fn high_byte_of(v: u16) -> (b: u8)
    ensures
        b == high_byte(v),
{
    assert((v >> 8u16) == v / 0x100) by (bit_vector);
    (v >> 8u16) as u8
}

/// The two's complement byte of `v`.
fn signed_byte_of(v: i8) -> (b: u8)
    ensures
        b == signed_byte(v),
{
    if v < 0 {
        ((v as i16) + 0x100) as u8
    } else {
        v as u8
    }
}

} // verus!
