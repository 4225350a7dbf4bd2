//! The binary messages by which a remote client drives keyboard and mouse.
//!
//! Each message is one event. A message that does not have the form of its
//! kind is refused, and the session it came on is to be closed.

use vstd::prelude::*;
use crate::bitset::with_bit;
use crate::hid::generic_desktop::usage_id::SYSTEM_POWER_DOWN;
use crate::hid::keyboard::Keyboard;
use crate::hid::mouse::{high_byte, low_byte, signed_byte, Mouse};

verus! {

/// Length of an absolute mouse message.
pub const MOUSE_MESSAGE_LENGTH: usize = 6;

/// Length of a relative mouse message.
pub const MOUSE_LEGACY_MESSAGE_LENGTH: usize = 4;

/// Length of a keyboard message.
pub const KEYBOARD_MESSAGE_LENGTH: usize = 3;

/// The first byte of a keyboard message about a key of the keyboard page.
pub const KEYBOARD_MESSAGE_KEY: u8 = 0;

/// The first byte of a keyboard message about a system-control key.
pub const KEYBOARD_MESSAGE_SYS_CONTROL: u8 = 1;

/// The time that a report may take to be sent before the sender gives up
/// waiting and goes on, in seconds.
pub const SEND_TIMEOUT_SECS: u64 = 5;

/// The buttons that are down and where the pointer is, in absolute
/// coordinates.
#[derive(Debug, Clone, Copy, PartialEq, Eq)]
pub struct MouseMessage {
    pub button: u8,
    pub x: u16,
    pub y: u16,
    pub wheel: i8,
}

/// The buttons that are down and how far the pointer moved.
#[derive(Debug, Clone, Copy, PartialEq, Eq)]
pub struct MouseLegacyMessage {
    pub button: u8,
    pub x: i8,
    pub y: i8,
    pub wheel: i8,
}

/// A key that went down or up.
#[derive(Debug, Clone, Copy, PartialEq, Eq)]
pub enum KeyMessage {
    /// A key of the keyboard page, for `Keyboard::set_key`.
    Key { usage_id: u16, down: bool },
    /// A system-control key of the generic desktop page, for
    /// `Keyboard::set_sys_control_key`.
    SysControl { usage_id: u16, down: bool },
}

/// The signed value that a byte carries in two's complement.
pub open spec fn signed_value(b: u8) -> i8 {
    if b < 0x80 {
        b as i8
    } else {
        (b - 0x100) as i8
    }
}

/// What an absolute mouse message says: six bytes, which are the buttons, X
/// and Y in little-endian order and the wheel travel. Coordinates above
/// `Mouse::ABS_MAX` and a wheel travel of -128 are not accepted.
pub open spec fn mouse_message(d: Seq<u8>) -> Option<MouseMessage> {
    if d.len() != 6 {
        None
    } else {
        let x = (d[1] + 0x100 * d[2]) as u16;
        let y = (d[3] + 0x100 * d[4]) as u16;
        let wheel = signed_value(d[5]);
        if x > Mouse::ABS_MAX || y > Mouse::ABS_MAX || wheel < Mouse::WHEEL_MIN {
            None
        } else {
            Some(MouseMessage { button: d[0], x, y, wheel })
        }
    }
}

/// What a relative mouse message says: four bytes, which are the buttons
/// and the movement in X, in Y and of the wheel. A value of -128 is not
/// accepted.
pub open spec fn mouse_legacy_message(d: Seq<u8>) -> Option<MouseLegacyMessage> {
    if d.len() != 4 {
        None
    } else {
        let x = signed_value(d[1]);
        let y = signed_value(d[2]);
        let wheel = signed_value(d[3]);
        if x < Mouse::REL_MIN || y < Mouse::REL_MIN || wheel < Mouse::WHEEL_MIN {
            None
        } else {
            Some(MouseLegacyMessage { button: d[0], x, y, wheel })
        }
    }
}

/// What a keyboard message says: three bytes, which are the kind of key
/// (`KEYBOARD_MESSAGE_KEY` or `KEYBOARD_MESSAGE_SYS_CONTROL`), its usage ID
/// and whether it went down (1) or up (0). Any other kind and any other
/// third byte is refused.
pub open spec fn keyboard_message(d: Seq<u8>) -> Option<KeyMessage> {
    if d.len() == 3 && (d[2] == 0 || d[2] == 1) {
        if d[0] == KEYBOARD_MESSAGE_KEY {
            Some(KeyMessage::Key { usage_id: d[1] as u16, down: d[2] == 1 })
        } else if d[0] == KEYBOARD_MESSAGE_SYS_CONTROL {
            Some(KeyMessage::SysControl { usage_id: d[1] as u16, down: d[2] == 1 })
        } else {
            None
        }
    } else {
        None
    }
}

/// The signed value that `b` carries in two's complement.
pub fn byte_as_signed(b: u8) -> (v: i8)
    ensures
        v == signed_value(b),
        signed_byte(v) == b,
{
    if b < 0x80 {
        b as i8
    } else {
        ((b as i16) - 0x100) as i8
    }
}

/// Decodes an absolute mouse message. `None` tells that the message is
/// refused.
pub fn decode_mouse(d: &[u8]) -> (message: Option<MouseMessage>)
    ensures
        message == mouse_message(d@),
{
    if d.len() != 6 {
        return None;
    }
    let x: u16 = d[1] as u16 + 0x100 * (d[2] as u16);
    if x > Mouse::ABS_MAX {
        return None;
    }
    let y: u16 = d[3] as u16 + 0x100 * (d[4] as u16);
    if y > Mouse::ABS_MAX {
        return None;
    }
    let wheel = byte_as_signed(d[5]);
    if wheel < Mouse::WHEEL_MIN {
        return None;
    }
    Some(MouseMessage { button: d[0], x, y, wheel })
}

/// Decodes a relative mouse message. `None` tells that the message is
/// refused.
pub fn decode_mouse_legacy(d: &[u8]) -> (message: Option<MouseLegacyMessage>)
    ensures
        message == mouse_legacy_message(d@),
{
    if d.len() != 4 {
        return None;
    }
    let x = byte_as_signed(d[1]);
    let y = byte_as_signed(d[2]);
    let wheel = byte_as_signed(d[3]);
    if x < Mouse::REL_MIN || y < Mouse::REL_MIN || wheel < Mouse::WHEEL_MIN {
        return None;
    }
    Some(MouseLegacyMessage { button: d[0], x, y, wheel })
}

/// Decodes a keyboard message. `None` tells that the message is refused.
pub fn decode_keyboard(d: &[u8]) -> (message: Option<KeyMessage>)
    ensures
        message == keyboard_message(d@),
{
    if d.len() != 3 || (d[0] != KEYBOARD_MESSAGE_KEY && d[0] != KEYBOARD_MESSAGE_SYS_CONTROL) {
        return None;
    }
    if d[2] != 0 && d[2] != 1 {
        return None;
    }
    if d[0] == KEYBOARD_MESSAGE_KEY {
        Some(KeyMessage::Key { usage_id: d[1] as u16, down: d[2] == 1 })
    } else {
        Some(KeyMessage::SysControl { usage_id: d[1] as u16, down: d[2] == 1 })
    }
}

/// Takes a key event over into the state of the keyboard and tells whether
/// the state changed, that is whether a report is to be sent.
pub fn apply_key_message(keyboard: &mut Keyboard, message: KeyMessage) -> (changed: bool)
    ensures
        match message {
            KeyMessage::Key { usage_id, down } => {
                &&& final(keyboard).keys@ == with_bit(old(keyboard).keys@, usage_id as int, down)
                &&& final(keyboard).sys_control_keys == old(keyboard).sys_control_keys
                &&& changed == (usage_id < 0x100 && old(keyboard).key_down(usage_id as int) != down)
            },
            KeyMessage::SysControl { usage_id, down } => {
                &&& final(keyboard).sys_control_keys@ == with_bit(
                    old(keyboard).sys_control_keys@,
                    usage_id - SYSTEM_POWER_DOWN,
                    down,
                )
                &&& final(keyboard).keys == old(keyboard).keys
                &&& changed == (0x81 <= usage_id <= 0x90 && old(keyboard).sys_control_key_down(
                    usage_id as int,
                ) != down)
            },
        },
        final(keyboard).led == old(keyboard).led,
{
    match message {
        KeyMessage::Key { usage_id, down } => keyboard.set_key(usage_id, down),
        KeyMessage::SysControl { usage_id, down } => keyboard.set_sys_control_key(usage_id, down),
    }
}

/// A mouse message that is accepted is sent on as it is: the report for it
/// holds the bytes of the message.
pub proof fn lemma_mouse_message_is_sent_unchanged(d: Seq<u8>)
    requires
        mouse_message(d) is Some,
    ensures
        ({
            let m = mouse_message(d)->Some_0;
            (Mouse { button: m.button }).payload(m.x, m.y, m.wheel) == d
        }),
{
    let m = mouse_message(d)->Some_0;
    let payload = (Mouse { button: m.button }).payload(m.x, m.y, m.wheel);
    assert(low_byte(m.x) == d[1] && high_byte(m.x) == d[2]);
    assert(low_byte(m.y) == d[3] && high_byte(m.y) == d[4]);
    assert(signed_byte(m.wheel) == d[5]);
    assert(payload =~= d);
}

} // verus!
