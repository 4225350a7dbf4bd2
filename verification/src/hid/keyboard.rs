//! Keyboard state and its report encoders.
//!
//! A [`Keyboard`] holds three packed bit sets: the keys that are down
//! (indexed by usage ID on the keyboard page), the system-control keys that
//! are down (indexed by usage ID minus `SYSTEM_POWER_DOWN`), and the LEDs the
//! host has switched on.

use vstd::prelude::*;
use crate::bitset::{
    assign_bit, bit_at, byte_bit, byte_with_bit, lemma_byte_with_bit, lemma_with_bit, test_bit,
    with_bit,
};
use crate::hid::generic_desktop;
use crate::hid::FunctionHidOpts;
use vstd::slice::slice_to_vec;

pub mod usage_id;

verus! {

/// Length of the full keyboard report: key bits, then system-control bits.
pub const KEYBOARD_PAYLOAD_LENGTH: usize = 0x22;

/// Length of the boot-protocol keyboard report.
pub const KEYBOARD_LEGACY_PAYLOAD_LENGTH: usize = 0x8;

/// Number of key slots in the boot-protocol keyboard report.
pub const KEYBOARD_LEGACY_KEY_SLOTS: usize = 6;

/// Length of the LED report that the host sends to the full keyboard.
pub const KEYBOARD_LED_LENGTH: usize = 0x20;

/// The lock LEDs that a boot-protocol output report carries, as a bit mask.
pub const KEYBOARD_LEGACY_LED_MASK: u8 = 0x1f;

/// Report descriptor of the boot-protocol keyboard: eight bytes of input,
/// all of them declared as padding, and an output of five lock LEDs (Num
/// Lock to Kana) with three bits of padding.
pub const KEYBOARD_LEGACY_REPORT_DESC: [u8; 31] = [
    0x05, 0x01, 0x09, 0x06, 0xa1, 0x01, 0x75, 0x08, 0x95, 0x08, 0x81, 0x03, 0x05, 0x08, 0x19,
    0x01, 0x29, 0x05, 0x75, 0x01, 0x95, 0x05, 0x91, 0x02, 0x75, 0x03, 0x95, 0x01, 0x91, 0x03,
    0xc0,
];

/// Report descriptor of the full keyboard: 256 key bits of the keyboard
/// page, fifteen system-control bits (System Power Down to System Warm
/// Restart) with one bit of padding, and an output of 256 LED bits.
pub const KEYBOARD_REPORT_DESC: [u8; 63] = [
    0x05, 0x01, 0x09, 0x06, 0xa1, 0x01, 0x05, 0x07, 0x19, 0x00, 0x2a, 0xff, 0x00, 0x15, 0x00,
    0x25, 0x01, 0x75, 0x01, 0x96, 0x00, 0x01, 0x81, 0x02, 0x05, 0x01, 0x09, 0x80, 0x19, 0x81,
    0x29, 0x8f, 0x15, 0x00, 0x25, 0x01, 0x75, 0x01, 0x95, 0x0f, 0x81, 0x02, 0x75, 0x01, 0x95,
    0x01, 0x81, 0x03, 0x05, 0x08, 0x19, 0x00, 0x2a, 0xff, 0x00, 0x75, 0x01, 0x96, 0x00, 0x01,
    0x91, 0x02, 0xc0,
];

/// The HID function of the boot-protocol keyboard. A BIOS ignores the report
/// descriptor and reads the eight-byte boot report; the output endpoint is
/// what lets it switch the lock LEDs.
pub fn keyboard_legacy_fho() -> (opts: FunctionHidOpts)
    ensures
        opts.major == 0,
        opts.minor == 0,
        opts.no_out_endpoint == 1,
        opts.subclass == 1,
        opts.protocol == 1,
        opts.report_length == KEYBOARD_LEGACY_PAYLOAD_LENGTH,
        opts.report_desc@ == KEYBOARD_LEGACY_REPORT_DESC@,
{
    FunctionHidOpts {
        major: 0,
        minor: 0,
        no_out_endpoint: 1,
        subclass: 1,
        protocol: 1,
        report_length: KEYBOARD_LEGACY_PAYLOAD_LENGTH as u16,
        report_desc: slice_to_vec(KEYBOARD_LEGACY_REPORT_DESC.as_slice()),
    }
}

/// The HID function of the full keyboard.
pub fn keyboard_fho() -> (opts: FunctionHidOpts)
    ensures
        opts.major == 0,
        opts.minor == 0,
        opts.no_out_endpoint == 1,
        opts.subclass == 1,
        opts.protocol == 1,
        opts.report_length == KEYBOARD_PAYLOAD_LENGTH,
        opts.report_desc@ == KEYBOARD_REPORT_DESC@,
{
    FunctionHidOpts {
        major: 0,
        minor: 0,
        no_out_endpoint: 1,
        subclass: 1,
        protocol: 1,
        report_length: KEYBOARD_PAYLOAD_LENGTH as u16,
        report_desc: slice_to_vec(KEYBOARD_REPORT_DESC.as_slice()),
    }
}

/// The keys, system-control keys and LEDs of a keyboard.
#[derive(Debug, Clone, PartialEq, Eq)]
pub struct Keyboard {
    pub led: [u8; 0x20],
    pub keys: [u8; 0x20],
    pub sys_control_keys: [u8; 0x2],
}

/// A keyboard as three sets: the usage IDs of the keys that are down, the
/// usage IDs of the system-control keys that are down, and the numbers of
/// the LEDs that are lit.
pub struct KeyboardView {
    pub keys: Set<int>,
    pub sys_control_keys: Set<int>,
    pub led: Set<int>,
}

impl View for Keyboard {
    type V = KeyboardView;

    open spec fn view(&self) -> KeyboardView {
        KeyboardView {
            keys: Set::new(|key_id: int| self.key_down(key_id)),
            sys_control_keys: Set::new(|usage: int| self.sys_control_key_down(usage)),
            led: Set::new(|led_id: int| self.led_on(led_id)),
        }
    }
}

/// `set` with `member` put in or taken out.
pub open spec fn with_member(set: Set<int>, member: int, present: bool) -> Set<int> {
    if present {
        set.insert(member)
    } else {
        set.remove(member)
    }
}

/// The byte that a boot-protocol LED frame leaves in the first LED byte: the
/// five lock LEDs come from the frame, the other three bits stay.
pub open spec fn legacy_led_byte(current: u8, frame: u8) -> u8 {
    (current & 0xe0) | (frame & 0x1f)
}

/// How many times a run of boot-protocol LED frames makes the published
/// snapshot change, starting from first LED byte `current` and published
/// first byte `published`.
pub open spec fn legacy_notifications(current: u8, published: u8, frames: Seq<u8>) -> nat
    decreases frames.len(),
{
    if frames.len() == 0 {
        0
    } else {
        let merged = legacy_led_byte(current, frames[0]);
        let rest = legacy_notifications(merged, merged, frames.drop_first());
        if published != merged {
            rest + 1
        } else {
            rest
        }
    }
}

/// How many times a run of full LED reports makes the published snapshot
/// change, starting from the published snapshot `published`.
pub open spec fn led_notifications(published: Seq<u8>, reports: Seq<Seq<u8>>) -> nat
    decreases reports.len(),
{
    if reports.len() == 0 {
        0
    } else {
        let rest = led_notifications(reports[0], reports.drop_first());
        if published != reports[0] {
            rest + 1
        } else {
            rest
        }
    }
}

/// How many of the lowest `count` bits of `b` are set.
pub open spec fn bits_set(b: u8, count: nat) -> nat
    decreases count,
{
    if count == 0 {
        0
    } else if byte_bit(b, (count - 1) as u8) {
        bits_set(b, (count - 1) as nat) + 1
    } else {
        bits_set(b, (count - 1) as nat)
    }
}

/// A boot-protocol LED frame that is taken in twice has no effect the second
/// time.
pub proof fn lemma_legacy_led_byte_idempotent(current: u8, frame: u8)
    ensures
        legacy_led_byte(legacy_led_byte(current, frame), frame) == legacy_led_byte(current, frame),
{
    assert((((current & 0xe0) | (frame & 0x1f)) & 0xe0) | (frame & 0x1f) == (current & 0xe0) | (frame
        & 0x1f)) by (bit_vector);
}

/// A run of identical boot-protocol LED frames changes the published
/// snapshot at most once.
pub proof fn lemma_identical_legacy_frames_notify_once(current: u8, published: u8, frames: Seq<u8>)
    requires
        forall|i: int, j: int| 0 <= i < frames.len() && 0 <= j < frames.len() ==> frames[i] == frames[j],
    ensures
        legacy_notifications(current, published, frames) <= 1,
{
    if frames.len() > 0 {
        let merged = legacy_led_byte(current, frames[0]);
        lemma_legacy_led_byte_idempotent(current, frames[0]);
        lemma_settled_legacy_frames_are_silent(merged, frames[0], frames.drop_first());
    }
}

/// Once a boot-protocol LED frame has been taken in and published, further
/// copies of it change nothing.
pub proof fn lemma_settled_legacy_frames_are_silent(current: u8, frame: u8, frames: Seq<u8>)
    requires
        legacy_led_byte(current, frame) == current,
        forall|i: int| 0 <= i < frames.len() ==> frames[i] == frame,
    ensures
        legacy_notifications(current, current, frames) == 0,
    decreases frames.len(),
{
    if frames.len() > 0 {
        lemma_settled_legacy_frames_are_silent(current, frame, frames.drop_first());
    }
}

/// A run of identical full LED reports changes the published snapshot at
/// most once.
pub proof fn lemma_identical_led_reports_notify_once(published: Seq<u8>, reports: Seq<Seq<u8>>)
    requires
        forall|i: int, j: int|
            0 <= i < reports.len() && 0 <= j < reports.len() ==> reports[i] == reports[j],
    ensures
        led_notifications(published, reports) <= 1,
{
    if reports.len() > 0 {
        lemma_settled_led_reports_are_silent(reports[0], reports.drop_first());
    }
}

/// Once a full LED report has been published, further copies of it change
/// nothing.
pub proof fn lemma_settled_led_reports_are_silent(report: Seq<u8>, reports: Seq<Seq<u8>>)
    requires
        forall|i: int| 0 <= i < reports.len() ==> reports[i] == report,
    ensures
        led_notifications(report, reports) == 0,
    decreases reports.len(),
{
    if reports.len() > 0 {
        lemma_settled_led_reports_are_silent(report, reports.drop_first());
    }
}

impl Default for Keyboard {
    /// A keyboard with no key down and no LED lit.
    fn default() -> (keyboard: Self)
        ensures
            keyboard.is_clear(),
    {
        Keyboard { led: [0u8; 0x20], keys: [0u8; 0x20], sys_control_keys: [0u8; 0x2] }
    }
}

impl Keyboard {
    /// Whether the host has LED `led_id` switched on.
    pub open spec fn led_on(&self, led_id: int) -> bool {
        bit_at(self.led@, led_id)
    }

    /// Whether the key with usage ID `key_id` is down.
    pub open spec fn key_down(&self, key_id: int) -> bool {
        bit_at(self.keys@, key_id)
    }

    /// Whether the system-control key with usage ID `usage` is down.
    pub open spec fn sys_control_key_down(&self, usage: int) -> bool {
        bit_at(self.sys_control_keys@, usage - generic_desktop::usage_id::SYSTEM_POWER_DOWN)
    }

    /// Every byte of all three bit sets is zero.
    pub open spec fn is_clear(&self) -> bool {
        &&& forall|i: int| 0 <= i < 0x20 ==> self.led[i] == 0
        &&& forall|i: int| 0 <= i < 0x20 ==> self.keys[i] == 0
        &&& forall|i: int| 0 <= i < 0x2 ==> self.sys_control_keys[i] == 0
    }

    /// The usage IDs below `limit` whose keys are down, in ascending order.
    pub open spec fn pressed_below(&self, limit: int) -> Seq<u8>
        decreases limit,
    {
        if limit <= 0 {
            Seq::empty()
        } else if self.key_down(limit - 1) {
            self.pressed_below(limit - 1).push((limit - 1) as u8)
        } else {
            self.pressed_below(limit - 1)
        }
    }

    /// The modifier byte of the boot-protocol report: bit `i` stands for the
    /// key with usage ID `KEYBOARD_LEFT_CONTROL + i`.
    pub open spec fn is_modifier_mask(&self, mask: u8) -> bool {
        forall|i: u8|
            i < 8 ==> byte_bit(mask, i) == self.key_down(usage_id::KEYBOARD_LEFT_CONTROL + i)
    }

    /// Byte `slot` of the key array of the boot-protocol report.
    pub open spec fn legacy_key_slot(&self, slot: int) -> u8 {
        let pressed = self.pressed_below(usage_id::KEYBOARD_APPLICATION + 1);
        if 0 <= slot < pressed.len() {
            pressed[slot]
        } else {
            0
        }
    }

    /// Releases every key and switches every LED off.
    pub fn clear(&mut self)
        ensures
            final(self).is_clear(),
    {
        self.led = [0u8; 0x20];
        self.keys = [0u8; 0x20];
        self.sys_control_keys = [0u8; 0x2];
    }

    /// Whether the host has LED `led_id` switched on.
    pub fn get_led(&self, led_id: u16) -> (on: bool)
        ensures
            on == self.led_on(led_id as int),
            on == self@.led.contains(led_id as int),
    {
        test_bit(&self.led, led_id)
    }

    /// Whether the key with usage ID `key_id` is down. Usage IDs from 0x100
    /// on have no key and read as up.
    pub fn get_key(&self, key_id: u16) -> (down: bool)
        ensures
            down == self.key_down(key_id as int),
            down == self@.keys.contains(key_id as int),
    {
        test_bit(&self.keys, key_id)
    }

    /// Presses or releases the key with usage ID `key_id` and reports whether
    /// the state changed. Usage IDs from 0x100 on have no key: nothing
    /// changes.
    pub fn set_key(&mut self, key_id: u16, status: bool) -> (changed: bool)
        ensures
            final(self).keys@ == with_bit(old(self).keys@, key_id as int, status),
            forall|other: int|
                #[trigger] final(self).key_down(other) == if other == key_id && key_id < 0x100 {
                    status
                } else {
                    old(self).key_down(other)
                },
            final(self)@.keys == if key_id < 0x100 {
                with_member(old(self)@.keys, key_id as int, status)
            } else {
                old(self)@.keys
            },
            changed == (key_id < 0x100 && old(self).key_down(key_id as int) != status),
            changed == (final(self).keys != old(self).keys),
            final(self).led == old(self).led,
            final(self).sys_control_keys == old(self).sys_control_keys,
    {
        proof {
            lemma_with_bit(self.keys@, key_id as int, status);
        }
        let changed = assign_bit(&mut self.keys, key_id, status);
        proof {
            if self.keys == old(self).keys {
                assert(self.keys@ == old(self).keys@);
            } else {
                assert(!(self.keys =~= old(self).keys));
            }
            if key_id < 0x100 {
                assert(self@.keys =~= with_member(old(self)@.keys, key_id as int, status));
            } else {
                assert(self@.keys =~= old(self)@.keys);
            }
        }
        changed
    }

    /// Whether the system-control key with usage ID `sys_control_key_id` is
    /// down. Usage IDs outside `0x81..=0x90` have no key and read as up.
    pub fn get_sys_control_key(&self, sys_control_key_id: u16) -> (down: bool)
        ensures
            down == self.sys_control_key_down(sys_control_key_id as int),
            down == self@.sys_control_keys.contains(sys_control_key_id as int),
    {
        if sys_control_key_id < generic_desktop::usage_id::SYSTEM_POWER_DOWN {
            return false;
        }
        test_bit(
            &self.sys_control_keys,
            sys_control_key_id - generic_desktop::usage_id::SYSTEM_POWER_DOWN,
        )
    }

    /// Presses or releases the system-control key with usage ID
    /// `sys_control_key_id` and reports whether the state changed. Usage IDs
    /// outside `0x81..=0x90` have no key: nothing changes.
    pub fn set_sys_control_key(&mut self, sys_control_key_id: u16, status: bool) -> (changed: bool)
        ensures
            final(self).sys_control_keys@ == with_bit(
                old(self).sys_control_keys@,
                sys_control_key_id - generic_desktop::usage_id::SYSTEM_POWER_DOWN,
                status,
            ),
            forall|other: int|
                #[trigger] final(self).sys_control_key_down(other) == if other == sys_control_key_id
                    && 0x81 <= sys_control_key_id <= 0x90 {
                    status
                } else {
                    old(self).sys_control_key_down(other)
                },
            final(self)@.sys_control_keys == if 0x81 <= sys_control_key_id <= 0x90 {
                with_member(old(self)@.sys_control_keys, sys_control_key_id as int, status)
            } else {
                old(self)@.sys_control_keys
            },
            changed == (0x81 <= sys_control_key_id <= 0x90 && old(self).sys_control_key_down(
                sys_control_key_id as int,
            ) != status),
            changed == (final(self).sys_control_keys != old(self).sys_control_keys),
            final(self).led == old(self).led,
            final(self).keys == old(self).keys,
    {
        if sys_control_key_id < generic_desktop::usage_id::SYSTEM_POWER_DOWN {
            return false;
        }
        let index: u16 = sys_control_key_id - generic_desktop::usage_id::SYSTEM_POWER_DOWN;
        proof {
            lemma_with_bit(self.sys_control_keys@, index as int, status);
        }
        let changed = assign_bit(&mut self.sys_control_keys, index, status);
        proof {
            if self.sys_control_keys == old(self).sys_control_keys {
                assert(self.sys_control_keys@ == old(self).sys_control_keys@);
            } else {
                assert(!(self.sys_control_keys =~= old(self).sys_control_keys));
            }
            let ghost after = with_bit(old(self).sys_control_keys@, index as int, status);
            assert(self.sys_control_keys@ == after);
            assert forall|other: int|
                #[trigger] self.sys_control_key_down(other) == if other == sys_control_key_id
                    && index < 16 {
                    status
                } else {
                    old(self).sys_control_key_down(other)
                } by {
                assert(bit_at(after, other - 0x81) == if other - 0x81 == index && index < 16 {
                    status
                } else {
                    bit_at(old(self).sys_control_keys@, other - 0x81)
                });
            }
            if index < 16 {
                assert(self@.sys_control_keys =~= with_member(
                    old(self)@.sys_control_keys,
                    sys_control_key_id as int,
                    status,
                ));
            } else {
                assert(self@.sys_control_keys =~= old(self)@.sys_control_keys);
            }
        }
        changed
    }

    /// The full keyboard report: the key bit set followed by the
    /// system-control bit set.
    pub fn get_payload(&self) -> (payload: [u8; 0x22])
        ensures
            payload@ == self.keys@ + self.sys_control_keys@,
    {
        let mut ret = [0u8; 0x22];
        let mut i: usize = 0;
        while i < 0x20
            invariant
                i <= 0x20,
                forall|j: int| 0 <= j < i ==> ret[j] == self.keys[j],
            decreases 0x20 - i,
        {
            ret[i] = self.keys[i];
            i += 1;
        }
        let mut k: usize = 0;
        while k < 0x2
            invariant
                k <= 0x2,
                forall|j: int| 0 <= j < 0x20 ==> ret[j] == self.keys[j],
                forall|j: int| 0x20 <= j < 0x20 + k ==> ret[j] == self.sys_control_keys[j - 0x20],
            decreases 0x2 - k,
        {
            ret[0x20 + k] = self.sys_control_keys[k];
            k += 1;
        }
        assert(ret@ =~= self.keys@ + self.sys_control_keys@);
        ret
    }

    /// The boot-protocol keyboard report. Byte 0 is the modifier mask, byte 1
    /// is zero, and bytes 2 to 7 hold the lowest usage IDs up to
    /// `KEYBOARD_APPLICATION` whose keys are down, in ascending order and
    /// padded with zeros. Keys past the sixth are left out.
    pub fn get_legacy_payload(&self) -> (payload: [u8; 0x8])
        ensures
            self.is_modifier_mask(payload[0]),
            payload[1] == 0,
            forall|at: int| 2 <= at < 8 ==> payload[at] == self.legacy_key_slot(at - 2),
    {
        let mut ret = [0u8; 0x8];
        let mut ctrl_val: u8 = 0;
        let mut m: u16 = 0;
        assert(forall|j: u8| j < 8 ==> !byte_bit(0u8, j)) by (bit_vector);
        while m < 8
            invariant
                m <= 8,
                forall|j: u8|
                    j < m ==> byte_bit(ctrl_val, j) == self.key_down(
                        usage_id::KEYBOARD_LEFT_CONTROL + j,
                    ),
                forall|j: u8| m <= j < 8 ==> !byte_bit(ctrl_val, j),
            decreases 8 - m,
        {
            let down = self.get_key(usage_id::KEYBOARD_LEFT_CONTROL + m);
            if down {
                let ghost before = ctrl_val;
                ctrl_val = ctrl_val | (1u8 << (m as u8));
                proof {
                    lemma_byte_with_bit(before, m as u8, true);
                    assert(ctrl_val == byte_with_bit(before, m as u8, true));
                    assert forall|j: u8| j < 8 && j != m implies byte_bit(ctrl_val, j) == byte_bit(
                        before,
                        j,
                    ) by {}
                }
            }
            m += 1;
        }
        ret[0] = ctrl_val;

        let mut current_idx: usize = 2;
        let mut i: u16 = 0;
        while i <= usage_id::KEYBOARD_APPLICATION && current_idx < 8
            invariant
                i <= usage_id::KEYBOARD_APPLICATION + 1,
                2 <= current_idx <= 8,
                ret[0] == ctrl_val,
                ret[1] == 0,
                current_idx - 2 == self.pressed_below(i as int).len(),
                forall|at: int|
                    2 <= at < current_idx ==> ret[at] == self.pressed_below(i as int)[at - 2],
                forall|at: int| current_idx <= at < 8 ==> ret[at] == 0,
            decreases usage_id::KEYBOARD_APPLICATION + 1 - i,
        {
            if self.get_key(i) {
                ret[current_idx] = i as u8;
                current_idx += 1;
            }
            i += 1;
        }
        proof {
            self.lemma_pressed_below_prefix(i as int, usage_id::KEYBOARD_APPLICATION + 1);
        }
        ret
    }

    /// The composite report that carries the full keyboard report: the
    /// keyboard report ID followed by the payload.
    pub fn get_composite_payload(&self) -> (report: [u8; 0x23])
        ensures
            report@ == seq![crate::hid::hid_composite::HID_REPORT_ID_KEYBOARD] + self.keys@
                + self.sys_control_keys@,
    {
        let payload = self.get_payload();
        let mut ret = [0u8; 0x23];
        ret[0] = crate::hid::hid_composite::HID_REPORT_ID_KEYBOARD;
        let mut i: usize = 0;
        while i < 0x22
            invariant
                i <= 0x22,
                ret[0] == crate::hid::hid_composite::HID_REPORT_ID_KEYBOARD,
                forall|j: int| 1 <= j < 1 + i ==> ret[j] == payload[j - 1],
            decreases 0x22 - i,
        {
            ret[1 + i] = payload[i];
            i += 1;
        }
        assert(ret@ =~= seq![crate::hid::hid_composite::HID_REPORT_ID_KEYBOARD] + self.keys@
            + self.sys_control_keys@);
        ret
    }

    /// Takes in a boot-protocol LED frame from the host and brings the
    /// published LED snapshot up to date. Only the first byte is touched, in
    /// the state and in the snapshot. Returns whether the snapshot changed,
    /// that is whether subscribers are to be notified.
    pub fn recv_legacy(&mut self, frame: u8, published: &mut [u8; 0x20]) -> (notify: bool)
        ensures
            final(self).led@ == old(self).led@.update(
                0,
                legacy_led_byte(old(self).led[0], frame),
            ),
            final(published)@ == old(published)@.update(0, final(self).led[0]),
            notify == (old(published)[0] != final(self).led[0]),
            notify == (*final(published) != *old(published)),
            final(self).keys == old(self).keys,
            final(self).sys_control_keys == old(self).sys_control_keys,
    {
        let merged: u8 = (self.led[0] & 0xe0) | (frame & 0x1f);
        self.led[0] = merged;
        let notify = published[0] != merged;
        if notify {
            published[0] = merged;
        }
        proof {
            assert(published@ =~= old(published)@.update(0, merged));
            if notify {
                assert(published[0] != old(published)[0]);
            } else {
                assert(*published =~= *old(published));
            }
        }
        notify
    }

    /// Takes in an LED report that the host sent to the full keyboard: a
    /// composite output frame whose first byte is the report ID and whose
    /// other bytes are the new LED bit set. Brings the published LED snapshot
    /// up to date and returns whether it changed, that is whether subscribers
    /// are to be notified.
    pub fn recv(&mut self, frame: &[u8; 0x21], published: &mut [u8; 0x20]) -> (notify: bool)
        ensures
            final(self).led@ == frame@.subrange(1, 0x21),
            final(published)@ == final(self).led@,
            notify == (old(published)@ != frame@.subrange(1, 0x21)),
            final(self).keys == old(self).keys,
            final(self).sys_control_keys == old(self).sys_control_keys,
    {
        let mut notify = false;
        let mut i: usize = 0;
        while i < 0x20
            invariant
                i <= 0x20,
                forall|j: int| 0 <= j < i ==> self.led[j] == frame[j + 1],
                forall|j: int| 0 <= j < i ==> published[j] == frame[j + 1],
                forall|j: int| i <= j < 0x20 ==> published[j] == old(published)[j],
                notify == exists|j: int| 0 <= j < i && old(published)[j] != frame[j + 1],
                self.keys == old(self).keys,
                self.sys_control_keys == old(self).sys_control_keys,
            decreases 0x20 - i,
        {
            let value: u8 = frame[1 + i];
            self.led[i] = value;
            if published[i] != value {
                published[i] = value;
                notify = true;
            }
            i += 1;
        }
        proof {
            let led = frame@.subrange(1, 0x21);
            assert(self.led@ =~= led);
            assert(published@ =~= led);
            if notify {
                let j = choose|j: int| 0 <= j < 0x20 && old(published)[j] != frame[j + 1];
                assert(old(published)@[j] != led[j]);
            } else {
                assert(old(published)@ =~= led);
            }
        }
        notify
    }

    /// The modifier keys among the first `count` that are down.
    pub open spec fn modifiers_down(&self, count: nat) -> nat
        decreases count,
    {
        if count == 0 {
            0
        } else if self.key_down(usage_id::KEYBOARD_LEFT_CONTROL + count - 1) {
            self.modifiers_down((count - 1) as nat) + 1
        } else {
            self.modifiers_down((count - 1) as nat)
        }
    }

    /// Pressing or releasing a key makes that key read back as pressed or
    /// released, leaves every other key as it was, and changes the state
    /// exactly when the key had the other value. Usage IDs from 0x100 on are
    /// left out: they have no key and always read as up.
    pub proof fn lemma_set_key_then_get_key(
        before: Keyboard,
        after: Keyboard,
        key_id: u16,
        status: bool,
    )
        requires
            key_id < 0x100,
            after.keys@ == with_bit(before.keys@, key_id as int, status),
        ensures
            after.key_down(key_id as int) == status,
            forall|other: int| other != key_id ==> after.key_down(other) == before.key_down(other),
            (after.keys@ != before.keys@) == (before.key_down(key_id as int) != status),
    {
        lemma_with_bit(before.keys@, key_id as int, status);
    }

    /// The keys listed by `pressed_below` are exactly the keys that are down
    /// below `limit`, each once, in strictly ascending order.
    pub proof fn lemma_pressed_below_ascending(&self, limit: int)
        requires
            limit <= 0x100,
        ensures
            forall|slot: int|
                0 <= slot < self.pressed_below(limit).len() ==> 0 <= (#[trigger] self.pressed_below(
                    limit,
                )[slot]) < limit && self.key_down(self.pressed_below(limit)[slot] as int),
            forall|a: int, b: int|
                0 <= a < b < self.pressed_below(limit).len() ==> self.pressed_below(limit)[a]
                    < self.pressed_below(limit)[b],
            forall|usage: int|
                0 <= usage < limit && #[trigger] self.key_down(usage) ==> exists|slot: int|
                    0 <= slot < self.pressed_below(limit).len() && self.pressed_below(limit)[slot]
                        == usage,
        decreases limit,
    {
        if limit > 0 {
            self.lemma_pressed_below_ascending(limit - 1);
            let shorter = self.pressed_below(limit - 1);
            let pressed = self.pressed_below(limit);
            assert forall|usage: int| 0 <= usage < limit && #[trigger] self.key_down(usage) implies exists|
                slot: int,
            | 0 <= slot < pressed.len() && pressed[slot] == usage by {
                if usage == limit - 1 {
                    assert(pressed[pressed.len() - 1] == usage);
                } else {
                    let slot = choose|slot: int| 0 <= slot < shorter.len() && shorter[slot] == usage;
                    assert(pressed[slot] == usage);
                }
            }
        }
    }

    /// The modifier byte has as many bits set as modifier keys are down.
    pub proof fn lemma_modifier_mask_count(&self, mask: u8, count: nat)
        requires
            self.is_modifier_mask(mask),
            count <= 8,
        ensures
            bits_set(mask, count) == self.modifiers_down(count),
        decreases count,
    {
        if count > 0 {
            self.lemma_modifier_mask_count(mask, (count - 1) as nat);
            let i = (count - 1) as u8;
            assert(byte_bit(mask, i) == self.key_down(usage_id::KEYBOARD_LEFT_CONTROL + i));
        }
    }

    /// The keys with a usage ID below `limit` that are down.
    pub open spec fn keys_below(&self, limit: int) -> Set<int> {
        Set::new(|key_id: int| 0 <= key_id < limit && self.key_down(key_id))
    }

    /// The modifier keys among the first `count` that are down, by usage ID.
    pub open spec fn modifier_keys(&self, count: int) -> Set<int> {
        Set::new(
            |key_id: int|
                usage_id::KEYBOARD_LEFT_CONTROL <= key_id < usage_id::KEYBOARD_LEFT_CONTROL + count
                    && self.key_down(key_id),
        )
    }

    /// `pressed_below` lists as many keys as are down below `limit`.
    pub proof fn lemma_pressed_below_count(&self, limit: int)
        requires
            0 <= limit,
        ensures
            self.keys_below(limit).finite(),
            self.keys_below(limit).len() == self.pressed_below(limit).len(),
        decreases limit,
    {
        if limit == 0 {
            assert(self.keys_below(limit) =~= Set::<int>::empty());
        } else {
            self.lemma_pressed_below_count(limit - 1);
            if self.key_down(limit - 1) {
                assert(self.keys_below(limit) =~= self.keys_below(limit - 1).insert(limit - 1));
            } else {
                assert(self.keys_below(limit) =~= self.keys_below(limit - 1));
            }
        }
    }

    /// `modifiers_down` counts the modifier keys that are down.
    pub proof fn lemma_modifiers_down_count(&self, count: nat)
        ensures
            self.modifier_keys(count as int).finite(),
            self.modifier_keys(count as int).len() == self.modifiers_down(count),
        decreases count,
    {
        if count == 0 {
            assert(self.modifier_keys(count as int) =~= Set::<int>::empty());
        } else {
            self.lemma_modifiers_down_count((count - 1) as nat);
            let last = usage_id::KEYBOARD_LEFT_CONTROL + count - 1;
            if self.key_down(last) {
                assert(self.modifier_keys(count as int) =~= self.modifier_keys(count - 1).insert(
                    last,
                ));
            } else {
                assert(self.modifier_keys(count as int) =~= self.modifier_keys(count - 1));
            }
        }
    }

    /// What a boot-protocol report says of the keyboard it was made from.
    /// The modifier byte has one bit set for each modifier key that is
    /// down. Of the other keys up to `KEYBOARD_APPLICATION` that are down,
    /// the six with the lowest usage IDs fill the key slots in ascending
    /// order, or all of them where they are fewer, and the slots that are
    /// left hold zero.
    pub proof fn lemma_legacy_payload(&self, payload: Seq<u8>)
        requires
            payload.len() == 8,
            self.is_modifier_mask(payload[0]),
            forall|at: int| 2 <= at < 8 ==> payload[at] == self.legacy_key_slot(at - 2),
        ensures
            self.modifier_keys(8).finite(),
            self.keys_below(usage_id::KEYBOARD_APPLICATION + 1).finite(),
            bits_set(payload[0], 8) == self.modifier_keys(8).len(),
            forall|at: int|
                2 <= at < 8 && at - 2 < self.keys_below(usage_id::KEYBOARD_APPLICATION + 1).len()
                    ==> self.keys_below(usage_id::KEYBOARD_APPLICATION + 1).contains(
                    #[trigger] payload[at] as int,
                ),
            forall|a: int, b: int|
                2 <= a < b < 8 && b - 2 < self.keys_below(usage_id::KEYBOARD_APPLICATION + 1).len()
                    ==> payload[a] < payload[b],
            forall|key_id: int|
                #[trigger] self.keys_below(usage_id::KEYBOARD_APPLICATION + 1).contains(key_id) ==> (
                exists|at: int| 2 <= at < 8 && payload[at] == key_id) || (forall|at: int|
                    2 <= at < 8 ==> payload[at] < key_id),
            forall|at: int|
                2 <= at < 8 && at - 2 >= self.keys_below(usage_id::KEYBOARD_APPLICATION + 1).len()
                    ==> payload[at] == 0,
    {
        let limit = usage_id::KEYBOARD_APPLICATION + 1;
        let pressed = self.pressed_below(limit);
        self.lemma_modifier_mask_count(payload[0], 8);
        self.lemma_modifiers_down_count(8);
        self.lemma_pressed_below_count(limit);
        self.lemma_pressed_below_ascending(limit);
        assert forall|at: int| 2 <= at < 8 && at - 2 < pressed.len() implies self.keys_below(
            limit,
        ).contains(#[trigger] payload[at] as int) by {
            assert(payload[at] == pressed[at - 2]);
        }
        assert forall|a: int, b: int| 2 <= a < b < 8 && b - 2 < pressed.len() implies payload[a]
            < payload[b] by {
            assert(payload[a] == pressed[a - 2]);
            assert(payload[b] == pressed[b - 2]);
        }
        assert forall|key_id: int| #[trigger] self.keys_below(limit).contains(key_id) implies (
        exists|at: int| 2 <= at < 8 && payload[at] == key_id) || (forall|at: int|
            2 <= at < 8 ==> payload[at] < key_id) by {
            let slot = choose|slot: int| 0 <= slot < pressed.len() && pressed[slot] == key_id;
            if slot < 6 {
                assert(payload[slot + 2] == key_id);
            } else {
                assert forall|at: int| 2 <= at < 8 implies payload[at] < key_id by {
                    assert(payload[at] == pressed[at - 2]);
                    assert(pressed[at - 2] < pressed[slot]);
                }
            }
        }
    }

    /// The keys that are down below `low` are the first of those that are
    /// down below `high`.
    pub proof fn lemma_pressed_below_prefix(&self, low: int, high: int)
        requires
            low <= high,
        ensures
            self.pressed_below(low).len() <= self.pressed_below(high).len(),
            forall|slot: int|
                0 <= slot < self.pressed_below(low).len() ==> self.pressed_below(high)[slot]
                    == self.pressed_below(low)[slot],
        decreases high - low,
    {
        if low < high {
            self.lemma_pressed_below_prefix(low, high - 1);
        }
    }
}

} // verus!
