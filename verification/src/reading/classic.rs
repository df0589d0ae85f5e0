//! Readings of the Classic controller family.
//!
//! A report is six bytes in the standard format and eight in the
//! high-resolution format. In the standard format the sticks and triggers
//! are packed into fields of five and six bits:
//!
//! ```text
//! bit     7     6     5     4     3     2     1     0
//! byte 0  RX<4:3>     LX<5:0>
//! byte 1  RX<2:1>     LY<5:0>
//! byte 2  RX<0> LT<4:3>     RY<4:0>
//! byte 3  LT<2:0>           RT<4:0>
//! byte 4  BDR   BDD   BLT   B-    BH    B+    BRT   1
//! byte 5  BZL   BB    BY    BA    BX    BZR   BDL   BDU
//! ```
//!
//! In the high-resolution format each axis has a byte of its own, in the
//! order LX, RX, LY, RY, LT, RT, and the two button bytes follow as bytes 6
//! and 7. A button bit is 0 while the button is held.

use crate::bits::{
    bit_clear, field, lemma_mask_keeps_low_field, lemma_mask_tests_bit, lemma_split_fields_join,
};
use crate::common::{centered, ext_u8_sub};
use vstd::prelude::*;

verus! {

/// Data from a classic controller after it has been deserialized
///
/// In the standard format, axes with less than 8 bits of range are scaled to
/// the 8 bit range. In the high-resolution format all axes have 8 bits.
#[derive(Debug)]
pub struct ClassicReading {
    pub joystick_left_x: u8,
    pub joystick_left_y: u8,
    pub joystick_right_x: u8,
    pub joystick_right_y: u8,
    pub trigger_left: u8,
    pub trigger_right: u8,
    pub dpad_up: bool,
    pub dpad_down: bool,
    pub dpad_left: bool,
    pub dpad_right: bool,
    pub button_b: bool,
    pub button_a: bool,
    pub button_x: bool,
    pub button_y: bool,
    pub button_trigger_l: bool,
    pub button_trigger_r: bool,
    pub button_zl: bool,
    pub button_zr: bool,
    pub button_minus: bool,
    pub button_plus: bool,
    pub button_home: bool,
}

/// Data from a classic controller after calibration data has been applied
///
/// Calibration subtracts the resting value of each axis from its reading, so
/// an axis below its resting value reads negative: the analog values are
/// signed.
#[derive(Debug)]
pub struct ClassicReadingCalibrated {
    pub joystick_left_x: i8,
    pub joystick_left_y: i8,
    pub joystick_right_x: i8,
    pub joystick_right_y: i8,
    pub trigger_left: i8,
    pub trigger_right: i8,
    pub dpad_up: bool,
    pub dpad_down: bool,
    pub dpad_left: bool,
    pub dpad_right: bool,
    pub button_b: bool,
    pub button_a: bool,
    pub button_x: bool,
    pub button_y: bool,
    pub button_trigger_l: bool,
    pub button_trigger_r: bool,
    pub button_zl: bool,
    pub button_zr: bool,
    pub button_minus: bool,
    pub button_plus: bool,
    pub button_home: bool,
}

/// Relaxed/Center positions for each axis
///
/// These are used to calculate the relative deflection of each axis from its
/// center point.
#[derive(Debug)]
pub struct CalibrationData {
    pub joystick_left_x: u8,
    pub joystick_left_y: u8,
    pub joystick_right_x: u8,
    pub joystick_right_y: u8,
    pub trigger_left: u8,
    pub trigger_right: u8,
}

/// A 5-bit value `v` brought to the 8-bit range: 0 stays 0 and 31, the
/// largest, becomes 255.
pub open spec fn rescale_5bit(v: int) -> int {
    v * 255 / 31
}

/// A 6-bit value `v` brought to the 8-bit range: 0 stays 0 and 63, the
/// largest, becomes 255.
pub open spec fn rescale_6bit(v: int) -> int {
    v * 255 / 63
}

/// The right stick's X axis in a standard report: five bits, spread over the
/// top of bytes 0, 1 and 2.
pub open spec fn right_x_field(data: Seq<u8>) -> int {
    8 * field(data[0], 6, 2) + 2 * field(data[1], 6, 2) + field(data[2], 7, 1)
}

/// The left trigger in a standard report: five bits, spread over bytes 2
/// and 3.
pub open spec fn left_trigger_field(data: Seq<u8>) -> int {
    8 * field(data[2], 5, 2) + field(data[3], 5, 3)
}

/// The reading that a standard report of six bytes holds.
pub open spec fn standard_reading(data: Seq<u8>) -> ClassicReading {
    ClassicReading {
        joystick_left_x: rescale_6bit(field(data[0], 0, 6)) as u8,
        joystick_left_y: rescale_6bit(field(data[1], 0, 6)) as u8,
        joystick_right_x: rescale_5bit(right_x_field(data)) as u8,
        joystick_right_y: rescale_5bit(field(data[2], 0, 5)) as u8,
        trigger_left: rescale_5bit(left_trigger_field(data)) as u8,
        trigger_right: rescale_5bit(field(data[3], 0, 5)) as u8,
        dpad_right: bit_clear(data[4], 7),
        dpad_down: bit_clear(data[4], 6),
        button_trigger_l: bit_clear(data[4], 5),
        button_minus: bit_clear(data[4], 4),
        button_home: bit_clear(data[4], 3),
        button_plus: bit_clear(data[4], 2),
        button_trigger_r: bit_clear(data[4], 1),
        button_zl: bit_clear(data[5], 7),
        button_b: bit_clear(data[5], 6),
        button_y: bit_clear(data[5], 5),
        button_a: bit_clear(data[5], 4),
        button_x: bit_clear(data[5], 3),
        button_zr: bit_clear(data[5], 2),
        dpad_left: bit_clear(data[5], 1),
        dpad_up: bit_clear(data[5], 0),
    }
}

/// The reading that a high-resolution report of eight bytes holds.
pub open spec fn high_resolution_reading(data: Seq<u8>) -> ClassicReading {
    ClassicReading {
        joystick_left_x: data[0],
        joystick_right_x: data[1],
        joystick_left_y: data[2],
        joystick_right_y: data[3],
        trigger_left: data[4],
        trigger_right: data[5],
        dpad_right: bit_clear(data[6], 7),
        dpad_down: bit_clear(data[6], 6),
        button_trigger_l: bit_clear(data[6], 5),
        button_minus: bit_clear(data[6], 4),
        button_home: bit_clear(data[6], 3),
        button_plus: bit_clear(data[6], 2),
        button_trigger_r: bit_clear(data[6], 1),
        button_zl: bit_clear(data[7], 7),
        button_b: bit_clear(data[7], 6),
        button_y: bit_clear(data[7], 5),
        button_a: bit_clear(data[7], 4),
        button_x: bit_clear(data[7], 3),
        button_zr: bit_clear(data[7], 2),
        dpad_left: bit_clear(data[7], 1),
        dpad_up: bit_clear(data[7], 0),
    }
}

/// The reading that a report of the given resolution holds.
pub open spec fn report_reading(hires: bool, data: Seq<u8>) -> ClassicReading {
    if hires {
        high_resolution_reading(data)
    } else {
        standard_reading(data)
    }
}

/// The reading that a report holds, chosen by the report's length alone:
/// six bytes are a standard report, eight a high-resolution one, and
/// anything else is no report.
pub open spec fn reading_of(data: Seq<u8>) -> Option<ClassicReading> {
    if data.len() == 6 {
        Some(standard_reading(data))
    } else if data.len() == 8 {
        Some(high_resolution_reading(data))
    } else {
        None
    }
}

/// The resting position that a reading gives: its six axes.
pub open spec fn baseline_of(r: ClassicReading) -> CalibrationData {
    CalibrationData {
        joystick_left_x: r.joystick_left_x,
        joystick_left_y: r.joystick_left_y,
        joystick_right_x: r.joystick_right_x,
        joystick_right_y: r.joystick_right_y,
        trigger_left: r.trigger_left,
        trigger_right: r.trigger_right,
    }
}

/// A reading seen from a resting position: each axis is its distance from
/// the resting value, limited to the range of `i8`; buttons are unchanged.
pub open spec fn calibrated(r: ClassicReading, c: CalibrationData) -> ClassicReadingCalibrated {
    ClassicReadingCalibrated {
        joystick_left_x: centered(r.joystick_left_x, c.joystick_left_x) as i8,
        joystick_left_y: centered(r.joystick_left_y, c.joystick_left_y) as i8,
        joystick_right_x: centered(r.joystick_right_x, c.joystick_right_x) as i8,
        joystick_right_y: centered(r.joystick_right_y, c.joystick_right_y) as i8,
        trigger_left: centered(r.trigger_left, c.trigger_left) as i8,
        trigger_right: centered(r.trigger_right, c.trigger_right) as i8,
        dpad_up: r.dpad_up,
        dpad_down: r.dpad_down,
        dpad_left: r.dpad_left,
        dpad_right: r.dpad_right,
        button_b: r.button_b,
        button_a: r.button_a,
        button_x: r.button_x,
        button_y: r.button_y,
        button_trigger_l: r.button_trigger_l,
        button_trigger_r: r.button_trigger_r,
        button_zl: r.button_zl,
        button_zr: r.button_zr,
        button_minus: r.button_minus,
        button_plus: r.button_plus,
        button_home: r.button_home,
    }
}

/// No button is held and the pad is not pushed in any direction.
pub open spec fn released(r: ClassicReading) -> bool {
    &&& !r.dpad_up
    &&& !r.dpad_down
    &&& !r.dpad_left
    &&& !r.dpad_right
    &&& !r.button_b
    &&& !r.button_a
    &&& !r.button_x
    &&& !r.button_y
    &&& !r.button_trigger_l
    &&& !r.button_trigger_r
    &&& !r.button_zl
    &&& !r.button_zr
    &&& !r.button_minus
    &&& !r.button_plus
    &&& !r.button_home
}

/// Every axis of a calibrated reading is 0.
pub open spec fn at_rest(c: ClassicReadingCalibrated) -> bool {
    &&& c.joystick_left_x == 0
    &&& c.joystick_left_y == 0
    &&& c.joystick_right_x == 0
    &&& c.joystick_right_y == 0
    &&& c.trigger_left == 0
    &&& c.trigger_right == 0
}

/// The calibrated reading `c` shows the buttons and the pad as the reading
/// `r` does.
pub open spec fn same_buttons(c: ClassicReadingCalibrated, r: ClassicReading) -> bool {
    &&& c.dpad_up == r.dpad_up
    &&& c.dpad_down == r.dpad_down
    &&& c.dpad_left == r.dpad_left
    &&& c.dpad_right == r.dpad_right
    &&& c.button_b == r.button_b
    &&& c.button_a == r.button_a
    &&& c.button_x == r.button_x
    &&& c.button_y == r.button_y
    &&& c.button_trigger_l == r.button_trigger_l
    &&& c.button_trigger_r == r.button_trigger_r
    &&& c.button_zl == r.button_zl
    &&& c.button_zr == r.button_zr
    &&& c.button_minus == r.button_minus
    &&& c.button_plus == r.button_plus
    &&& c.button_home == r.button_home
}

/// Two readings agree on every button. The pad and the axes play no part.
pub open spec fn same_digital(a: ClassicReading, b: ClassicReading) -> bool {
    &&& a.button_a == b.button_a
    &&& a.button_b == b.button_b
    &&& a.button_x == b.button_x
    &&& a.button_y == b.button_y
    &&& a.button_trigger_l == b.button_trigger_l
    &&& a.button_trigger_r == b.button_trigger_r
    &&& a.button_zl == b.button_zl
    &&& a.button_zr == b.button_zr
    &&& a.button_home == b.button_home
    &&& a.button_plus == b.button_plus
    &&& a.button_minus == b.button_minus
}

impl ClassicReadingCalibrated {
    /// Apply the calibration `c` to the reading `r`.
    pub fn new(r: ClassicReading, c: &CalibrationData) -> (out: ClassicReadingCalibrated)
        ensures
            out == calibrated(r, *c),
    {
        ClassicReadingCalibrated {
            joystick_left_x: ext_u8_sub(r.joystick_left_x, c.joystick_left_x),
            joystick_left_y: ext_u8_sub(r.joystick_left_y, c.joystick_left_y),
            joystick_right_x: ext_u8_sub(r.joystick_right_x, c.joystick_right_x),
            joystick_right_y: ext_u8_sub(r.joystick_right_y, c.joystick_right_y),
            trigger_left: ext_u8_sub(r.trigger_left, c.trigger_left),
            trigger_right: ext_u8_sub(r.trigger_right, c.trigger_right),
            dpad_up: r.dpad_up,
            dpad_down: r.dpad_down,
            dpad_left: r.dpad_left,
            dpad_right: r.dpad_right,
            button_b: r.button_b,
            button_a: r.button_a,
            button_x: r.button_x,
            button_y: r.button_y,
            button_trigger_l: r.button_trigger_l,
            button_trigger_r: r.button_trigger_r,
            button_zl: r.button_zl,
            button_zr: r.button_zr,
            button_minus: r.button_minus,
            button_plus: r.button_plus,
            button_home: r.button_home,
        }
    }
}

impl CalibrationData {
    /// Take the axes of a reading as the resting position. Buttons play no
    /// part.
    pub fn capture(r: &ClassicReading) -> (c: CalibrationData)
        ensures
            c == baseline_of(*r),
    {
        CalibrationData {
            joystick_left_x: r.joystick_left_x,
            joystick_left_y: r.joystick_left_y,
            joystick_right_x: r.joystick_right_x,
            joystick_right_y: r.joystick_right_y,
            trigger_left: r.trigger_left,
            trigger_right: r.trigger_right,
        }
    }
}

/// Convert a standard report, as read from the controller, into buttons and
/// axis fields. The first six bytes are read.
///
/// The two fields that are spread over several bytes (right stick X and
/// left trigger) are joined with a bitwise OR of their parts, each shifted to
/// its place. Readings of existing controllers depend on it.
pub(crate) fn decode_classic_report(data: &[u8]) -> (r: ClassicReading)
    requires
        data@.len() >= 6,
    ensures
        r == standard_reading(data@),
{
    let d0: u8 = data[0];
    let d1: u8 = data[1];
    let d2: u8 = data[2];
    let d3: u8 = data[3];
    let d4: u8 = data[4];
    let d5: u8 = data[5];
    proof {
        lemma_mask_keeps_low_field(d0);
        lemma_mask_keeps_low_field(d1);
        lemma_mask_keeps_low_field(d2);
        lemma_mask_keeps_low_field(d3);
        lemma_split_fields_join(d0, d1, d2, d3);
        lemma_mask_tests_bit(d4);
        lemma_mask_tests_bit(d5);
    }
    let right_x: u8 = ((d2 & 0b1000_0000) >> 7) | ((d1 & 0b1100_0000) >> 5) | ((d0 & 0b1100_0000)
        >> 3);
    let left_trigger: u8 = ((d2 & 0b0110_0000) >> 2) | ((d3 & 0b1110_0000) >> 5);
    ClassicReading {
        joystick_left_x: ClassicReading::scale_6bit_8bit(d0 & 0b0011_1111),
        joystick_left_y: ClassicReading::scale_6bit_8bit(d1 & 0b0011_1111),
        joystick_right_x: ClassicReading::scale_5bit_8bit(right_x),
        joystick_right_y: ClassicReading::scale_5bit_8bit(d2 & 0b0001_1111),
        trigger_left: ClassicReading::scale_5bit_8bit(left_trigger),
        trigger_right: ClassicReading::scale_5bit_8bit(d3 & 0b0001_1111),
        dpad_right: d4 & 0b1000_0000 == 0,
        dpad_down: d4 & 0b0100_0000 == 0,
        button_trigger_l: d4 & 0b0010_0000 == 0,
        button_minus: d4 & 0b0001_0000 == 0,
        button_home: d4 & 0b0000_1000 == 0,
        button_plus: d4 & 0b0000_0100 == 0,
        button_trigger_r: d4 & 0b0000_0010 == 0,
        button_zl: d5 & 0b1000_0000 == 0,
        button_b: d5 & 0b0100_0000 == 0,
        button_y: d5 & 0b0010_0000 == 0,
        button_a: d5 & 0b0001_0000 == 0,
        button_x: d5 & 0b0000_1000 == 0,
        button_zr: d5 & 0b0000_0100 == 0,
        dpad_left: d5 & 0b0000_0010 == 0,
        dpad_up: d5 & 0b0000_0001 == 0,
    }
}

/// Convert a high-resolution report, as read from the controller, into
/// buttons and axis fields. The first eight bytes are read.
pub(crate) fn decode_classic_hd_report(data: &[u8]) -> (r: ClassicReading)
    requires
        data@.len() >= 8,
    ensures
        r == high_resolution_reading(data@),
{
    let d6: u8 = data[6];
    let d7: u8 = data[7];
    proof {
        lemma_mask_tests_bit(d6);
        lemma_mask_tests_bit(d7);
    }
    ClassicReading {
        joystick_left_x: data[0],
        joystick_right_x: data[1],
        joystick_left_y: data[2],
        joystick_right_y: data[3],
        trigger_left: data[4],
        trigger_right: data[5],
        dpad_right: d6 & 0b1000_0000 == 0,
        dpad_down: d6 & 0b0100_0000 == 0,
        button_trigger_l: d6 & 0b0010_0000 == 0,
        button_minus: d6 & 0b0001_0000 == 0,
        button_home: d6 & 0b0000_1000 == 0,
        button_plus: d6 & 0b0000_0100 == 0,
        button_trigger_r: d6 & 0b0000_0010 == 0,
        button_zl: d7 & 0b1000_0000 == 0,
        button_b: d7 & 0b0100_0000 == 0,
        button_y: d7 & 0b0010_0000 == 0,
        button_a: d7 & 0b0001_0000 == 0,
        button_x: d7 & 0b0000_1000 == 0,
        button_zr: d7 & 0b0000_0100 == 0,
        dpad_left: d7 & 0b0000_0010 == 0,
        dpad_up: d7 & 0b0000_0001 == 0,
    }
}

impl ClassicReading {
    /// The reading with all axes at 0 and no button held.
    pub open spec fn default_spec() -> ClassicReading {
        ClassicReading {
            joystick_left_x: 0,
            joystick_left_y: 0,
            joystick_right_x: 0,
            joystick_right_y: 0,
            trigger_left: 0,
            trigger_right: 0,
            dpad_up: false,
            dpad_down: false,
            dpad_left: false,
            dpad_right: false,
            button_b: false,
            button_a: false,
            button_x: false,
            button_y: false,
            button_trigger_l: false,
            button_trigger_r: false,
            button_zl: false,
            button_zr: false,
            button_minus: false,
            button_plus: false,
            button_home: false,
        }
    }

    /// Helper for testing digital pin status: whether this reading and
    /// `other` agree on every button. It works for all the controllers of
    /// the family. The result is for the caller to assert on.
    pub fn assert_digital_eq(&self, other: ClassicReading) -> (same: bool)
        ensures
            same == same_digital(*self, other),
    {
        self.button_a == other.button_a && self.button_b == other.button_b && self.button_x
            == other.button_x && self.button_y == other.button_y && self.button_trigger_l
            == other.button_trigger_l && self.button_trigger_r == other.button_trigger_r
            && self.button_zl == other.button_zl && self.button_zr == other.button_zr
            && self.button_home == other.button_home && self.button_plus == other.button_plus
            && self.button_minus == other.button_minus
    }

    /// Scale a 5-bit axis value to the 8-bit range: `reading * 255 / 31`,
    /// rounded down, of which the low eight bits are kept. A value of at most
    /// 31 gives at most 255, so nothing is lost of it.
    pub fn scale_5bit_8bit(reading: u8) -> (r: u8)
        ensures
            r as int == rescale_5bit(reading as int) % 256,
            reading <= 31 ==> r as int == rescale_5bit(reading as int),
    {
        let wide: u32 = (reading as u32 * 255) / 31;
        (wide % 256) as u8
    }

    /// Scale a 6-bit axis value to the 8-bit range: `reading * 255 / 63`,
    /// rounded down, of which the low eight bits are kept. A value of at most
    /// 63 gives at most 255, so nothing is lost of it.
    pub fn scale_6bit_8bit(reading: u8) -> (r: u8)
        ensures
            r as int == rescale_6bit(reading as int) % 256,
            reading <= 63 ==> r as int == rescale_6bit(reading as int),
    {
        let wide: u32 = (reading as u32 * 255) / 63;
        (wide % 256) as u8
    }

    /// Convert a report into controller data. The length of `data` alone
    /// decides how it is read: six bytes are a standard report, eight bytes a
    /// high-resolution report, and any other length gives `None`.
    pub fn from_data(data: &[u8]) -> (r: Option<ClassicReading>)
        ensures
            r == reading_of(data@),
    {
        if data.len() == 6 {
            Some(decode_classic_report(data))
        } else if data.len() == 8 {
            Some(decode_classic_hd_report(data))
        } else {
            None
        }
    }
}

impl Default for ClassicReading {
    /// All axes at 0 and no button held.
    fn default() -> (r: ClassicReading)
        ensures
            r == ClassicReading::default_spec(),
    {
        ClassicReading {
            joystick_left_x: 0,
            joystick_left_y: 0,
            joystick_right_x: 0,
            joystick_right_y: 0,
            trigger_left: 0,
            trigger_right: 0,
            dpad_up: false,
            dpad_down: false,
            dpad_left: false,
            dpad_right: false,
            button_b: false,
            button_a: false,
            button_x: false,
            button_y: false,
            button_trigger_l: false,
            button_trigger_r: false,
            button_zl: false,
            button_zr: false,
            button_minus: false,
            button_plus: false,
            button_home: false,
        }
    }
}

impl Default for ClassicReadingCalibrated {
    /// All axes at 0 and no button held.
    fn default() -> (r: ClassicReadingCalibrated)
        ensures
            at_rest(r),
            same_buttons(r, ClassicReading::default_spec()),
    {
        ClassicReadingCalibrated {
            joystick_left_x: 0,
            joystick_left_y: 0,
            joystick_right_x: 0,
            joystick_right_y: 0,
            trigger_left: 0,
            trigger_right: 0,
            dpad_up: false,
            dpad_down: false,
            dpad_left: false,
            dpad_right: false,
            button_b: false,
            button_a: false,
            button_x: false,
            button_y: false,
            button_trigger_l: false,
            button_trigger_r: false,
            button_zl: false,
            button_zr: false,
            button_minus: false,
            button_plus: false,
            button_home: false,
        }
    }
}

impl Default for CalibrationData {
    /// Every axis rests at 0.
    fn default() -> (c: CalibrationData)
        ensures
            c == (CalibrationData {
                joystick_left_x: 0,
                joystick_left_y: 0,
                joystick_right_x: 0,
                joystick_right_y: 0,
                trigger_left: 0,
                trigger_right: 0,
            }),
    {
        CalibrationData {
            joystick_left_x: 0,
            joystick_left_y: 0,
            joystick_right_x: 0,
            joystick_right_y: 0,
            trigger_left: 0,
            trigger_right: 0,
        }
    }
}

/// Scaling a 5-bit value to 8 bits keeps the order of the values, strictly,
/// and maps 0 to 0 and 31 to 255; every valid value stays within a byte.
pub proof fn law_rescale_5bit_monotonic(a: int, b: int)
    requires
        0 <= a <= 31,
        0 <= b <= 31,
    ensures
        a <= b ==> rescale_5bit(a) <= rescale_5bit(b),
        a < b ==> rescale_5bit(a) < rescale_5bit(b),
        rescale_5bit(0) == 0,
        rescale_5bit(31) == 255,
        0 <= rescale_5bit(a) <= 255,
{
}

/// Scaling a 6-bit value to 8 bits keeps the order of the values, strictly,
/// and maps 0 to 0 and 63 to 255; every valid value stays within a byte.
pub proof fn law_rescale_6bit_monotonic(a: int, b: int)
    requires
        0 <= a <= 63,
        0 <= b <= 63,
    ensures
        a <= b ==> rescale_6bit(a) <= rescale_6bit(b),
        a < b ==> rescale_6bit(a) < rescale_6bit(b),
        rescale_6bit(0) == 0,
        rescale_6bit(63) == 255,
        0 <= rescale_6bit(a) <= 255,
{
}

/// The packed fields of a standard report are valid 5-bit and 6-bit values,
/// so each axis of the reading is the scaled field itself: nothing is cut
/// off when it is stored in a byte.
pub proof fn law_standard_axes_fit(data: Seq<u8>)
    ensures
        standard_reading(data).joystick_left_x == rescale_6bit(field(data[0], 0, 6)),
        standard_reading(data).joystick_left_y == rescale_6bit(field(data[1], 0, 6)),
        standard_reading(data).joystick_right_x == rescale_5bit(right_x_field(data)),
        standard_reading(data).joystick_right_y == rescale_5bit(field(data[2], 0, 5)),
        standard_reading(data).trigger_left == rescale_5bit(left_trigger_field(data)),
        standard_reading(data).trigger_right == rescale_5bit(field(data[3], 0, 5)),
        0 <= right_x_field(data) <= 31,
        0 <= left_trigger_field(data) <= 31,
{
}

/// A report reads as released exactly if all its button bits are set: bits
/// 1 to 7 of the first button byte and all of the second. The button bytes
/// are bytes 4 and 5 of a standard report and bytes 6 and 7 of a
/// high-resolution report.
pub proof fn law_released_iff_button_bits_set(data: Seq<u8>)
    ensures
        released(standard_reading(data)) <==> data[4] / 2 == 127 && data[5] == 255,
        released(high_resolution_reading(data)) <==> data[6] / 2 == 127 && data[7] == 255,
{
    lemma_released_byte_pair(data[4], data[5]);
    lemma_released_byte_pair(data[6], data[7]);
}

/// All button bits of the pair of button bytes are set exactly if the first
/// byte is 254 or 255 and the second is 255.
proof fn lemma_released_byte_pair(first: u8, second: u8)
    ensures
        (!bit_clear(first, 7) && !bit_clear(first, 6) && !bit_clear(first, 5) && !bit_clear(
            first,
            4,
        ) && !bit_clear(first, 3) && !bit_clear(first, 2) && !bit_clear(first, 1)) <==> first / 2
            == 127,
        (!bit_clear(second, 7) && !bit_clear(second, 6) && !bit_clear(second, 5) && !bit_clear(
            second,
            4,
        ) && !bit_clear(second, 3) && !bit_clear(second, 2) && !bit_clear(second, 1)
            && !bit_clear(second, 0)) <==> second == 255,
{
}

/// Calibrating a reading against the resting position taken from that same
/// reading gives 0 on every axis, whatever the reading, and leaves the
/// buttons as they are.
pub proof fn law_calibration_idempotent(r: ClassicReading)
    ensures
        at_rest(calibrated(r, baseline_of(r))),
        same_buttons(calibrated(r, baseline_of(r)), r),
{
}

/// An idle report, one in which no button is held, decodes to a released
/// reading, and once it has been taken as the resting position it reads as
/// at rest. This holds of both report formats.
pub proof fn law_idle_report_reads_idle(data: Seq<u8>)
    requires
        data.len() == 6 || data.len() == 8,
        data[data.len() - 2] / 2 == 127,
        data[data.len() - 1] == 255,
    ensures
        reading_of(data) matches Some(r) && released(r) && at_rest(calibrated(r, baseline_of(r))),
{
    law_released_iff_button_bits_set(data);
}

} // verus!
