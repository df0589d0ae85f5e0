//! Readings of the Nunchuk.
//!
//! A report is six bytes:
//!
//! ```text
//! bit     7     6     5     4     3     2     1     0
//! byte 0  SX<7:0>
//! byte 1  SY<7:0>
//! byte 2  AX<9:2>
//! byte 3  AY<9:2>
//! byte 4  AZ<9:2>
//! byte 5  AZ<1:0>     AY<1:0>     AX<1:0>     BC    BZ
//! ```
//!
//! The stick has a byte for each axis. Each accelerometer axis has ten bits:
//! a byte of its own, and two low bits in the last byte. A button bit is 0
//! while the button is held.

use crate::bits::{bit_clear, field, lemma_mask_tests_bit, lemma_low_bits_join};
use crate::common::{centered, ext_u8_sub};
use vstd::prelude::*;

verus! {

/// Data from a Nunchuk after it has been deserialized
#[derive(Debug)]
pub struct NunchukReading {
    pub joystick_x: u8,
    pub joystick_y: u8,
    /// 10-bit
    pub accel_x: u16,
    /// 10-bit
    pub accel_y: u16,
    /// 10-bit
    pub accel_z: u16,
    pub button_c: bool,
    pub button_z: bool,
}

/// Relaxed/Center positions for each axis
///
/// These are used to calculate the relative deflection of each axis from its
/// center point.
#[derive(Debug)]
pub struct CalibrationData {
    pub joystick_x: u8,
    pub joystick_y: u8,
}

/// Data from a Nunchuk after calibration data has been applied
///
/// Calibration subtracts the resting value of each stick axis from its
/// reading, so an axis below its resting value reads negative: the stick
/// values are signed. Accelerometer readings are left as they are.
#[derive(Debug)]
pub struct NunchukReadingCalibrated {
    pub joystick_x: i8,
    pub joystick_y: i8,
    /// 10-bit
    pub accel_x: u16,
    /// 10-bit
    pub accel_y: u16,
    /// 10-bit
    pub accel_z: u16,
    pub button_c: bool,
    pub button_z: bool,
}

/// A ten-bit accelerometer value: `high` holds its upper eight bits, and
/// its lower two are the bits of `status` that start at bit `low`.
pub open spec fn accel_field(high: u8, status: u8, low: nat) -> int {
    4 * high + field(status, low, 2)
}

/// The reading that a report of six bytes holds.
pub open spec fn report_reading(data: Seq<u8>) -> NunchukReading {
    NunchukReading {
        joystick_x: data[0],
        joystick_y: data[1],
        accel_x: accel_field(data[2], data[5], 6) as u16,
        accel_y: accel_field(data[3], data[5], 4) as u16,
        accel_z: accel_field(data[4], data[5], 2) as u16,
        button_c: bit_clear(data[5], 1),
        button_z: bit_clear(data[5], 0),
    }
}

/// The reading that a report holds. A Nunchuk report has six bytes; data of
/// any other length is no report.
pub open spec fn reading_of(data: Seq<u8>) -> Option<NunchukReading> {
    if data.len() == 6 {
        Some(report_reading(data))
    } else {
        None
    }
}

/// The resting position that a reading gives: the two axes of its stick.
pub open spec fn baseline_of(r: NunchukReading) -> CalibrationData {
    CalibrationData { joystick_x: r.joystick_x, joystick_y: r.joystick_y }
}

/// A reading seen from a resting position: each stick axis is its distance
/// from the resting value, limited to the range of `i8`; accelerometer and
/// buttons are unchanged.
pub open spec fn calibrated(r: NunchukReading, c: CalibrationData) -> NunchukReadingCalibrated {
    NunchukReadingCalibrated {
        joystick_x: centered(r.joystick_x, c.joystick_x) as i8,
        joystick_y: centered(r.joystick_y, c.joystick_y) as i8,
        accel_x: r.accel_x,
        accel_y: r.accel_y,
        accel_z: r.accel_z,
        button_c: r.button_c,
        button_z: r.button_z,
    }
}

/// Neither button is held.
pub open spec fn released(r: NunchukReading) -> bool {
    !r.button_c && !r.button_z
}

/// Both stick axes of a calibrated reading are 0.
pub open spec fn at_rest(c: NunchukReadingCalibrated) -> bool {
    c.joystick_x == 0 && c.joystick_y == 0
}

impl NunchukReading {
    /// Convert a report into controller data. Data that is not six bytes
    /// long gives `None`.
    pub fn from_data(data: &[u8]) -> (r: Option<NunchukReading>)
        ensures
            r == reading_of(data@),
    {
        if data.len() != 6 {
            None
        } else {
            let d2: u8 = data[2];
            let d3: u8 = data[3];
            let d4: u8 = data[4];
            let d5: u8 = data[5];
            proof {
                lemma_low_bits_join(d2, d5);
                lemma_low_bits_join(d3, d5);
                lemma_low_bits_join(d4, d5);
                lemma_mask_tests_bit(d5);
            }
            Some(
                NunchukReading {
                    joystick_x: data[0],
                    joystick_y: data[1],
                    accel_x: ((d2 as u16) << 2) | (((d5 as u16) >> 6) & 0b11),
                    accel_y: ((d3 as u16) << 2) | (((d5 as u16) >> 4) & 0b11),
                    accel_z: ((d4 as u16) << 2) | (((d5 as u16) >> 2) & 0b11),
                    button_c: (d5 & 0b10) == 0,
                    button_z: (d5 & 0b01) == 0,
                },
            )
        }
    }
}

impl NunchukReadingCalibrated {
    /// Apply the calibration `c` to the reading `r`.
    pub fn new(r: NunchukReading, c: &CalibrationData) -> (out: NunchukReadingCalibrated)
        ensures
            out == calibrated(r, *c),
    {
        NunchukReadingCalibrated {
            joystick_x: ext_u8_sub(r.joystick_x, c.joystick_x),
            joystick_y: ext_u8_sub(r.joystick_y, c.joystick_y),
            accel_x: r.accel_x,
            accel_y: r.accel_y,
            accel_z: r.accel_z,
            button_c: r.button_c,
            button_z: r.button_z,
        }
    }
}

impl CalibrationData {
    /// Take the stick axes of a reading as the resting position.
    pub fn capture(r: &NunchukReading) -> (c: CalibrationData)
        ensures
            c == baseline_of(*r),
    {
        CalibrationData { joystick_x: r.joystick_x, joystick_y: r.joystick_y }
    }
}

impl Default for CalibrationData {
    /// Both axes rest at 0.
    fn default() -> (c: CalibrationData)
        ensures
            c == (CalibrationData { joystick_x: 0, joystick_y: 0 }),
    {
        CalibrationData { joystick_x: 0, joystick_y: 0 }
    }
}

impl Default for NunchukReadingCalibrated {
    /// All axes at 0 and no button held.
    fn default() -> (r: NunchukReadingCalibrated)
        ensures
            r == (NunchukReadingCalibrated {
                joystick_x: 0,
                joystick_y: 0,
                accel_x: 0,
                accel_y: 0,
                accel_z: 0,
                button_c: false,
                button_z: false,
            }),
    {
        NunchukReadingCalibrated {
            joystick_x: 0,
            joystick_y: 0,
            accel_x: 0,
            accel_y: 0,
            accel_z: 0,
            button_c: false,
            button_z: false,
        }
    }
}

/// Each accelerometer axis of a reading is a ten-bit value: its byte times
/// four plus its two low bits, with nothing cut off.
pub proof fn law_accel_has_ten_bits(data: Seq<u8>)
    ensures
        report_reading(data).accel_x == accel_field(data[2], data[5], 6),
        report_reading(data).accel_y == accel_field(data[3], data[5], 4),
        report_reading(data).accel_z == accel_field(data[4], data[5], 2),
        report_reading(data).accel_x <= 1023,
        report_reading(data).accel_y <= 1023,
        report_reading(data).accel_z <= 1023,
{
}

/// A report reads as released exactly if both button bits, the two lowest
/// of byte 5, are set.
pub proof fn law_released_iff_button_bits_set(data: Seq<u8>)
    ensures
        released(report_reading(data)) <==> data[5] % 4 == 3,
{
}

/// Calibrating a reading against the resting position taken from that same
/// reading gives 0 on both stick axes, whatever the reading, and leaves
/// accelerometer and buttons as they are.
pub proof fn law_calibration_idempotent(r: NunchukReading)
    ensures
        at_rest(calibrated(r, baseline_of(r))),
        calibrated(r, baseline_of(r)).accel_x == r.accel_x,
        calibrated(r, baseline_of(r)).accel_y == r.accel_y,
        calibrated(r, baseline_of(r)).accel_z == r.accel_z,
        calibrated(r, baseline_of(r)).button_c == r.button_c,
        calibrated(r, baseline_of(r)).button_z == r.button_z,
{
}

/// An idle report, one in which no button is held, decodes to a released
/// reading, and once it has been taken as the resting position it reads as
/// at rest.
pub proof fn law_idle_report_reads_idle(data: Seq<u8>)
    requires
        data.len() == 6,
        data[5] % 4 == 3,
    ensures
        reading_of(data) matches Some(r) && released(r) && at_rest(calibrated(r, baseline_of(r))),
{
}

} // verus!
