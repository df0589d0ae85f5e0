//! Readings: the decoders from raw reports, and calibration against a
//! resting position.

pub mod classic;
pub mod nunchuk;
