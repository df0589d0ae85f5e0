//! Protocol core for Wii extension controllers (Nunchuk, Classic Controller,
//! Classic Pro and byte-compatible clones) attached over I2C.
//!
//! The crate performs no I/O. It decides which bus transactions and pauses
//! are due, checks what came back, and turns raw reports into calibrated
//! readings. A small runner, blocking or asynchronous, carries out each
//! transaction it is told to and hands the outcome back.
//!
//! - [`transport`]: the register operations, as bus transactions and pauses
//!   in order.
//! - [`reading`]: the report formats of both controller families, decoded
//!   into readings, and calibration against a resting position.
//! - [`common`]: bus address, timing, errors, and the identification of a
//!   controller from its identity block.
//! - [`driver`]: one state machine for each family, which puts the former
//!   together.
//! - [`bits`]: what a bit field of a byte is, for the contracts of the
//!   decoders.

pub mod bits;
pub mod common;
pub mod driver;
pub mod reading;
pub mod transport;

pub use common::{
    identify_controller, AsyncImplError, BlockingImplError, ControllerIdReport, ControllerType,
    Error, ExtHdReport, ExtReport, EXT_I2C_ADDR, INTERMESSAGE_DELAY_MICROSEC,
    INTERMESSAGE_DELAY_MICROSEC_U32,
};
