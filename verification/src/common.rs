//! What the Nunchuk and the Classic controller family have in common:
//! the bus address, the timing constants, the error types and the
//! identification of a controller from its identity block.

use vstd::prelude::*;

verus! {

/// Standard input report
pub type ExtReport = [u8; 6];

/// High-resolution input report
pub type ExtHdReport = [u8; 8];

/// Controller identity block
pub type ControllerIdReport = [u8; 6];

/// All Wii extension controllers answer at this 7-bit I2C address.
pub const EXT_I2C_ADDR: u16 = 0x52;

/// Shortest pause, in microseconds, between two bus transactions. With less
/// the controller aborts the transaction.
pub const INTERMESSAGE_DELAY_MICROSEC: u16 = 200;

/// [`INTERMESSAGE_DELAY_MICROSEC`] as a `u32`.
pub const INTERMESSAGE_DELAY_MICROSEC_U32: u32 = 200;

/// The controllers that can be told apart by their identity block.
#[derive(Clone, Copy, Debug, PartialEq, Eq, Structural)]
pub enum ControllerType {
    Nunchuk,
    Classic,
    ClassicPro,
}

/// Errors in this crate
#[derive(Debug)]
pub enum Error<E> {
    /// I2C bus communication error
    I2C(E),
    /// Invalid input data provided
    InvalidInputData,
}

/// Errors of a driver that blocks on the bus: [`Error`] under the name that
/// such drivers use.
pub type BlockingImplError<E> = Error<E>;

/// Errors of a driver that does not keep what the bus reported.
///
/// A driver that suspends between bus operations hands out this error in
/// place of [`Error`]: which operation failed is known, the bus's own error
/// is not kept.
#[derive(Clone, Copy, Debug, PartialEq, Eq, Structural)]
pub enum AsyncImplError {
    /// I2C bus communication error
    I2C,
    /// Invalid input data provided
    InvalidInputData,
    /// Another failure of the driver
    Error,
    /// Data could not be taken apart
    ParseError,
}

/// The error without what the bus reported: a failure of the bus stays a
/// failure of the bus, invalid input stays invalid input.
pub open spec fn without_cause<E>(e: Error<E>) -> AsyncImplError {
    match e {
        Error::I2C(_) => AsyncImplError::I2C,
        Error::InvalidInputData => AsyncImplError::InvalidInputData,
    }
}

impl<E> From<Error<E>> for AsyncImplError {
    /// Drop what the bus reported and keep the kind of the error.
    fn from(e: Error<E>) -> (out: AsyncImplError)
        ensures
            out == without_cause(e),
    {
        match e {
            Error::I2C(_) => AsyncImplError::I2C,
            Error::InvalidInputData => AsyncImplError::InvalidInputData,
        }
    }
}

impl<E> vstd::std_specs::convert::FromSpecImpl<Error<E>> for AsyncImplError {
    open spec fn obeys_from_spec() -> bool {
        true
    }

    open spec fn from_spec(e: Error<E>) -> AsyncImplError {
        without_cause(e)
    }
}

/// The first six bytes of `id` are `b0` to `b5`.
pub open spec fn is_block(id: Seq<u8>, b0: u8, b1: u8, b2: u8, b3: u8, b4: u8, b5: u8) -> bool {
    &&& id[0] == b0
    &&& id[1] == b1
    &&& id[2] == b2
    &&& id[3] == b3
    &&& id[4] == b4
    &&& id[5] == b5
}

/// The controller that an identity block stands for, `None` where the block
/// is not that of a supported controller.
///
/// Three identity blocks are known, one for each kind of controller. They
/// share bytes 2 and 3, the signature of an extension controller.
pub open spec fn classify(id: Seq<u8>) -> Option<ControllerType> {
    if is_block(id, 0, 0, 0xA4, 0x20, 0, 0) {
        Some(ControllerType::Nunchuk)
    } else if is_block(id, 0, 0, 0xA4, 0x20, 3, 1) {
        Some(ControllerType::Classic)
    } else if is_block(id, 1, 0, 0xA4, 0x20, 1, 1) {
        Some(ControllerType::ClassicPro)
    } else {
        None
    }
}

/// Determine the controller type from the identity block of an extension
/// controller. An unrecognised block is no error: the result is `None`.
///
/// The signature in bytes 2 and 3 is looked at first; only under it are the
/// other bytes compared.
pub fn identify_controller(id: ControllerIdReport) -> (kind: Option<ControllerType>)
    ensures
        kind == classify(id@),
{
    if id[2] != 0xA4 || id[3] != 0x20 {
        // Not an extension controller
        None
    } else if id[0] == 0 && id[1] == 0 && id[4] == 0 && id[5] == 0 {
        Some(ControllerType::Nunchuk)
    } else if id[0] == 0 && id[1] == 0 && id[4] == 3 && id[5] == 1 {
        Some(ControllerType::Classic)
    } else if id[0] == 1 && id[1] == 0 && id[4] == 1 && id[5] == 1 {
        // Most Classic-compatible controllers (NES, SNES, clones) report this
        Some(ControllerType::ClassicPro)
    } else {
        None
    }
}

/// `a - b`, limited to what an `i8` holds.
pub open spec fn centered(a: u8, b: u8) -> int {
    let d = a as int - b as int;
    if d < -128 {
        -128
    } else if d > 127 {
        127
    } else {
        d
    }
}

/// Subtract the resting value `b` of an axis from its reading `a`. The
/// difference is taken in 16 bits and saturates at the limits of `i8`.
pub fn ext_u8_sub(a: u8, b: u8) -> (r: i8)
    ensures
        r as int == centered(a, b),
{
    let res: i16 = (a as i16) - (b as i16);
    if res < -128 {
        -128i8
    } else if res > 127 {
        127i8
    } else {
        res as i8
    }
}

/// Classification looks at the signature first: a block whose byte 2 is not
/// 0xA4, or whose byte 3 is not 0x20, is unrecognised whatever its other
/// bytes are.
pub proof fn law_signature_comes_first(id: Seq<u8>)
    requires
        id[2] != 0xA4 || id[3] != 0x20,
    ensures
        classify(id) is None,
{
}

/// Under the signature, bytes 0, 1, 4 and 5 decide, and each supported
/// controller has exactly one pattern: 0, 0, 0, 0 is the Nunchuk; 0, 0, 3, 1
/// the Classic; 1, 0, 1, 1 the Classic Pro. Every other pattern is
/// unrecognised.
pub proof fn law_one_pattern_each(id: Seq<u8>)
    requires
        id[2] == 0xA4,
        id[3] == 0x20,
    ensures
        classify(id) == Some(ControllerType::Nunchuk) <==> id[0] == 0 && id[1] == 0 && id[4] == 0
            && id[5] == 0,
        classify(id) == Some(ControllerType::Classic) <==> id[0] == 0 && id[1] == 0 && id[4] == 3
            && id[5] == 1,
        classify(id) == Some(ControllerType::ClassicPro) <==> id[0] == 1 && id[1] == 0 && id[4]
            == 1 && id[5] == 1,
{
}

/// Classification reads the first six bytes and nothing else: two blocks
/// that agree there are classified alike.
pub proof fn law_six_bytes_decide(a: Seq<u8>, b: Seq<u8>)
    requires
        forall|i: int| 0 <= i < 6 ==> a[i] == b[i],
    ensures
        classify(a) == classify(b),
{
}

/// An axis that stands at its resting value is centred at 0, and the centred
/// value grows with the reading.
pub proof fn law_centered(a: u8, b: u8, c: u8)
    ensures
        centered(a, a) == 0,
        a <= b ==> centered(a, c) <= centered(b, c),
        -128 <= centered(a, b) <= 127,
{
}

} // verus!
