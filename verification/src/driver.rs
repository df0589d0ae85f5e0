//! The drivers, one for each controller family.
//!
//! A driver is a state machine. A request (`init`, `read`, ...) puts it to
//! work and names the first operation for the bus. Whoever owns the bus
//! carries the operation out and gives its outcome to `on_event`, which
//! answers with an [`Action`]: the next operation, the result of the
//! request, or the error that ended it.
//!
//! After an error nothing is tried again, and the driver counts as
//! uninitialised: the controller's read cursor may stand anywhere, so `init`
//! comes before further readings are trusted. The same holds where a
//! request is made while another is under way: the new one takes the place
//! of the old, which counts as cut short.
//!
//! A runner is a loop of a few lines:
//!
//! ```text
//! op = driver.read()
//! loop:
//!     event = carry out op on the bus     (Done, Block(bytes) or Failed(e))
//!     match driver.on_event(event):
//!         Perform(next)    => op = next
//!         Complete(output) => return output
//!         Abort(error)     => return error
//! ```
//!
//! The loop ends: every operation asked for brings the request a step nearer
//! its end, and no request has more than ten steps.

use crate::common::Error;
use crate::transport::BusOp;
use vstd::prelude::*;

pub mod classic;
pub mod nunchuk;

verus! {

/// Where a driver stands in its life.
#[derive(Clone, Copy, Debug, PartialEq, Eq, Structural)]
pub enum DriverState {
    /// No handshake has been completed since the driver was made, since a
    /// request last failed, or since one was last cut short by another.
    Uninitialized,
    /// The handshake is under way.
    Initializing,
    /// A resting position is being taken: after the handshake, around a
    /// change of resolution, or on request.
    Calibrating,
    /// The handshake and the calibration that follows it are done, and no
    /// request has failed or been cut short since.
    Ready,
}

/// What a driver wants done after an event.
#[derive(Debug)]
pub enum Action<T, E> {
    /// Carry out this operation and report its outcome.
    Perform(BusOp),
    /// The request is done; this is its result.
    Complete(T),
    /// The request has failed.
    Abort(Error<E>),
}

} // verus!
