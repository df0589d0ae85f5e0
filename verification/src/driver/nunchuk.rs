//! The driver for the Nunchuk.
//!
//! A Nunchuk has one report format, so its driver has no resolution to
//! switch.

use crate::common::{classify, identify_controller, ControllerType, Error};
use crate::driver::{Action, DriverState};
use crate::reading::nunchuk::{
    at_rest, baseline_of, calibrated, law_calibration_idempotent, reading_of, report_reading,
    CalibrationData, NunchukReading, NunchukReadingCalibrated,
};
use crate::transport::{
    answers, block_of, handshake_script, identity_script, is_rest_of, law_exchanges_are_spaced,
    law_rest_is_spaced, lemma_rest_ends_as_script, lemma_rest_gets_shorter,
    lemma_whole_script_is_left, sample_script, spaced, BusEvent, BusOp, Interface,
};
use vstd::prelude::*;

verus! {

/// What a driver for the Nunchuk is working on.
#[derive(Clone, Copy, Debug, PartialEq, Eq, Structural)]
pub enum NunchukTask {
    /// Nothing.
    Idle,
    /// The handshake of `init`; a calibration follows.
    Handshake,
    /// The sample that becomes the resting position.
    Baseline,
    /// The sample of a read, to be returned calibrated or as it is.
    Sample { calibrated: bool },
    /// The read of the identity block.
    Identity,
}

/// The result of a request to a driver for the Nunchuk.
#[derive(Debug)]
pub enum NunchukOutput {
    /// `init` or `update_calibration` has run to its end.
    Calibrated,
    /// `identify_controller`: the controller found, `None` where the
    /// identity block is not that of a supported controller.
    Identity(Option<ControllerType>),
    /// `read_report_blocking`: the reading as the controller reported it.
    Raw(NunchukReading),
    /// `read_blocking`: the reading relative to the resting position.
    Reading(NunchukReadingCalibrated),
}

impl NunchukOutput {
    /// The request ended with a calibration.
    pub fn is_calibrated(&self) -> (yes: bool)
        ensures
            yes == (*self is Calibrated),
    {
        match self {
            NunchukOutput::Calibrated => true,
            _ => false,
        }
    }

    /// The classification that an identification ended with, `None` where
    /// the request was of another kind.
    pub fn into_identity(self) -> (found: Option<Option<ControllerType>>)
        ensures
            found == (match self {
                NunchukOutput::Identity(kind) => Some(kind),
                _ => None,
            }),
    {
        match self {
            NunchukOutput::Identity(kind) => Some(kind),
            _ => None,
        }
    }

    /// The reading that an uncalibrated read ended with, `None` where the
    /// request was of another kind.
    pub fn into_raw(self) -> (found: Option<NunchukReading>)
        ensures
            found == (match self {
                NunchukOutput::Raw(reading) => Some(reading),
                _ => None,
            }),
    {
        match self {
            NunchukOutput::Raw(reading) => Some(reading),
            _ => None,
        }
    }

    /// The reading that a calibrated read ended with, `None` where the
    /// request was of another kind.
    pub fn into_reading(self) -> (found: Option<NunchukReadingCalibrated>)
        ensures
            found == (match self {
                NunchukOutput::Reading(reading) => Some(reading),
                _ => None,
            }),
    {
        match self {
            NunchukOutput::Reading(reading) => Some(reading),
            _ => None,
        }
    }
}

/// The state of a driver for the Nunchuk, as contracts see it.
pub struct NunchukState {
    /// The handshake has been completed, and no request has failed or been
    /// cut short since.
    pub ready: bool,
    /// The resting position.
    pub calibration: CalibrationData,
    /// What the driver is working on.
    pub task: NunchukTask,
    /// The bus operations of the current stage that are still due. The
    /// first of them is the one that the next event is about.
    pub pending: Seq<BusOp>,
}

impl NunchukState {
    /// Where the driver stands in its life.
    pub open spec fn lifecycle(self) -> DriverState {
        match self.task {
            NunchukTask::Handshake => DriverState::Initializing,
            NunchukTask::Baseline => DriverState::Calibrating,
            _ => if self.ready {
                DriverState::Ready
            } else {
                DriverState::Uninitialized
            },
        }
    }

    /// The state after a request has run to its end.
    pub open spec fn idle(self) -> NunchukState {
        NunchukState { task: NunchukTask::Idle, pending: Seq::empty(), ..self }
    }

    /// The state after a request has failed: idle, and no longer ready.
    pub open spec fn halted(self) -> NunchukState {
        NunchukState { ready: false, task: NunchukTask::Idle, pending: Seq::empty(), ..self }
    }

    /// The state that a new request starts from. Whatever was under way is
    /// given up, and a driver that is cut short is no longer ready: the
    /// controller's read cursor may stand anywhere.
    pub open spec fn interrupted(self) -> NunchukState {
        NunchukState {
            ready: self.ready && self.task == NunchukTask::Idle,
            task: NunchukTask::Idle,
            pending: Seq::empty(),
            ..self
        }
    }

    /// The state in which `init` leaves a driver: at the start of the
    /// handshake and not ready.
    pub open spec fn initializing(self) -> NunchukState {
        NunchukState {
            ready: false,
            task: NunchukTask::Handshake,
            pending: handshake_script(),
            ..self
        }
    }

    /// The state in which a request for a sample leaves a driver: at the
    /// start of a sample, for the given task.
    pub open spec fn sampling(self, task: NunchukTask) -> NunchukState {
        NunchukState { task, pending: sample_script(6), ..self.interrupted() }
    }

    /// The state in which a request for identification leaves a driver: at
    /// the start of the identity read.
    pub open spec fn identifying(self) -> NunchukState {
        NunchukState {
            task: NunchukTask::Identity,
            pending: identity_script(),
            ..self.interrupted()
        }
    }

    /// State and action once the last operation of a stage has been
    /// answered, `block` being the bytes that the answer delivered.
    ///
    /// The end of the handshake makes the driver ready, and the sample for
    /// the resting position begins. A baseline sample replaces the resting
    /// position as a whole; the sample of a read is returned, calibrated
    /// where that was asked for. A block that cannot be decoded ends the
    /// request with `InvalidInputData`.
    pub open spec fn finish<E>(self, block: Seq<u8>) -> (NunchukState, Action<NunchukOutput, E>) {
        match self.task {
            NunchukTask::Idle => (self.halted(), Action::Abort(Error::InvalidInputData)),
            NunchukTask::Handshake => (
                NunchukState {
                    ready: true,
                    task: NunchukTask::Baseline,
                    pending: sample_script(6),
                    ..self
                },
                Action::Perform(sample_script(6)[0]),
            ),
            NunchukTask::Baseline => match reading_of(block) {
                Some(r) => (
                    NunchukState { calibration: baseline_of(r), ..self }.idle(),
                    Action::Complete(NunchukOutput::Calibrated),
                ),
                None => (self.halted(), Action::Abort(Error::InvalidInputData)),
            },
            NunchukTask::Sample { calibrated: wanted } => match reading_of(block) {
                Some(r) => (
                    self.idle(),
                    Action::Complete(
                        if wanted {
                            NunchukOutput::Reading(calibrated(r, self.calibration))
                        } else {
                            NunchukOutput::Raw(r)
                        },
                    ),
                ),
                None => (self.halted(), Action::Abort(Error::InvalidInputData)),
            },
            NunchukTask::Identity => if block.len() == 6 {
                (self.idle(), Action::Complete(NunchukOutput::Identity(classify(block))))
            } else {
                (self.halted(), Action::Abort(Error::InvalidInputData))
            },
        }
    }

    /// State and action after an event.
    ///
    /// A failure of the bus ends the request with the bus's error. An event
    /// that does not answer the operation due ends it with
    /// `InvalidInputData`. Otherwise the operation is done: the next one of
    /// the stage follows, or the stage is finished.
    pub open spec fn after<E>(self, event: BusEvent<E>) -> (
        NunchukState,
        Action<NunchukOutput, E>,
    ) {
        match event {
            BusEvent::Failed(e) => (self.halted(), Action::Abort(Error::I2C(e))),
            _ => if self.pending.len() == 0 || !answers(self.pending[0], event) {
                (self.halted(), Action::Abort(Error::InvalidInputData))
            } else if self.pending.len() > 1 {
                (
                    NunchukState { pending: self.pending.drop_first(), ..self },
                    Action::Perform(self.pending[1]),
                )
            } else {
                self.finish(block_of(event))
            },
        }
    }

    /// The state after `n` operations in a row have been acknowledged.
    pub open spec fn acked(self, n: nat) -> NunchukState
        decreases n,
    {
        if n == 0 {
            self
        } else {
            self.acked((n - 1) as nat).after::<()>(BusEvent::Done).0
        }
    }

    /// What is due belongs to what the driver is working on: nothing while
    /// it is idle, and otherwise what is left of the exchange of the current
    /// stage. Every state that a driver can get into is of this kind.
    pub open spec fn consistent(self) -> bool {
        match self.task {
            NunchukTask::Idle => self.pending.len() == 0,
            NunchukTask::Handshake => is_rest_of(self.pending, handshake_script()),
            NunchukTask::Baseline => is_rest_of(self.pending, sample_script(6)),
            NunchukTask::Sample { .. } => is_rest_of(self.pending, sample_script(6)),
            NunchukTask::Identity => is_rest_of(self.pending, identity_script()),
        }
    }

    /// The number of operations that a bus that works has yet to carry out
    /// before the request is over: those of the current stage, and the three
    /// of the sample where one follows.
    pub open spec fn steps_left(self) -> nat {
        self.pending.len() + match self.task {
            NunchukTask::Handshake => 3nat,
            _ => 0nat,
        }
    }
}

/// The driver for the Nunchuk.
#[derive(Debug)]
pub struct Nunchuk {
    interface: Interface,
    ready: bool,
    calibration: CalibrationData,
    task: NunchukTask,
}

impl View for Nunchuk {
    type V = NunchukState;

    closed spec fn view(&self) -> NunchukState {
        NunchukState {
            ready: self.ready,
            calibration: self.calibration,
            task: self.task,
            pending: self.interface@,
        }
    }
}

impl Nunchuk {
    /// A driver for a Nunchuk that nothing has been sent to yet:
    /// uninitialised, with both stick axes resting at 0.
    pub fn new() -> (nunchuk: Nunchuk)
        ensures
            nunchuk@ == (NunchukState {
                ready: false,
                calibration: CalibrationData { joystick_x: 0, joystick_y: 0 },
                task: NunchukTask::Idle,
                pending: Seq::empty(),
            }),
    {
        Nunchuk {
            interface: Interface::new(),
            ready: false,
            calibration: CalibrationData::default(),
            task: NunchukTask::Idle,
        }
    }

    /// Send the init sequence to the controller, then take the resting
    /// position from one sample. The driver is ready once the handshake is
    /// through.
    pub fn init(&mut self) -> (op: BusOp)
        ensures
            final(self)@ == old(self)@.initializing(),
            op == handshake_script()[0],
    {
        self.interface.clear();
        self.interface.init();
        self.ready = false;
        self.task = NunchukTask::Handshake;
        assert(self.interface@ =~= handshake_script());
        self.first_op()
    }

    /// Update the stored calibration for this controller.
    ///
    /// Controllers differ in where their stick rests, so one sample is taken
    /// as the resting position.
    pub fn update_calibration(&mut self) -> (op: BusOp)
        ensures
            final(self)@ == old(self)@.sampling(NunchukTask::Baseline),
            op == sample_script(6)[0],
    {
        self.begin_sample(NunchukTask::Baseline)
    }

    /// Determine the controller type from the identity block of the
    /// controller.
    pub fn identify_controller(&mut self) -> (op: BusOp)
        ensures
            final(self)@ == old(self)@.identifying(),
            op == identity_script()[0],
    {
        self.interrupt();
        self.interface.read_id();
        self.task = NunchukTask::Identity;
        assert(self.interface@ =~= identity_script());
        self.first_op()
    }

    /// Do a read, and return button and axis values without applying
    /// calibration.
    pub fn read_report_blocking(&mut self) -> (op: BusOp)
        ensures
            final(self)@ == old(self)@.sampling(NunchukTask::Sample { calibrated: false }),
            op == sample_script(6)[0],
    {
        self.begin_sample(NunchukTask::Sample { calibrated: false })
    }

    /// Do a read, and return button and axis values relative to
    /// calibration.
    pub fn read_blocking(&mut self) -> (op: BusOp)
        ensures
            final(self)@ == old(self)@.sampling(NunchukTask::Sample { calibrated: true }),
            op == sample_script(6)[0],
    {
        self.begin_sample(NunchukTask::Sample { calibrated: true })
    }

    /// Take in the outcome of the operation that was due, and say what
    /// comes next.
    pub fn on_event<E>(&mut self, event: BusEvent<E>) -> (action: Action<NunchukOutput, E>)
        ensures
            final(self)@ == old(self)@.after(event).0,
            action == old(self)@.after(event).1,
    {
        match self.interface.complete(event) {
            Err(e) => {
                self.ready = false;
                self.task = NunchukTask::Idle;
                Action::Abort(e)
            },
            Ok(block) => match self.interface.next_op() {
                Some(op) => Action::Perform(op),
                None => self.finish(block),
            },
        }
    }

    /// Where the driver stands in its life.
    pub fn state(&self) -> (state: DriverState)
        ensures
            state == self@.lifecycle(),
    {
        match self.task {
            NunchukTask::Handshake => DriverState::Initializing,
            NunchukTask::Baseline => DriverState::Calibrating,
            _ => if self.ready {
                DriverState::Ready
            } else {
                DriverState::Uninitialized
            },
        }
    }

    /// The resting position that readings are calibrated against.
    pub fn calibration(&self) -> (calibration: &CalibrationData)
        ensures
            *calibration == self@.calibration,
    {
        &self.calibration
    }

    /// The operation that the next event is about, `None` while nothing is
    /// under way.
    pub fn pending_op(&self) -> (op: Option<BusOp>)
        ensures
            op == (if self@.pending.len() > 0 {
                Some(self@.pending[0])
            } else {
                None
            }),
    {
        self.interface.next_op()
    }

    /// Give up whatever is under way.
    fn interrupt(&mut self)
        ensures
            final(self)@ == old(self)@.interrupted(),
    {
        match self.task {
            NunchukTask::Idle => {},
            _ => {
                self.ready = false;
            },
        }
        self.task = NunchukTask::Idle;
        self.interface.clear();
    }

    /// Begin a sample for the given task, in place of whatever is under way.
    fn begin_sample(&mut self, task: NunchukTask) -> (op: BusOp)
        ensures
            final(self)@ == old(self)@.sampling(task),
            op == sample_script(6)[0],
    {
        self.interrupt();
        let op: BusOp = self.queue_sample();
        self.task = task;
        op
    }

    /// Put one sample on the interface as the only
    /// thing due.
    fn queue_sample(&mut self) -> (op: BusOp)
        ensures
            final(self)@ == (NunchukState { pending: sample_script(6), ..old(self)@ }),
            op == sample_script(6)[0],
    {
        self.interface.clear();
        self.interface.start_sample_and_wait();
        self.interface.read_report();
        assert(self.interface@ =~= sample_script(6));
        self.first_op()
    }

    /// The first operation due, of an interface that has one.
    fn first_op(&self) -> (op: BusOp)
        requires
            self@.pending.len() > 0,
        ensures
            op == self@.pending[0],
    {
        match self.interface.next_op() {
            Some(op) => op,
            None => BusOp::Delay { micros: 0 },
        }
    }

    /// The last operation of a stage has been answered with `block`.
    fn finish<E>(&mut self, block: Vec<u8>) -> (action: Action<NunchukOutput, E>)
        requires
            old(self)@.pending.len() == 0,
        ensures
            final(self)@ == old(self)@.finish::<E>(block@).0,
            action == old(self)@.finish::<E>(block@).1,
    {
        let action: Action<NunchukOutput, E> = match self.task {
            NunchukTask::Idle => {
                self.ready = false;
                Action::Abort(Error::InvalidInputData)
            },
            NunchukTask::Handshake => {
                self.ready = true;
                let op: BusOp = self.queue_sample();
                self.task = NunchukTask::Baseline;
                Action::Perform(op)
            },
            NunchukTask::Baseline => match NunchukReading::from_data(block.as_slice()) {
                Some(r) => {
                    self.calibration = CalibrationData::capture(&r);
                    self.task = NunchukTask::Idle;
                    Action::Complete(NunchukOutput::Calibrated)
                },
                None => {
                    self.ready = false;
                    self.task = NunchukTask::Idle;
                    Action::Abort(Error::InvalidInputData)
                },
            },
            NunchukTask::Sample { calibrated: wanted } => match NunchukReading::from_data(
                block.as_slice(),
            ) {
                Some(r) => {
                    self.task = NunchukTask::Idle;
                    if wanted {
                        Action::Complete(
                            NunchukOutput::Reading(
                                NunchukReadingCalibrated::new(r, &self.calibration),
                            ),
                        )
                    } else {
                        Action::Complete(NunchukOutput::Raw(r))
                    }
                },
                None => {
                    self.ready = false;
                    self.task = NunchukTask::Idle;
                    Action::Abort(Error::InvalidInputData)
                },
            },
            NunchukTask::Identity => {
                if block.len() == 6 {
                    let id: [u8; 6] = [block[0], block[1], block[2], block[3], block[4], block[5]];
                    self.task = NunchukTask::Idle;
                    Action::Complete(NunchukOutput::Identity(identify_controller(id)))
                } else {
                    self.ready = false;
                    self.task = NunchukTask::Idle;
                    Action::Abort(Error::InvalidInputData)
                }
            },
        };
        assert(self@.pending =~= old(self)@.finish::<E>(block@).0.pending);
        action
    }
}

/// Every operation that the driver asks for brings the request one step
/// nearer its end, and the operation asked for is the one that the next event
/// is about. A request that is over, either way, leaves nothing to do.
pub proof fn law_every_step_makes_progress<E>(s: NunchukState, event: BusEvent<E>)
    ensures
        s.after(event).1 matches Action::Perform(op) ==> s.after(event).0.steps_left() + 1
            == s.steps_left() && s.after(event).0.pending.len() > 0 && op == s.after(
            event,
        ).0.pending[0],
        !(s.after(event).1 is Perform) ==> s.after(event).0.steps_left() == 0 && s.after(
            event,
        ).0.task == NunchukTask::Idle,
{
}

/// A runner that carries out what it is asked to is done after as many
/// events as the request has steps: ten for `init`, three for a read or a
/// calibration or an identification.
pub proof fn law_requests_are_short(s: NunchukState, wanted: bool)
    ensures
        s.initializing().steps_left() == 10,
        s.sampling(NunchukTask::Baseline).steps_left() == 3,
        s.sampling(NunchukTask::Sample { calibrated: wanted }).steps_left() == 3,
        s.identifying().steps_left() == 3,
{
}

/// Every request leaves the driver consistent, whatever it was before, and
/// so does the end of a request, good or bad.
pub proof fn law_requests_start_consistent(s: NunchukState, wanted: bool)
    ensures
        s.initializing().consistent(),
        s.sampling(NunchukTask::Baseline).consistent(),
        s.sampling(NunchukTask::Sample { calibrated: wanted }).consistent(),
        s.identifying().consistent(),
        s.interrupted().consistent(),
        s.idle().consistent(),
        s.halted().consistent(),
{
    lemma_whole_script_is_left(handshake_script());
    lemma_whole_script_is_left(sample_script(6));
    lemma_whole_script_is_left(identity_script());
}

/// No event takes a driver out of consistency. A new driver is consistent,
/// so every state that a driver gets into is.
pub proof fn law_events_keep_consistent<E>(s: NunchukState, event: BusEvent<E>)
    requires
        s.consistent(),
    ensures
        s.after(event).0.consistent(),
{
    lemma_whole_script_is_left(sample_script(6));
    if s.pending.len() > 1 {
        match s.task {
            NunchukTask::Idle => {},
            NunchukTask::Handshake => lemma_rest_gets_shorter(s.pending, handshake_script()),
            NunchukTask::Baseline => lemma_rest_gets_shorter(s.pending, sample_script(6)),
            NunchukTask::Sample { .. } => lemma_rest_gets_shorter(s.pending, sample_script(6)),
            NunchukTask::Identity => lemma_rest_gets_shorter(s.pending, identity_script()),
        }
    }
}

/// In all that a driver has due, the controller gets its pause of at least
/// 200 microseconds between any two transactions.
pub proof fn law_pending_is_spaced(s: NunchukState)
    requires
        s.consistent(),
    ensures
        spaced(s.pending, 200),
{
    law_exchanges_are_spaced(true, 6);
    match s.task {
        NunchukTask::Idle => {},
        NunchukTask::Handshake => {
            law_rest_is_spaced(s.pending, handshake_script(), 400);
        },
        NunchukTask::Baseline => {
            law_rest_is_spaced(s.pending, sample_script(6), 200);
        },
        NunchukTask::Sample { .. } => {
            law_rest_is_spaced(s.pending, sample_script(6), 200);
        },
        NunchukTask::Identity => {
            law_rest_is_spaced(s.pending, identity_script(), 200);
        },
    }
}

/// Success is owed exactly when the bus does its part: in a consistent
/// driver a request goes on or ends well if the event answers the operation
/// due, and is aborted otherwise. So a failure of the bus and an answer
/// that does not fit are the only ways for a request to fail.
pub proof fn law_abort_only_on_bad_event<E>(s: NunchukState, event: BusEvent<E>)
    requires
        s.consistent(),
    ensures
        s.after(event).1 is Abort <==> !(s.pending.len() > 0 && answers(s.pending[0], event)),
{
    match s.task {
        NunchukTask::Baseline => lemma_rest_ends_as_script(s.pending, sample_script(6)),
        NunchukTask::Sample { .. } => lemma_rest_ends_as_script(s.pending, sample_script(6)),
        NunchukTask::Identity => lemma_rest_ends_as_script(s.pending, identity_script()),
        _ => {},
    }
}

/// A failure of the bus ends whatever is under way, at once and with the
/// bus's own error: nothing stays due, nothing is tried again, and the
/// driver counts as uninitialised. The resting position is
/// left as it was.
pub proof fn law_bus_failure_ends_the_request<E>(s: NunchukState, e: E)
    ensures
        s.after(BusEvent::Failed(e)).1 == Action::<NunchukOutput, E>::Abort(Error::I2C(e)),
        s.after(BusEvent::Failed(e)).0 == s.halted(),
        s.halted().lifecycle() == DriverState::Uninitialized,
        s.halted().pending.len() == 0,
        s.halted().calibration == s.calibration,
{
}

/// A read that delivers a block of another length than was asked for ends
/// the request with `InvalidInputData`.
pub proof fn law_wrong_length_is_invalid_input<E>(s: NunchukState, len: usize, block: Vec<u8>)
    requires
        s.pending.len() > 0,
        s.pending[0] == (BusOp::ReadBlock { len }),
        block@.len() != len,
    ensures
        s.after(BusEvent::<E>::Block(block)) == (
            s.halted(),
            Action::<NunchukOutput, E>::Abort(Error::InvalidInputData),
        ),
{
}

/// A request that finds the driver idle leaves its readiness alone. One
/// that cuts another short leaves the driver uninitialised until the next
/// handshake is through.
pub proof fn law_cut_short_means_uninitialised(s: NunchukState, wanted: bool)
    ensures
        s.task == NunchukTask::Idle ==> s.sampling(NunchukTask::Sample { calibrated: wanted }).ready
            == s.ready,
        s.task != NunchukTask::Idle ==> !s.sampling(
            NunchukTask::Sample { calibrated: wanted },
        ).ready && !s.identifying().ready && !s.sampling(NunchukTask::Baseline).ready,
        s.sampling(NunchukTask::Sample { calibrated: wanted }).calibration == s.calibration,
{
}

/// `init` on a bus that works: the handshake goes out step by step, then
/// the sample, ten operations in all. The report
/// that the last of them delivers becomes the resting position, and the
/// driver is ready.
pub proof fn law_init_flow<E>(s: NunchukState, block: Vec<u8>)
    requires
        block@.len() == 6,
    ensures
        forall|i: nat|
            i < 9 ==> #[trigger] s.initializing().acked(i).after(BusEvent::<E>::Done).1
                == Action::<NunchukOutput, E>::Perform(
                (handshake_script() + sample_script(6))[i as int + 1],
            ),
        s.initializing().acked(3).lifecycle() == DriverState::Initializing,
        s.initializing().acked(7).lifecycle() == DriverState::Calibrating,
        s.initializing().acked(9).after(BusEvent::<E>::Block(block)) == (
            NunchukState {
                ready: true,
                calibration: baseline_of(report_reading(block@)),
                task: NunchukTask::Idle,
                pending: Seq::empty(),
            },
            Action::<NunchukOutput, E>::Complete(NunchukOutput::Calibrated),
        ),
{
    let s0 = s.initializing();
    let all = handshake_script() + sample_script(6);
    reveal_with_fuel(NunchukState::acked, 10);
    assert(s0.acked(1).pending =~= handshake_script().skip(1));
    assert(s0.acked(2).pending =~= handshake_script().skip(2));
    assert(s0.acked(3).pending =~= handshake_script().skip(3));
    assert(s0.acked(4).pending =~= handshake_script().skip(4));
    assert(s0.acked(5).pending =~= handshake_script().skip(5));
    assert(s0.acked(6).pending =~= handshake_script().skip(6));
    assert(s0.acked(7).pending =~= sample_script(6));
    assert(s0.acked(8).pending =~= sample_script(6).skip(1));
    assert(s0.acked(9).pending =~= sample_script(6).skip(2));
    assert forall|i: nat| i < 9 implies #[trigger] s0.acked(i).after(BusEvent::<E>::Done).1
        == Action::<NunchukOutput, E>::Perform(all[i as int + 1]) by {
        if i == 0 {
        } else if i == 1 {
        } else if i == 2 {
        } else if i == 3 {
        } else if i == 4 {
        } else if i == 5 {
        } else if i == 6 {
        } else if i == 7 {
        } else {
        }
    }
}

/// A read on a bus that works: the read cursor goes to 0, the controller
/// gets its pause, and a report of six bytes is read. The
/// request ends with the decoded report, relative to the resting position
/// where that was asked for, and leaves resting position as
/// it was.
pub proof fn law_read_flow<E>(s: NunchukState, wanted: bool, block: Vec<u8>)
    requires
        block@.len() == 6,
    ensures
        s.sampling(NunchukTask::Sample { calibrated: wanted }).after(BusEvent::<E>::Done).1
            == Action::<NunchukOutput, E>::Perform(BusOp::Delay { micros: 200 }),
        s.sampling(NunchukTask::Sample { calibrated: wanted }).acked(1).after(
            BusEvent::<E>::Done,
        ).1 == Action::<NunchukOutput, E>::Perform(BusOp::ReadBlock { len: 6 }),
        s.sampling(NunchukTask::Sample { calibrated: wanted }).acked(2).after(
            BusEvent::<E>::Block(block),
        ) == (
            s.interrupted(),
            Action::<NunchukOutput, E>::Complete(
                if wanted {
                    NunchukOutput::Reading(calibrated(report_reading(block@), s.calibration))
                } else {
                    NunchukOutput::Raw(report_reading(block@))
                },
            ),
        ),
{
    let s0 = s.sampling(NunchukTask::Sample { calibrated: wanted });
    reveal_with_fuel(NunchukState::acked, 3);
    assert(s0.acked(1).pending =~= sample_script(6).skip(1));
    assert(s0.acked(2).pending =~= sample_script(6).skip(2));
}

/// A calibration on a bus that works is a sample like that of a read. The
/// report that it delivers replaces the resting position as a whole.
pub proof fn law_calibration_flow<E>(s: NunchukState, block: Vec<u8>)
    requires
        block@.len() == 6,
    ensures
        s.sampling(NunchukTask::Baseline).lifecycle() == DriverState::Calibrating,
        s.sampling(NunchukTask::Baseline).acked(2).after(BusEvent::<E>::Block(block)) == (
            NunchukState { calibration: baseline_of(report_reading(block@)), ..s.interrupted() },
            Action::<NunchukOutput, E>::Complete(NunchukOutput::Calibrated),
        ),
{
    let s0 = s.sampling(NunchukTask::Baseline);
    reveal_with_fuel(NunchukState::acked, 3);
    assert(s0.acked(1).pending =~= sample_script(6).skip(1));
    assert(s0.acked(2).pending =~= sample_script(6).skip(2));
}

/// An identification on a bus that works: the read cursor goes to the
/// identity register, the controller gets its pause, and six bytes are
/// read. The request ends with the classification of those bytes.
pub proof fn law_identify_flow<E>(s: NunchukState, block: Vec<u8>)
    requires
        block@.len() == 6,
    ensures
        s.identifying().pending[0] == (BusOp::SetCursor { register: 0xFA }),
        s.identifying().after(BusEvent::<E>::Done).1 == Action::<NunchukOutput, E>::Perform(
            BusOp::Delay { micros: 200 },
        ),
        s.identifying().acked(1).after(BusEvent::<E>::Done).1 == Action::<
            NunchukOutput,
            E,
        >::Perform(BusOp::ReadBlock { len: 6 }),
        s.identifying().acked(2).after(BusEvent::<E>::Block(block)) == (
            s.interrupted(),
            Action::<NunchukOutput, E>::Complete(NunchukOutput::Identity(classify(block@))),
        ),
{
    let s0 = s.identifying();
    reveal_with_fuel(NunchukState::acked, 3);
    assert(s0.acked(1).pending =~= identity_script().skip(1));
    assert(s0.acked(2).pending =~= identity_script().skip(2));
}

/// A driver that has taken a report as its resting position reads that
/// same report as at rest, with the buttons as the report has them.
pub proof fn law_calibrated_on_report_reads_it_at_rest<E>(s: NunchukState, block: Vec<u8>)
    requires
        block@.len() == 6,
    ensures
        s.sampling(NunchukTask::Baseline).acked(2).after(BusEvent::<E>::Block(block)).0.sampling(
            NunchukTask::Sample { calibrated: true },
        ).acked(2).after(BusEvent::<E>::Block(block)).1 matches Action::Complete(
            NunchukOutput::Reading(c),
        ) && at_rest(c) && c.button_c == report_reading(block@).button_c
            && c.button_z == report_reading(block@).button_z,
{
    law_calibration_flow::<E>(s, block);
    let s1 = s.sampling(NunchukTask::Baseline).acked(2).after(BusEvent::<E>::Block(block)).0;
    law_read_flow::<E>(s1, true, block);
    law_calibration_idempotent(report_reading(block@));
}

} // verus!
