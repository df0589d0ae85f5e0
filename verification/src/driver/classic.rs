//! The driver for the Classic controller family.
//!
//! The family has two report formats, and the driver keeps track of the
//! one that the controller has been switched to.

use crate::common::{classify, identify_controller, ControllerType, Error};
use crate::driver::{Action, DriverState};
use crate::reading::classic::{
    at_rest, baseline_of, calibrated, law_calibration_idempotent, reading_of, report_reading,
    same_buttons, standard_reading, CalibrationData, ClassicReading, ClassicReadingCalibrated,
};
use crate::transport::{
    answers, block_of, handshake_script, identity_script, is_rest_of, law_exchanges_are_spaced,
    law_rest_is_spaced, lemma_rest_ends_as_script, lemma_rest_gets_shorter,
    lemma_whole_script_is_left, resolution_script, sample_script, spaced, BusEvent, BusOp,
    Interface,
};
use vstd::prelude::*;

verus! {

/// What a driver for the Classic family is working on.
#[derive(Clone, Copy, Debug, PartialEq, Eq, Structural)]
pub enum ClassicTask {
    /// Nothing.
    Idle,
    /// The handshake of `init`; a calibration follows.
    Handshake,
    /// The change to the resolution `hires`; a calibration follows.
    Resolution { hires: bool },
    /// The sample that becomes the resting position.
    Baseline,
    /// The sample of a read, to be returned calibrated or as it is.
    Sample { calibrated: bool },
    /// The read of the identity block.
    Identity,
}

/// The result of a request to a driver for the Classic family.
#[derive(Debug)]
pub enum ClassicOutput {
    /// `init`, `update_calibration`, `enable_hires` or `disable_hires` has
    /// run to its end.
    Calibrated,
    /// `identify_controller`: the controller found, `None` where the
    /// identity block is not that of a supported controller.
    Identity(Option<ControllerType>),
    /// `read_uncalibrated`: the reading as the controller reported it.
    Raw(ClassicReading),
    /// `read`: the reading relative to the resting position.
    Reading(ClassicReadingCalibrated),
}

impl ClassicOutput {
    /// The request ended with a calibration.
    pub fn is_calibrated(&self) -> (yes: bool)
        ensures
            yes == (*self is Calibrated),
    {
        match self {
            ClassicOutput::Calibrated => true,
            _ => false,
        }
    }

    /// The classification that an identification ended with, `None` where
    /// the request was of another kind.
    pub fn into_identity(self) -> (found: Option<Option<ControllerType>>)
        ensures
            found == (match self {
                ClassicOutput::Identity(kind) => Some(kind),
                _ => None,
            }),
    {
        match self {
            ClassicOutput::Identity(kind) => Some(kind),
            _ => None,
        }
    }

    /// The reading that an uncalibrated read ended with, `None` where the
    /// request was of another kind.
    pub fn into_raw(self) -> (found: Option<ClassicReading>)
        ensures
            found == (match self {
                ClassicOutput::Raw(reading) => Some(reading),
                _ => None,
            }),
    {
        match self {
            ClassicOutput::Raw(reading) => Some(reading),
            _ => None,
        }
    }

    /// The reading that a calibrated read ended with, `None` where the
    /// request was of another kind.
    pub fn into_reading(self) -> (found: Option<ClassicReadingCalibrated>)
        ensures
            found == (match self {
                ClassicOutput::Reading(reading) => Some(reading),
                _ => None,
            }),
    {
        match self {
            ClassicOutput::Reading(reading) => Some(reading),
            _ => None,
        }
    }
}

/// The state of a driver for the Classic family, as contracts see it.
pub struct ClassicState {
    /// The handshake has been completed, and no request has failed or been
    /// cut short since.
    pub ready: bool,
    /// The controller has been switched to high-resolution reports.
    pub hires: bool,
    /// The resting position.
    pub calibration: CalibrationData,
    /// What the driver is working on.
    pub task: ClassicTask,
    /// The bus operations of the current stage that are still due. The
    /// first of them is the one that the next event is about.
    pub pending: Seq<BusOp>,
}

/// The number of bytes in a report of the given resolution.
pub open spec fn report_len(hires: bool) -> usize {
    if hires {
        8
    } else {
        6
    }
}

impl ClassicState {
    /// Where the driver stands in its life.
    pub open spec fn lifecycle(self) -> DriverState {
        match self.task {
            ClassicTask::Handshake => DriverState::Initializing,
            ClassicTask::Resolution { .. } => DriverState::Calibrating,
            ClassicTask::Baseline => DriverState::Calibrating,
            _ => if self.ready {
                DriverState::Ready
            } else {
                DriverState::Uninitialized
            },
        }
    }

    /// The state after a request has run to its end.
    pub open spec fn idle(self) -> ClassicState {
        ClassicState { task: ClassicTask::Idle, pending: Seq::empty(), ..self }
    }

    /// The state after a request has failed: idle, and no longer ready.
    pub open spec fn halted(self) -> ClassicState {
        ClassicState { ready: false, task: ClassicTask::Idle, pending: Seq::empty(), ..self }
    }

    /// The state that a new request starts from. Whatever was under way is
    /// given up, and a driver that is cut short is no longer ready: the
    /// controller's read cursor may stand anywhere.
    pub open spec fn interrupted(self) -> ClassicState {
        ClassicState {
            ready: self.ready && self.task == ClassicTask::Idle,
            task: ClassicTask::Idle,
            pending: Seq::empty(),
            ..self
        }
    }

    /// The state in which `init` leaves a driver: at the start of the
    /// handshake, in standard resolution, and not ready.
    pub open spec fn initializing(self) -> ClassicState {
        ClassicState {
            ready: false,
            hires: false,
            task: ClassicTask::Handshake,
            pending: handshake_script(),
            ..self
        }
    }

    /// The state in which a request to change the resolution leaves a
    /// driver: at the start of the register exchange, still in the
    /// resolution it had.
    pub open spec fn switching(self, hires: bool) -> ClassicState {
        ClassicState {
            task: ClassicTask::Resolution { hires },
            pending: resolution_script(hires),
            ..self.interrupted()
        }
    }

    /// The state in which a request for a sample leaves a driver: at the
    /// start of a sample in its resolution, for the given task.
    pub open spec fn sampling(self, task: ClassicTask) -> ClassicState {
        ClassicState { task, pending: sample_script(report_len(self.hires)), ..self.interrupted() }
    }

    /// The state in which a request for identification leaves a driver: at
    /// the start of the identity read.
    pub open spec fn identifying(self) -> ClassicState {
        ClassicState {
            task: ClassicTask::Identity,
            pending: identity_script(),
            ..self.interrupted()
        }
    }

    /// State and action once the last operation of a stage has been
    /// answered, `block` being the bytes that the answer delivered.
    ///
    /// The end of the handshake makes the driver ready, and the sample for
    /// the resting position begins. The same sample follows a change of
    /// resolution, and the new resolution counts from there. A sample is
    /// decoded by its length. A baseline sample replaces the resting
    /// position as a whole; the sample of a read is returned, calibrated
    /// where that was asked for. A block that cannot be decoded ends the
    /// request with `InvalidInputData`.
    pub open spec fn finish<E>(self, block: Seq<u8>) -> (ClassicState, Action<ClassicOutput, E>) {
        match self.task {
            ClassicTask::Idle => (self.halted(), Action::Abort(Error::InvalidInputData)),
            ClassicTask::Handshake => (
                ClassicState {
                    ready: true,
                    task: ClassicTask::Baseline,
                    pending: sample_script(report_len(self.hires)),
                    ..self
                },
                Action::Perform(sample_script(report_len(self.hires))[0]),
            ),
            ClassicTask::Resolution { hires } => (
                ClassicState {
                    hires,
                    task: ClassicTask::Baseline,
                    pending: sample_script(report_len(hires)),
                    ..self
                },
                Action::Perform(sample_script(report_len(hires))[0]),
            ),
            ClassicTask::Baseline => match reading_of(block) {
                Some(r) => (
                    ClassicState { calibration: baseline_of(r), ..self }.idle(),
                    Action::Complete(ClassicOutput::Calibrated),
                ),
                None => (self.halted(), Action::Abort(Error::InvalidInputData)),
            },
            ClassicTask::Sample { calibrated: wanted } => match reading_of(block) {
                Some(r) => (
                    self.idle(),
                    Action::Complete(
                        if wanted {
                            ClassicOutput::Reading(calibrated(r, self.calibration))
                        } else {
                            ClassicOutput::Raw(r)
                        },
                    ),
                ),
                None => (self.halted(), Action::Abort(Error::InvalidInputData)),
            },
            ClassicTask::Identity => if block.len() == 6 {
                (self.idle(), Action::Complete(ClassicOutput::Identity(classify(block))))
            } else {
                (self.halted(), Action::Abort(Error::InvalidInputData))
            },
        }
    }

    /// State and action after an event.
    ///
    /// A failure of the bus ends the request with the bus's error. An event
    /// that does not answer the operation due ends it with
    /// `InvalidInputData`. Otherwise the operation is done: the next one of
    /// the stage follows, or the stage is finished.
    pub open spec fn after<E>(self, event: BusEvent<E>) -> (
        ClassicState,
        Action<ClassicOutput, E>,
    ) {
        match event {
            BusEvent::Failed(e) => (self.halted(), Action::Abort(Error::I2C(e))),
            _ => if self.pending.len() == 0 || !answers(self.pending[0], event) {
                (self.halted(), Action::Abort(Error::InvalidInputData))
            } else if self.pending.len() > 1 {
                (
                    ClassicState { pending: self.pending.drop_first(), ..self },
                    Action::Perform(self.pending[1]),
                )
            } else {
                self.finish(block_of(event))
            },
        }
    }

    /// The state after `n` operations in a row have been acknowledged.
    pub open spec fn acked(self, n: nat) -> ClassicState
        decreases n,
    {
        if n == 0 {
            self
        } else {
            self.acked((n - 1) as nat).after::<()>(BusEvent::Done).0
        }
    }

    /// What is due belongs to what the driver is working on: nothing while
    /// it is idle, and otherwise what is left of the exchange of the current
    /// stage. Every state that a driver can get into is of this kind.
    pub open spec fn consistent(self) -> bool {
        match self.task {
            ClassicTask::Idle => self.pending.len() == 0,
            ClassicTask::Handshake => is_rest_of(self.pending, handshake_script()),
            ClassicTask::Resolution { hires } => is_rest_of(self.pending, resolution_script(hires)),
            ClassicTask::Baseline => is_rest_of(
                self.pending,
                sample_script(report_len(self.hires)),
            ),
            ClassicTask::Sample { .. } => is_rest_of(
                self.pending,
                sample_script(report_len(self.hires)),
            ),
            ClassicTask::Identity => is_rest_of(self.pending, identity_script()),
        }
    }

    /// The number of operations that a bus that works has yet to carry out
    /// before the request is over: those of the current stage, and the three
    /// of the sample where one follows.
    pub open spec fn steps_left(self) -> nat {
        self.pending.len() + match self.task {
            ClassicTask::Handshake | ClassicTask::Resolution { .. } => 3nat,
            _ => 0nat,
        }
    }
}

/// The driver for the Classic controller family: Classic, Classic Pro and
/// the many controllers that identify as one of them.
#[derive(Debug)]
pub struct Classic {
    interface: Interface,
    ready: bool,
    hires: bool,
    calibration: CalibrationData,
    task: ClassicTask,
}

impl View for Classic {
    type V = ClassicState;

    closed spec fn view(&self) -> ClassicState {
        ClassicState {
            ready: self.ready,
            hires: self.hires,
            calibration: self.calibration,
            task: self.task,
            pending: self.interface@,
        }
    }
}

impl Classic {
    /// A driver for a controller that nothing has been sent to yet:
    /// uninitialised, in standard resolution, with every axis resting at 0.
    pub fn new() -> (classic: Classic)
        ensures
            classic@ == (ClassicState {
                ready: false,
                hires: false,
                calibration: CalibrationData {
                    joystick_left_x: 0,
                    joystick_left_y: 0,
                    joystick_right_x: 0,
                    joystick_right_y: 0,
                    trigger_left: 0,
                    trigger_right: 0,
                },
                task: ClassicTask::Idle,
                pending: Seq::empty(),
            }),
    {
        Classic {
            interface: Interface::new(),
            ready: false,
            hires: false,
            calibration: CalibrationData::default(),
            task: ClassicTask::Idle,
        }
    }

    /// Send the init sequence to the controller, then take the resting
    /// position from one sample. The driver is in standard resolution from
    /// here on, and ready once the handshake is through.
    pub fn init(&mut self) -> (op: BusOp)
        ensures
            final(self)@ == old(self)@.initializing(),
            op == handshake_script()[0],
    {
        self.interface.clear();
        self.interface.init();
        self.ready = false;
        self.hires = false;
        self.task = ClassicTask::Handshake;
        assert(self.interface@ =~= handshake_script());
        self.first_op()
    }

    /// Update the stored calibration for this controller.
    ///
    /// Controllers differ in where their axes rest, so one sample is taken
    /// as the resting position.
    pub fn update_calibration(&mut self) -> (op: BusOp)
        ensures
            final(self)@ == old(self)@.sampling(ClassicTask::Baseline),
            op == sample_script(report_len(old(self)@.hires))[0],
    {
        self.begin_sample(ClassicTask::Baseline)
    }

    /// Switch the driver from standard to high-resolution reporting.
    ///
    /// In high resolution the controller reports each axis as a byte of its
    /// own. The resting position is taken anew, since it differs between
    /// the two resolutions.
    pub fn enable_hires(&mut self) -> (op: BusOp)
        ensures
            final(self)@ == old(self)@.switching(true),
            op == resolution_script(true)[0],
    {
        self.interrupt();
        self.interface.enable_hires();
        self.task = ClassicTask::Resolution { hires: true };
        assert(self.interface@ =~= resolution_script(true));
        self.first_op()
    }

    /// Switch the driver from high-resolution to standard reporting.
    ///
    /// This writes the value that stands for standard reports and goes on
    /// as if the controller had obeyed. Controllers are known not to: they
    /// keep sending high-resolution reports, of which the driver then reads
    /// the first six bytes as if they were a standard report.
    pub fn disable_hires(&mut self) -> (op: BusOp)
        ensures
            final(self)@ == old(self)@.switching(false),
            op == resolution_script(false)[0],
    {
        self.interrupt();
        self.interface.disable_hires();
        self.task = ClassicTask::Resolution { hires: false };
        assert(self.interface@ =~= resolution_script(false));
        self.first_op()
    }

    /// Determine the controller type from the identity block of the
    /// controller.
    pub fn identify_controller(&mut self) -> (op: BusOp)
        ensures
            final(self)@ == old(self)@.identifying(),
            op == identity_script()[0],
    {
        self.interrupt();
        self.interface.read_id();
        self.task = ClassicTask::Identity;
        assert(self.interface@ =~= identity_script());
        self.first_op()
    }

    /// Do a read, and return button and axis values without applying
    /// calibration.
    pub fn read_uncalibrated(&mut self) -> (op: BusOp)
        ensures
            final(self)@ == old(self)@.sampling(ClassicTask::Sample { calibrated: false }),
            op == sample_script(report_len(old(self)@.hires))[0],
    {
        self.begin_sample(ClassicTask::Sample { calibrated: false })
    }

    /// Do a read, and return button and axis values relative to
    /// calibration.
    pub fn read(&mut self) -> (op: BusOp)
        ensures
            final(self)@ == old(self)@.sampling(ClassicTask::Sample { calibrated: true }),
            op == sample_script(report_len(old(self)@.hires))[0],
    {
        self.begin_sample(ClassicTask::Sample { calibrated: true })
    }

    /// Take in the outcome of the operation that was due, and say what
    /// comes next.
    pub fn on_event<E>(&mut self, event: BusEvent<E>) -> (action: Action<ClassicOutput, E>)
        ensures
            final(self)@ == old(self)@.after(event).0,
            action == old(self)@.after(event).1,
    {
        match self.interface.complete(event) {
            Err(e) => {
                self.ready = false;
                self.task = ClassicTask::Idle;
                Action::Abort(e)
            },
            Ok(block) => match self.interface.next_op() {
                Some(op) => Action::Perform(op),
                None => self.finish(block),
            },
        }
    }

    /// Where the driver stands in its life.
    pub fn state(&self) -> (state: DriverState)
        ensures
            state == self@.lifecycle(),
    {
        match self.task {
            ClassicTask::Handshake => DriverState::Initializing,
            ClassicTask::Resolution { .. } => DriverState::Calibrating,
            ClassicTask::Baseline => DriverState::Calibrating,
            _ => if self.ready {
                DriverState::Ready
            } else {
                DriverState::Uninitialized
            },
        }
    }

    /// Whether the controller has been switched to high-resolution
    /// reports.
    pub fn hires(&self) -> (hires: bool)
        ensures
            hires == self@.hires,
    {
        self.hires
    }

    /// The resting position that readings are calibrated against.
    pub fn calibration(&self) -> (calibration: &CalibrationData)
        ensures
            *calibration == self@.calibration,
    {
        &self.calibration
    }

    /// The operation that the next event is about, `None` while nothing is
    /// under way.
    pub fn pending_op(&self) -> (op: Option<BusOp>)
        ensures
            op == (if self@.pending.len() > 0 {
                Some(self@.pending[0])
            } else {
                None
            }),
    {
        self.interface.next_op()
    }

    /// Give up whatever is under way.
    fn interrupt(&mut self)
        ensures
            final(self)@ == old(self)@.interrupted(),
    {
        match self.task {
            ClassicTask::Idle => {},
            _ => {
                self.ready = false;
            },
        }
        self.task = ClassicTask::Idle;
        self.interface.clear();
    }

    /// Begin a sample for the given task, in place of whatever is under way.
    fn begin_sample(&mut self, task: ClassicTask) -> (op: BusOp)
        ensures
            final(self)@ == old(self)@.sampling(task),
            op == sample_script(report_len(old(self)@.hires))[0],
    {
        self.interrupt();
        let op: BusOp = self.queue_sample();
        self.task = task;
        op
    }

    /// Put one sample on the interface, in the current resolution, as the only
    /// thing due.
    fn queue_sample(&mut self) -> (op: BusOp)
        ensures
            final(self)@ == (ClassicState {
                pending: sample_script(report_len(old(self)@.hires)),
                ..old(self)@
            }),
            op == sample_script(report_len(old(self)@.hires))[0],
    {
        self.interface.clear();
        self.interface.start_sample_and_wait();
        if self.hires {
            self.interface.read_hd_report();
        } else {
            self.interface.read_report();
        }
        assert(self.interface@ =~= sample_script(report_len(self.hires)));
        self.first_op()
    }

    /// The first operation due, of an interface that has one.
    fn first_op(&self) -> (op: BusOp)
        requires
            self@.pending.len() > 0,
        ensures
            op == self@.pending[0],
    {
        match self.interface.next_op() {
            Some(op) => op,
            None => BusOp::Delay { micros: 0 },
        }
    }

    /// The last operation of a stage has been answered with `block`.
    fn finish<E>(&mut self, block: Vec<u8>) -> (action: Action<ClassicOutput, E>)
        requires
            old(self)@.pending.len() == 0,
        ensures
            final(self)@ == old(self)@.finish::<E>(block@).0,
            action == old(self)@.finish::<E>(block@).1,
    {
        let action: Action<ClassicOutput, E> = match self.task {
            ClassicTask::Idle => {
                self.ready = false;
                Action::Abort(Error::InvalidInputData)
            },
            ClassicTask::Handshake => {
                self.ready = true;
                let op: BusOp = self.queue_sample();
                self.task = ClassicTask::Baseline;
                Action::Perform(op)
            },
            ClassicTask::Resolution { hires } => {
                self.hires = hires;
                let op: BusOp = self.queue_sample();
                self.task = ClassicTask::Baseline;
                Action::Perform(op)
            },
            ClassicTask::Baseline => match ClassicReading::from_data(block.as_slice()) {
                Some(r) => {
                    self.calibration = CalibrationData::capture(&r);
                    self.task = ClassicTask::Idle;
                    Action::Complete(ClassicOutput::Calibrated)
                },
                None => {
                    self.ready = false;
                    self.task = ClassicTask::Idle;
                    Action::Abort(Error::InvalidInputData)
                },
            },
            ClassicTask::Sample { calibrated: wanted } => match ClassicReading::from_data(
                block.as_slice(),
            ) {
                Some(r) => {
                    self.task = ClassicTask::Idle;
                    if wanted {
                        Action::Complete(
                            ClassicOutput::Reading(
                                ClassicReadingCalibrated::new(r, &self.calibration),
                            ),
                        )
                    } else {
                        Action::Complete(ClassicOutput::Raw(r))
                    }
                },
                None => {
                    self.ready = false;
                    self.task = ClassicTask::Idle;
                    Action::Abort(Error::InvalidInputData)
                },
            },
            ClassicTask::Identity => {
                if block.len() == 6 {
                    let id: [u8; 6] = [block[0], block[1], block[2], block[3], block[4], block[5]];
                    self.task = ClassicTask::Idle;
                    Action::Complete(ClassicOutput::Identity(identify_controller(id)))
                } else {
                    self.ready = false;
                    self.task = ClassicTask::Idle;
                    Action::Abort(Error::InvalidInputData)
                }
            },
        };
        assert(self@.pending =~= old(self)@.finish::<E>(block@).0.pending);
        action
    }
}

/// Every operation that the driver asks for brings the request one step
/// nearer its end, and the operation asked for is the one that the next event
/// is about. A request that is over, either way, leaves nothing to do.
pub proof fn law_every_step_makes_progress<E>(s: ClassicState, event: BusEvent<E>)
    ensures
        s.after(event).1 matches Action::Perform(op) ==> s.after(event).0.steps_left() + 1
            == s.steps_left() && s.after(event).0.pending.len() > 0 && op == s.after(
            event,
        ).0.pending[0],
        !(s.after(event).1 is Perform) ==> s.after(event).0.steps_left() == 0 && s.after(
            event,
        ).0.task == ClassicTask::Idle,
{
}

/// A runner that carries out what it is asked to is done after as many
/// events as the request has steps: ten for `init`, three for a read or a
/// calibration or an identification, six for a change of resolution.
pub proof fn law_requests_are_short(s: ClassicState, wanted: bool, hires: bool)
    ensures
        s.initializing().steps_left() == 10,
        s.sampling(ClassicTask::Baseline).steps_left() == 3,
        s.sampling(ClassicTask::Sample { calibrated: wanted }).steps_left() == 3,
        s.identifying().steps_left() == 3,
        s.switching(hires).steps_left() == 6,
{
}

/// Every request leaves the driver consistent, whatever it was before, and
/// so does the end of a request, good or bad.
pub proof fn law_requests_start_consistent(s: ClassicState, wanted: bool, hires: bool)
    ensures
        s.initializing().consistent(),
        s.sampling(ClassicTask::Baseline).consistent(),
        s.sampling(ClassicTask::Sample { calibrated: wanted }).consistent(),
        s.identifying().consistent(),
        s.switching(hires).consistent(),
        s.interrupted().consistent(),
        s.idle().consistent(),
        s.halted().consistent(),
{
    lemma_whole_script_is_left(handshake_script());
    lemma_whole_script_is_left(resolution_script(hires));
    lemma_whole_script_is_left(sample_script(report_len(s.hires)));
    lemma_whole_script_is_left(identity_script());
}

/// No event takes a driver out of consistency. A new driver is consistent,
/// so every state that a driver gets into is.
pub proof fn law_events_keep_consistent<E>(s: ClassicState, event: BusEvent<E>)
    requires
        s.consistent(),
    ensures
        s.after(event).0.consistent(),
{
    match s.task {
        ClassicTask::Idle => {},
        ClassicTask::Handshake => {
            lemma_whole_script_is_left(sample_script(report_len(s.hires)));
            if s.pending.len() > 1 {
                lemma_rest_gets_shorter(s.pending, handshake_script());
            }
        },
        ClassicTask::Resolution { hires } => {
            lemma_whole_script_is_left(sample_script(report_len(hires)));
            if s.pending.len() > 1 {
                lemma_rest_gets_shorter(s.pending, resolution_script(hires));
            }
        },
        ClassicTask::Baseline => {
            if s.pending.len() > 1 {
                lemma_rest_gets_shorter(s.pending, sample_script(report_len(s.hires)));
            }
        },
        ClassicTask::Sample { .. } => {
            if s.pending.len() > 1 {
                lemma_rest_gets_shorter(s.pending, sample_script(report_len(s.hires)));
            }
        },
        ClassicTask::Identity => {
            if s.pending.len() > 1 {
                lemma_rest_gets_shorter(s.pending, identity_script());
            }
        },
    }
}

/// In all that a driver has due, the controller gets its pause of at least
/// 200 microseconds between any two transactions.
pub proof fn law_pending_is_spaced(s: ClassicState)
    requires
        s.consistent(),
    ensures
        spaced(s.pending, 200),
{
    law_exchanges_are_spaced(true, report_len(s.hires));
    match s.task {
        ClassicTask::Idle => {},
        ClassicTask::Handshake => {
            law_rest_is_spaced(s.pending, handshake_script(), 400);
        },
        ClassicTask::Resolution { hires } => {
            law_exchanges_are_spaced(hires, 6);
            law_rest_is_spaced(s.pending, resolution_script(hires), 400);
        },
        ClassicTask::Baseline => {
            law_rest_is_spaced(s.pending, sample_script(report_len(s.hires)), 200);
        },
        ClassicTask::Sample { .. } => {
            law_rest_is_spaced(s.pending, sample_script(report_len(s.hires)), 200);
        },
        ClassicTask::Identity => {
            law_rest_is_spaced(s.pending, identity_script(), 200);
        },
    }
}

/// Success is owed exactly when the bus does its part: in a consistent
/// driver a request goes on or ends well if the event answers the operation
/// due, and is aborted otherwise. So a failure of the bus and an answer
/// that does not fit are the only ways for a request to fail.
pub proof fn law_abort_only_on_bad_event<E>(s: ClassicState, event: BusEvent<E>)
    requires
        s.consistent(),
    ensures
        s.after(event).1 is Abort <==> !(s.pending.len() > 0 && answers(s.pending[0], event)),
{
    match s.task {
        ClassicTask::Baseline => {
            lemma_rest_ends_as_script(s.pending, sample_script(report_len(s.hires)))
        },
        ClassicTask::Sample { .. } => {
            lemma_rest_ends_as_script(s.pending, sample_script(report_len(s.hires)))
        },
        ClassicTask::Identity => lemma_rest_ends_as_script(s.pending, identity_script()),
        _ => {},
    }
}

/// A failure of the bus ends whatever is under way, at once and with the
/// bus's own error: nothing stays due, nothing is tried again, and the
/// driver counts as uninitialised. Resolution and resting position are
/// left as they were.
pub proof fn law_bus_failure_ends_the_request<E>(s: ClassicState, e: E)
    ensures
        s.after(BusEvent::Failed(e)).1 == Action::<ClassicOutput, E>::Abort(Error::I2C(e)),
        s.after(BusEvent::Failed(e)).0 == s.halted(),
        s.halted().lifecycle() == DriverState::Uninitialized,
        s.halted().pending.len() == 0,
        s.halted().hires == s.hires,
        s.halted().calibration == s.calibration,
{
}

/// A read that delivers a block of another length than was asked for ends
/// the request with `InvalidInputData`.
pub proof fn law_wrong_length_is_invalid_input<E>(s: ClassicState, len: usize, block: Vec<u8>)
    requires
        s.pending.len() > 0,
        s.pending[0] == (BusOp::ReadBlock { len }),
        block@.len() != len,
    ensures
        s.after(BusEvent::<E>::Block(block)) == (
            s.halted(),
            Action::<ClassicOutput, E>::Abort(Error::InvalidInputData),
        ),
{
}

/// A request that finds the driver idle leaves its readiness alone. One
/// that cuts another short leaves the driver uninitialised until the next
/// handshake is through, in the resolution in which it was.
pub proof fn law_cut_short_means_uninitialised(s: ClassicState, wanted: bool)
    ensures
        s.task == ClassicTask::Idle ==> s.sampling(ClassicTask::Sample { calibrated: wanted }).ready
            == s.ready,
        s.task != ClassicTask::Idle ==> !s.sampling(
            ClassicTask::Sample { calibrated: wanted },
        ).ready && !s.identifying().ready && !s.sampling(ClassicTask::Baseline).ready,
        s.sampling(ClassicTask::Sample { calibrated: wanted }).calibration == s.calibration,
        s.sampling(ClassicTask::Sample { calibrated: wanted }).hires == s.hires,
{
}

/// `init` on a bus that works: the handshake goes out step by step, then
/// the sample in standard resolution, ten operations in all. The report
/// that the last of them delivers becomes the resting position, and the
/// driver is ready, in standard resolution.
pub proof fn law_init_flow<E>(s: ClassicState, block: Vec<u8>)
    requires
        block@.len() == 6,
    ensures
        forall|i: nat|
            i < 9 ==> #[trigger] s.initializing().acked(i).after(BusEvent::<E>::Done).1
                == Action::<ClassicOutput, E>::Perform(
                (handshake_script() + sample_script(6))[i as int + 1],
            ),
        s.initializing().acked(3).lifecycle() == DriverState::Initializing,
        s.initializing().acked(7).lifecycle() == DriverState::Calibrating,
        s.initializing().acked(9).after(BusEvent::<E>::Block(block)) == (
            ClassicState {
                ready: true,
                hires: false,
                calibration: baseline_of(standard_reading(block@)),
                task: ClassicTask::Idle,
                pending: Seq::empty(),
            },
            Action::<ClassicOutput, E>::Complete(ClassicOutput::Calibrated),
        ),
{
    let s0 = s.initializing();
    let all = handshake_script() + sample_script(6);
    reveal_with_fuel(ClassicState::acked, 10);
    assert(s0.acked(1).pending =~= handshake_script().skip(1));
    assert(s0.acked(2).pending =~= handshake_script().skip(2));
    assert(s0.acked(3).pending =~= handshake_script().skip(3));
    assert(s0.acked(4).pending =~= handshake_script().skip(4));
    assert(s0.acked(5).pending =~= handshake_script().skip(5));
    assert(s0.acked(6).pending =~= handshake_script().skip(6));
    assert(s0.acked(7).pending =~= sample_script(6));
    assert(s0.acked(8).pending =~= sample_script(6).skip(1));
    assert(s0.acked(9).pending =~= sample_script(6).skip(2));
    assert forall|i: nat| i < 9 implies #[trigger] s0.acked(i).after(BusEvent::<E>::Done).1
        == Action::<ClassicOutput, E>::Perform(all[i as int + 1]) by {
        if i == 0 {
        } else if i == 1 {
        } else if i == 2 {
        } else if i == 3 {
        } else if i == 4 {
        } else if i == 5 {
        } else if i == 6 {
        } else if i == 7 {
        } else {
        }
    }
}

/// A read on a bus that works: the read cursor goes to 0, the controller
/// gets its pause, and a report is read in the driver's resolution. The
/// request ends with the decoded report, relative to the resting position
/// where that was asked for, and leaves resolution and resting position as
/// they were.
pub proof fn law_read_flow<E>(s: ClassicState, wanted: bool, block: Vec<u8>)
    requires
        block@.len() == report_len(s.hires),
    ensures
        s.sampling(ClassicTask::Sample { calibrated: wanted }).after(BusEvent::<E>::Done).1
            == Action::<ClassicOutput, E>::Perform(BusOp::Delay { micros: 200 }),
        s.sampling(ClassicTask::Sample { calibrated: wanted }).acked(1).after(
            BusEvent::<E>::Done,
        ).1 == Action::<ClassicOutput, E>::Perform(BusOp::ReadBlock { len: report_len(s.hires) }),
        s.sampling(ClassicTask::Sample { calibrated: wanted }).acked(2).after(
            BusEvent::<E>::Block(block),
        ) == (
            s.interrupted(),
            Action::<ClassicOutput, E>::Complete(
                if wanted {
                    ClassicOutput::Reading(
                        calibrated(report_reading(s.hires, block@), s.calibration),
                    )
                } else {
                    ClassicOutput::Raw(report_reading(s.hires, block@))
                },
            ),
        ),
{
    let s0 = s.sampling(ClassicTask::Sample { calibrated: wanted });
    reveal_with_fuel(ClassicState::acked, 3);
    assert(s0.acked(1).pending =~= sample_script(report_len(s.hires)).skip(1));
    assert(s0.acked(2).pending =~= sample_script(report_len(s.hires)).skip(2));
}

/// A calibration on a bus that works is a sample like that of a read. The
/// report that it delivers replaces the resting position as a whole.
pub proof fn law_calibration_flow<E>(s: ClassicState, block: Vec<u8>)
    requires
        block@.len() == report_len(s.hires),
    ensures
        s.sampling(ClassicTask::Baseline).lifecycle() == DriverState::Calibrating,
        s.sampling(ClassicTask::Baseline).acked(2).after(BusEvent::<E>::Block(block)) == (
            ClassicState {
                calibration: baseline_of(report_reading(s.hires, block@)),
                ..s.interrupted()
            },
            Action::<ClassicOutput, E>::Complete(ClassicOutput::Calibrated),
        ),
{
    let s0 = s.sampling(ClassicTask::Baseline);
    reveal_with_fuel(ClassicState::acked, 3);
    assert(s0.acked(1).pending =~= sample_script(report_len(s.hires)).skip(1));
    assert(s0.acked(2).pending =~= sample_script(report_len(s.hires)).skip(2));
}

/// A change of resolution on a bus that works: the mode's value goes to
/// the resolution register between two long pauses; from then on the driver
/// is in the new resolution, and a sample in that resolution follows. The
/// report that it delivers replaces the resting position as a whole.
pub proof fn law_resolution_flow<E>(s: ClassicState, hires: bool, block: Vec<u8>)
    requires
        block@.len() == report_len(hires),
    ensures
        forall|i: nat|
            i < 5 ==> #[trigger] s.switching(hires).acked(i).after(BusEvent::<E>::Done).1
                == Action::<ClassicOutput, E>::Perform(
                (resolution_script(hires) + sample_script(report_len(hires)))[i as int + 1],
            ),
        s.switching(hires).lifecycle() == DriverState::Calibrating,
        s.switching(hires).acked(2).hires == s.hires,
        s.switching(hires).acked(3).hires == hires,
        s.switching(hires).acked(5).after(BusEvent::<E>::Block(block)) == (
            ClassicState {
                hires,
                calibration: baseline_of(report_reading(hires, block@)),
                ..s.interrupted()
            },
            Action::<ClassicOutput, E>::Complete(ClassicOutput::Calibrated),
        ),
{
    let s0 = s.switching(hires);
    let all = resolution_script(hires) + sample_script(report_len(hires));
    reveal_with_fuel(ClassicState::acked, 6);
    assert(s0.acked(1).pending =~= resolution_script(hires).skip(1));
    assert(s0.acked(2).pending =~= resolution_script(hires).skip(2));
    assert(s0.acked(3).pending =~= sample_script(report_len(hires)));
    assert(s0.acked(4).pending =~= sample_script(report_len(hires)).skip(1));
    assert(s0.acked(5).pending =~= sample_script(report_len(hires)).skip(2));
    assert forall|i: nat| i < 5 implies #[trigger] s0.acked(i).after(BusEvent::<E>::Done).1
        == Action::<ClassicOutput, E>::Perform(all[i as int + 1]) by {
        if i == 0 {
        } else if i == 1 {
        } else if i == 2 {
        } else if i == 3 {
        } else {
        }
    }
}

/// An identification on a bus that works: the read cursor goes to the
/// identity register, the controller gets its pause, and six bytes are
/// read. The request ends with the classification of those bytes.
pub proof fn law_identify_flow<E>(s: ClassicState, block: Vec<u8>)
    requires
        block@.len() == 6,
    ensures
        s.identifying().pending[0] == (BusOp::SetCursor { register: 0xFA }),
        s.identifying().after(BusEvent::<E>::Done).1 == Action::<ClassicOutput, E>::Perform(
            BusOp::Delay { micros: 200 },
        ),
        s.identifying().acked(1).after(BusEvent::<E>::Done).1 == Action::<
            ClassicOutput,
            E,
        >::Perform(BusOp::ReadBlock { len: 6 }),
        s.identifying().acked(2).after(BusEvent::<E>::Block(block)) == (
            s.interrupted(),
            Action::<ClassicOutput, E>::Complete(ClassicOutput::Identity(classify(block@))),
        ),
{
    let s0 = s.identifying();
    reveal_with_fuel(ClassicState::acked, 3);
    assert(s0.acked(1).pending =~= identity_script().skip(1));
    assert(s0.acked(2).pending =~= identity_script().skip(2));
}

/// A driver that has taken a report as its resting position reads that
/// same report as at rest, with the buttons as the report has them.
pub proof fn law_calibrated_on_report_reads_it_at_rest<E>(s: ClassicState, block: Vec<u8>)
    requires
        block@.len() == report_len(s.hires),
    ensures
        s.sampling(ClassicTask::Baseline).acked(2).after(BusEvent::<E>::Block(block)).0.sampling(
            ClassicTask::Sample { calibrated: true },
        ).acked(2).after(BusEvent::<E>::Block(block)).1 matches Action::Complete(
            ClassicOutput::Reading(c),
        ) && at_rest(c) && same_buttons(c, report_reading(s.hires, block@)),
{
    law_calibration_flow::<E>(s, block);
    let s1 = s.sampling(ClassicTask::Baseline).acked(2).after(BusEvent::<E>::Block(block)).0;
    law_read_flow::<E>(s1, true, block);
    law_calibration_idempotent(report_reading(s.hires, block@));
}

} // verus!
