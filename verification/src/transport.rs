//! The transport: which bus transactions a register operation consists of,
//! in which order, and with which pauses between them.
//!
//! Nothing here touches a bus. An [`Interface`] holds the operations that are
//! still due. The runner that owns the bus takes the first of them, carries it
//! out at address [`EXT_I2C_ADDR`](crate::common::EXT_I2C_ADDR), and reports
//! what happened as a [`BusEvent`]. The payload of a report is not looked at
//! here.

use crate::common::Error;
use vstd::prelude::*;

verus! {

/// One step on the bus: a transaction with the controller, or a pause.
#[derive(Clone, Copy, Debug, PartialEq, Eq, Structural)]
pub enum BusOp {
    /// Write the single byte `register`: the controller's read cursor moves
    /// there.
    SetCursor { register: u8 },
    /// Write the two bytes `addr`, `value`: the register at `addr` is set.
    WriteRegister { addr: u8, value: u8 },
    /// Read `len` bytes, starting at the read cursor.
    ReadBlock { len: usize },
    /// Let `micros` microseconds pass before the next transaction.
    Delay { micros: u32 },
}

/// What came of a [`BusOp`].
#[derive(Debug)]
pub enum BusEvent<E> {
    /// The write was acknowledged, or the pause is over.
    Done,
    /// The read delivered these bytes.
    Block(Vec<u8>),
    /// The bus failed.
    Failed(E),
}

/// The pause that the controller needs between two transactions, in
/// microseconds.
pub open spec fn settle_micros() -> u32 {
    200
}

/// The pause around the handshake and around a change of resolution, in
/// microseconds: twice the usual one, because the controller is less
/// reliable during these exchanges.
pub open spec fn long_settle_micros() -> u32 {
    400
}

/// The bytes that a transaction puts on the bus. A read and a pause put
/// none.
pub open spec fn wire_bytes(op: BusOp) -> Seq<u8> {
    match op {
        BusOp::SetCursor { register } => seq![register],
        BusOp::WriteRegister { addr, value } => seq![addr, value],
        BusOp::ReadBlock { .. } => Seq::empty(),
        BusOp::Delay { .. } => Seq::empty(),
    }
}

/// The handshake that switches the controller's encryption off: the read
/// cursor goes back to 0, then 0x55 goes to register 0xF0 and 0x00 to
/// register 0xFB, with a long pause before and after each write.
pub open spec fn handshake_script() -> Seq<BusOp> {
    seq![
        BusOp::Delay { micros: long_settle_micros() },
        BusOp::SetCursor { register: 0x00 },
        BusOp::Delay { micros: long_settle_micros() },
        BusOp::WriteRegister { addr: 0xF0, value: 0x55 },
        BusOp::Delay { micros: long_settle_micros() },
        BusOp::WriteRegister { addr: 0xFB, value: 0x00 },
        BusOp::Delay { micros: long_settle_micros() },
    ]
}

/// The value of the resolution-select register for a mode: 0x03 selects
/// high-resolution reports, 0x01 standard reports.
pub open spec fn resolution_value(hires: bool) -> u8 {
    if hires {
        0x03
    } else {
        0x01
    }
}

/// The change of resolution: the mode's value goes to register 0xFE, with a
/// long pause before and after.
pub open spec fn resolution_script(hires: bool) -> Seq<BusOp> {
    seq![
        BusOp::Delay { micros: long_settle_micros() },
        BusOp::WriteRegister { addr: 0xFE, value: resolution_value(hires) },
        BusOp::Delay { micros: long_settle_micros() },
    ]
}

/// The start of a sample: the read cursor goes to 0.
pub open spec fn start_script() -> Seq<BusOp> {
    seq![BusOp::SetCursor { register: 0x00 }]
}

/// The start of a sample, and the pause that the controller needs before
/// the report can be read.
pub open spec fn start_and_wait_script() -> Seq<BusOp> {
    seq![BusOp::SetCursor { register: 0x00 }, BusOp::Delay { micros: settle_micros() }]
}

/// One sample: the read cursor goes to 0, the controller gets its pause, and
/// a report of `len` bytes is read.
pub open spec fn sample_script(len: usize) -> Seq<BusOp> {
    seq![
        BusOp::SetCursor { register: 0x00 },
        BusOp::Delay { micros: settle_micros() },
        BusOp::ReadBlock { len },
    ]
}

/// The identity read: the read cursor goes to register 0xFA, the controller
/// gets its pause, and six bytes are read.
pub open spec fn identity_script() -> Seq<BusOp> {
    seq![
        BusOp::SetCursor { register: 0xFA },
        BusOp::Delay { micros: settle_micros() },
        BusOp::ReadBlock { len: 6 },
    ]
}

/// `script` after what is `due`: the two in a row, with the usual pause put
/// between them where a transaction would otherwise follow a transaction
/// directly.
pub open spec fn followed_by(due: Seq<BusOp>, script: Seq<BusOp>) -> Seq<BusOp> {
    if due.len() > 0 && script.len() > 0 && !(due.last() is Delay) && !(script.first() is Delay) {
        due.push(BusOp::Delay { micros: settle_micros() }) + script
    } else {
        due + script
    }
}

/// No two transactions of `script` follow one another directly, and every
/// pause in it lasts at least `micros` microseconds.
pub open spec fn spaced(script: Seq<BusOp>, micros: int) -> bool {
    &&& forall|i: int|
        0 <= i < script.len() - 1 ==> (#[trigger] script[i]) is Delay || script[i + 1] is Delay
    &&& forall|i: int|
        0 <= i < script.len() ==> ((#[trigger] script[i]) matches BusOp::Delay { micros: m }
            ==> m >= micros)
}

/// `pending` is what is left of `script` once some of its operations, but
/// not all, have been carried out.
pub open spec fn is_rest_of(pending: Seq<BusOp>, script: Seq<BusOp>) -> bool {
    0 < pending.len() <= script.len() && pending == script.skip(script.len() - pending.len())
}

/// `event` is what `op` ends with when the bus works: a read ends with a
/// block of exactly the length asked for, a write or a pause with
/// [`BusEvent::Done`].
pub open spec fn answers<E>(op: BusOp, event: BusEvent<E>) -> bool {
    match op {
        BusOp::ReadBlock { len } => event matches BusEvent::Block(bytes) && bytes@.len() == len,
        _ => event is Done,
    }
}

/// The bytes that an event delivers: those of a block, and none otherwise.
pub open spec fn block_of<E>(event: BusEvent<E>) -> Seq<u8> {
    match event {
        BusEvent::Block(bytes) => bytes@,
        _ => Seq::empty(),
    }
}

impl BusOp {
    /// The bytes to write for this operation; empty for a read and for a
    /// pause.
    pub fn payload(&self) -> (bytes: Vec<u8>)
        ensures
            bytes@ == wire_bytes(*self),
    {
        let mut bytes: Vec<u8> = Vec::new();
        match *self {
            BusOp::SetCursor { register } => {
                bytes.push(register);
            },
            BusOp::WriteRegister { addr, value } => {
                bytes.push(addr);
                bytes.push(value);
            },
            BusOp::ReadBlock { .. } => {},
            BusOp::Delay { .. } => {},
        }
        assert(bytes@ =~= wire_bytes(*self));
        bytes
    }
}

/// The operations that are due on the bus, in the order in which they are
/// to be carried out. The view of an interface is that sequence.
///
/// The methods named after register operations add the operation's steps at
/// the end. Where that would put a transaction directly behind another, the
/// usual pause goes between the two, so the controller gets its pause
/// whatever is asked for and in whatever order. [`Interface::next_op`] shows
/// the first step and [`Interface::complete`] takes it off once the bus has
/// answered.
#[derive(Debug)]
pub struct Interface {
    queue: Vec<BusOp>,
}

impl View for Interface {
    type V = Seq<BusOp>;

    closed spec fn view(&self) -> Seq<BusOp> {
        self.queue@
    }
}

impl Interface {
    /// An interface with nothing due.
    pub fn new() -> (interface: Interface)
        ensures
            interface@ == Seq::<BusOp>::empty(),
    {
        Interface { queue: Vec::new() }
    }

    /// The init sequence is due: the handshake that switches the
    /// controller's encryption off.
    pub fn init(&mut self)
        ensures
            final(self)@ == followed_by(old(self)@, handshake_script()),
    {
        let pause: u32 = crate::common::INTERMESSAGE_DELAY_MICROSEC_U32 * 2;
        self.append(BusOp::Delay { micros: pause });
        self.set_read_register_address(0x00);
        self.append(BusOp::Delay { micros: pause });
        self.set_register(0xF0, 0x55);
        self.append(BusOp::Delay { micros: pause });
        self.set_register(0xFB, 0x00);
        self.append(BusOp::Delay { micros: pause });
        assert(self.queue@ =~= old(self)@ + handshake_script());
    }

    /// The controller's identity block is to be read: the read cursor goes
    /// to the identity register, the controller gets its pause, and six
    /// bytes are read.
    pub fn read_id(&mut self)
        ensures
            final(self)@ == followed_by(old(self)@, identity_script()),
    {
        self.set_read_register_address(0xFA);
        self.append(BusOp::Delay { micros: crate::common::INTERMESSAGE_DELAY_MICROSEC_U32 });
        self.read_report();
        assert(self.queue@ =~= followed_by(old(self)@, identity_script()));
    }

    /// The controller is to prepare a sample: the read cursor goes to 0.
    pub fn start_sample(&mut self)
        ensures
            final(self)@ == followed_by(old(self)@, start_script()),
    {
        self.set_read_register_address(0x00);
    }

    /// The controller is to prepare a sample, and to get the time to
    /// do so.
    pub fn start_sample_and_wait(&mut self)
        ensures
            final(self)@ == followed_by(old(self)@, start_and_wait_script()),
    {
        self.set_read_register_address(0x00);
        self.append(BusOp::Delay { micros: crate::common::INTERMESSAGE_DELAY_MICROSEC_U32 });
        assert(self.queue@ =~= followed_by(old(self)@, start_and_wait_script()));
    }

    /// The cursor position for the next read is to be set.
    ///
    /// The controller moves its read cursor on with every byte read or
    /// written, so the cursor is set before each read.
    pub fn set_read_register_address(&mut self, byte0: u8)
        ensures
            final(self)@ == followed_by(old(self)@, seq![BusOp::SetCursor { register: byte0 }]),
    {
        self.append(BusOp::SetCursor { register: byte0 });
    }

    /// A single register at the target address is to be set.
    pub fn set_register(&mut self, addr: u8, byte1: u8)
        ensures
            final(self)@ == followed_by(
                old(self)@,
                seq![BusOp::WriteRegister { addr, value: byte1 }],
            ),
    {
        self.append(BusOp::WriteRegister { addr, value: byte1 });
    }

    /// A standard report of six bytes is to be read.
    pub fn read_report(&mut self)
        ensures
            final(self)@ == followed_by(old(self)@, seq![BusOp::ReadBlock { len: 6 }]),
    {
        self.append(BusOp::ReadBlock { len: 6 });
    }

    /// A high-resolution report of eight bytes is to be read.
    pub fn read_hd_report(&mut self)
        ensures
            final(self)@ == followed_by(old(self)@, seq![BusOp::ReadBlock { len: 8 }]),
    {
        self.append(BusOp::ReadBlock { len: 8 });
    }

    /// The controller is to be switched to high-resolution reports.
    pub fn enable_hires(&mut self)
        ensures
            final(self)@ == followed_by(old(self)@, resolution_script(true)),
    {
        let pause: u32 = crate::common::INTERMESSAGE_DELAY_MICROSEC_U32 * 2;
        self.append(BusOp::Delay { micros: pause });
        self.set_register(0xFE, 0x03);
        self.append(BusOp::Delay { micros: pause });
        assert(self.queue@ =~= old(self)@ + resolution_script(true));
    }

    /// The controller is to be asked for standard reports again.
    ///
    /// Controllers are known to ignore this: they keep sending
    /// high-resolution reports.
    pub fn disable_hires(&mut self)
        ensures
            final(self)@ == followed_by(old(self)@, resolution_script(false)),
    {
        let pause: u32 = crate::common::INTERMESSAGE_DELAY_MICROSEC_U32 * 2;
        self.append(BusOp::Delay { micros: pause });
        self.set_register(0xFE, 0x01);
        self.append(BusOp::Delay { micros: pause });
        assert(self.queue@ =~= old(self)@ + resolution_script(false));
    }

    /// Add one operation at the end, behind the usual pause where it is a
    /// transaction and the last operation due is one too.
    fn append(&mut self, op: BusOp)
        ensures
            final(self)@ == followed_by(old(self)@, seq![op]),
    {
        let due: usize = self.queue.len();
        if due > 0 {
            match (self.queue[due - 1], op) {
                (BusOp::Delay { .. }, _) => {},
                (_, BusOp::Delay { .. }) => {},
                _ => {
                    self.queue.push(
                        BusOp::Delay { micros: crate::common::INTERMESSAGE_DELAY_MICROSEC_U32 },
                    );
                },
            }
        }
        self.queue.push(op);
        assert(self.queue@ =~= followed_by(old(self)@, seq![op]));
    }

    /// Drop everything that is due.
    pub fn clear(&mut self)
        ensures
            final(self)@ == Seq::<BusOp>::empty(),
    {
        self.queue.clear();
    }

    /// The operation to carry out next, `None` where nothing is due.
    pub fn next_op(&self) -> (op: Option<BusOp>)
        ensures
            op == (if self@.len() > 0 {
                Some(self@[0])
            } else {
                None
            }),
    {
        if self.queue.len() > 0 {
            Some(self.queue[0])
        } else {
            None
        }
    }

    /// Take in what the bus did with the first operation due.
    ///
    /// Where the event answers that operation, the operation is taken off
    /// and the bytes that the event delivered are returned (none for a write
    /// or a pause). Otherwise nothing stays due, and the error says why: a
    /// failure of the bus is handed on as [`Error::I2C`]; an event that
    /// answers nothing due, such as a block of another length than asked
    /// for, is [`Error::InvalidInputData`]. Nothing is tried again.
    pub fn complete<E>(&mut self, event: BusEvent<E>) -> (res: Result<Vec<u8>, Error<E>>)
        ensures
            match res {
                Ok(block) => {
                    &&& old(self)@.len() > 0
                    &&& answers(old(self)@[0], event)
                    &&& final(self)@ == old(self)@.drop_first()
                    &&& block@ == block_of(event)
                },
                Err(Error::I2C(e)) => {
                    &&& event == BusEvent::Failed(e)
                    &&& final(self)@ == Seq::<BusOp>::empty()
                },
                Err(Error::InvalidInputData) => {
                    &&& !(event is Failed)
                    &&& !(old(self)@.len() > 0 && answers(old(self)@[0], event))
                    &&& final(self)@ == Seq::<BusOp>::empty()
                },
            },
    {
        match event {
            BusEvent::Failed(e) => {
                self.queue.clear();
                Err(Error::I2C(e))
            },
            BusEvent::Done => {
                if self.queue.len() == 0 {
                    return Err(Error::InvalidInputData);
                }
                match self.queue[0] {
                    BusOp::ReadBlock { .. } => {
                        self.queue.clear();
                        Err(Error::InvalidInputData)
                    },
                    _ => {
                        let _ = self.queue.remove(0);
                        assert(self.queue@ =~= old(self)@.drop_first());
                        Ok(Vec::new())
                    },
                }
            },
            BusEvent::Block(bytes) => {
                if self.queue.len() == 0 {
                    return Err(Error::InvalidInputData);
                }
                match self.queue[0] {
                    BusOp::ReadBlock { len } => {
                        if bytes.len() == len {
                            let _ = self.queue.remove(0);
                            assert(self.queue@ =~= old(self)@.drop_first());
                            Ok(bytes)
                        } else {
                            self.queue.clear();
                            Err(Error::InvalidInputData)
                        }
                    },
                    _ => {
                        self.queue.clear();
                        Err(Error::InvalidInputData)
                    },
                }
            },
        }
    }
}

/// The controller gets its pause between any two transactions of every
/// exchange: of the handshake, of a change of resolution, of a sample, of
/// the identity read, and of the sample that follows a handshake or a change
/// of resolution. The pause is at least 200 microseconds, and 400 before and
/// after each write of the handshake and of a change of resolution.
pub proof fn law_exchanges_are_spaced(hires: bool, len: usize)
    ensures
        spaced(handshake_script(), 400),
        spaced(resolution_script(hires), 400),
        spaced(sample_script(len), 200),
        spaced(identity_script(), 200),
        spaced(start_script(), 200),
        spaced(start_and_wait_script(), 200),
        spaced(handshake_script() + sample_script(len), 200),
        spaced(resolution_script(hires) + sample_script(len), 200),
        handshake_script().first() is Delay,
        handshake_script().last() is Delay,
        resolution_script(hires).first() is Delay,
        resolution_script(hires).last() is Delay,
{
}

/// Whatever is asked of an interface, and in whatever order, the controller
/// gets its pause: a script that is put behind what is due leaves no two
/// transactions in a row, provided that neither had two in a row before.
/// Every method of an interface puts a script or a single transaction
/// behind what is due, and a new interface has nothing due.
pub proof fn law_queue_stays_spaced(due: Seq<BusOp>, script: Seq<BusOp>)
    requires
        spaced(due, 200),
        spaced(script, 200),
    ensures
        spaced(followed_by(due, script), 200),
        spaced(Seq::<BusOp>::empty(), 200),
        forall|op: BusOp| !(op is Delay) ==> #[trigger] spaced(seq![op], 200),
{
    let all = followed_by(due, script);
    let n = due.len() as int;
    if due.len() > 0 && script.len() > 0 && !(due.last() is Delay) && !(script.first() is Delay) {
        assert forall|i: int| 0 <= i < all.len() - 1 implies (#[trigger] all[i]) is Delay || all[i
            + 1] is Delay by {
            if i < n - 1 {
                assert(all[i] == due[i] && all[i + 1] == due[i + 1]);
            } else if i == n - 1 {
            } else if i == n {
            } else {
                assert(all[i] == script[i - n - 1] && all[i + 1] == script[i - n]);
            }
        }
        assert forall|i: int| 0 <= i < all.len() implies ((#[trigger] all[i]) matches BusOp::Delay {
            micros: m,
        } ==> m >= 200) by {
            if i < n {
                assert(all[i] == due[i]);
            } else if i == n {
            } else {
                assert(all[i] == script[i - n - 1]);
            }
        }
    } else {
        assert forall|i: int| 0 <= i < all.len() - 1 implies (#[trigger] all[i]) is Delay || all[i
            + 1] is Delay by {
            if i < n - 1 {
                assert(all[i] == due[i] && all[i + 1] == due[i + 1]);
            } else if i == n - 1 {
                assert(all[i] == due.last() && all[i + 1] == script.first());
            } else {
                assert(all[i] == script[i - n] && all[i + 1] == script[i - n + 1]);
            }
        }
        assert forall|i: int| 0 <= i < all.len() implies ((#[trigger] all[i]) matches BusOp::Delay {
            micros: m,
        } ==> m >= 200) by {
            if i < n {
                assert(all[i] == due[i]);
            } else {
                assert(all[i] == script[i - n]);
            }
        }
    }
}

/// Before anything has been carried out, the whole script is left.
pub(crate) proof fn lemma_whole_script_is_left(script: Seq<BusOp>)
    requires
        script.len() > 0,
    ensures
        is_rest_of(script, script),
{
    assert(script =~= script.skip(0));
}

/// Once the first of several operations left has been carried out, the
/// others are what is left of the script.
pub(crate) proof fn lemma_rest_gets_shorter(pending: Seq<BusOp>, script: Seq<BusOp>)
    requires
        is_rest_of(pending, script),
        pending.len() > 1,
    ensures
        is_rest_of(pending.drop_first(), script),
{
    assert(pending.drop_first() =~= script.skip(script.len() - pending.len() + 1));
}

/// What is left of a script in which the controller gets its pauses is such
/// a script itself.
pub proof fn law_rest_is_spaced(pending: Seq<BusOp>, script: Seq<BusOp>, micros: int)
    requires
        is_rest_of(pending, script),
        spaced(script, micros),
    ensures
        spaced(pending, micros),
{
    let k = script.len() - pending.len();
    assert forall|i: int| 0 <= i < pending.len() - 1 implies (#[trigger] pending[i]) is Delay
        || pending[i + 1] is Delay by {
        assert(pending[i] == script[i + k] && pending[i + 1] == script[i + k + 1]);
    }
    assert forall|i: int| 0 <= i < pending.len() implies ((#[trigger] pending[i]) matches
    BusOp::Delay { micros: m } ==> m >= micros) by {
        assert(pending[i] == script[i + k]);
    }
}

/// What is left of a script ends as the script does.
pub(crate) proof fn lemma_rest_ends_as_script(pending: Seq<BusOp>, script: Seq<BusOp>)
    requires
        is_rest_of(pending, script),
    ensures
        pending.last() == script.last(),
{
}

} // verus!
