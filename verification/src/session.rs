//! One driver operation as a sequence of pin and bus steps.
//!
//! A [`Session`] decides which step comes next; the caller performs it on the
//! hardware and hands back how it went. Every register access drives the
//! enable pin low, exchanges one frame on the bus and drives the pin high
//! again; the first step that fails ends the operation with its error.
use vstd::prelude::*;

use crate::Error;
use crate::config::{DeviceConfig, DEVICE_ID, MAX_ADDRESS, REG_DEVICE_CTRL, REG_DEVICE_ID};
use crate::frame::{
    burst_bytes, burst_fits, burst_frame, burst_in_range, decode_burst, decode_word,
    decode_words, encode_burst_frame, encode_word_frame, read_command, read_command_byte, word_frame,
    word_of, MAX_BURST,
};

verus! {

/// A driver operation.
pub enum Request {
    /// Check that the device answers with its identification, then write the
    /// device control register.
    Init(DeviceConfig),
    /// Read one register.
    ReadRegister(u8),
    /// Read this many consecutive registers from the address on.
    ReadRegisters(u8, usize),
    /// Write one register.
    WriteRegister(u8, u16),
    /// Write consecutive registers from the address on.
    WriteRegisters(u8, Vec<u16>),
}

/// A driver operation, as a mathematical value.
pub enum RequestView {
    Init(DeviceConfig),
    ReadRegister(u8),
    ReadRegisters(u8, nat),
    WriteRegister(u8, u16),
    WriteRegisters(u8, Seq<u16>),
}

impl View for Request {
    type V = RequestView;

    open spec fn view(&self) -> RequestView {
        match self {
            Request::Init(c) => RequestView::Init(*c),
            Request::ReadRegister(a) => RequestView::ReadRegister(*a),
            Request::ReadRegisters(a, n) => RequestView::ReadRegisters(*a, *n as nat),
            Request::WriteRegister(a, d) => RequestView::WriteRegister(*a, *d),
            Request::WriteRegisters(a, d) => RequestView::WriteRegisters(*a, d@),
        }
    }
}

impl RequestView {
    /// Whether every register the operation touches exists (and a burst is
    /// no longer than a burst may be).
    pub open spec fn valid(self) -> bool {
        match self {
            RequestView::Init(_) => true,
            RequestView::ReadRegister(a) => a <= MAX_ADDRESS,
            RequestView::WriteRegister(a, _) => a <= MAX_ADDRESS,
            RequestView::ReadRegisters(s, n) => burst_fits(s, n),
            RequestView::WriteRegisters(s, d) => burst_fits(s, d.len()),
        }
    }

    /// Whether the range of a burst can be checked in byte arithmetic: a burst
    /// of at most twenty registers must end at an address from 0 to 254.
    pub open spec fn checkable(self) -> bool {
        match self {
            RequestView::ReadRegisters(s, n) => n > MAX_BURST || 1 <= s + n <= 255,
            RequestView::WriteRegisters(s, d) => d.len() > MAX_BURST || 1 <= s + d.len() <= 255,
            _ => true,
        }
    }
}

/// A step on the hardware.
pub enum BusOp {
    /// Drive the enable pin high.
    EnableHigh,
    /// Drive the enable pin low.
    EnableLow,
    /// Send the command byte and receive `read_len` bytes meanwhile.
    Transfer { command: u8, read_len: usize },
    /// Send a frame that writes one register.
    Write([u8; 3]),
    /// Send a frame that writes consecutive registers.
    WriteBurst(heapless::Vec<u8, 41>),
}

/// A step on the hardware, as a mathematical value.
pub enum BusOpView {
    EnableHigh,
    EnableLow,
    /// The bytes sent, and how many bytes are received meanwhile.
    Transfer(Seq<u8>, nat),
    /// The bytes sent.
    Write(Seq<u8>),
}

impl View for BusOp {
    type V = BusOpView;

    open spec fn view(&self) -> BusOpView {
        match self {
            BusOp::EnableHigh => BusOpView::EnableHigh,
            BusOp::EnableLow => BusOpView::EnableLow,
            BusOp::Transfer { command, read_len } => BusOpView::Transfer(
                seq![*command],
                *read_len as nat,
            ),
            BusOp::Write(frame) => BusOpView::Write(frame@),
            BusOp::WriteBurst(buf) => BusOpView::Write(burst_bytes(*buf)),
        }
    }
}

/// How a step on the hardware went.
pub enum Outcome<S, P> {
    /// The step succeeded; a transfer hands over the bytes it received, the
    /// other steps hand over nothing in particular.
    Completed(Vec<u8>),
    /// Driving the enable pin failed.
    PinFailed(P),
    /// The bus failed.
    SpiFailed(S),
}

/// What follows a step.
pub enum Step<S, P> {
    /// Perform this step, then hand its outcome to the session.
    Next(Session, BusOp),
    /// The operation is over: the register values it read, or its error.
    Done(Result<Vec<u16>, Error<S, P>>),
}

/// A driver operation under way.
pub struct Session {
    request: Request,
    probing: bool,
    pos: usize,
    received: Vec<u8>,
}

/// A driver operation under way, as a mathematical value: the operation,
/// whether the identification is still being checked (bring-up only), the
/// index of the step awaited, and the bytes the transfer received.
pub struct SessionView {
    pub request: RequestView,
    pub probing: bool,
    pub pos: nat,
    pub received: Seq<u8>,
}

/// A register access: enable low, one frame on the bus, enable high.
pub open spec fn framed(op: BusOpView) -> Seq<BusOpView> {
    seq![BusOpView::EnableLow, op, BusOpView::EnableHigh]
}

/// The steps of an operation, or of the identification check that opens bring-up.
pub open spec fn script(request: RequestView, probing: bool) -> Seq<BusOpView> {
    match request {
        RequestView::Init(config) => if probing {
            seq![BusOpView::EnableHigh] + framed(
                BusOpView::Transfer(seq![read_command(REG_DEVICE_ID)], 3),
            )
        } else {
            framed(BusOpView::Write(word_frame(REG_DEVICE_CTRL, config.word())))
        },
        RequestView::ReadRegister(a) => framed(BusOpView::Transfer(seq![read_command(a)], 3)),
        RequestView::ReadRegisters(s, n) => framed(
            BusOpView::Transfer(seq![read_command(s)], 2 * n + 1),
        ),
        RequestView::WriteRegister(a, d) => framed(BusOpView::Write(word_frame(a, d))),
        RequestView::WriteRegisters(s, d) => framed(BusOpView::Write(burst_frame(s, d))),
    }
}

/// Where the bus transfer stands in a script.
pub open spec fn transfer_pos(probing: bool) -> nat {
    if probing {
        2
    } else {
        1
    }
}

/// The register value received in a single-register transfer.
pub open spec fn reply_word(received: Seq<u8>) -> u16 {
    word_of(received[1], received[2])
}

/// Whether an outcome can answer a step: a transfer hands over as many bytes
/// as it receives.
pub open spec fn fits<S, P>(op: BusOpView, outcome: Outcome<S, P>) -> bool {
    match op {
        BusOpView::Transfer(_, n) => match outcome {
            Outcome::Completed(bytes) => bytes@.len() == n,
            _ => true,
        },
        _ => true,
    }
}

/// The operation ended with these register values.
pub open spec fn done_with<S, P>(step: Step<S, P>, words: Seq<u16>) -> bool {
    step matches Step::Done(Ok(w)) && w@ == words
}

/// The session went on to `next`, asking for `op`.
pub open spec fn goes_on<S, P>(step: Step<S, P>, next: SessionView, op: BusOpView) -> bool {
    step matches Step::Next(s, o) && s@ == next && o@ == op
}

/// How an operation ends once its last step succeeded, with `received` the
/// bytes its transfer received.
pub open spec fn finishes<S, P>(
    request: RequestView,
    probing: bool,
    received: Seq<u8>,
    step: Step<S, P>,
) -> bool {
    match request {
        RequestView::Init(_) => if probing {
            if reply_word(received) == DEVICE_ID {
                goes_on(
                    step,
                    SessionView { request, probing: false, pos: 0, received },
                    BusOpView::EnableLow,
                )
            } else {
                step matches Step::Done(Err(Error::Conn))
            }
        } else {
            done_with(step, seq![])
        },
        RequestView::ReadRegister(_) => done_with(step, seq![reply_word(received)]),
        RequestView::ReadRegisters(_, n) => done_with(step, decode_words(received, n)),
        RequestView::WriteRegister(_, _) => done_with(step, seq![]),
        RequestView::WriteRegisters(_, _) => done_with(step, seq![]),
    }
}

impl SessionView {
    /// The step the session waits for.
    pub open spec fn awaiting(self) -> BusOpView {
        script(self.request, self.probing)[self.pos as int]
    }

    /// The session is one the driver can reach: a valid operation, a step
    /// within its script, and, once the transfer is past, all its bytes.
    pub open spec fn wf(self) -> bool {
        &&& self.request.valid()
        &&& self.probing ==> self.request is Init
        &&& self.pos < script(self.request, self.probing).len()
        &&& match script(self.request, self.probing)[transfer_pos(self.probing) as int] {
            BusOpView::Transfer(_, n) => self.pos > transfer_pos(self.probing)
                ==> self.received.len() == n,
            _ => true,
        }
    }
}

impl View for Session {
    type V = SessionView;

    closed spec fn view(&self) -> SessionView {
        SessionView {
            request: self.request@,
            probing: self.probing,
            pos: self.pos as nat,
            received: self.received@,
        }
    }
}

impl Session {
    /// The step at `pos` of the session's script.
    fn op_at(&self) -> (op: BusOp)
        requires
            self@.wf(),
        ensures
            op@ == self@.awaiting(),
    {
        if self.probing {
            if self.pos == 0 || self.pos == 3 {
                BusOp::EnableHigh
            } else if self.pos == 1 {
                BusOp::EnableLow
            } else {
                BusOp::Transfer { command: read_command_byte(REG_DEVICE_ID), read_len: 3 }
            }
        } else if self.pos == 0 {
            BusOp::EnableLow
        } else if self.pos == 2 {
            BusOp::EnableHigh
        } else {
            match &self.request {
                Request::Init(config) => BusOp::Write(
                    encode_word_frame(REG_DEVICE_CTRL, config.as_u16()),
                ),
                Request::ReadRegister(a) => BusOp::Transfer {
                    command: read_command_byte(*a),
                    read_len: 3,
                },
                Request::ReadRegisters(s, n) => BusOp::Transfer {
                    command: read_command_byte(*s),
                    read_len: 2 * *n + 1,
                },
                Request::WriteRegister(a, d) => BusOp::Write(encode_word_frame(*a, *d)),
                Request::WriteRegisters(s, d) => BusOp::WriteBurst(
                    encode_burst_frame(*s, d.as_slice()),
                ),
            }
        }
    }

    /// Starts an operation: an operation on a register that does not exist is
    /// refused with an address error before any step; otherwise the first step
    /// of its script is asked for (bring-up opens with the identification check).
    pub fn begin<S, P>(request: Request) -> (step: Step<S, P>)
        requires
            request@.checkable(),
        ensures
            !request@.valid() ==> step matches Step::Done(Err(Error::Address)),
            request@.valid() ==> goes_on(
                step,
                SessionView {
                    request: request@,
                    probing: request@ is Init,
                    pos: 0,
                    received: Seq::empty(),
                },
                script(request@, request@ is Init)[0],
            ),
            step matches Step::Next(s, _) ==> s@.wf(),
    {
        let valid = match &request {
            Request::Init(_) => true,
            Request::ReadRegister(a) => *a <= MAX_ADDRESS,
            Request::WriteRegister(a, _) => *a <= MAX_ADDRESS,
            Request::ReadRegisters(s, n) => burst_in_range(*s, *n),
            Request::WriteRegisters(s, d) => burst_in_range(*s, d.len()),
        };
        if !valid {
            return Step::Done(Err(Error::Address));
        }
        let probing = match &request {
            Request::Init(_) => true,
            _ => false,
        };
        let session = Session { request, probing, pos: 0, received: Vec::new() };
        let op = session.op_at();
        Step::Next(session, op)
    }

    /// Takes the outcome of the awaited step. A failed step ends the operation
    /// with its error. A completed step leads to the next step of the script;
    /// after the last one the operation ends with the values it read, except
    /// that the identification check of bring-up goes on to write the device
    /// control register when the device answered with its identification, and
    /// ends with a connection error otherwise.
    pub fn advance<S, P>(self, outcome: Outcome<S, P>) -> (step: Step<S, P>)
        requires
            self@.wf(),
            fits(self@.awaiting(), outcome),
        ensures
            outcome matches Outcome::PinFailed(p) ==> step matches Step::Done(Err(Error::Pin(q)))
                && q == p,
            outcome matches Outcome::SpiFailed(e) ==> step matches Step::Done(Err(Error::Spi(f)))
                && f == e,
            outcome matches Outcome::Completed(bytes) ==> {
                let v = self@;
                let received = if v.awaiting() is Transfer {
                    bytes@
                } else {
                    v.received
                };
                if v.pos + 1 < script(v.request, v.probing).len() {
                    goes_on(
                        step,
                        SessionView { pos: v.pos + 1, received, ..v },
                        script(v.request, v.probing)[(v.pos + 1) as int],
                    )
                } else {
                    finishes(v.request, v.probing, received, step)
                }
            },
            step matches Step::Next(s, _) ==> s@.wf(),
    {
        let bytes = match outcome {
            Outcome::PinFailed(p) => {
                return Step::Done(Err(Error::Pin(p)));
            },
            Outcome::SpiFailed(e) => {
                return Step::Done(Err(Error::Spi(e)));
            },
            Outcome::Completed(bytes) => bytes,
        };
        let ghost v = self@;
        let is_transfer = (self.probing && self.pos == 2) || (!self.probing && self.pos == 1
            && match &self.request {
            Request::ReadRegister(_) => true,
            Request::ReadRegisters(_, _) => true,
            _ => false,
        });
        let Session { request, probing, pos, received } = self;
        let received = if is_transfer {
            bytes
        } else {
            received
        };
        let last: usize = if probing {
            3
        } else {
            2
        };
        if pos < last {
            let session = Session { request, probing, pos: pos + 1, received };
            let op = session.op_at();
            return Step::Next(session, op);
        }
        match request {
            Request::Init(config) => {
                if probing {
                    if decode_word(received[1], received[2]) == DEVICE_ID {
                        let session = Session {
                            request: Request::Init(config),
                            probing: false,
                            pos: 0,
                            received,
                        };
                        let op = session.op_at();
                        Step::Next(session, op)
                    } else {
                        Step::Done(Err(Error::Conn))
                    }
                } else {
                    Step::Done(Ok(Vec::new()))
                }
            },
            Request::ReadRegister(_) => {
                let mut words = Vec::new();
                words.push(decode_word(received[1], received[2]));
                Step::Done(Ok(words))
            },
            Request::ReadRegisters(_, n) => Step::Done(Ok(decode_burst(received.as_slice(), n))),
            Request::WriteRegister(_, _) => Step::Done(Ok(Vec::new())),
            Request::WriteRegisters(_, _) => Step::Done(Ok(Vec::new())),
        }
    }
}

/// Every frame on the bus is sent with the enable pin low: in the steps of
/// every operation, each transfer or write is preceded by driving the pin low
/// and followed by driving it high, and every script ends with the pin high.
pub proof fn lemma_frames_are_enclosed(request: RequestView, probing: bool)
    ensures
        forall|i: int|
            0 <= i < script(request, probing).len() && !(#[trigger] script(request, probing)[i] is EnableHigh
                || script(request, probing)[i] is EnableLow) ==> 1 <= i < script(request, probing).len()
                - 1 && script(request, probing)[i - 1] is EnableLow && script(request, probing)[i
                + 1] is EnableHigh,
        script(request, probing).last() is EnableHigh,
{
}

/// The identification check that opens bring-up writes nothing: none of its
/// steps sends a write frame, so the device control register is written only
/// after the device answered with its identification.
pub proof fn lemma_probe_only_reads(config: DeviceConfig)
    ensures
        forall|i: int|
            0 <= i < script(RequestView::Init(config), true).len() ==> !(#[trigger] script(
                RequestView::Init(config),
                true,
            )[i] is Write),
{
}

/// A burst read of one register is a single read: the same registers are
/// accepted, the same steps are asked for (one three-byte transfer between
/// enable low and enable high), and the same result comes of the same bytes.
/// The burst's range check is computable for every address below 255.
pub proof fn lemma_single_burst_read<S, P>(address: u8)
    ensures
        RequestView::ReadRegisters(address, 1).valid() == RequestView::ReadRegister(
            address,
        ).valid(),
        RequestView::ReadRegisters(address, 1).checkable() <==> address < 255,
        script(RequestView::ReadRegisters(address, 1), false) == script(
            RequestView::ReadRegister(address),
            false,
        ),
        forall|received: Seq<u8>, step: Step<S, P>|
            #[trigger] finishes(RequestView::ReadRegisters(address, 1), false, received, step)
                == finishes(RequestView::ReadRegister(address), false, received, step),
{
    assert(script(RequestView::ReadRegisters(address, 1), false) =~= script(
        RequestView::ReadRegister(address),
        false,
    ));
    assert forall|received: Seq<u8>, step: Step<S, P>|
        #[trigger] finishes(RequestView::ReadRegisters(address, 1), false, received, step)
            == finishes(RequestView::ReadRegister(address), false, received, step) by {
        assert(decode_words(received, 1) =~= seq![reply_word(received)]);
    }
}

/// A burst write of one value is a single write: the same registers are
/// accepted, the same steps are asked for (the same three-byte frame between
/// enable low and enable high), and the operation ends the same way.
/// The burst's range check is computable for every address below 255.
pub proof fn lemma_single_burst_write<S, P>(address: u8, data: u16)
    ensures
        RequestView::WriteRegisters(address, seq![data]).valid() == RequestView::WriteRegister(
            address,
            data,
        ).valid(),
        RequestView::WriteRegisters(address, seq![data]).checkable() <==> address < 255,
        burst_frame(address, seq![data]) == word_frame(address, data),
        script(RequestView::WriteRegisters(address, seq![data]), false) == script(
            RequestView::WriteRegister(address, data),
            false,
        ),
        forall|received: Seq<u8>, step: Step<S, P>|
            #[trigger] finishes(
                RequestView::WriteRegisters(address, seq![data]),
                false,
                received,
                step,
            ) == finishes(RequestView::WriteRegister(address, data), false, received, step),
{
    assert(burst_frame(address, seq![data]) =~= word_frame(address, data));
    assert(script(RequestView::WriteRegisters(address, seq![data]), false) =~= script(
        RequestView::WriteRegister(address, data),
        false,
    ));
}

} // verus!
