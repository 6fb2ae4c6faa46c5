use vstd::prelude::*;

verus! {

/// Command byte that opens a register-read frame (ASCII `R`).
pub const READ_COMMAND: u8 = 0x52;

/// Command byte that opens a register-write frame (ASCII `W`).
pub const WRITE_COMMAND: u8 = 0x57;

/// Largest buffer a frame can carry: the register byte plus a payload whose
/// length fits the one-byte length field.
pub const MAX_BUFFER_LEN: usize = 256;

/// The two kinds of frame.
#[derive(Clone, Copy, Debug, PartialEq, Eq, Structural)]
pub enum Command {
    /// `'R', register, length`, flush, then `length` bytes come back.
    Read,
    /// `'W', register, length, payload...`, then flush.
    Write,
}

/// One blocking operation on the byte transport.
#[derive(Clone, Copy, Debug, PartialEq, Eq, Structural)]
pub enum Op {
    /// Transmit one byte.
    Send(u8),
    /// Flush the transport: the frame boundary seen by the far end.
    Flush,
    /// Receive one byte.
    Receive,
}

/// What the transport reported for the operation just performed.
#[derive(Clone, Copy, Debug, PartialEq, Eq, Structural)]
pub enum Outcome {
    /// A send or flush completed.
    Done,
    /// A receive completed with this byte.
    Byte(u8),
    /// The transport reported a failure.
    Fault,
}

/// What the driver of a frame has to do next.
#[derive(Clone, Copy, Debug, PartialEq, Eq, Structural)]
pub enum Next {
    /// Perform this operation and report its outcome.
    Perform(Op),
    /// Every operation of the frame completed.
    Succeeded,
    /// An operation failed; the frame is abandoned.
    Failed,
}

/// A buffer that a frame cannot describe.
#[derive(Clone, Copy, Debug, PartialEq, Eq, Structural)]
pub enum FrameError {
    /// The payload (everything after the register byte) is longer than 255
    /// bytes, which the one-byte length field cannot express.
    PayloadTooLong,
}

/// Whether an outcome is a possible answer to an operation.
pub open spec fn fits(op: Op, outcome: Outcome) -> bool {
    match outcome {
        Outcome::Fault => true,
        Outcome::Done => op != Op::Receive,
        Outcome::Byte(_) => op == Op::Receive,
    }
}

impl Outcome {
    /// Whether this outcome is a possible answer to `op`.
    pub fn fits(&self, op: Op) -> (r: bool)
        ensures
            r == fits(op, *self),
    {
        match self {
            Outcome::Fault => true,
            Outcome::Done => !matches!(op, Op::Receive),
            Outcome::Byte(_) => matches!(op, Op::Receive),
        }
    }
}

/// The command byte that opens a frame.
pub open spec fn command_byte(command: Command) -> u8 {
    match command {
        Command::Read => READ_COMMAND,
        Command::Write => WRITE_COMMAND,
    }
}

/// The three header operations: command, register, payload length.
pub open spec fn header(command: Command, words: Seq<u8>) -> Seq<Op>
    recommends
        words.len() >= 1,
{
    seq![Op::Send(command_byte(command)), Op::Send(words[0]), Op::Send((words.len() - 1) as u8)]
}

/// The operations that exchange the buffer `words` with the far end, in
/// order. Byte 0 of the buffer is the register; the rest is the payload.
/// An empty buffer needs no operation at all.
pub open spec fn frame_ops(command: Command, words: Seq<u8>) -> Seq<Op> {
    if words.len() == 0 {
        seq![]
    } else {
        match command {
            Command::Write => header(command, words) + Seq::new(
                (words.len() - 1) as nat,
                |i: int| Op::Send(words[i + 1]),
            ) + seq![Op::Flush],
            Command::Read => header(command, words) + seq![Op::Flush] + Seq::new(
                (words.len() - 1) as nat,
                |i: int| Op::Receive,
            ),
        }
    }
}

/// How many operations a frame over a buffer of `size` bytes has.
pub open spec fn op_count(size: nat) -> nat {
    if size == 0 {
        0
    } else {
        size + 3
    }
}

/// The state of a frame: which kind, over how large a buffer, how many of
/// its operations completed, and whether one failed.
pub struct FrameModel {
    pub command: Command,
    pub size: nat,
    pub position: nat,
    pub failed: bool,
}

impl FrameModel {
    /// The states that a frame can reach.
    pub open spec fn wf(self) -> bool {
        &&& self.size <= MAX_BUFFER_LEN
        &&& self.position <= op_count(self.size)
        &&& self.failed ==> self.position < op_count(self.size)
    }

    /// Still has operations to perform.
    pub open spec fn running(self) -> bool {
        !self.failed && self.position < op_count(self.size)
    }
}

/// A fresh frame over a buffer of `size` bytes.
pub open spec fn start_model(command: Command, size: nat) -> FrameModel {
    FrameModel { command, size, position: 0, failed: false }
}

/// The step a frame in state `m` asks for, over the buffer `words`.
pub open spec fn next_step(m: FrameModel, words: Seq<u8>) -> Next {
    if m.failed {
        Next::Failed
    } else if m.position >= op_count(m.size) {
        Next::Succeeded
    } else {
        Next::Perform(frame_ops(m.command, words)[m.position as int])
    }
}

/// The state and buffer after the outcome of the pending operation is
/// recorded. A received byte lands at its place in the payload; a failure
/// stops the frame and leaves the buffer as it is.
pub open spec fn record_step(m: FrameModel, words: Seq<u8>, outcome: Outcome) -> (FrameModel, Seq<u8>) {
    match outcome {
        Outcome::Fault => (FrameModel { failed: true, ..m }, words),
        Outcome::Done => (FrameModel { position: m.position + 1, ..m }, words),
        Outcome::Byte(b) => (
            FrameModel { position: m.position + 1, ..m },
            words.update(m.position - 3, b),
        ),
    }
}

/// A frame in progress over a caller's buffer.
///
/// The frame never holds the buffer: each call takes it, and it must be the
/// buffer the frame was started on.
pub struct Frame {
    command: Command,
    size: usize,
    position: usize,
    failed: bool,
}

impl View for Frame {
    type V = FrameModel;

    closed spec fn view(&self) -> FrameModel {
        FrameModel {
            command: self.command,
            size: self.size as nat,
            position: self.position as nat,
            failed: self.failed,
        }
    }
}

impl Frame {
    /// Begin a frame over `words`; a payload longer than 255 bytes is
    /// refused before anything is sent.
    pub fn start(command: Command, words: &[u8]) -> (r: Result<Frame, FrameError>)
        ensures
            words@.len() > MAX_BUFFER_LEN <==> r is Err,
            r matches Ok(f) ==> f@ == start_model(command, words@.len()),
            r matches Err(e) ==> e == FrameError::PayloadTooLong,
    {
        if words.len() > MAX_BUFFER_LEN {
            Err(FrameError::PayloadTooLong)
        } else {
            Ok(Frame { command, size: words.len(), position: 0, failed: false })
        }
    }

    /// The length of the buffer this frame was started on.
    pub fn buffer_len(&self) -> (r: usize)
        ensures
            r == self@.size,
    {
        self.size
    }

    /// The step this frame asks for next.
    pub fn next(&self, words: &[u8]) -> (r: Next)
        requires
            self@.wf(),
            words@.len() == self@.size,
        ensures
            r == next_step(self@, words@),
    {
        if self.failed {
            return Next::Failed;
        }
        if self.size == 0 || self.position >= self.size + 3 {
            return Next::Succeeded;
        }
        let ghost ops = frame_ops(self.command, words@);
        let p = self.position;
        let op = if p == 0 {
            Op::Send(match self.command {
                Command::Read => READ_COMMAND,
                Command::Write => WRITE_COMMAND,
            })
        } else if p == 1 {
            Op::Send(words[0])
        } else if p == 2 {
            Op::Send((self.size - 1) as u8)
        } else {
            match self.command {
                Command::Write => if p < self.size + 2 {
                    Op::Send(words[p - 2])
                } else {
                    Op::Flush
                },
                Command::Read => if p == 3 {
                    Op::Flush
                } else {
                    Op::Receive
                },
            }
        };
        assert(op == ops[p as int]);
        Next::Perform(op)
    }

    /// Record the outcome of the operation that `next` asked for. A byte
    /// received is written at its place in the buffer; a failure abandons
    /// the frame, and bytes already received stay where they are.
    pub fn record(&mut self, words: &mut [u8], outcome: Outcome)
        requires
            old(self)@.wf(),
            old(self)@.running(),
            old(words)@.len() == old(self)@.size,
            fits(frame_ops(old(self)@.command, old(words)@)[old(self)@.position as int], outcome),
        ensures
            (final(self)@, final(words)@) == record_step(old(self)@, old(words)@, outcome),
            final(self)@.wf(),
    {
        match outcome {
            Outcome::Fault => {
                self.failed = true;
            },
            Outcome::Done => {
                self.position = self.position + 1;
            },
            Outcome::Byte(b) => {
                words[self.position - 3] = b;
                self.position = self.position + 1;
            },
        }
    }
}

} // verus!
