//! A register-oriented, SPI-style interface carried over a blocking byte
//! transport such as a UART.
//!
//! A register read is the frame `'R', register, length`, a flush, then
//! `length` bytes from the far end; a register write is the frame
//! `'W', register, length, payload...`, then a flush. The caller's buffer
//! holds the register in byte 0 and the payload after it.
//!
//! [`Frame`] decides, one step at a time, which transport operation comes
//! next and what each outcome does to the buffer; whoever owns the transport
//! performs the operations. [`UARTSPI`] owns the transport, and [`NoOpPin`]
//! stands in for chip-select or reset lines that do not exist.
mod adapter;
mod frame;
mod pin;
mod trace;

pub use adapter::{lemma_free_after_new, UARTSPI};
pub use frame::{
    command_byte, fits, frame_ops, header, next_step, op_count, record_step, start_model, Command,
    Frame, FrameError, FrameModel, Next, Op, Outcome, MAX_BUFFER_LEN, READ_COMMAND, WRITE_COMMAND,
};
pub use pin::NoOpPin;
pub use trace::{
    filled, lemma_empty_frame, lemma_fault_at, lemma_read_frame, lemma_write_frame, received,
    replies, run,
};
