//! The native engine's status vocabulary, and the fixed mapping that
//! turns a host I/O failure category into a status code.
//!
//! The engine exchanges every per-call outcome as a signed integer: a
//! non-negative value is a byte count or an absolute offset, a negative
//! value is a status code. Error codes are negated system error numbers;
//! the end-of-stream sentinel is its own tag, distinct from every negated
//! error number.

use vstd::prelude::*;

verus! {

/// End-of-stream sentinel: the negated tag of the bytes `'E' 'O' 'F' ' '`.
pub const STATUS_EOF: i32 = -541478725;

/// Interrupted call: the negated system error number for an interrupted
/// operation.
pub const STATUS_INTERRUPTED: i32 = -4;

/// Generic I/O failure: the negated system error number for an I/O error.
pub const STATUS_IO_ERROR: i32 = -5;

/// Would block or timed out: the negated system error number for
/// "try again".
pub const STATUS_AGAIN: i32 = -11;

/// Allocation failure: the negated system error number for out of memory.
pub const STATUS_NO_MEMORY: i32 = -12;

/// Invalid argument: the negated system error number for a bad parameter.
pub const STATUS_INVALID_ARG: i32 = -22;

/// Operation not supported: the negated system error number for a missing
/// implementation.
pub const STATUS_UNSUPPORTED: i32 = -38;

/// Positional seek origins use the conventional whence encoding.
pub const WHENCE_START: i32 = 0;

/// Seek relative to the current position.
pub const WHENCE_CURRENT: i32 = 1;

/// Seek relative to the end of the stream.
pub const WHENCE_END: i32 = 2;

/// Reserved whence value: report the total stream size without moving the
/// logical position.
pub const WHENCE_SIZE: i32 = 65536;

/// The failure categories a host stream can report. Each category has a
/// fixed translation into the engine's status vocabulary.
#[derive(Clone, Copy, Debug, PartialEq, Eq, Structural)]
pub enum IoErrorKind {
    /// The stream ended where more bytes were owed.
    UnexpectedEof,
    /// The operation was interrupted before it could complete.
    Interrupted,
    /// The operation would have had to block.
    WouldBlock,
    /// The operation timed out.
    TimedOut,
    /// Any other failure.
    Other,
}

/// The fixed translation table from host failure categories into native
/// status codes.
pub open spec fn translated_status(kind: IoErrorKind) -> int {
    match kind {
        IoErrorKind::UnexpectedEof => STATUS_EOF as int,
        IoErrorKind::Interrupted => STATUS_INTERRUPTED as int,
        IoErrorKind::WouldBlock => STATUS_AGAIN as int,
        IoErrorKind::TimedOut => STATUS_AGAIN as int,
        IoErrorKind::Other => STATUS_IO_ERROR as int,
    }
}

/// Translates a host failure category into the engine's status code.
/// Every translation is strictly negative, so a translated failure can
/// never be mistaken for a byte count or an offset.
pub fn translate_error(kind: IoErrorKind) -> (r: i32)
    ensures
        r as int == translated_status(kind),
        r < 0,
{
    match kind {
        IoErrorKind::UnexpectedEof => STATUS_EOF,
        IoErrorKind::Interrupted => STATUS_INTERRUPTED,
        IoErrorKind::WouldBlock => STATUS_AGAIN,
        IoErrorKind::TimedOut => STATUS_AGAIN,
        IoErrorKind::Other => STATUS_IO_ERROR,
    }
}

/// A positional seek origin, after the whence value has been classified.
#[derive(Clone, Copy, Debug, PartialEq, Eq, Structural)]
pub enum Whence {
    /// Absolute offset from the start of the stream.
    Start,
    /// Offset relative to the current position.
    Current,
    /// Offset relative to the end of the stream.
    End,
}

/// What a whence value asks for: a positional seek, the reserved size
/// query, or nothing the engine defines.
#[derive(Clone, Copy, Debug, PartialEq, Eq, Structural)]
pub enum SeekRequest {
    /// Move to a position given by an origin and an offset.
    Position(Whence),
    /// Report the total size without moving the logical position.
    SizeQuery,
    /// An unrecognized whence value.
    Invalid,
}

/// The classification of raw whence values.
pub open spec fn whence_request(whence: int) -> SeekRequest {
    if whence == WHENCE_SIZE as int {
        SeekRequest::SizeQuery
    } else if whence == WHENCE_START as int {
        SeekRequest::Position(Whence::Start)
    } else if whence == WHENCE_CURRENT as int {
        SeekRequest::Position(Whence::Current)
    } else if whence == WHENCE_END as int {
        SeekRequest::Position(Whence::End)
    } else {
        SeekRequest::Invalid
    }
}

/// Classifies a raw whence value from the callback boundary.
pub fn classify_whence(whence: i32) -> (r: SeekRequest)
    ensures
        r == whence_request(whence as int),
{
    if whence == WHENCE_SIZE {
        SeekRequest::SizeQuery
    } else if whence == WHENCE_START {
        SeekRequest::Position(Whence::Start)
    } else if whence == WHENCE_CURRENT {
        SeekRequest::Position(Whence::Current)
    } else if whence == WHENCE_END {
        SeekRequest::Position(Whence::End)
    } else {
        SeekRequest::Invalid
    }
}

/// An error surfaced to the host by construction or by the open glue.
#[derive(Clone, Copy, Debug, PartialEq, Eq, Structural)]
pub enum Error {
    /// A native allocation returned null.
    OutOfMemory,
    /// A native call failed with the given status code.
    Native { code: i32 },
}

impl Error {
    /// The native status code this error stands for: an allocation failure
    /// is the engine's out-of-memory code, and a native failure carries
    /// its own code through unchanged.
    pub fn native_code(&self) -> (r: i32)
        ensures
            self is OutOfMemory ==> r == STATUS_NO_MEMORY,
            self matches Error::Native { code } ==> r == code,
    {
        match self {
            Error::OutOfMemory => STATUS_NO_MEMORY,
            Error::Native { code } => *code,
        }
    }
}

} // verus!
