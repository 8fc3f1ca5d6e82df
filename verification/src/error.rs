//! Error taxonomy of the protocol engine.
//!
//! `FramingError` and `ProtocolViolation` are both fatal to a session;
//! `SessionError` carries either. A recognized command or offset that this
//! mock does not fully emulate is not an error: such an access is answered
//! locally with a documented sentinel value (see `device`) and the session
//! continues.

use vstd::prelude::*;

verus! {

/// A malformed frame: a buffer of the wrong length for the record being
/// decoded, a declared payload length that does not match a fixed-size
/// record, or a command ordinal outside the closed enumeration. Always
/// fatal to the session.
#[derive(Clone, Copy, Debug, PartialEq, Eq, Structural)]
pub enum FramingError {
    /// A byte buffer or declared payload length did not match the fixed
    /// wire size of the record.
    WrongLength { expected: u64, got: u64 },
    /// The header's command ordinal names no command of the closed
    /// enumeration.
    UnknownCommand { ordinal: i32 },
}

/// A well-formed frame that is semantically invalid for the device-side
/// role. Always fatal to the session.
#[derive(Clone, Copy, Debug, PartialEq, Eq, Structural)]
pub enum ProtocolViolation {
    /// RET is only ever sent by this side; receiving it is invalid.
    UnexpectedRet,
    /// A command defined to carry no payload arrived with a non-zero
    /// declared payload length.
    UnexpectedPayload { ordinal: i32, size: u64 },
}

/// Any error that terminates a session.
#[derive(Clone, Copy, Debug, PartialEq, Eq, Structural)]
pub enum SessionError {
    Framing(FramingError),
    Protocol(ProtocolViolation),
}

} // verus!
