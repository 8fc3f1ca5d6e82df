//! Device-side responder for a remote-device wire protocol.
//!
//! The library is the protocol engine: the wire types and their byte
//! layouts (`wire`), the framing codec that turns values into exact-length
//! byte buffers and back (`codec`), the emulated device state machine that
//! answers configuration-space and BAR accesses (`device`), and the
//! dispatcher logic that maps one received frame to a state transition and
//! a response frame (`session`). Reading and writing the byte channel
//! itself is left to the caller: every function here works on plain values
//! and byte buffers.

pub mod codec;
pub mod device;
pub mod error;
pub mod session;
pub mod wire;
