//! A readiness-driven engine for non-blocking Unix-domain sockets.
//!
//! The engine models the transport state of datagram and stream sockets:
//! address encoding, the outbound message queue with backpressure, the
//! connection state machine, and teardown. It never performs I/O itself.
//! A host event loop owns the file descriptors, performs each syscall the
//! engine asks for, and feeds the outcome back in; the engine decides what
//! happens next and which events and completions the host must deliver.

pub mod addr;
pub mod dgram;
pub mod event;
pub mod msg;
pub mod registry;
pub mod stream;

use vstd::prelude::*;

verus! {

} // verus!
