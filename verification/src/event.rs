//! Events, syscall outcomes, poller interest, and the error taxonomy.
//!
//! The engine never performs I/O. The host performs each syscall the engine
//! calls for and reports what happened as an outcome value; the engine answers
//! with state changes, poller-interest changes, events owed to the host's
//! event sink, and completion notifications. The types here are that
//! vocabulary.

use vstd::prelude::*;

use crate::addr::RawAddress;

verus! {

/// Errno of an interrupted syscall (EINTR); the host retries such a syscall
/// itself, so the engine never sees this value in an outcome.
pub const ERRNO_INTERRUPTED: i32 = 4;

/// Errno of a non-blocking syscall that found no room or no data
/// (EAGAIN, equal to EWOULDBLOCK on this platform).
pub const ERRNO_WOULD_BLOCK: i32 = 11;

/// Errno of a send that found no kernel buffer space (ENOBUFS).
pub const ERRNO_NO_BUFFER_SPACE: i32 = 105;

/// Errno of a non-blocking connect that is still underway (EINPROGRESS).
pub const ERRNO_IN_PROGRESS: i32 = 115;

/// A transient condition: the operation may succeed later, once readiness is
/// signalled again. Never surfaced to the host as an error; it only changes
/// poller interest.
pub open spec fn is_transient(errno: i32) -> bool {
    errno == ERRNO_WOULD_BLOCK || errno == ERRNO_NO_BUFFER_SPACE
}

/// Decide whether an errno is transient (deferred, not an error).
pub fn errno_is_transient(errno: i32) -> (r: bool)
    ensures
        r == is_transient(errno),
{
    errno == ERRNO_WOULD_BLOCK || errno == ERRNO_NO_BUFFER_SPACE
}

/// Which readiness notifications the socket currently wants from the poller.
#[derive(Debug, PartialEq, Eq, Structural, Clone, Copy)]
pub struct PollInterest {
    pub readable: bool,
    pub writable: bool,
}

impl PollInterest {
    /// No notifications wanted: the registration is effectively stopped.
    pub open spec fn none() -> PollInterest {
        PollInterest { readable: false, writable: false }
    }
}

/// An event owed to the host's per-socket event sink, to be delivered
/// synchronously and in order.
#[derive(Debug, Clone, PartialEq, Eq)]
pub enum Event {
    /// Received bytes; `sender` is the decoded source path for datagram
    /// sockets and absent for stream sockets.
    Data { bytes: Vec<u8>, sender: Option<Vec<u8>> },
    /// The peer half-closed its writing side; no further reads will happen.
    End,
    /// A syscall failed with this errno; the socket is not closed by it.
    Error { errno: i32 },
    /// A listening socket accepted a connection: the new descriptor and the
    /// decoded peer path.
    Connection { fd: i32, peer: Vec<u8> },
    /// A pending connect completed.
    Connected,
    /// The outbound half was shut down after the queue drained.
    Shutdown,
    /// The socket was closed; this is the final event.
    Closed,
}

/// What a send-one-datagram syscall reported.
#[derive(Debug, PartialEq, Eq, Structural, Clone, Copy)]
pub enum SendOutcome {
    /// The whole datagram left; datagrams are never partially transmitted.
    Sent,
    /// The syscall failed with this errno.
    Failed { errno: i32 },
}

/// What a receive-one-datagram syscall reported.
pub enum RecvOutcome {
    /// One packet and its source address.
    Packet { bytes: Vec<u8>, sender: RawAddress },
    /// The syscall failed with this errno.
    Failed { errno: i32 },
}

/// What a stream write syscall reported.
#[derive(Debug, PartialEq, Eq, Structural, Clone, Copy)]
pub enum WriteOutcome {
    /// `count` bytes of the attempted range were written.
    Wrote { count: usize },
    /// The syscall failed with this errno.
    Failed { errno: i32 },
}

/// What a stream read syscall reported. A read of zero bytes means the peer
/// half-closed; the host reports it as `Data` with an empty buffer.
pub enum ReadOutcome {
    /// `bytes` were read; empty means end of stream.
    Data { bytes: Vec<u8> },
    /// The syscall failed with this errno.
    Failed { errno: i32 },
}

/// What an accept syscall on a listening socket reported.
pub enum AcceptOutcome {
    /// A pending connection was accepted: its new descriptor and the peer's
    /// address.
    Accepted { fd: i32, peer: RawAddress },
    /// The syscall failed with this errno.
    Failed { errno: i32 },
}

/// Poll-layer status delivered alongside a readiness callback.
#[derive(Debug, PartialEq, Eq, Structural, Clone, Copy)]
pub enum PollVerdict {
    /// The registration was cancelled; ignore the callback entirely.
    Ignore,
    /// The poll layer failed; report it to the sink and stop this cycle.
    Report,
    /// A genuine readiness notification; handle the ready directions.
    Proceed,
}

/// Status code the poll layer uses for a callback that fired after its
/// registration was cancelled (the negated errno of a cancelled operation).
pub const STATUS_CANCELLED: i32 = -125;

/// Bit the poll layer sets in a callback's event mask for readable readiness.
pub const POLL_EVENT_READABLE: i32 = 1;

/// Bit the poll layer sets in a callback's event mask for writable readiness.
pub const POLL_EVENT_WRITABLE: i32 = 2;

/// Split a poll callback's event mask into its two readiness directions.
pub fn poll_events_ready(events: i32) -> (r: (bool, bool))
    ensures
        r.0 == ((events & POLL_EVENT_READABLE) != 0),
        r.1 == ((events & POLL_EVENT_WRITABLE) != 0),
{
    ((events & POLL_EVENT_READABLE) != 0, (events & POLL_EVENT_WRITABLE) != 0)
}

/// Triage a poll callback's status before touching the socket.
pub fn classify_poll_status(status: i32) -> (r: PollVerdict)
    ensures
        status == STATUS_CANCELLED ==> r == PollVerdict::Ignore,
        status < 0 && status != STATUS_CANCELLED ==> r == PollVerdict::Report,
        status >= 0 ==> r == PollVerdict::Proceed,
{
    if status == STATUS_CANCELLED {
        PollVerdict::Ignore
    } else if status < 0 {
        PollVerdict::Report
    } else {
        PollVerdict::Proceed
    }
}

/// What `close` obliges the host to do, in field order: unregister from the
/// poller first (so no readiness callback can fire against a freed resource),
/// then drop the listed completion tokens without invoking them, close the
/// descriptor, and deliver the terminal `Closed` event.
#[derive(Debug, Clone, PartialEq, Eq)]
pub struct CloseActions {
    pub stop_poller: bool,
    pub released_tokens: Vec<u64>,
    pub close_fd: bool,
    pub emit_closed: bool,
}

/// Why an engine operation was refused. Transient syscall conditions are not
/// here: they are handled internally and never surfaced.
#[derive(Debug, PartialEq, Eq, Structural, Clone, Copy)]
pub enum SocketError {
    /// The destination or bind path cannot fit in the address structure.
    PathTooLong,
    /// A write was attempted after the half-close was requested.
    AlreadyShuttingDown,
    /// The socket is closed; nothing further is done with it.
    Closed,
    /// The operation is only legal in a state this socket has left.
    InvalidState,
}

} // verus!
