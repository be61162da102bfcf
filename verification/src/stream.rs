//! The connection-oriented (stream) socket engine.
//!
//! A stream socket moves through a lifecycle: fresh, then either listening or
//! connecting, connected, shutting down (half-close requested), shut down
//! (outbound half closed), and finally closed. Writes enqueue byte ranges;
//! the host drives a flush pass, reporting each write syscall's outcome. A
//! short write advances the head message in place and stops the pass — stream
//! order is never violated by reordering across a partial write. A transient
//! condition stops the pass and leaves the queue intact; any other write
//! error is connection-fatal: flushing stops until the host closes the
//! socket. When the queue drains while a half-close is pending, the engine
//! performs it: the host sends the outbound shutdown and emits one shutdown
//! event.

use vstd::prelude::*;

use crate::addr;
use crate::addr::{AddressError, RawAddress};
use crate::event;
use crate::event::{is_transient, AcceptOutcome, CloseActions, Event, PollInterest, ReadOutcome,
    SocketError, WriteOutcome};
use crate::msg::{advanced, queued_tokens, sent_completion, Completion, CompletionStatus, Message,
    OutboundQueue};

verus! {

/// Default size in bytes of the buffer the host reads each chunk into.
pub const DEFAULT_READ_BUF_SIZE: usize = 65535;

/// Lifecycle of a stream socket. Listening and connecting are reachable only
/// from a fresh socket; closed is terminal and reachable from anywhere.
#[derive(Debug, PartialEq, Eq, Structural, Clone, Copy)]
pub enum StreamState {
    New,
    Listening,
    Connecting,
    Connected,
    ShuttingDown,
    ShutDown,
    Closed,
}

/// States in which a write is refused: the half-close was already requested
/// or performed, or the socket is gone.
pub open spec fn write_refused(s: StreamState) -> bool {
    s == StreamState::ShuttingDown || s == StreamState::ShutDown || s == StreamState::Closed
}

/// What the host must do to bring a socket into the listening state: bind the
/// encoded address, then listen with the given backlog.
#[derive(Debug, Clone, PartialEq, Eq)]
pub struct ListenRequest {
    pub addr: RawAddress,
    pub backlog: i32,
}

/// The queue left after one flush pass with these write outcomes, one per
/// attempt: a fully written head is retired and the pass goes on; a short
/// write advances the head in place and stops the pass; any failure leaves
/// the queue as it stands.
pub open spec fn pass_remaining(q: Seq<Message>, outs: Seq<WriteOutcome>) -> Seq<Message>
    decreases q.len(),
{
    if q.len() == 0 {
        q
    } else {
        match outs[0] {
            WriteOutcome::Wrote { count } => if count >= q[0].remaining().len() {
                pass_remaining(q.drop_first(), outs.drop_first())
            } else {
                seq![advanced(q[0], count as int)] + q.drop_first()
            },
            WriteOutcome::Failed { errno } => q,
        }
    }
}

/// The successful completions owed after that pass, in enqueue order: one per
/// fully written message. A message the pass did not finish owes nothing yet.
pub open spec fn pass_completions(q: Seq<Message>, outs: Seq<WriteOutcome>) -> Seq<Completion>
    decreases q.len(),
{
    if q.len() == 0 {
        Seq::empty()
    } else {
        match outs[0] {
            WriteOutcome::Wrote { count } => if count >= q[0].remaining().len() {
                seq![sent_completion(q[0])] + pass_completions(q.drop_first(), outs.drop_first())
            } else {
                Seq::empty()
            },
            WriteOutcome::Failed { errno } => Seq::empty(),
        }
    }
}

/// The connection-fatal errno the pass ran into, if any: the first write
/// error that was not a transient condition.
pub open spec fn pass_fatal(q: Seq<Message>, outs: Seq<WriteOutcome>) -> Option<i32>
    decreases q.len(),
{
    if q.len() == 0 {
        None
    } else {
        match outs[0] {
            WriteOutcome::Wrote { count } => if count >= q[0].remaining().len() {
                pass_fatal(q.drop_first(), outs.drop_first())
            } else {
                None
            },
            WriteOutcome::Failed { errno } => if is_transient(errno) {
                None
            } else {
                Some(errno)
            },
        }
    }
}

/// The bytes that pass put on the wire, in order: whole messages that were
/// fully written, then the written prefix of a message a short write left
/// behind.
pub open spec fn pass_wire(q: Seq<Message>, outs: Seq<WriteOutcome>) -> Seq<u8>
    decreases q.len(),
{
    if q.len() == 0 {
        Seq::empty()
    } else {
        match outs[0] {
            WriteOutcome::Wrote { count } => if count >= q[0].remaining().len() {
                q[0].remaining() + pass_wire(q.drop_first(), outs.drop_first())
            } else {
                q[0].remaining().take(count as int)
            },
            WriteOutcome::Failed { errno } => Seq::empty(),
        }
    }
}

/// Every message of a stream socket's queue is a well-formed stream message.
pub open spec fn stream_msgs_wf(q: Seq<Message>) -> bool {
    forall|i: int| 0 <= i < q.len() ==> (#[trigger] q[i]) is Stream && q[i].wf()
}

/// Conservation of the byte stream: what a flush pass put on the wire,
/// followed by what is still queued, is exactly what was queued before the
/// pass. No byte is reordered, duplicated or dropped, whatever the outcomes —
/// in particular across short writes.
pub proof fn lemma_pass_preserves_stream(q: Seq<Message>, outs: Seq<WriteOutcome>)
    requires
        stream_msgs_wf(q),
    ensures
        pass_wire(q, outs) + crate::msg::queued_bytes(pass_remaining(q, outs))
            == crate::msg::queued_bytes(q),
    decreases q.len(),
{
    if q.len() == 0 {
        assert(pass_wire(q, outs) + crate::msg::queued_bytes(pass_remaining(q, outs))
            =~= crate::msg::queued_bytes(q));
    } else {
        let rem0 = q[0].remaining();
        assert(stream_msgs_wf(q.drop_first())) by {
            assert(forall|i: int|
                0 <= i < q.drop_first().len() ==> q.drop_first()[i] == q[i + 1]);
        }
        match outs[0] {
            WriteOutcome::Wrote { count } => {
                if count >= rem0.len() {
                    lemma_pass_preserves_stream(q.drop_first(), outs.drop_first());
                    assert(pass_wire(q, outs) + crate::msg::queued_bytes(
                        pass_remaining(q, outs),
                    ) =~= crate::msg::queued_bytes(q));
                } else {
                    let q2 = pass_remaining(q, outs);
                    assert(q2 == seq![advanced(q[0], count as int)] + q.drop_first());
                    assert(q2.drop_first() =~= q.drop_first());
                    assert(q2[0] == advanced(q[0], count as int));
                    assert(q[0] is Stream && q[0].wf());
                    let bytes = q[0]->Stream_bytes;
                    assert(bytes.len() == bytes@.len());
                    assert(advanced(q[0], count as int).remaining() =~= rem0.skip(count as int));
                    assert(crate::msg::queued_bytes(q2) == q2[0].remaining()
                        + crate::msg::queued_bytes(q2.drop_first()));
                    assert(pass_wire(q, outs) + crate::msg::queued_bytes(q2)
                        =~= crate::msg::queued_bytes(q));
                }
            },
            WriteOutcome::Failed { errno } => {
                assert(pass_wire(q, outs) + crate::msg::queued_bytes(pass_remaining(q, outs))
                    =~= crate::msg::queued_bytes(q));
            },
        }
    }
}

/// One step of a flush pass: the completion now earned (to be delivered after
/// the pass, in order), whether the host should attempt the next write in the
/// same pass, and the connection-fatal errno if the pass must abort.
pub struct WriteStep {
    pub completion: Option<Completion>,
    pub go: bool,
    pub fatal: Option<i32>,
}

/// The result of a whole flush pass.
pub struct StreamFlushReport {
    /// Successful completions, in enqueue order, owed after the pass.
    pub completions: Vec<Completion>,
    /// A connection-fatal write errno, owed to the sink as one error event.
    pub fatal: Option<i32>,
    /// The pass drained the queue while a half-close was pending: the host
    /// must shut down the outbound half and emit one shutdown event.
    pub did_shutdown: bool,
}

/// A connection-oriented local socket: lifecycle state machine, ordered write
/// queue with partial-write handling, and half-close protocol.
pub struct StreamSocket {
    queue: OutboundQueue,
    interest: PollInterest,
    state: StreamState,
    read_buf_size: usize,
}

impl StreamSocket {
    /// The outbound messages still queued, head first.
    pub closed spec fn pending(&self) -> Seq<Message> {
        self.queue@
    }

    /// The lifecycle state.
    pub closed spec fn state(&self) -> StreamState {
        self.state
    }

    /// The readiness directions currently wanted from the poller.
    pub closed spec fn interest(&self) -> PollInterest {
        self.interest
    }

    /// The configured read-chunk size.
    pub closed spec fn read_chunk(&self) -> usize {
        self.read_buf_size
    }

    /// Invariant: every queued message is a well-formed stream message; once
    /// the outbound half is shut down or the socket is closed nothing is
    /// queued (a half-close only happens on a drained queue; close releases
    /// the queue); a closed socket wants no readiness notifications.
    pub open spec fn wf(&self) -> bool {
        &&& stream_msgs_wf(self.pending())
        &&& self.state() == StreamState::ShutDown ==> self.pending().len() == 0
        &&& self.state() == StreamState::Closed ==> self.pending().len() == 0
        &&& self.state() == StreamState::Closed ==> self.interest() == PollInterest::none()
    }

    /// A fresh socket: nothing queued, no poller interest, default read
    /// buffer.
    pub fn create() -> (s: StreamSocket)
        ensures
            s.wf(),
            s.state() == StreamState::New,
            s.pending() == Seq::<Message>::empty(),
            s.interest() == PollInterest::none(),
            s.read_chunk() == DEFAULT_READ_BUF_SIZE,
    {
        StreamSocket {
            queue: OutboundQueue::new(),
            interest: PollInterest { readable: false, writable: false },
            state: StreamState::New,
            read_buf_size: DEFAULT_READ_BUF_SIZE,
        }
    }

    /// Whether the host may still issue syscalls for this socket's
    /// descriptor: true until `close` runs.
    pub fn syscall_allowed(&self) -> (r: bool)
        ensures
            r == (self.state() != StreamState::Closed),
    {
        !matches!(self.state, StreamState::Closed)
    }

    /// Report the current poller interest, for the host to apply after each
    /// engine call.
    pub fn poll_interest(&self) -> (r: PollInterest)
        ensures
            r == self.interest(),
    {
        self.interest
    }

    /// Report the lifecycle state.
    pub fn current_state(&self) -> (s: StreamState)
        ensures
            s == self.state(),
    {
        self.state
    }

    /// Borrow the head message, whose remaining bytes the host's next write
    /// syscall takes.
    pub fn head(&self) -> (r: Option<&Message>)
        ensures
            self.pending().len() == 0 ==> r is None,
            self.pending().len() > 0 ==> (r matches Some(m) && *m == self.pending()[0]),
    {
        self.queue.head()
    }

    /// Configure the size of the buffer each read syscall fills.
    pub fn set_read_buf_size(&mut self, size: usize)
        requires
            old(self).wf(),
        ensures
            final(self).wf(),
            final(self).read_chunk() == size,
            final(self).pending() == old(self).pending(),
            final(self).state() == old(self).state(),
            final(self).interest() == old(self).interest(),
    {
        self.read_buf_size = size;
    }

    /// Read back the configured read-chunk size, for the host to allocate
    /// its buffer.
    pub fn read_buf_size(&self) -> (n: usize)
        ensures
            n == self.read_chunk(),
    {
        self.read_buf_size
    }

    /// Begin receiving: the poller should also watch for readable readiness.
    pub fn start_recv(&mut self) -> (r: Result<(), SocketError>)
        requires
            old(self).wf(),
        ensures
            final(self).wf(),
            old(self).state() == StreamState::Closed ==> r == Result::<(), SocketError>::Err(
                SocketError::Closed,
            ) && *final(self) == *old(self),
            old(self).state() != StreamState::Closed ==> {
                &&& r is Ok
                &&& final(self).state() == old(self).state()
                &&& final(self).pending() == old(self).pending()
                &&& final(self).interest().readable
                &&& final(self).interest().writable == old(self).interest().writable
            },
    {
        if matches!(self.state, StreamState::Closed) {
            return Err(SocketError::Closed);
        }
        self.interest.readable = true;
        Ok(())
    }

    /// Ask to move a fresh socket into the listening state: encode the bind
    /// path and hand back what the host must bind and listen with. The state
    /// changes only when the host confirms the syscalls succeeded.
    pub fn listen(&self, path: &Vec<u8>, backlog: i32) -> (r: Result<ListenRequest, SocketError>)
        ensures
            self.state() == StreamState::Closed ==> r == Result::<
                ListenRequest,
                SocketError,
            >::Err(SocketError::Closed),
            self.state() != StreamState::Closed && self.state() != StreamState::New ==> r
                == Result::<ListenRequest, SocketError>::Err(SocketError::InvalidState),
            self.state() == StreamState::New && path@.len() >= addr::PATH_CAPACITY ==> r
                == Result::<ListenRequest, SocketError>::Err(SocketError::PathTooLong),
            self.state() == StreamState::New && path@.len() < addr::PATH_CAPACITY ==> {
                &&& r is Ok
                &&& r->Ok_0.addr.wf()
                &&& r->Ok_0.addr.family == addr::FAMILY_LOCAL
                &&& r->Ok_0.addr.path@ == addr::encoded_path(path@)
                &&& r->Ok_0.backlog == backlog
            },
    {
        if matches!(self.state, StreamState::Closed) {
            return Err(SocketError::Closed);
        }
        if !matches!(self.state, StreamState::New) {
            return Err(SocketError::InvalidState);
        }
        match addr::encode(path) {
            Ok(raw) => Ok(ListenRequest { addr: raw, backlog }),
            Err(AddressError::PathTooLong) => Err(SocketError::PathTooLong),
        }
    }

    /// The host's bind and listen syscalls succeeded: the socket is now
    /// listening, watching for readable readiness to accept connections.
    pub fn listen_confirmed(&mut self)
        requires
            old(self).wf(),
            old(self).state() == StreamState::New,
        ensures
            final(self).wf(),
            final(self).state() == StreamState::Listening,
            final(self).pending() == old(self).pending(),
            final(self).interest().readable,
            final(self).interest().writable == old(self).interest().writable,
    {
        self.state = StreamState::Listening;
        self.interest.readable = true;
    }

    /// Ask to connect a fresh socket: encode the server path for the host's
    /// non-blocking connect syscall.
    pub fn connect(&self, path: &Vec<u8>) -> (r: Result<RawAddress, SocketError>)
        ensures
            self.state() == StreamState::Closed ==> r == Result::<RawAddress, SocketError>::Err(
                SocketError::Closed,
            ),
            self.state() != StreamState::Closed && self.state() != StreamState::New ==> r
                == Result::<RawAddress, SocketError>::Err(SocketError::InvalidState),
            self.state() == StreamState::New && path@.len() >= addr::PATH_CAPACITY ==> r
                == Result::<RawAddress, SocketError>::Err(SocketError::PathTooLong),
            self.state() == StreamState::New && path@.len() < addr::PATH_CAPACITY ==> {
                &&& r is Ok
                &&& r->Ok_0.wf()
                &&& r->Ok_0.family == addr::FAMILY_LOCAL
                &&& r->Ok_0.path@ == addr::encoded_path(path@)
            },
    {
        if matches!(self.state, StreamState::Closed) {
            return Err(SocketError::Closed);
        }
        if !matches!(self.state, StreamState::New) {
            return Err(SocketError::InvalidState);
        }
        match addr::encode(path) {
            Ok(raw) => Ok(raw),
            Err(AddressError::PathTooLong) => Err(SocketError::PathTooLong),
        }
    }

    /// The host issued the connect syscall; `errno` is its error, if it
    /// reported one. A connect still in progress is not an error: the socket
    /// waits for writable readiness to learn the connect completed. Any other
    /// errno is handed back for the host to surface, and the socket stays
    /// fresh.
    pub fn connect_issued(&mut self, errno: Option<i32>) -> (r: Result<(), i32>)
        requires
            old(self).wf(),
            old(self).state() == StreamState::New,
        ensures
            final(self).wf(),
            final(self).pending() == old(self).pending(),
            (errno is None || errno == Some(event::ERRNO_IN_PROGRESS)) ==> {
                &&& r is Ok
                &&& final(self).state() == StreamState::Connecting
                &&& final(self).interest().writable
                &&& final(self).interest().readable == old(self).interest().readable
            },
            errno matches Some(e) ==> (e != event::ERRNO_IN_PROGRESS ==> {
                &&& r == Result::<(), i32>::Err(e)
                &&& *final(self) == *old(self)
            }),
    {
        match errno {
            None => {
                self.state = StreamState::Connecting;
                self.interest.writable = true;
                Ok(())
            },
            Some(e) => {
                if e == event::ERRNO_IN_PROGRESS {
                    self.state = StreamState::Connecting;
                    self.interest.writable = true;
                    Ok(())
                } else {
                    Err(e)
                }
            },
        }
    }

    /// Writable readiness arrived while connecting: the connect completed.
    /// Emits the single connected event; writable watching stays on only if
    /// writes were queued meanwhile.
    pub fn connect_ready(&mut self) -> (e: Event)
        requires
            old(self).wf(),
            old(self).state() == StreamState::Connecting,
        ensures
            final(self).wf(),
            final(self).state() == StreamState::Connected,
            final(self).pending() == old(self).pending(),
            final(self).interest().readable == old(self).interest().readable,
            final(self).interest().writable == (final(self).pending().len() > 0),
            e is Connected,
    {
        self.state = StreamState::Connected;
        self.interest.writable = self.queue.len() > 0;
        Event::Connected
    }

    /// Apply the outcome of one accept attempt on a listening socket. A new
    /// connection becomes a connection event carrying the decoded peer path;
    /// a transient condition waits for the next readiness; any other error
    /// becomes an error event and polling stops.
    pub fn on_accept_outcome(&mut self, outcome: AcceptOutcome) -> (r: Option<Event>)
        requires
            old(self).wf(),
            old(self).state() == StreamState::Listening,
        ensures
            final(self).wf(),
            final(self).state() == StreamState::Listening,
            final(self).pending() == old(self).pending(),
            outcome matches AcceptOutcome::Accepted { fd, peer } ==> {
                &&& *final(self) == *old(self)
                &&& r matches Some(e)
                &&& e matches Event::Connection { fd: f, peer: p }
                &&& f == fd
                &&& p@ == addr::decoded_path(peer.path@)
            },
            outcome matches AcceptOutcome::Failed { errno } ==> if is_transient(errno) {
                r is None && *final(self) == *old(self)
            } else {
                &&& r == Some(Event::Error { errno })
                &&& final(self).interest() == PollInterest::none()
            },
    {
        match outcome {
            AcceptOutcome::Accepted { fd, peer } => {
                let path = addr::decode(&peer);
                Some(Event::Connection { fd, peer: path })
            },
            AcceptOutcome::Failed { errno } => {
                if event::errno_is_transient(errno) {
                    None
                } else {
                    self.interest = PollInterest { readable: false, writable: false };
                    Some(Event::Error { errno })
                }
            },
        }
    }

    /// Queue a byte range for transmission. Refused once the half-close has
    /// been requested, and on a closed socket.
    pub fn write(&mut self, bytes: Vec<u8>, token: Option<u64>) -> (r: Result<(), SocketError>)
        requires
            old(self).wf(),
        ensures
            final(self).wf(),
            old(self).state() == StreamState::Closed ==> r == Result::<(), SocketError>::Err(
                SocketError::Closed,
            ) && *final(self) == *old(self),
            (old(self).state() == StreamState::ShuttingDown || old(self).state()
                == StreamState::ShutDown) ==> r == Result::<(), SocketError>::Err(
                SocketError::AlreadyShuttingDown,
            ) && *final(self) == *old(self),
            !write_refused(old(self).state()) ==> {
                &&& r is Ok
                &&& final(self).state() == old(self).state()
                &&& final(self).interest() == old(self).interest()
                &&& final(self).pending() == old(self).pending().push(
                    (Message::Stream { bytes, sent: 0, token }),
                )
            },
    {
        match self.state {
            StreamState::Closed => Err(SocketError::Closed),
            StreamState::ShuttingDown => Err(SocketError::AlreadyShuttingDown),
            StreamState::ShutDown => Err(SocketError::AlreadyShuttingDown),
            _ => {
                self.queue.push_back(Message::Stream { bytes, sent: 0, token });
                Ok(())
            },
        }
    }

    /// Apply the outcome of one write attempt for the head message's
    /// remaining bytes. A full write retires the head and earns its
    /// completion (owed after the pass); a short write advances the head in
    /// place and stops the pass; a transient condition stops the pass with
    /// the queue intact; any other error is connection-fatal and stops
    /// polling.
    pub fn flush_step(&mut self, outcome: WriteOutcome) -> (r: WriteStep)
        requires
            old(self).wf(),
            old(self).pending().len() > 0,
        ensures
            final(self).wf(),
            final(self).state() == old(self).state(),
            outcome matches WriteOutcome::Wrote { count } ==> {
                &&& r.fatal is None
                &&& final(self).interest() == old(self).interest()
                &&& if count >= old(self).pending()[0].remaining().len() {
                    &&& final(self).pending() == old(self).pending().drop_first()
                    &&& r.completion == Some(sent_completion(old(self).pending()[0]))
                    &&& r.go == (final(self).pending().len() > 0)
                } else {
                    &&& final(self).pending() == seq![
                        advanced(old(self).pending()[0], count as int),
                    ] + old(self).pending().drop_first()
                    &&& r.completion is None
                    &&& r.go == false
                }
            },
            outcome matches WriteOutcome::Failed { errno } ==> {
                &&& final(self).pending() == old(self).pending()
                &&& r.completion is None
                &&& r.go == false
                &&& if is_transient(errno) {
                    &&& r.fatal is None
                    &&& final(self).interest() == old(self).interest()
                } else {
                    &&& r.fatal == Some(errno)
                    &&& final(self).interest() == PollInterest::none()
                }
            },
    {
        let m = self.queue.pop_front().unwrap();
        match outcome {
            WriteOutcome::Wrote { count } => {
                let rem = m.remaining_len();
                if count >= rem {
                    let c = Completion {
                        token: m.completion_token(),
                        status: CompletionStatus::Sent,
                    };
                    let go = self.queue.len() > 0;
                    WriteStep { completion: Some(c), go, fatal: None }
                } else {
                    let m2 = m.advance(count);
                    self.queue.push_front(m2);
                    WriteStep { completion: None, go: false, fatal: None }
                }
            },
            WriteOutcome::Failed { errno } => {
                self.queue.push_front(m);
                proof {
                    assert(self.pending() =~= old(self).pending());
                }
                if event::errno_is_transient(errno) {
                    WriteStep { completion: None, go: false, fatal: None }
                } else {
                    self.interest = PollInterest { readable: false, writable: false };
                    WriteStep { completion: None, go: false, fatal: Some(errno) }
                }
            },
        }
    }

    /// Settle poller interest and the deferred half-close after a flush pass:
    /// keep writable watching exactly while messages remain; if the pass
    /// drained the queue with a half-close pending, perform it now.
    pub fn end_pass(&mut self) -> (did_shutdown: bool)
        requires
            old(self).wf(),
            old(self).state() != StreamState::Closed,
        ensures
            final(self).wf(),
            final(self).pending() == old(self).pending(),
            final(self).interest().readable == old(self).interest().readable,
            final(self).interest().writable == (final(self).pending().len() > 0),
            did_shutdown == (old(self).pending().len() == 0 && old(self).state()
                == StreamState::ShuttingDown),
            final(self).state() == if did_shutdown {
                StreamState::ShutDown
            } else {
                old(self).state()
            },
    {
        if self.queue.len() > 0 {
            self.interest.writable = true;
            false
        } else {
            self.interest.writable = false;
            if matches!(self.state, StreamState::ShuttingDown) {
                self.state = StreamState::ShutDown;
                true
            } else {
                false
            }
        }
    }

    /// Run a whole flush pass against a script of write outcomes, one per
    /// attempt (so at most one per queued message). This is `flush_step`
    /// iterated until the pass stops, then `end_pass` unless a
    /// connection-fatal error aborted the pass.
    pub fn flush(&mut self, outcomes: &Vec<WriteOutcome>) -> (r: StreamFlushReport)
        requires
            old(self).wf(),
            old(self).state() != StreamState::Closed,
            outcomes@.len() >= old(self).pending().len(),
        ensures
            final(self).wf(),
            final(self).pending() == pass_remaining(old(self).pending(), outcomes@),
            r.completions@ == pass_completions(old(self).pending(), outcomes@),
            r.fatal == pass_fatal(old(self).pending(), outcomes@),
            r.fatal is None ==> final(self).interest().readable == old(self).interest().readable,
            r.fatal is Some ==> {
                &&& final(self).state() == old(self).state()
                &&& !r.did_shutdown
                &&& final(self).interest() == PollInterest::none()
            },
            r.fatal is None ==> {
                &&& r.did_shutdown == (final(self).pending().len() == 0 && old(self).state()
                    == StreamState::ShuttingDown)
                &&& final(self).state() == if r.did_shutdown {
                    StreamState::ShutDown
                } else {
                    old(self).state()
                }
                &&& final(self).interest().writable == (final(self).pending().len() > 0)
            },
    {
        let ghost q0 = self.pending();
        let ghost outs = outcomes@;
        let mut completions: Vec<Completion> = Vec::new();
        let mut fatal: Option<i32> = None;
        let mut idx: usize = 0;
        let mut go = self.queue.len() > 0;
        proof {
            assert(outs.skip(0) =~= outs);
        }
        while go
            invariant
                self.wf(),
                self.state() == old(self).state(),
                old(self).state() != StreamState::Closed,
                idx <= outs.len(),
                outcomes@ == outs,
                go ==> self.pending().len() > 0,
                go ==> fatal is None,
                go ==> outs.skip(idx as int).len() >= self.pending().len(),
                go ==> self.interest() == old(self).interest(),
                go ==> pass_remaining(q0, outs) == pass_remaining(
                    self.pending(),
                    outs.skip(idx as int),
                ),
                go ==> completions@ + pass_completions(self.pending(), outs.skip(idx as int))
                    == pass_completions(q0, outs),
                go ==> pass_fatal(q0, outs) == pass_fatal(self.pending(), outs.skip(idx as int)),
                !go ==> self.pending() == pass_remaining(q0, outs),
                !go ==> completions@ == pass_completions(q0, outs),
                !go ==> fatal == pass_fatal(q0, outs),
                !go ==> (fatal is Some ==> self.interest() == PollInterest::none()),
                !go ==> (fatal is None ==> self.interest() == old(self).interest()),
            decreases self.pending().len() + (if go { 1int } else { 0int }),
        {
            let ghost q_before = self.pending();
            let ghost rest = outs.skip(idx as int);
            proof {
                assert(rest.len() == outs.len() - idx);
                assert(idx < outcomes.len());
                assert(rest[0] == outs[idx as int]);
                assert(rest.drop_first() =~= outs.skip(idx as int + 1));
            }
            let outcome = outcomes[idx];
            let step = self.flush_step(outcome);
            idx = idx + 1;
            match step.completion {
                Some(c) => {
                    completions.push(c);
                },
                None => {},
            }
            fatal = step.fatal;
            go = step.go;
            proof {
                match outcome {
                    WriteOutcome::Wrote { count } => {
                        if count >= q_before[0].remaining().len() {
                            assert(pass_remaining(q_before, rest) == pass_remaining(
                                self.pending(),
                                rest.drop_first(),
                            ));
                            assert(completions@ + pass_completions(
                                self.pending(),
                                rest.drop_first(),
                            ) =~= pass_completions(q0, outs));
                        } else {
                            assert(pass_remaining(q_before, rest) == seq![
                                advanced(q_before[0], count as int),
                            ] + q_before.drop_first());
                            assert(self.pending() == pass_remaining(q_before, rest));
                            assert(self.pending() == pass_remaining(q0, outs));
                            assert(pass_completions(q_before, rest) == Seq::<Completion>::empty());
                            assert(completions@ =~= pass_completions(q0, outs));
                            assert(pass_fatal(q_before, rest) == None::<i32>);
                        }
                    },
                    WriteOutcome::Failed { errno } => {
                        assert(self.pending() == q_before);
                        assert(pass_remaining(q_before, rest) == q_before);
                        assert(self.pending() == pass_remaining(q0, outs));
                        assert(pass_completions(q_before, rest) == Seq::<Completion>::empty());
                        assert(completions@ =~= pass_completions(q0, outs));
                    },
                }
                if !go && self.pending().len() == 0 {
                    assert(pass_remaining(self.pending(), outs.skip(idx as int))
                        == self.pending());
                    assert(self.pending() == pass_remaining(q0, outs));
                    assert(pass_completions(self.pending(), outs.skip(idx as int)) == Seq::<
                        Completion,
                    >::empty());
                    assert(pass_fatal(self.pending(), outs.skip(idx as int)) == None::<i32>);
                    assert(completions@ =~= pass_completions(q0, outs));
                }
            }
        }
        if fatal.is_some() {
            return StreamFlushReport { completions, fatal, did_shutdown: false };
        }
        let did_shutdown = self.end_pass();
        StreamFlushReport { completions, fatal: None, did_shutdown }
    }

    /// Apply the outcome of one read attempt. Bytes become a data event and
    /// the loop goes on; a read of nothing means the peer half-closed — one
    /// end event, and readable watching stops for good; a transient condition
    /// waits, still watching, for the next readable readiness; any other
    /// error becomes an error event and polling stops.
    pub fn on_read_outcome(&mut self, outcome: ReadOutcome) -> (r: (Option<Event>, bool))
        requires
            old(self).wf(),
            old(self).state() != StreamState::Closed,
        ensures
            final(self).wf(),
            final(self).state() == old(self).state(),
            final(self).pending() == old(self).pending(),
            outcome matches ReadOutcome::Data { bytes } ==> if bytes@.len() > 0 {
                &&& *final(self) == *old(self)
                &&& r.0 matches Some(e)
                &&& e matches Event::Data { bytes: b, sender: s }
                &&& b@ == bytes@
                &&& s is None
                &&& r.1 == true
            } else {
                &&& r.0 == Some(Event::End)
                &&& r.1 == false
                &&& !final(self).interest().readable
                &&& final(self).interest().writable == old(self).interest().writable
            },
            outcome matches ReadOutcome::Failed { errno } ==> {
                &&& r.1 == false
                &&& if is_transient(errno) {
                    &&& r.0 is None
                    &&& final(self).interest().readable
                    &&& final(self).interest().writable == old(self).interest().writable
                } else {
                    &&& r.0 == Some(Event::Error { errno })
                    &&& final(self).interest() == PollInterest::none()
                }
            },
    {
        match outcome {
            ReadOutcome::Data { bytes } => {
                if bytes.len() > 0 {
                    (Some(Event::Data { bytes, sender: None }), true)
                } else {
                    self.interest.readable = false;
                    (Some(Event::End), false)
                }
            },
            ReadOutcome::Failed { errno } => {
                if event::errno_is_transient(errno) {
                    self.interest.readable = true;
                    (None, false)
                } else {
                    self.interest = PollInterest { readable: false, writable: false };
                    (Some(Event::Error { errno }), false)
                }
            },
        }
    }

    /// The poll layer reported a failure for this socket's registration:
    /// polling stops and the failure is owed to the sink as one error event.
    pub fn poll_failed(&mut self, status: i32) -> (e: Event)
        requires
            old(self).wf(),
            old(self).state() != StreamState::Closed,
        ensures
            final(self).wf(),
            final(self).state() == old(self).state(),
            final(self).pending() == old(self).pending(),
            final(self).interest() == PollInterest::none(),
            e == (Event::Error { errno: status }),
    {
        self.interest = PollInterest { readable: false, writable: false };
        Event::Error { errno: status }
    }

    /// Request a half-close of the outbound direction. With an empty queue it
    /// happens at once: the host must send the outbound shutdown and emit one
    /// shutdown event. With messages still queued it is deferred until the
    /// queue drains in a later flush pass. Asking again while it is pending
    /// or already done changes nothing.
    pub fn shutdown_when_flushed(&mut self) -> (r: Result<bool, SocketError>)
        requires
            old(self).wf(),
        ensures
            final(self).wf(),
            final(self).pending() == old(self).pending(),
            final(self).interest() == old(self).interest(),
            old(self).state() == StreamState::Closed ==> r == Result::<bool, SocketError>::Err(
                SocketError::Closed,
            ) && *final(self) == *old(self),
            (old(self).state() == StreamState::ShuttingDown || old(self).state()
                == StreamState::ShutDown) ==> r == Result::<bool, SocketError>::Ok(false)
                && *final(self) == *old(self),
            !write_refused(old(self).state()) ==> {
                &&& if old(self).pending().len() == 0 {
                    r == Result::<bool, SocketError>::Ok(true) && final(self).state()
                        == StreamState::ShutDown
                } else {
                    r == Result::<bool, SocketError>::Ok(false) && final(self).state()
                        == StreamState::ShuttingDown
                }
            },
    {
        match self.state {
            StreamState::Closed => Err(SocketError::Closed),
            StreamState::ShuttingDown => Ok(false),
            StreamState::ShutDown => Ok(false),
            _ => {
                if self.queue.is_empty() {
                    self.state = StreamState::ShutDown;
                    Ok(true)
                } else {
                    self.state = StreamState::ShuttingDown;
                    Ok(false)
                }
            },
        }
    }

    /// Close the socket. Idempotent: the first call stops polling, releases
    /// every queued completion token without invoking it (no success, no
    /// cancellation callback), closes the descriptor and owes the terminal
    /// `Closed` event; any later call does nothing. After this no syscall is
    /// ever requested for the descriptor again.
    pub fn close(&mut self) -> (r: CloseActions)
        requires
            old(self).wf(),
        ensures
            final(self).wf(),
            final(self).state() == StreamState::Closed,
            final(self).pending().len() == 0,
            final(self).interest() == PollInterest::none(),
            old(self).state() == StreamState::Closed ==> {
                &&& *final(self) == *old(self)
                &&& !r.stop_poller
                &&& !r.close_fd
                &&& !r.emit_closed
                &&& r.released_tokens@ == Seq::<u64>::empty()
            },
            old(self).state() != StreamState::Closed ==> {
                &&& r.stop_poller
                &&& r.close_fd
                &&& r.emit_closed
                &&& r.released_tokens@ == queued_tokens(old(self).pending())
            },
    {
        if matches!(self.state, StreamState::Closed) {
            return CloseActions {
                stop_poller: false,
                released_tokens: Vec::new(),
                close_fd: false,
                emit_closed: false,
            };
        }
        let ghost q0 = self.pending();
        let mut tokens: Vec<u64> = Vec::new();
        loop
            invariant
                self.wf(),
                self.state() == old(self).state(),
                old(self).state() != StreamState::Closed,
                tokens@ + queued_tokens(self.pending()) == queued_tokens(q0),
            ensures
                self.pending().len() == 0,
                tokens@ == queued_tokens(q0),
            decreases self.pending().len(),
        {
            match self.queue.pop_front() {
                Some(m) => {
                    match m.completion_token() {
                        Some(t) => {
                            tokens.push(t);
                            proof {
                                assert(tokens@ + queued_tokens(self.pending()) =~= queued_tokens(
                                    q0,
                                ));
                            }
                        },
                        None => {},
                    }
                },
                None => {
                    proof {
                        assert(tokens@ + Seq::<u64>::empty() =~= tokens@);
                    }
                    break;
                },
            }
        }
        self.state = StreamState::Closed;
        self.interest = PollInterest { readable: false, writable: false };
        CloseActions {
            stop_poller: true,
            released_tokens: tokens,
            close_fd: true,
            emit_closed: true,
        }
    }
}

} // verus!
