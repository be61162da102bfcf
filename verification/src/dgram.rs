//! The connectionless (datagram) socket engine.
//!
//! A datagram socket owns a FIFO queue of outbound packets. Sending appends a
//! packet; the host then drives a flush pass, attempting one send syscall per
//! queued packet and reporting each outcome to `flush_step`. A datagram is
//! all-or-nothing: on success or on a non-transient error the packet is
//! retired and its completion is owed; on a transient condition ("would
//! block" or no buffer space) the packet goes back to the front of the queue,
//! the pass stops, and the poller is switched to also watch for writable
//! readiness. When the queue empties, writable watching is turned off.

use vstd::prelude::*;

use crate::addr;
use crate::addr::{AddressError, RawAddress};
use crate::event::{is_transient, CloseActions, Event, PollInterest, RecvOutcome, SendOutcome,
    SocketError};
use crate::event;
use crate::msg::{failed_completion, queued_tokens, sent_completion, Completion, CompletionStatus,
    Message, OutboundQueue};

verus! {

/// Size in bytes of the scratch buffer the host should receive each packet
/// into: one fixed-capacity buffer per receive attempt.
pub const RECV_CHUNK_SIZE: usize = 65535;

/// The queue left after a flush pass that saw these outcomes, one per send
/// attempt: a sent or fatally failed head is retired and flushing goes on; a
/// transient condition keeps the head and stops the pass.
pub open spec fn flush_remaining(q: Seq<Message>, outs: Seq<SendOutcome>) -> Seq<Message>
    decreases q.len(),
{
    if q.len() == 0 {
        q
    } else {
        match outs[0] {
            SendOutcome::Sent => flush_remaining(q.drop_first(), outs.drop_first()),
            SendOutcome::Failed { errno } => if is_transient(errno) {
                q
            } else {
                flush_remaining(q.drop_first(), outs.drop_first())
            },
        }
    }
}

/// The completions owed after that flush pass, in enqueue order: one success
/// per sent packet, one failure per fatally refused packet, nothing for the
/// packet a transient condition deferred.
pub open spec fn flush_completions(q: Seq<Message>, outs: Seq<SendOutcome>) -> Seq<Completion>
    decreases q.len(),
{
    if q.len() == 0 {
        Seq::empty()
    } else {
        match outs[0] {
            SendOutcome::Sent => seq![sent_completion(q[0])] + flush_completions(
                q.drop_first(),
                outs.drop_first(),
            ),
            SendOutcome::Failed { errno } => if is_transient(errno) {
                Seq::empty()
            } else {
                seq![failed_completion(q[0], errno)] + flush_completions(
                    q.drop_first(),
                    outs.drop_first(),
                )
            },
        }
    }
}

/// Every send attempt succeeded: the socket never reported backpressure.
pub open spec fn all_sent(outs: Seq<SendOutcome>) -> bool {
    forall|i: int| 0 <= i < outs.len() ==> outs[i] is Sent
}

/// With no backpressure and no errors, a flush pass drains the queue and owes
/// exactly one successful completion per packet, carrying that packet's own
/// token, in enqueue order.
pub proof fn lemma_flush_all_sent(q: Seq<Message>, outs: Seq<SendOutcome>)
    requires
        outs.len() >= q.len(),
        all_sent(outs),
    ensures
        flush_remaining(q, outs).len() == 0,
        flush_completions(q, outs).len() == q.len(),
        forall|i: int| 0 <= i < q.len() ==> flush_completions(q, outs)[i] == sent_completion(
            q[i],
        ),
    decreases q.len(),
{
    if q.len() > 0 {
        assert(outs[0] is Sent);
        assert(all_sent(outs.drop_first())) by {
            assert(forall|i: int|
                0 <= i < outs.drop_first().len() ==> outs.drop_first()[i] == outs[i + 1]);
        }
        lemma_flush_all_sent(q.drop_first(), outs.drop_first());
        let c = flush_completions(q, outs);
        let rest = flush_completions(q.drop_first(), outs.drop_first());
        assert forall|i: int| 0 <= i < q.len() implies c[i] == sent_completion(q[i]) by {
            if i > 0 {
                assert(c[i] == rest[i - 1]);
                assert(q.drop_first()[i - 1] == q[i]);
            }
        }
    }
}

/// A connectionless local socket: per-packet sends with destinations, and a
/// receive loop fed by readable readiness.
pub struct DgramSocket {
    queue: OutboundQueue,
    interest: PollInterest,
    closed: bool,
}

impl DgramSocket {
    /// The outbound packets still queued, head first.
    pub closed spec fn pending(&self) -> Seq<Message> {
        self.queue@
    }

    /// Whether `close` has run; a closed socket issues no further syscalls.
    pub closed spec fn is_closed(&self) -> bool {
        self.closed
    }

    /// The readiness directions currently wanted from the poller.
    pub closed spec fn interest(&self) -> PollInterest {
        self.interest
    }

    /// Invariant: every queued message is a well-formed datagram; a closed
    /// socket holds no queue (its tokens were released at close) and wants no
    /// readiness notifications.
    pub open spec fn wf(&self) -> bool {
        &&& forall|i: int|
            0 <= i < self.pending().len() ==> (#[trigger] self.pending()[i]) is Datagram
                && self.pending()[i].wf()
        &&& self.is_closed() ==> self.pending().len() == 0
        &&& self.is_closed() ==> self.interest() == PollInterest::none()
    }

    /// A fresh socket: nothing queued, no poller interest, open.
    pub fn create() -> (s: DgramSocket)
        ensures
            s.wf(),
            !s.is_closed(),
            s.pending() == Seq::<Message>::empty(),
            s.interest() == PollInterest::none(),
    {
        DgramSocket {
            queue: OutboundQueue::new(),
            interest: PollInterest { readable: false, writable: false },
            closed: false,
        }
    }

    /// Whether the host may still issue syscalls for this socket's
    /// descriptor: true until `close` runs.
    pub fn syscall_allowed(&self) -> (r: bool)
        ensures
            r == !self.is_closed(),
    {
        !self.closed
    }

    /// Report the current poller interest, for the host to apply after each
    /// engine call.
    pub fn poll_interest(&self) -> (r: PollInterest)
        ensures
            r == self.interest(),
    {
        self.interest
    }

    /// Borrow the head packet, whose payload and destination the host's next
    /// send syscall takes.
    pub fn head(&self) -> (r: Option<&Message>)
        ensures
            self.pending().len() == 0 ==> r is None,
            self.pending().len() > 0 ==> (r matches Some(m) && *m == self.pending()[0]),
    {
        self.queue.head()
    }

    /// Encode a bind path into the address structure for the host's bind
    /// syscall. Rejects paths that cannot fit, before any syscall is
    /// attempted, and refuses a closed socket.
    pub fn bind(&self, path: &Vec<u8>) -> (r: Result<RawAddress, SocketError>)
        ensures
            self.is_closed() ==> r == Result::<RawAddress, SocketError>::Err(SocketError::Closed),
            !self.is_closed() && path@.len() >= addr::PATH_CAPACITY ==> r == Result::<
                RawAddress,
                SocketError,
            >::Err(SocketError::PathTooLong),
            !self.is_closed() && path@.len() < addr::PATH_CAPACITY ==> {
                &&& r is Ok
                &&& r->Ok_0.wf()
                &&& r->Ok_0.family == addr::FAMILY_LOCAL
                &&& r->Ok_0.path@ == addr::encoded_path(path@)
            },
    {
        if self.closed {
            return Err(SocketError::Closed);
        }
        match addr::encode(path) {
            Ok(raw) => Ok(raw),
            Err(AddressError::PathTooLong) => Err(SocketError::PathTooLong),
        }
    }

    /// Begin receiving: the poller should watch for readable readiness.
    pub fn start_recv(&mut self) -> (r: Result<(), SocketError>)
        requires
            old(self).wf(),
        ensures
            final(self).wf(),
            old(self).is_closed() ==> r == Result::<(), SocketError>::Err(SocketError::Closed)
                && *final(self) == *old(self),
            !old(self).is_closed() ==> {
                &&& r is Ok
                &&& !final(self).is_closed()
                &&& final(self).pending() == old(self).pending()
                &&& final(self).interest().readable
                &&& final(self).interest().writable == old(self).interest().writable
            },
    {
        if self.closed {
            return Err(SocketError::Closed);
        }
        self.interest.readable = true;
        Ok(())
    }

    /// Queue one datagram for `path`, to be flushed by the host's next flush
    /// pass. Fails before anything is queued if the destination does not fit
    /// or the socket is closed.
    pub fn send_to(&mut self, bytes: Vec<u8>, path: &Vec<u8>, token: Option<u64>) -> (r: Result<
        (),
        SocketError,
    >)
        requires
            old(self).wf(),
        ensures
            final(self).wf(),
            old(self).is_closed() ==> r == Result::<(), SocketError>::Err(SocketError::Closed)
                && *final(self) == *old(self),
            !old(self).is_closed() && path@.len() >= addr::PATH_CAPACITY ==> r == Result::<
                (),
                SocketError,
            >::Err(SocketError::PathTooLong) && *final(self) == *old(self),
            !old(self).is_closed() && path@.len() < addr::PATH_CAPACITY ==> {
                &&& r is Ok
                &&& !final(self).is_closed()
                &&& final(self).interest() == old(self).interest()
                &&& final(self).pending().len() == old(self).pending().len() + 1
                &&& final(self).pending().drop_last() == old(self).pending()
                &&& final(self).pending().last() matches Message::Datagram {
                    bytes: b,
                    dest,
                    token: t,
                } && b@ == bytes@ && t == token && dest.family == addr::FAMILY_LOCAL
                    && dest.path@ == addr::encoded_path(path@)
            },
    {
        if self.closed {
            return Err(SocketError::Closed);
        }
        let dest = match addr::encode(path) {
            Ok(raw) => raw,
            Err(AddressError::PathTooLong) => {
                return Err(SocketError::PathTooLong);
            },
        };
        let m = Message::Datagram { bytes, dest, token };
        self.queue.push_back(m);
        proof {
            assert(self.pending().drop_last() =~= old(self).pending());
        }
        Ok(())
    }

    /// Apply the outcome of one send attempt for the head packet. Returns the
    /// completion now owed, if any, and whether the host should attempt to
    /// send the next packet in the same pass.
    pub fn flush_step(&mut self, outcome: SendOutcome) -> (r: (Option<Completion>, bool))
        requires
            old(self).wf(),
            !old(self).is_closed(),
            old(self).pending().len() > 0,
        ensures
            final(self).wf(),
            !final(self).is_closed(),
            final(self).interest().readable == old(self).interest().readable,
            outcome is Sent ==> {
                &&& final(self).pending() == old(self).pending().drop_first()
                &&& r.0 == Some(sent_completion(old(self).pending()[0]))
                &&& r.1 == (final(self).pending().len() > 0)
                &&& final(self).interest().writable == (final(self).pending().len() > 0 && old(
                    self,
                ).interest().writable)
            },
            outcome matches SendOutcome::Failed { errno } ==> if is_transient(errno) {
                &&& final(self).pending() == old(self).pending()
                &&& r.0 is None
                &&& r.1 == false
                &&& final(self).interest().writable
            } else {
                &&& final(self).pending() == old(self).pending().drop_first()
                &&& r.0 == Some(failed_completion(old(self).pending()[0], errno))
                &&& r.1 == (final(self).pending().len() > 0)
                &&& final(self).interest().writable == (final(self).pending().len() > 0 && old(
                    self,
                ).interest().writable)
            },
    {
        let m = self.queue.pop_front().unwrap();
        match outcome {
            SendOutcome::Sent => {
                let c = Completion { token: m.completion_token(), status: CompletionStatus::Sent };
                let more = self.queue.len() > 0;
                if !more {
                    self.interest.writable = false;
                }
                (Some(c), more)
            },
            SendOutcome::Failed { errno } => {
                if event::errno_is_transient(errno) {
                    self.queue.push_front(m);
                    proof {
                        assert(self.pending() =~= old(self).pending());
                    }
                    self.interest.writable = true;
                    (None, false)
                } else {
                    let c = Completion {
                        token: m.completion_token(),
                        status: CompletionStatus::Failed(errno),
                    };
                    let more = self.queue.len() > 0;
                    if !more {
                        self.interest.writable = false;
                    }
                    (Some(c), more)
                }
            },
        }
    }

    /// Run a whole flush pass against a script of send outcomes, one per
    /// attempt (so at most one per queued packet). This is `flush_step`
    /// iterated until the pass stops: packets retire in FIFO order, a
    /// transient condition re-queues the head and arms writable watching, and
    /// writable watching ends up on exactly when packets remain.
    pub fn flush(&mut self, outcomes: &Vec<SendOutcome>) -> (r: Vec<Completion>)
        requires
            old(self).wf(),
            !old(self).is_closed(),
            outcomes@.len() >= old(self).pending().len(),
        ensures
            final(self).wf(),
            !final(self).is_closed(),
            final(self).interest().readable == old(self).interest().readable,
            final(self).pending() == flush_remaining(old(self).pending(), outcomes@),
            r@ == flush_completions(old(self).pending(), outcomes@),
            final(self).interest().writable == (final(self).pending().len() > 0),
    {
        let ghost q0 = self.pending();
        let ghost outs = outcomes@;
        let mut completions: Vec<Completion> = Vec::new();
        let mut idx: usize = 0;
        let mut go = self.queue.len() > 0;
        if !go {
            self.interest.writable = false;
            return completions;
        }
        proof {
            assert(outs.skip(0) =~= outs);
        }
        while go
            invariant
                self.wf(),
                !self.is_closed(),
                self.interest().readable == old(self).interest().readable,
                idx <= outs.len(),
                outcomes@ == outs,
                go ==> self.pending().len() > 0,
                go ==> outs.skip(idx as int).len() >= self.pending().len(),
                go ==> self.interest().writable == old(self).interest().writable,
                go ==> flush_remaining(q0, outs) == flush_remaining(
                    self.pending(),
                    outs.skip(idx as int),
                ),
                go ==> completions@ + flush_completions(self.pending(), outs.skip(idx as int))
                    == flush_completions(q0, outs),
                !go ==> self.pending() == flush_remaining(q0, outs),
                !go ==> completions@ == flush_completions(q0, outs),
                !go ==> self.interest().writable == (self.pending().len() > 0),
            decreases self.pending().len() + (if go { 1int } else { 0int }),
        {
            let ghost q_before = self.pending();
            let ghost rest = outs.skip(idx as int);
            proof {
                assert(rest.len() == outs.len() - idx);
                assert(idx < outcomes.len());
                assert(rest[0] == outs[idx as int]);
                assert(rest.drop_first() =~= outs.skip(idx as int + 1));
            }
            let outcome = outcomes[idx];
            let (c, more) = self.flush_step(outcome);
            idx = idx + 1;
            match c {
                Some(c) => {
                    completions.push(c);
                },
                None => {},
            }
            go = more;
            proof {
                match outcome {
                    SendOutcome::Sent => {
                        assert(flush_remaining(q_before, rest) == flush_remaining(
                            self.pending(),
                            rest.drop_first(),
                        ));
                        assert(completions@ + flush_completions(
                            self.pending(),
                            rest.drop_first(),
                        ) =~= flush_completions(q0, outs));
                    },
                    SendOutcome::Failed { errno } => {
                        if is_transient(errno) {
                            assert(flush_remaining(q_before, rest) == q_before);
                            assert(self.pending() == flush_remaining(q0, outs));
                            assert(flush_completions(q_before, rest) == Seq::<
                                Completion,
                            >::empty());
                            assert(completions@ =~= flush_completions(q0, outs));
                        } else {
                            assert(completions@ + flush_completions(
                                self.pending(),
                                rest.drop_first(),
                            ) =~= flush_completions(q0, outs));
                        }
                    },
                }
                if !go && self.pending().len() == 0 {
                    assert(flush_remaining(self.pending(), outs.skip(idx as int))
                        == self.pending());
                    assert(self.pending() == flush_remaining(q0, outs));
                    assert(flush_completions(self.pending(), outs.skip(idx as int)) == Seq::<
                        Completion,
                    >::empty());
                    assert(completions@ =~= flush_completions(q0, outs));
                }
            }
        }
        completions
    }

    /// Apply the outcome of one receive attempt. A packet becomes a `Data`
    /// event carrying the decoded sender path and the loop goes on; a
    /// transient condition quietly ends the loop until the next readable
    /// readiness; any other error becomes an `Error` event and ends the loop
    /// for this cycle without closing the socket.
    pub fn on_recv_outcome(&self, outcome: RecvOutcome) -> (r: (Option<Event>, bool))
        requires
            !self.is_closed(),
        ensures
            outcome matches RecvOutcome::Packet { bytes, sender } ==> {
                &&& r.0 matches Some(e)
                &&& e matches Event::Data { bytes: b, sender: s }
                &&& b@ == bytes@
                &&& s matches Some(p) && p@ == addr::decoded_path(sender.path@)
                &&& r.1 == true
            },
            outcome matches RecvOutcome::Failed { errno } ==> r.1 == false && if is_transient(
                errno,
            ) {
                r.0 is None
            } else {
                r.0 == Some(Event::Error { errno })
            },
    {
        match outcome {
            RecvOutcome::Packet { bytes, sender } => {
                let path = addr::decode(&sender);
                (Some(Event::Data { bytes, sender: Some(path) }), true)
            },
            RecvOutcome::Failed { errno } => {
                if event::errno_is_transient(errno) {
                    (None, false)
                } else {
                    (Some(Event::Error { errno }), false)
                }
            },
        }
    }

    /// Close the socket. Idempotent: the first call stops polling, releases
    /// every queued completion token without invoking it (no success, no
    /// cancellation callback), closes the descriptor and owes the terminal
    /// `Closed` event; any later call does nothing. After this no syscall is
    /// ever requested for the descriptor again.
    pub fn close(&mut self) -> (r: CloseActions)
        requires
            old(self).wf(),
        ensures
            final(self).wf(),
            final(self).is_closed(),
            final(self).pending().len() == 0,
            final(self).interest() == PollInterest::none(),
            old(self).is_closed() ==> {
                &&& *final(self) == *old(self)
                &&& !r.stop_poller
                &&& !r.close_fd
                &&& !r.emit_closed
                &&& r.released_tokens@ == Seq::<u64>::empty()
            },
            !old(self).is_closed() ==> {
                &&& r.stop_poller
                &&& r.close_fd
                &&& r.emit_closed
                &&& r.released_tokens@ == queued_tokens(old(self).pending())
            },
    {
        if self.closed {
            return CloseActions {
                stop_poller: false,
                released_tokens: Vec::new(),
                close_fd: false,
                emit_closed: false,
            };
        }
        let ghost q0 = self.pending();
        let mut tokens: Vec<u64> = Vec::new();
        loop
            invariant
                self.wf(),
                !self.is_closed(),
                self.interest() == old(self).interest(),
                tokens@ + queued_tokens(self.pending()) == queued_tokens(q0),
            ensures
                self.pending().len() == 0,
                tokens@ == queued_tokens(q0),
            decreases self.pending().len(),
        {
            let ghost q_before = self.pending();
            match self.queue.pop_front() {
                Some(m) => {
                    match m.completion_token() {
                        Some(t) => {
                            tokens.push(t);
                            proof {
                                assert(tokens@ + queued_tokens(self.pending()) =~= queued_tokens(
                                    q0,
                                ));
                            }
                        },
                        None => {},
                    }
                },
                None => {
                    break;
                },
            }
        }
        self.closed = true;
        self.interest = PollInterest { readable: false, writable: false };
        CloseActions {
            stop_poller: true,
            released_tokens: tokens,
            close_fd: true,
            emit_closed: true,
        }
    }
}

} // verus!
