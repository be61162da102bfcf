//! Outbound messages and the FIFO queue that holds them.
//!
//! A message carries immutable payload bytes, an optional completion token
//! (an opaque identifier the host uses to notify its caller exactly once),
//! and, for datagram sockets, the destination address. A stream message also
//! remembers how many of its bytes have already been written, so that a
//! partial write advances the message in place instead of duplicating it.

use vstd::prelude::*;

use crate::addr::RawAddress;

verus! {

/// One queued outbound message.
#[derive(Debug, Clone, PartialEq, Eq)]
pub enum Message {
    /// A datagram: sent whole to `dest`, or not at all.
    Datagram { bytes: Vec<u8>, dest: RawAddress, token: Option<u64> },
    /// A slice of a byte stream; `sent` bytes of it are already on the wire.
    Stream { bytes: Vec<u8>, sent: usize, token: Option<u64> },
}

impl Message {
    /// The completion token attached to this message, if any.
    pub open spec fn token(&self) -> Option<u64> {
        match self {
            Message::Datagram { token, .. } => *token,
            Message::Stream { token, .. } => *token,
        }
    }

    /// The full payload as enqueued.
    pub open spec fn payload(&self) -> Seq<u8> {
        match self {
            Message::Datagram { bytes, .. } => bytes@,
            Message::Stream { bytes, .. } => bytes@,
        }
    }

    /// The bytes still to be transmitted.
    pub open spec fn remaining(&self) -> Seq<u8> {
        match self {
            Message::Datagram { bytes, .. } => bytes@,
            Message::Stream { bytes, sent, .. } => bytes@.skip(*sent as int),
        }
    }

    /// Well-formedness: a datagram's destination is a full address structure;
    /// a stream message has not sent more than it holds.
    pub open spec fn wf(&self) -> bool {
        match self {
            Message::Datagram { dest, .. } => dest.wf(),
            Message::Stream { bytes, sent, .. } => *sent <= bytes@.len(),
        }
    }

    /// Read the completion token.
    pub fn completion_token(&self) -> (t: Option<u64>)
        ensures
            t == self.token(),
    {
        match self {
            Message::Datagram { token, .. } => *token,
            Message::Stream { token, .. } => *token,
        }
    }

    /// Count the bytes still to be transmitted.
    pub fn remaining_len(&self) -> (n: usize)
        requires
            self.wf(),
        ensures
            n == self.remaining().len(),
    {
        match self {
            Message::Datagram { bytes, .. } => bytes.len(),
            Message::Stream { bytes, sent, .. } => bytes.len() - sent,
        }
    }

    /// Record that `count` more bytes of a stream message are on the wire.
    pub fn advance(self, count: usize) -> (m: Message)
        requires
            self.wf(),
            self is Stream ==> count <= self.remaining().len(),
        ensures
            m == advanced(self, count as int),
            m.wf(),
    {
        match self {
            Message::Stream { bytes, sent, token } => {
                proof {
                    assert(bytes.len() == bytes@.len());
                }
                Message::Stream { bytes, sent: sent + count, token }
            },
            other => other,
        }
    }
}

/// A stream message after `count` more of its bytes went on the wire; any
/// other message is unchanged.
pub open spec fn advanced(m: Message, count: int) -> Message {
    match m {
        Message::Stream { bytes, sent, token } => Message::Stream {
            bytes,
            sent: (sent + count) as usize,
            token,
        },
        other => other,
    }
}

/// The concatenation of the still-unsent bytes of a queue, head first: what a
/// peer would receive if everything queued were transmitted in order.
pub open spec fn queued_bytes(q: Seq<Message>) -> Seq<u8>
    decreases q.len(),
{
    if q.len() == 0 {
        Seq::empty()
    } else {
        q[0].remaining() + queued_bytes(q.drop_first())
    }
}

/// How a message's completion ended.
#[derive(Debug, PartialEq, Eq, Clone, Copy)]
pub enum CompletionStatus {
    /// The message was fully transmitted.
    Sent,
    /// Transmission failed with this errno; the message was retired.
    Failed(i32),
}

/// A completion notification owed to the host: invoke the callback behind
/// `token` with the given status, exactly once.
#[derive(Debug, PartialEq, Eq, Clone, Copy)]
pub struct Completion {
    pub token: Option<u64>,
    pub status: CompletionStatus,
}

/// The completion a fully transmitted message earns.
pub open spec fn sent_completion(m: Message) -> Completion {
    Completion { token: m.token(), status: CompletionStatus::Sent }
}

/// The completion a message retired by a non-transient send error earns.
pub open spec fn failed_completion(m: Message, errno: i32) -> Completion {
    Completion { token: m.token(), status: CompletionStatus::Failed(errno) }
}

/// The completion tokens still held by a queue, head first: what `close`
/// releases without invoking.
pub open spec fn queued_tokens(q: Seq<Message>) -> Seq<u64>
    decreases q.len(),
{
    if q.len() == 0 {
        Seq::empty()
    } else {
        match q[0].token() {
            Some(t) => seq![t] + queued_tokens(q.drop_first()),
            None => queued_tokens(q.drop_first()),
        }
    }
}

/// An ordered FIFO collection of pending outbound messages.
pub struct OutboundQueue {
    items: Vec<Message>,
}

impl View for OutboundQueue {
    type V = Seq<Message>;

    closed spec fn view(&self) -> Seq<Message> {
        self.items@
    }
}

impl OutboundQueue {
    /// An empty queue.
    pub fn new() -> (q: OutboundQueue)
        ensures
            q@ == Seq::<Message>::empty(),
    {
        OutboundQueue { items: Vec::new() }
    }

    /// Number of queued messages.
    pub fn len(&self) -> (n: usize)
        ensures
            n == self@.len(),
    {
        self.items.len()
    }

    /// Whether nothing is queued.
    pub fn is_empty(&self) -> (r: bool)
        ensures
            r <==> self@.len() == 0,
    {
        self.items.len() == 0
    }

    /// Append a message at the tail.
    pub fn push_back(&mut self, m: Message)
        ensures
            final(self)@ == old(self)@.push(m),
    {
        self.items.push(m);
    }

    /// Put a message back at the head (a deferred or partially-sent message
    /// keeps its place in front of everything queued after it).
    pub fn push_front(&mut self, m: Message)
        ensures
            final(self)@ == seq![m] + old(self)@,
    {
        self.items.insert(0, m);
        proof {
            assert(self@ =~= seq![m] + old(self)@);
        }
    }

    /// Remove and return the head message, if any.
    pub fn pop_front(&mut self) -> (r: Option<Message>)
        ensures
            old(self)@.len() == 0 ==> r is None && final(self)@ == old(self)@,
            old(self)@.len() > 0 ==> r == Some(old(self)@[0]) && final(self)@ == old(
                self,
            )@.drop_first(),
    {
        if self.items.len() == 0 {
            None
        } else {
            let m = self.items.remove(0);
            proof {
                assert(self@ =~= old(self)@.drop_first());
            }
            Some(m)
        }
    }

    /// Borrow the head message without removing it.
    pub fn head(&self) -> (r: Option<&Message>)
        ensures
            self@.len() == 0 ==> r is None,
            self@.len() > 0 ==> (r matches Some(m) && *m == self@[0]),
    {
        if self.items.len() == 0 {
            None
        } else {
            Some(&self.items[0])
        }
    }
}

} // verus!
