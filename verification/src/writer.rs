//! The writer engine's decision core.
//!
//! Each turn of the writer loop selects exactly one `MultiplexMessage`
//! to put on the wire. A message whose payload fits in one frame goes
//! whole; an oversized one opens a fragment stream: a header carrying
//! the first frame's worth of payload, then fragments with the rest in
//! order. While a stream is in flight the writer interleaves at most
//! one small message between consecutive fragments, and a second
//! oversized message waits in a single pending slot until the current
//! stream finishes. The blocking itself (queue reads, the wire write,
//! the shutdown latch) happens outside the verified core, which is
//! handed each event as a plain value.

use vstd::prelude::*;
use vstd::arithmetic::div_mod::{
    lemma_basic_div, lemma_div_plus_one, lemma_div_multiples_vanish_fancy,
    lemma_fundamental_div_mod,
};
use crate::message::{MultiplexMessage, NetworkMessage, StreamFragment, StreamHeader,
    StreamMessage};
use crate::message::split_message;

verus! {

/// `ceil(len / max)`: how many frames a payload of `len` bytes needs.
pub open spec fn ceil_div(len: nat, max: nat) -> nat {
    ((len + max - 1) as nat) / max
}

/// The payload cut into frame-sized chunks: full `max`-byte chunks,
/// then whatever remains. A non-empty payload always yields at least
/// one chunk.
pub open spec fn frag_pieces(payload: Seq<u8>, max: nat) -> Seq<Seq<u8>>
    decreases payload.len(),
    when max > 0
{
    if payload.len() <= max {
        seq![payload]
    } else {
        seq![payload.take(max as int)] + frag_pieces(payload.skip(max as int), max)
    }
}

/// The chunks glued back together.
pub open spec fn concat_pieces(pieces: Seq<Seq<u8>>) -> Seq<u8>
    decreases pieces.len(),
{
    if pieces.len() == 0 {
        Seq::empty()
    } else {
        pieces[0] + concat_pieces(pieces.skip(1))
    }
}

/// Round-trip law of fragmentation: cutting a non-empty payload into
/// frame-sized chunks and concatenating them restores the payload
/// exactly, and the number of chunks is `ceil(len / max)`.
pub proof fn lemma_fragment_roundtrip(payload: Seq<u8>, max: nat)
    requires
        max > 0,
        payload.len() > 0,
    ensures
        concat_pieces(frag_pieces(payload, max)) == payload,
        frag_pieces(payload, max).len() == ceil_div(payload.len(), max),
    decreases payload.len(),
{
    let pieces = frag_pieces(payload, max);
    if payload.len() <= max {
        assert(pieces.skip(1) =~= Seq::<Seq<u8>>::empty());
        assert(concat_pieces(pieces.skip(1)) == Seq::<u8>::empty());
        assert(concat_pieces(pieces) =~= payload);
        assert(ceil_div(payload.len(), max) == 1) by {
            let x = payload.len() - 1;
            lemma_basic_div(x as int, max as int);
            lemma_div_plus_one(x as int, max as int);
        }
    } else {
        let rest = payload.skip(max as int);
        lemma_fragment_roundtrip(rest, max);
        assert(pieces.skip(1) =~= frag_pieces(rest, max));
        assert(concat_pieces(pieces.skip(1)) == concat_pieces(frag_pieces(rest, max)));
        assert(concat_pieces(pieces) =~= payload);
        assert(ceil_div(payload.len(), max) == 1 + ceil_div(rest.len(), max)) by {
            let x = payload.len() - 1;
            lemma_div_plus_one(x as int, max as int);
        }
    }
}

/// `ceil_div` in terms of truncating division, the form the executable
/// code computes.
pub proof fn lemma_ceil_div_eq(len: nat, max: nat)
    requires
        max > 0,
        len > 0,
    ensures
        len % max == 0 ==> ceil_div(len, max) == len / max,
        len % max != 0 ==> ceil_div(len, max) == len / max + 1,
{
    let q = len as int / max as int;
    let r = len as int % max as int;
    lemma_fundamental_div_mod(len as int, max as int);
    if r == 0 {
        assert(len + max - 1 == max * q + (max - 1));
        lemma_div_multiples_vanish_fancy(q, max as int - 1, max as int);
    } else {
        assert(len + max - 1 == max * (q + 1) + (r - 1)) by {
            assert(max * (q + 1) == max * q + max) by (nonlinear_arith);
        }
        lemma_div_multiples_vanish_fancy(q + 1, r - 1, max as int);
    }
}

/// What drives the writer's next selection.
#[derive(Clone, Copy, Debug, PartialEq, Eq, Structural)]
pub enum WriterPhase {
    /// A stream is in flight and its next fragment is due, either
    /// because a small message just went out or because a second
    /// oversized message is already waiting.
    EmitFragment,
    /// A stream is in flight but the queue may slip in one small
    /// message first: poll it without blocking.
    PollQueue,
    /// The previous stream just finished and an oversized message is
    /// waiting in the pending slot: open its stream now.
    StartQueued,
    /// Nothing is in flight: block for the next message or shutdown.
    Idle,
}

/// Why the writer stops its loop.
#[derive(Clone, Copy, Debug, PartialEq, Eq, Structural)]
pub enum WriterEnd {
    /// The outbound queue's producers are gone.
    QueueClosed,
    /// The connection's shutdown latch fired.
    CloserFired,
    /// A payload would need more than 255 fragments: a fatal
    /// configuration error, aborted before any of its bytes are sent.
    MessageTooLarge,
}

/// The outcome of one non-blocking poll of the outbound queue.
pub enum QueuePoll {
    /// A message was ready.
    Received(NetworkMessage),
    /// Nothing queued right now.
    Empty,
    /// The queue's producers are gone.
    Disconnected,
}

/// The event that ends an idle wait.
pub enum IdleEvent {
    /// A message arrived.
    Received(NetworkMessage),
    /// The queue's producers are gone.
    QueueClosed,
    /// The shutdown latch fired.
    CloserFired,
}

/// One selection: either the frame to send next, or the reason to
/// stop and fire the shutdown latch.
pub enum WriterStep {
    /// Send this frame.
    Emit(MultiplexMessage),
    /// Stop the loop.
    Shutdown(WriterEnd),
}

/// The writer engine's state between selections.
pub struct WriterState {
    /// Identifier of the most recently opened fragment stream;
    /// incremented when a new stream opens.
    pub stream_request_id: u32,
    /// Remaining payload bytes of the stream in flight, if any.
    pub large_message: Option<Vec<u8>>,
    /// Index of the last fragment emitted for the stream in flight.
    pub large_fragment_id: u8,
    /// Set after a small message was slipped in mid-stream: the next
    /// selection must be a fragment.
    pub send_large: bool,
    /// A second oversized message, waiting for the stream in flight to
    /// finish.
    pub next_large_msg: Option<NetworkMessage>,
    /// The frame size limit the codec enforces on the wire.
    pub max_frame_size: usize,
}

/// How the state decides the next selection.
pub open spec fn spec_phase(s: WriterState) -> WriterPhase {
    if s.large_message is Some {
        if s.send_large || s.next_large_msg is Some {
            WriterPhase::EmitFragment
        } else {
            WriterPhase::PollQueue
        }
    } else if s.next_large_msg is Some {
        WriterPhase::StartQueued
    } else {
        WriterPhase::Idle
    }
}

/// Relation between a state, its successor, and the frame emitted when
/// the writer sends the next fragment of the stream in flight: the
/// fragment carries the next frame's worth of the remaining payload
/// under the next 1-based fragment index, and the remainder (if any)
/// stays in flight.
pub open spec fn fragment_step(pre: WriterState, post: WriterState, m: MultiplexMessage) -> bool {
    let rest = pre.large_message->0@;
    let max = pre.max_frame_size as int;
    &&& post.stream_request_id == pre.stream_request_id
    &&& post.max_frame_size == pre.max_frame_size
    &&& post.large_fragment_id == pre.large_fragment_id + 1
    &&& !post.send_large
    &&& m matches MultiplexMessage::Stream(StreamMessage::Fragment(f)) && {
        &&& f.request_id == pre.stream_request_id
        &&& f.fragment_id == pre.large_fragment_id + 1
        &&& f.raw_data@ == if rest.len() <= max {
            rest
        } else {
            rest.take(max)
        }
    }
    &&& if rest.len() <= max {
        post.large_message is None
    } else {
        post.large_message matches Some(r) && r@ == rest.skip(max)
    }
}

/// Relation between a state, its successor, the frame emitted, and the
/// oversized message `msg` when the writer opens a new fragment
/// stream: the header carries the stream identifier one above the
/// previous one, the total piece count, and the message truncated to
/// its first frame's worth of payload; the rest goes in flight.
pub open spec fn header_step(
    pre: WriterState,
    post: WriterState,
    m: MultiplexMessage,
    msg: NetworkMessage,
) -> bool {
    let max = pre.max_frame_size as int;
    let pieces = frag_pieces(msg.data(), pre.max_frame_size as nat);
    &&& post.stream_request_id == pre.stream_request_id + 1
    &&& post.max_frame_size == pre.max_frame_size
    &&& post.large_fragment_id == 0
    &&& !post.send_large
    &&& post.large_message matches Some(r) && r@ == msg.data().skip(max)
    &&& m matches MultiplexMessage::Stream(StreamMessage::Header(h)) && {
        &&& h.request_id == pre.stream_request_id + 1
        &&& h.num_fragments == pieces.len()
        &&& h.message.same_shape(msg)
        &&& h.message.data() == msg.data().take(max)
    }
}

impl WriterState {
    /// Internal consistency: frames are non-trivial, the stream in
    /// flight still fits in the remaining fragment indices, and the
    /// pending slot only ever holds a genuinely oversized message.
    pub open spec fn wf(self) -> bool {
        &&& self.max_frame_size > 0
        &&& match self.large_message {
            Some(rest) => {
                &&& rest@.len() > 0
                &&& self.large_fragment_id + frag_pieces(
                    rest@,
                    self.max_frame_size as nat,
                ).len() <= 255
            },
            None => true,
        }
        &&& match self.next_large_msg {
            Some(m) => m.data().len() > self.max_frame_size,
            None => true,
        }
    }

    /// A fresh writer: no stream in flight, nothing pending.
    pub fn new(max_frame_size: usize) -> (w: WriterState)
        requires
            max_frame_size > 0,
        ensures
            w.wf(),
            w.stream_request_id == 0,
            w.large_message is None,
            w.next_large_msg is None,
            !w.send_large,
            w.max_frame_size == max_frame_size,
    {
        WriterState {
            stream_request_id: 0,
            large_message: None,
            large_fragment_id: 0,
            send_large: false,
            next_large_msg: None,
            max_frame_size,
        }
    }

    /// The writer's next move, decided by the state alone.
    pub fn phase(&self) -> (p: WriterPhase)
        ensures
            p == spec_phase(*self),
    {
        if self.large_message.is_some() {
            if self.send_large || self.next_large_msg.is_some() {
                WriterPhase::EmitFragment
            } else {
                WriterPhase::PollQueue
            }
        } else if self.next_large_msg.is_some() {
            WriterPhase::StartQueued
        } else {
            WriterPhase::Idle
        }
    }

    /// Cut the next fragment off the stream in flight.
    pub fn next_large(&mut self) -> (m: MultiplexMessage)
        requires
            old(self).wf(),
            old(self).large_message is Some,
        ensures
            final(self).wf(),
            fragment_step(*old(self), *final(self), m),
            final(self).next_large_msg == old(self).next_large_msg,
    {
        let mut blob = self.large_message.take().unwrap();
        if blob.len() > self.max_frame_size {
            let rest = blob.split_off(self.max_frame_size);
            self.large_message = Some(rest);
        }
        self.large_fragment_id = self.large_fragment_id + 1;
        self.send_large = false;
        MultiplexMessage::Stream(
            StreamMessage::Fragment(
                StreamFragment {
                    request_id: self.stream_request_id,
                    fragment_id: self.large_fragment_id,
                    raw_data: blob,
                },
            ),
        )
    }

    /// Open a fragment stream for an oversized message and emit its
    /// header.
    pub fn start_large(&mut self, msg: NetworkMessage) -> (m: MultiplexMessage)
        requires
            old(self).wf(),
            old(self).large_message is None,
            old(self).stream_request_id < u32::MAX,
            msg.data().len() > old(self).max_frame_size,
            frag_pieces(msg.data(), old(self).max_frame_size as nat).len() <= 255,
        ensures
            final(self).wf(),
            header_step(*old(self), *final(self), m, msg),
            final(self).next_large_msg == old(self).next_large_msg,
    {
        let ghost orig = msg.data();
        let ghost maxn = old(self).max_frame_size as nat;
        proof {
            lemma_fragment_roundtrip(orig, maxn);
            lemma_ceil_div_eq(orig.len(), maxn);
            lemma_fundamental_div_mod(orig.len() as int, maxn as int);
        }
        self.stream_request_id = self.stream_request_id + 1;
        self.send_large = false;
        self.large_fragment_id = 0;
        let len = msg.data_len();
        let num_fragments: usize = if len % self.max_frame_size == 0 {
            len / self.max_frame_size
        } else {
            len / self.max_frame_size + 1
        };
        assert(num_fragments == ceil_div(orig.len(), maxn));
        assert(num_fragments <= 255);
        let num_fragments = num_fragments as u8;
        let mut msg = msg;
        let rest = split_message(&mut msg, self.max_frame_size);
        proof {
            assert(orig.skip(maxn as int) =~= rest@);
            assert(frag_pieces(orig, maxn) =~= seq![orig.take(maxn as int)] + frag_pieces(
                orig.skip(maxn as int),
                maxn,
            ));
            assert(frag_pieces(orig, maxn).len() == 1 + frag_pieces(rest@, maxn).len());
            assert(msg.data() =~= orig.take(maxn as int));
        }
        self.large_message = Some(rest);
        MultiplexMessage::Stream(
            StreamMessage::Header(
                StreamHeader { request_id: self.stream_request_id, num_fragments, message: msg },
            ),
        )
    }

    /// React to one non-blocking poll of the outbound queue while a
    /// stream is in flight. A small message goes out whole at once and
    /// marks the next fragment due; an oversized one is parked in the
    /// pending slot and the stream in flight continues; an empty queue
    /// never stalls the stream; a disconnected queue ends the loop.
    pub fn on_queue_poll(&mut self, polled: QueuePoll) -> (step: WriterStep)
        requires
            old(self).wf(),
            spec_phase(*old(self)) == WriterPhase::PollQueue,
        ensures
            final(self).wf(),
            match polled {
                QueuePoll::Received(msg) => {
                    if msg.data().len() <= old(self).max_frame_size {
                        &&& step == WriterStep::Emit(MultiplexMessage::Message(msg))
                        &&& *final(self) == WriterState { send_large: true, ..*old(self) }
                    } else {
                        &&& step matches WriterStep::Emit(m) && fragment_step(
                            WriterState { next_large_msg: Some(msg), ..*old(self) },
                            *final(self),
                            m,
                        )
                        &&& final(self).next_large_msg == Some(msg)
                    }
                },
                QueuePoll::Empty => {
                    &&& step matches WriterStep::Emit(m) && fragment_step(
                        *old(self),
                        *final(self),
                        m,
                    )
                    &&& final(self).next_large_msg is None
                },
                QueuePoll::Disconnected => {
                    &&& step == WriterStep::Shutdown(WriterEnd::QueueClosed)
                    &&& *final(self) == *old(self)
                },
            },
    {
        match polled {
            QueuePoll::Received(msg) => {
                if msg.data_len() > self.max_frame_size {
                    // finish the stream in flight before starting this one
                    self.next_large_msg = Some(msg);
                    WriterStep::Emit(self.next_large())
                } else {
                    // send the small message now, a fragment next
                    self.send_large = true;
                    WriterStep::Emit(MultiplexMessage::Message(msg))
                }
            },
            QueuePoll::Empty => WriterStep::Emit(self.next_large()),
            QueuePoll::Disconnected => WriterStep::Shutdown(WriterEnd::QueueClosed),
        }
    }

    /// Open the stream of the pending oversized message, the previous
    /// stream having finished. A payload that would need more than 255
    /// fragments aborts the connection before any of its bytes are
    /// sent.
    pub fn start_queued(&mut self) -> (step: WriterStep)
        requires
            old(self).wf(),
            spec_phase(*old(self)) == WriterPhase::StartQueued,
            old(self).stream_request_id < u32::MAX,
        ensures
            final(self).wf(),
            ({
                let msg = old(self).next_large_msg->0;
                let pieces = frag_pieces(msg.data(), old(self).max_frame_size as nat);
                if pieces.len() <= 255 {
                    &&& step matches WriterStep::Emit(m) && header_step(
                        *old(self),
                        *final(self),
                        m,
                        msg,
                    )
                    &&& final(self).next_large_msg is None
                } else {
                    &&& step == WriterStep::Shutdown(WriterEnd::MessageTooLarge)
                    &&& *final(self) == *old(self)
                }
            }),
    {
        let ghost pre = *self;
        let msg = self.next_large_msg.take().unwrap();
        if !fragment_count_fits(&msg, self.max_frame_size) {
            self.next_large_msg = Some(msg);
            assert(*self == pre);
            return WriterStep::Shutdown(WriterEnd::MessageTooLarge);
        }
        WriterStep::Emit(self.start_large(msg))
    }

    /// React to the event that ended an idle wait: a small message
    /// goes out whole, an oversized one opens a stream (or aborts if
    /// beyond the 255-fragment cap), and a closed queue or a fired
    /// shutdown latch ends the loop.
    pub fn on_idle_event(&mut self, event: IdleEvent) -> (step: WriterStep)
        requires
            old(self).wf(),
            spec_phase(*old(self)) == WriterPhase::Idle,
            old(self).stream_request_id < u32::MAX,
        ensures
            final(self).wf(),
            match event {
                IdleEvent::Received(msg) => {
                    let pieces = frag_pieces(msg.data(), old(self).max_frame_size as nat);
                    if msg.data().len() <= old(self).max_frame_size {
                        &&& step == WriterStep::Emit(MultiplexMessage::Message(msg))
                        &&& *final(self) == *old(self)
                    } else if pieces.len() <= 255 {
                        &&& step matches WriterStep::Emit(m) && header_step(
                            *old(self),
                            *final(self),
                            m,
                            msg,
                        )
                        &&& final(self).next_large_msg is None
                    } else {
                        &&& step == WriterStep::Shutdown(WriterEnd::MessageTooLarge)
                        &&& *final(self) == *old(self)
                    }
                },
                IdleEvent::QueueClosed => {
                    &&& step == WriterStep::Shutdown(WriterEnd::QueueClosed)
                    &&& *final(self) == *old(self)
                },
                IdleEvent::CloserFired => {
                    &&& step == WriterStep::Shutdown(WriterEnd::CloserFired)
                    &&& *final(self) == *old(self)
                },
            },
    {
        match event {
            IdleEvent::Received(msg) => {
                if msg.data_len() <= self.max_frame_size {
                    WriterStep::Emit(MultiplexMessage::Message(msg))
                } else if !fragment_count_fits(&msg, self.max_frame_size) {
                    WriterStep::Shutdown(WriterEnd::MessageTooLarge)
                } else {
                    WriterStep::Emit(self.start_large(msg))
                }
            },
            IdleEvent::QueueClosed => WriterStep::Shutdown(WriterEnd::QueueClosed),
            IdleEvent::CloserFired => WriterStep::Shutdown(WriterEnd::CloserFired),
        }
    }
}

/// Whether the message's payload can be carried in at most 255
/// frame-sized pieces, the cap a one-byte fragment index imposes.
pub fn fragment_count_fits(msg: &NetworkMessage, max_frame_size: usize) -> (b: bool)
    requires
        max_frame_size > 0,
        msg.data().len() > 0,
    ensures
        b == (frag_pieces(msg.data(), max_frame_size as nat).len() <= 255),
{
    proof {
        lemma_fragment_roundtrip(msg.data(), max_frame_size as nat);
        lemma_ceil_div_eq(msg.data().len(), max_frame_size as nat);
        lemma_fundamental_div_mod(msg.data().len() as int, max_frame_size as int);
    }
    let len = msg.data_len();
    let whole = len / max_frame_size;
    whole < 255 || (whole == 255 && len % max_frame_size == 0)
}

/// Interleaving bound: while a large message is mid-fragmentation, the
/// writer never lets two small messages pass between consecutive
/// fragments. Emitting a small message whole in the poll phase leaves
/// the stream in flight with the fragment-due flag set (as
/// `on_queue_poll` ensures), and from any such state the next
/// selection is the stream's next fragment, whatever the queue holds.
pub proof fn lemma_interleaving_bound(pre: WriterState, post: WriterState)
    requires
        pre.large_message is Some,
        spec_phase(pre) == WriterPhase::PollQueue,
        post.send_large,
        post.large_message == pre.large_message,
    ensures
        spec_phase(post) == WriterPhase::EmitFragment,
{
}

} // verus!
