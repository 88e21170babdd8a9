//! Whole-stream fragmentation and reassembly.
//!
//! `fragment_message` runs the writer engine until one message's
//! frames are all emitted; `reassemble` feeds frames to the reader
//! engine until the message comes back. Together with the round-trip
//! law of `crate::writer`, they pin down that fragmenting and then
//! reassembling restores a payload byte for byte.

use vstd::prelude::*;
use crate::message::{MultiplexMessage, NetworkMessage, StreamMessage};
use crate::reader::ReaderState;
use crate::writer::{concat_pieces, frag_pieces, lemma_fragment_roundtrip, WriterState};

verus! {

/// `frames` is exactly the fragment stream of `msg` under stream
/// identifier `rid` and frame limit `max`: a header carrying the first
/// frame's worth of payload and the total piece count, then fragments
/// with consecutive 1-based indices carrying the remaining chunks in
/// order.
pub open spec fn is_stream_for(
    frames: Seq<MultiplexMessage>,
    msg: NetworkMessage,
    rid: u32,
    max: nat,
) -> bool {
    let pieces = frag_pieces(msg.data(), max);
    &&& max > 0
    &&& msg.data().len() > max
    &&& frames.len() == pieces.len()
    &&& frames.len() >= 2
    &&& frames[0] matches MultiplexMessage::Stream(StreamMessage::Header(h)) && {
        &&& h.request_id == rid
        &&& h.num_fragments == pieces.len()
        &&& h.message.same_shape(msg)
        &&& h.message.data() == pieces[0]
    }
    &&& forall|i: int|
        1 <= i < frames.len() ==> (#[trigger] frames[i] matches MultiplexMessage::Stream(
            StreamMessage::Fragment(f),
        ) && {
            &&& f.request_id == rid
            &&& f.fragment_id == i
            &&& f.raw_data@ == pieces[i]
        })
}

/// Concatenation grows one chunk at a time: gluing the first `k + 1`
/// chunks is gluing the first `k` and appending chunk `k`.
pub proof fn lemma_concat_take_snoc(pieces: Seq<Seq<u8>>, k: int)
    requires
        0 <= k < pieces.len(),
    ensures
        concat_pieces(pieces.take(k + 1)) == concat_pieces(pieces.take(k)) + pieces[k],
    decreases k,
{
    if k == 0 {
        assert(pieces.take(1).skip(1) =~= Seq::<Seq<u8>>::empty());
        assert(concat_pieces(pieces.take(1).skip(1)) == Seq::<u8>::empty());
        assert(pieces.take(0) =~= Seq::<Seq<u8>>::empty());
        assert(concat_pieces(pieces.take(1)) =~= concat_pieces(pieces.take(0)) + pieces[0]);
    } else {
        lemma_concat_take_snoc(pieces.skip(1), k - 1);
        assert(pieces.take(k + 1).skip(1) =~= pieces.skip(1).take(k));
        assert(pieces.take(k).skip(1) =~= pieces.skip(1).take(k - 1));
        assert(concat_pieces(pieces.take(k + 1)) == pieces[0] + concat_pieces(
            pieces.skip(1).take(k),
        ));
        assert(concat_pieces(pieces.take(k)) == pieces[0] + concat_pieces(
            pieces.skip(1).take(k - 1),
        ));
        assert(pieces.skip(1)[k - 1] == pieces[k]);
        assert(pieces[0] + (concat_pieces(pieces.skip(1).take(k - 1)) + pieces[k]) =~= (pieces[0]
            + concat_pieces(pieces.skip(1).take(k - 1))) + pieces[k]);
    }
}

/// All chunks glued is the whole payload, phrased over `take`.
pub proof fn lemma_concat_take_all(payload: Seq<u8>, max: nat)
    requires
        max > 0,
        payload.len() > 0,
    ensures
        concat_pieces(
            frag_pieces(payload, max).take(frag_pieces(payload, max).len() as int),
        ) == payload,
{
    let pieces = frag_pieces(payload, max);
    assert(pieces.take(pieces.len() as int) =~= pieces);
    lemma_fragment_roundtrip(payload, max);
}

/// Emit every frame of one message in order: a small message goes
/// whole in a single frame, an oversized one as the fragment stream
/// with identifier one above `stream_request_id`.
pub fn fragment_message(msg: NetworkMessage, stream_request_id: u32, max_frame_size: usize) -> (
    frames: Vec<MultiplexMessage>)
    requires
        max_frame_size > 0,
        stream_request_id < u32::MAX,
        msg.data().len() > max_frame_size ==> frag_pieces(
            msg.data(),
            max_frame_size as nat,
        ).len() <= 255,
    ensures
        msg.data().len() <= max_frame_size ==> frames@ == seq![MultiplexMessage::Message(msg)],
        msg.data().len() > max_frame_size ==> is_stream_for(
            frames@,
            msg,
            (stream_request_id + 1) as u32,
            max_frame_size as nat,
        ),
{
    let mut frames: Vec<MultiplexMessage> = Vec::new();
    if msg.data_len() <= max_frame_size {
        frames.push(MultiplexMessage::Message(msg));
        return frames;
    }
    let ghost msg0 = msg;
    let ghost maxn = max_frame_size as nat;
    let ghost pieces = frag_pieces(msg.data(), maxn);
    let ghost rid = (stream_request_id + 1) as u32;
    let mut w = WriterState::new(max_frame_size);
    w.stream_request_id = stream_request_id;
    let header = w.start_large(msg);
    frames.push(header);
    proof {
        assert(frag_pieces(msg0.data().skip(maxn as int), maxn).len() >= 1);
        assert(frag_pieces(msg0.data(), maxn) =~= seq![msg0.data().take(maxn as int)]
            + frag_pieces(msg0.data().skip(maxn as int), maxn));
        assert(pieces.skip(1) =~= frag_pieces(msg0.data().skip(maxn as int), maxn));
    }
    while w.large_message.is_some()
        invariant
            w.wf(),
            w.max_frame_size == max_frame_size,
            w.stream_request_id == rid,
            w.next_large_msg is None,
            maxn == max_frame_size as nat,
            pieces == frag_pieces(msg0.data(), maxn),
            pieces.len() >= 2,
            pieces.len() <= 255,
            1 <= frames@.len() <= pieces.len(),
            frames@.len() == w.large_fragment_id + 1,
            frames@[0] matches MultiplexMessage::Stream(StreamMessage::Header(h)) && {
                &&& h.request_id == rid
                &&& h.num_fragments == pieces.len()
                &&& h.message.same_shape(msg0)
                &&& h.message.data() == pieces[0]
            },
            forall|i: int|
                1 <= i < frames@.len() ==> (#[trigger] frames@[i] matches MultiplexMessage::Stream(
                    StreamMessage::Fragment(f),
                ) && {
                    &&& f.request_id == rid
                    &&& f.fragment_id == i
                    &&& f.raw_data@ == pieces[i]
                }),
            w.large_message matches Some(r) ==> frames@.len() < pieces.len() && frag_pieces(
                r@,
                maxn,
            ) == pieces.skip(frames@.len() as int),
            w.large_message is None ==> frames@.len() == pieces.len(),
        decreases (if w.large_message is Some {
            w.large_message->0@.len() + 1
        } else {
            0
        }),
    {
        let ghost k = frames@.len() as int;
        let ghost rest = w.large_message->0@;
        let m = w.next_large();
        proof {
            if rest.len() > maxn {
                assert(frag_pieces(rest, maxn) =~= seq![rest.take(maxn as int)] + frag_pieces(
                    rest.skip(maxn as int),
                    maxn,
                ));
                assert(frag_pieces(rest.skip(maxn as int), maxn) =~= frag_pieces(
                    rest,
                    maxn,
                ).skip(1));
                assert(pieces.skip(k).skip(1) =~= pieces.skip(k + 1));
                assert(pieces[k] == frag_pieces(rest, maxn)[0]);
            } else {
                assert(frag_pieces(rest, maxn) =~= seq![rest]);
                assert(pieces[k] == rest);
                assert(pieces.skip(k).len() == 1);
            }
        }
        frames.push(m);
    }
    frames
}

/// Feed frames to a fresh reader in order and hand back the last
/// message it completed. Whenever the input is exactly the fragment
/// stream of some message, that message comes back whole: its payload
/// is the header's chunk and every fragment's bytes, in order,
/// restored byte for byte.
pub fn reassemble(frames: Vec<MultiplexMessage>) -> (out: Option<NetworkMessage>)
    ensures
        forall|msg: NetworkMessage, rid: u32, max: nat|
            #[trigger] is_stream_for(frames@, msg, rid, max) ==> (out matches Some(done)
                && done.same_shape(msg) && done.data() == msg.data()),
{
    let ghost all = frames@;
    let mut rd = ReaderState::new();
    let mut out: Option<NetworkMessage> = None;
    let mut rest = frames;
    while rest.len() > 0
        invariant
            rd.wf(),
            all.skip(all.len() - rest@.len()) == rest@,
            rest@.len() <= all.len(),
            forall|msg: NetworkMessage, rid: u32, max: nat|
                #[trigger] is_stream_for(all, msg, rid, max) ==> {
                    let pieces = frag_pieces(msg.data(), max);
                    let k = all.len() - rest@.len();
                    if k == 0 {
                        out is None && rd.large_message is None
                    } else if k < all.len() {
                        &&& out is None
                        &&& rd.current_stream_id == rid
                        &&& rd.num_fragments == pieces.len()
                        &&& rd.fragment_index == k
                        &&& rd.large_message matches Some(m) && m.same_shape(msg) && m.data()
                            == concat_pieces(pieces.take(k as int))
                    } else {
                        out matches Some(done) && done.same_shape(msg) && done.data() == msg.data()
                    }
                },
        decreases rest@.len(),
    {
        let ghost k = all.len() - rest@.len();
        let frame = rest.remove(0);
        assert(frame == all[k as int]);
        assert(all.skip(k as int).skip(1) =~= all.skip(k as int + 1));
        match frame {
            MultiplexMessage::Stream(sm) => {
                let got = rd.handle_stream(sm);
                proof {
                    assert forall|msg: NetworkMessage, rid: u32, max: nat|
                        #[trigger] is_stream_for(all, msg, rid, max) implies {
                        let pieces = frag_pieces(msg.data(), max);
                        let k2 = all.len() - rest@.len();
                        if k2 < all.len() {
                            &&& (got is None && out is None)
                            &&& rd.current_stream_id == rid
                            &&& rd.num_fragments == pieces.len()
                            &&& rd.fragment_index == k2
                            &&& rd.large_message matches Some(m) && m.same_shape(msg) && m.data()
                                == concat_pieces(pieces.take(k2 as int))
                        } else {
                            got matches Some(done) && done.same_shape(msg) && done.data()
                                == msg.data()
                        }
                    } by {
                        let pieces = frag_pieces(msg.data(), max);
                        lemma_fragment_roundtrip(msg.data(), max);
                        if k == 0 {
                            assert(pieces[0] == concat_pieces(pieces.take(1))) by {
                                lemma_concat_take_snoc(pieces, 0);
                                assert(pieces.take(0) =~= Seq::<Seq<u8>>::empty());
                                assert(Seq::<u8>::empty() + pieces[0] =~= pieces[0]);
                            }
                        } else {
                            lemma_concat_take_snoc(pieces, k as int);
                            if k + 1 == all.len() {
                                lemma_concat_take_all(msg.data(), max);
                            }
                        }
                    }
                }
                if got.is_some() {
                    out = got;
                }
            },
            MultiplexMessage::Message(_) => {},
        }
    }
    out
}

} // verus!
