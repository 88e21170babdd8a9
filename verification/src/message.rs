//! Wire message types.
//!
//! A `NetworkMessage` is one discrete application-level message; a
//! `MultiplexMessage` is the unit actually framed on the wire: either a
//! whole `NetworkMessage` or one element of a fragment stream. An
//! oversized message travels as a `StreamHeader` (carrying the first
//! frame's worth of payload) followed by `StreamFragment`s whose
//! concatenated `raw_data` restores the rest.

use vstd::prelude::*;

verus! {

/// An outbound request that expects a correlated response.
pub struct RpcRequest {
    /// Which application the request is for.
    pub protocol_id: u8,
    /// Connection-scoped identifier the response will carry back.
    pub request_id: u32,
    /// Requested delivery priority.
    pub priority: u8,
    /// The opaque request payload.
    pub raw_request: Vec<u8>,
}

/// The response to an earlier `RpcRequest`, correlated by `request_id`.
pub struct RpcResponse {
    /// Identifier of the request this answers.
    pub request_id: u32,
    /// Requested delivery priority.
    pub priority: u8,
    /// The opaque response payload.
    pub raw_response: Vec<u8>,
}

/// A one-way message with no response expected.
pub struct DirectSendMsg {
    /// Which application the message is for.
    pub protocol_id: u8,
    /// Requested delivery priority.
    pub priority: u8,
    /// The opaque message payload.
    pub raw_msg: Vec<u8>,
}

/// One discrete application message. An `Error` carries only a
/// diagnostic code, so it always fits in a single frame and is never
/// fragmented.
pub enum NetworkMessage {
    /// A connection-level diagnostic.
    Error(u32),
    /// An outbound request expecting a response.
    RpcRequest(RpcRequest),
    /// The response to an earlier request.
    RpcResponse(RpcResponse),
    /// A one-way message.
    DirectSendMsg(DirectSendMsg),
}

/// The header of a fragment stream: stream identity, total piece
/// count, and the original message truncated to its first frame's
/// worth of payload.
pub struct StreamHeader {
    /// Writer-scoped stream identifier, increasing per stream.
    pub request_id: u32,
    /// Total number of pieces, the header included.
    pub num_fragments: u8,
    /// The message with only the first chunk of its payload.
    pub message: NetworkMessage,
}

/// One continuation chunk of a fragment stream.
pub struct StreamFragment {
    /// The stream this chunk belongs to.
    pub request_id: u32,
    /// 1-based position of this chunk after the header.
    pub fragment_id: u8,
    /// The payload bytes of this chunk.
    pub raw_data: Vec<u8>,
}

/// One element of a fragment stream.
pub enum StreamMessage {
    /// Opens a stream.
    Header(StreamHeader),
    /// Continues the open stream.
    Fragment(StreamFragment),
}

/// The unit framed on the wire.
pub enum MultiplexMessage {
    /// A whole message in one frame.
    Message(NetworkMessage),
    /// One element of a fragment stream.
    Stream(StreamMessage),
}

impl NetworkMessage {
    /// The mutable payload of the message; an `Error` has none.
    pub open spec fn data(self) -> Seq<u8> {
        match self {
            NetworkMessage::Error(_) => Seq::empty(),
            NetworkMessage::RpcRequest(r) => r.raw_request@,
            NetworkMessage::RpcResponse(r) => r.raw_response@,
            NetworkMessage::DirectSendMsg(m) => m.raw_msg@,
        }
    }

    /// Length of the payload, which decides whether the message must
    /// be fragmented.
    pub fn data_len(&self) -> (n: usize)
        ensures
            n == self.data().len(),
    {
        match self {
            NetworkMessage::Error(_) => 0,
            NetworkMessage::RpcRequest(r) => r.raw_request.len(),
            NetworkMessage::RpcResponse(r) => r.raw_response.len(),
            NetworkMessage::DirectSendMsg(m) => m.raw_msg.len(),
        }
    }

    /// Everything of the message but its payload: the variant and the
    /// routing metadata. Fragmentation preserves this and only this
    /// alongside the payload bytes.
    pub open spec fn same_shape(self, other: NetworkMessage) -> bool {
        match (self, other) {
            (NetworkMessage::Error(a), NetworkMessage::Error(b)) => a == b,
            (NetworkMessage::RpcRequest(a), NetworkMessage::RpcRequest(b)) => {
                a.protocol_id == b.protocol_id && a.request_id == b.request_id && a.priority
                    == b.priority
            },
            (NetworkMessage::RpcResponse(a), NetworkMessage::RpcResponse(b)) => {
                a.request_id == b.request_id && a.priority == b.priority
            },
            (NetworkMessage::DirectSendMsg(a), NetworkMessage::DirectSendMsg(b)) => {
                a.protocol_id == b.protocol_id && a.priority == b.priority
            },
            _ => false,
        }
    }
}

/// Split the message's payload at `at`: the message keeps the first
/// `at` bytes, the rest is handed back. Only called for messages that
/// carry a payload, which an `Error` never does when oversized.
pub fn split_message(msg: &mut NetworkMessage, at: usize) -> (rest: Vec<u8>)
    requires
        at <= old(msg).data().len(),
        !(*old(msg) is Error),
    ensures
        final(msg).same_shape(*old(msg)),
        final(msg).data() == old(msg).data().subrange(0, at as int),
        rest@ == old(msg).data().subrange(at as int, old(msg).data().len() as int),
{
    match msg {
        NetworkMessage::Error(_) => {
            // excluded by the precondition; an Error has no payload to split
            Vec::new()
        },
        NetworkMessage::RpcRequest(r) => r.raw_request.split_off(at),
        NetworkMessage::RpcResponse(r) => r.raw_response.split_off(at),
        NetworkMessage::DirectSendMsg(m) => m.raw_msg.split_off(at),
    }
}

/// Append `more` to the message's payload, consuming `more`. Used by
/// reassembly to accumulate fragment chunks.
pub fn append_message_data(msg: &mut NetworkMessage, more: &mut Vec<u8>)
    requires
        !(*old(msg) is Error),
    ensures
        final(msg).same_shape(*old(msg)),
        final(msg).data() == old(msg).data() + old(more)@,
{
    match msg {
        NetworkMessage::Error(_) => {
            // excluded by the precondition; an Error accumulates nothing
        },
        NetworkMessage::RpcRequest(r) => r.raw_request.append(more),
        NetworkMessage::RpcResponse(r) => r.raw_response.append(more),
        NetworkMessage::DirectSendMsg(m) => m.raw_msg.append(more),
    }
}

} // verus!
