//! The reader engine's decision core.
//!
//! Every decoded `MultiplexMessage` is either a whole message,
//! dispatched at once, or one element of a fragment stream, fed to the
//! defragmentation state machine below. At most one reassembly is live
//! per connection: a header opens it, fragments must arrive with the
//! stream's identifier and consecutive 1-based indices, and any
//! mismatch abandons the collection — a tolerated anomaly, never fatal
//! to the connection. Decoding and forwarding happen outside the
//! verified core, which is handed each frame as a plain value.

use vstd::prelude::*;
use crate::message::{NetworkMessage, StreamMessage};
use crate::message::append_message_data;

verus! {

/// The reassembly context: at most one in-flight collection.
pub struct ReaderState {
    /// Identifier of the stream being collected.
    pub current_stream_id: u32,
    /// The message under reassembly, its payload accumulating.
    pub large_message: Option<NetworkMessage>,
    /// 1-based index the next fragment must carry.
    pub fragment_index: u8,
    /// Total piece count announced by the stream's header.
    pub num_fragments: u8,
}

/// The state after a collection is abandoned or completed: no message
/// under reassembly, indices cleared, the last stream identifier kept.
pub open spec fn reset_collection(pre: ReaderState, post: ReaderState) -> bool {
    post == ReaderState {
        large_message: None,
        fragment_index: 0,
        num_fragments: 0,
        ..pre
    }
}

impl ReaderState {
    /// An `Error` always fits one frame, so it is never under
    /// reassembly.
    pub open spec fn wf(self) -> bool {
        match self.large_message {
            Some(m) => !(m is Error),
            None => true,
        }
    }

    /// A fresh reader: idle, nothing under reassembly.
    pub fn new() -> (r: ReaderState)
        ensures
            r.wf(),
            r.large_message is None,
            r.current_stream_id == 0,
            r.fragment_index == 0,
            r.num_fragments == 0,
    {
        ReaderState {
            current_stream_id: 0,
            large_message: None,
            fragment_index: 0,
            num_fragments: 0,
        }
    }

    /// Feed one stream element to the defragmentation state machine;
    /// a completed message comes back for dispatch.
    ///
    /// A header always opens a fresh collection, abandoning any
    /// incomplete one (best-effort recovery) — unless its inner
    /// message is an `Error`, which is never fragmented: that anomaly
    /// leaves the reader idle. A fragment must carry the live stream's
    /// identifier and the expected index; any mismatch discards the
    /// collection and resets to idle. A matching fragment appends its
    /// bytes, and the collection completes when the expected index
    /// reaches the announced piece count.
    pub fn handle_stream(&mut self, sm: StreamMessage) -> (out: Option<NetworkMessage>)
        requires
            old(self).wf(),
        ensures
            final(self).wf(),
            match sm {
                StreamMessage::Header(h) => {
                    &&& out is None
                    &&& if h.message is Error {
                        reset_collection(*old(self), *final(self))
                    } else {
                        *final(self) == ReaderState {
                            current_stream_id: h.request_id,
                            large_message: Some(h.message),
                            fragment_index: 1,
                            num_fragments: h.num_fragments,
                        }
                    }
                },
                StreamMessage::Fragment(f) => {
                    if f.request_id != old(self).current_stream_id || f.fragment_id != old(
                        self,
                    ).fragment_index {
                        &&& out is None
                        &&& reset_collection(*old(self), *final(self))
                    } else if old(self).large_message is None {
                        &&& out is None
                        &&& *final(self) == *old(self)
                    } else {
                        let m = old(self).large_message->0;
                        if old(self).fragment_index + 1 == old(self).num_fragments {
                            &&& out matches Some(done) && done.same_shape(m) && done.data()
                                == m.data() + f.raw_data@
                            &&& reset_collection(*old(self), *final(self))
                        } else if old(self).fragment_index == 255 {
                            &&& out is None
                            &&& reset_collection(*old(self), *final(self))
                        } else {
                            &&& out is None
                            &&& final(self).current_stream_id == old(self).current_stream_id
                            &&& final(self).num_fragments == old(self).num_fragments
                            &&& final(self).fragment_index == old(self).fragment_index + 1
                            &&& final(self).large_message matches Some(m2) && m2.same_shape(m)
                                && m2.data() == m.data() + f.raw_data@
                        }
                    }
                },
            },
    {
        match sm {
            StreamMessage::Header(h) => {
                match &h.message {
                    NetworkMessage::Error(_) => {
                        // an Error is never fragmented: do not open a collection
                        self.large_message = None;
                        self.fragment_index = 0;
                        self.num_fragments = 0;
                        None
                    },
                    _ => {
                        self.current_stream_id = h.request_id;
                        self.num_fragments = h.num_fragments;
                        self.large_message = Some(h.message);
                        self.fragment_index = 1;
                        None
                    },
                }
            },
            StreamMessage::Fragment(mut f) => {
                if f.request_id != self.current_stream_id || f.fragment_id != self.fragment_index {
                    // out of order or from an abandoned stream: drop the collection
                    self.large_message = None;
                    self.fragment_index = 0;
                    self.num_fragments = 0;
                    return None;
                }
                match self.large_message.take() {
                    None => None,
                    Some(mut m) => {
                        append_message_data(&mut m, &mut f.raw_data);
                        if self.fragment_index as usize + 1 == self.num_fragments as usize {
                            // collection complete: dispatch the reassembled message
                            self.fragment_index = 0;
                            self.num_fragments = 0;
                            Some(m)
                        } else if self.fragment_index == 255 {
                            // the one-byte index is exhausted and the announced
                            // count is unreachable: drop the collection
                            self.fragment_index = 0;
                            self.num_fragments = 0;
                            None
                        } else {
                            self.fragment_index = self.fragment_index + 1;
                            self.large_message = Some(m);
                            None
                        }
                    },
                }
            },
        }
    }
}

/// Where a whole message goes once demultiplexed or reassembled.
pub enum RouteAction {
    /// A remote diagnostic: log it, nothing further.
    LogError(u32),
    /// Look the protocol up in the application registry and forward
    /// the message, with the sender's identity, to that application's
    /// inbound queue; an unknown protocol or a full queue drops the
    /// message, never the connection.
    ToApp(u8, NetworkMessage),
    /// Query the RPC matcher for this request identifier and deliver
    /// the response to the waiting caller; a miss is silently
    /// tolerated.
    CompleteRpc(u32, NetworkMessage),
}

/// Route one whole message by its tag: errors are logged, requests and
/// one-way sends go to the application registered for their protocol,
/// responses go to the RPC matcher under their request identifier.
pub fn route(msg: NetworkMessage) -> (action: RouteAction)
    ensures
        match msg {
            NetworkMessage::Error(code) => action == RouteAction::LogError(code),
            NetworkMessage::RpcRequest(r) => action == RouteAction::ToApp(
                r.protocol_id,
                NetworkMessage::RpcRequest(r),
            ),
            NetworkMessage::RpcResponse(r) => action == RouteAction::CompleteRpc(
                r.request_id,
                NetworkMessage::RpcResponse(r),
            ),
            NetworkMessage::DirectSendMsg(m) => action == RouteAction::ToApp(
                m.protocol_id,
                NetworkMessage::DirectSendMsg(m),
            ),
        },
{
    match msg {
        NetworkMessage::Error(code) => RouteAction::LogError(code),
        NetworkMessage::RpcRequest(r) => {
            let protocol_id = r.protocol_id;
            RouteAction::ToApp(protocol_id, NetworkMessage::RpcRequest(r))
        },
        NetworkMessage::RpcResponse(r) => {
            let request_id = r.request_id;
            RouteAction::CompleteRpc(request_id, NetworkMessage::RpcResponse(r))
        },
        NetworkMessage::DirectSendMsg(m) => {
            let protocol_id = m.protocol_id;
            RouteAction::ToApp(protocol_id, NetworkMessage::DirectSendMsg(m))
        },
    }
}

/// The payload delivered to a waiting RPC caller: the raw bytes of a
/// response, and nothing for any other message.
pub fn rpc_response_payload(msg: NetworkMessage) -> (blob: Option<Vec<u8>>)
    ensures
        match msg {
            NetworkMessage::RpcResponse(r) => blob matches Some(b) && b@ == r.raw_response@,
            _ => blob is None,
        },
{
    match msg {
        NetworkMessage::RpcResponse(r) => Some(r.raw_response),
        _ => None,
    }
}

} // verus!
