use peer_channel::message::{DirectSendMsg, NetworkMessage, StreamFragment, StreamHeader,
    StreamMessage};
use peer_channel::reader::{route, rpc_response_payload, ReaderState, RouteAction};
use peer_channel::message::RpcResponse;

fn direct_send(protocol_id: u8, payload: Vec<u8>) -> NetworkMessage {
    NetworkMessage::DirectSendMsg(DirectSendMsg { protocol_id, priority: 0, raw_msg: payload })
}

fn header(request_id: u32, num_fragments: u8, message: NetworkMessage) -> StreamMessage {
    StreamMessage::Header(StreamHeader { request_id, num_fragments, message })
}

fn fragment(request_id: u32, fragment_id: u8, raw_data: Vec<u8>) -> StreamMessage {
    StreamMessage::Fragment(StreamFragment { request_id, fragment_id, raw_data })
}

#[test]
fn out_of_order_fragment_resets_then_fresh_header_collects() {
    let mut rd = ReaderState::new();
    assert!(rd.handle_stream(header(5, 3, direct_send(1, vec![1, 2]))).is_none());
    // expected fragment index is 1; index 2 is out of order
    assert!(rd.handle_stream(fragment(5, 2, vec![3, 4])).is_none());
    assert!(rd.large_message.is_none());
    assert_eq!(rd.fragment_index, 0);
    assert_eq!(rd.num_fragments, 0);
    // the abandoned stream's remaining fragments are discarded too
    assert!(rd.handle_stream(fragment(5, 3, vec![5, 6])).is_none());
    // a fresh well-formed stream still collects correctly
    assert!(rd.handle_stream(header(6, 3, direct_send(1, vec![10, 11]))).is_none());
    assert!(rd.handle_stream(fragment(6, 1, vec![12])).is_none());
    let done = rd.handle_stream(fragment(6, 2, vec![13, 14]));
    match done {
        Some(NetworkMessage::DirectSendMsg(m)) => {
            assert_eq!(m.raw_msg, vec![10, 11, 12, 13, 14]);
        }
        _ => panic!("the fresh stream should complete"),
    }
    assert!(rd.large_message.is_none());
}

#[test]
fn fragment_from_wrong_stream_resets() {
    let mut rd = ReaderState::new();
    assert!(rd.handle_stream(header(5, 3, direct_send(1, vec![1]))).is_none());
    assert!(rd.handle_stream(fragment(9, 1, vec![2])).is_none());
    assert!(rd.large_message.is_none());
    assert_eq!(rd.num_fragments, 0);
}

#[test]
fn fragment_without_header_is_ignored() {
    let mut rd = ReaderState::new();
    assert!(rd.handle_stream(fragment(0, 0, vec![1, 2])).is_none());
    assert!(rd.large_message.is_none());
}

#[test]
fn new_header_abandons_incomplete_collection() {
    let mut rd = ReaderState::new();
    assert!(rd.handle_stream(header(5, 3, direct_send(1, vec![1]))).is_none());
    assert!(rd.handle_stream(fragment(5, 1, vec![2])).is_none());
    // a new header overwrites the unfinished stream
    assert!(rd.handle_stream(header(6, 2, direct_send(2, vec![7]))).is_none());
    assert_eq!(rd.current_stream_id, 6);
    assert_eq!(rd.fragment_index, 1);
    let done = rd.handle_stream(fragment(6, 1, vec![8, 9]));
    match done {
        Some(NetworkMessage::DirectSendMsg(m)) => {
            assert_eq!(m.protocol_id, 2);
            assert_eq!(m.raw_msg, vec![7, 8, 9]);
        }
        _ => panic!("the new stream should complete"),
    }
}

#[test]
fn error_is_never_reassembled() {
    let mut rd = ReaderState::new();
    assert!(rd.handle_stream(header(5, 2, NetworkMessage::Error(404))).is_none());
    assert!(rd.large_message.is_none());
}

#[test]
fn routes_by_message_tag() {
    match route(direct_send(9, vec![1])) {
        RouteAction::ToApp(protocol_id, NetworkMessage::DirectSendMsg(m)) => {
            assert_eq!(protocol_id, 9);
            assert_eq!(m.raw_msg, vec![1]);
        }
        _ => panic!("a direct send routes to its application"),
    }
    match route(NetworkMessage::Error(7)) {
        RouteAction::LogError(code) => assert_eq!(code, 7),
        _ => panic!("an error is only logged"),
    }
    let response = NetworkMessage::RpcResponse(RpcResponse {
        request_id: 33,
        priority: 0,
        raw_response: vec![5, 6],
    });
    match route(response) {
        RouteAction::CompleteRpc(request_id, _) => assert_eq!(request_id, 33),
        _ => panic!("a response routes to the matcher"),
    }
}

#[test]
fn unknown_protocol_is_dropped_and_others_still_dispatch() {
    // the application registry of this connection knows protocol 5 only
    let registered: Vec<u8> = vec![5];
    let mut delivered: Vec<(u8, Vec<u8>)> = Vec::new();
    for msg in [direct_send(9, vec![1, 2]), direct_send(5, vec![3, 4])] {
        match route(msg) {
            RouteAction::ToApp(protocol_id, NetworkMessage::DirectSendMsg(m)) => {
                if registered.contains(&protocol_id) {
                    delivered.push((protocol_id, m.raw_msg));
                }
                // an unknown protocol identifier only drops the message
            }
            _ => panic!("direct sends route to applications"),
        }
    }
    assert_eq!(delivered, vec![(5, vec![3, 4])]);
}

#[test]
fn response_payload_only_from_responses() {
    let response = NetworkMessage::RpcResponse(RpcResponse {
        request_id: 1,
        priority: 0,
        raw_response: vec![9, 9],
    });
    assert_eq!(rpc_response_payload(response), Some(vec![9, 9]));
    assert_eq!(rpc_response_payload(direct_send(1, vec![1])), None);
    assert_eq!(rpc_response_payload(NetworkMessage::Error(1)), None);
}
