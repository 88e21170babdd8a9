use peer_channel::message::{DirectSendMsg, MultiplexMessage, NetworkMessage, StreamMessage};
use peer_channel::stream::{fragment_message, reassemble};

fn direct_send(protocol_id: u8, payload: Vec<u8>) -> NetworkMessage {
    NetworkMessage::DirectSendMsg(DirectSendMsg { protocol_id, priority: 0, raw_msg: payload })
}

fn payload_of(msg: &NetworkMessage) -> &Vec<u8> {
    match msg {
        NetworkMessage::DirectSendMsg(m) => &m.raw_msg,
        NetworkMessage::RpcRequest(r) => &r.raw_request,
        NetworkMessage::RpcResponse(r) => &r.raw_response,
        NetworkMessage::Error(_) => panic!("an error message carries no payload"),
    }
}

fn patterned(len: usize) -> Vec<u8> {
    let mut v = Vec::with_capacity(len);
    for i in 0..len {
        v.push((i % 251) as u8);
    }
    v
}

#[test]
fn scenario_2500_bytes_in_1024_frames() {
    let payload = patterned(2500);
    let frames = fragment_message(direct_send(3, payload.clone()), 0, 1024);
    assert_eq!(frames.len(), 3);
    match &frames[0] {
        MultiplexMessage::Stream(StreamMessage::Header(h)) => {
            assert_eq!(h.request_id, 1);
            assert_eq!(h.num_fragments, 3);
            assert_eq!(payload_of(&h.message).as_slice(), &payload[..1024]);
        }
        _ => panic!("expected the stream header first"),
    }
    match &frames[1] {
        MultiplexMessage::Stream(StreamMessage::Fragment(f)) => {
            assert_eq!(f.request_id, 1);
            assert_eq!(f.fragment_id, 1);
            assert_eq!(f.raw_data.as_slice(), &payload[1024..2048]);
        }
        _ => panic!("expected a fragment second"),
    }
    match &frames[2] {
        MultiplexMessage::Stream(StreamMessage::Fragment(f)) => {
            assert_eq!(f.request_id, 1);
            assert_eq!(f.fragment_id, 2);
            assert_eq!(f.raw_data.len(), 452);
            assert_eq!(f.raw_data.as_slice(), &payload[2048..]);
        }
        _ => panic!("expected a fragment third"),
    }
    let out = reassemble(frames);
    match out {
        Some(done) => assert_eq!(payload_of(&done), &payload),
        None => panic!("the stream should reassemble"),
    }
}

#[test]
fn roundtrip_restores_payload_and_count() {
    let payload = patterned(3000);
    let frames = fragment_message(direct_send(7, payload.clone()), 41, 512);
    // ceil(3000 / 512) = 6 pieces
    assert_eq!(frames.len(), 6);
    match &frames[0] {
        MultiplexMessage::Stream(StreamMessage::Header(h)) => {
            assert_eq!(h.request_id, 42);
            assert_eq!(h.num_fragments, 6);
        }
        _ => panic!("expected the stream header first"),
    }
    let out = reassemble(frames).expect("the stream should reassemble");
    assert_eq!(payload_of(&out), &payload);
    match out {
        NetworkMessage::DirectSendMsg(m) => assert_eq!(m.protocol_id, 7),
        _ => panic!("the message kind must survive the round trip"),
    }
}

#[test]
fn small_payload_goes_whole_never_a_header() {
    let payload = patterned(1024);
    let frames = fragment_message(direct_send(1, payload.clone()), 0, 1024);
    assert_eq!(frames.len(), 1);
    match &frames[0] {
        MultiplexMessage::Message(m) => assert_eq!(payload_of(m), &payload),
        _ => panic!("a payload at the limit must go out whole"),
    }
}

#[test]
fn one_byte_over_the_limit_fragments() {
    let payload = patterned(1025);
    let frames = fragment_message(direct_send(1, payload.clone()), 0, 1024);
    assert_eq!(frames.len(), 2);
    match &frames[0] {
        MultiplexMessage::Stream(StreamMessage::Header(h)) => {
            assert_eq!(h.num_fragments, 2);
            assert_eq!(payload_of(&h.message).len(), 1024);
        }
        _ => panic!("expected the stream header first"),
    }
    match &frames[1] {
        MultiplexMessage::Stream(StreamMessage::Fragment(f)) => {
            assert_eq!(f.raw_data.as_slice(), &payload[1024..]);
        }
        _ => panic!("expected a fragment second"),
    }
    let out = reassemble(frames).expect("the stream should reassemble");
    assert_eq!(payload_of(&out), &payload);
}
