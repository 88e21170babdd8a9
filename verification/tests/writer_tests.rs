use peer_channel::message::{DirectSendMsg, MultiplexMessage, NetworkMessage, StreamMessage};
use peer_channel::writer::{IdleEvent, QueuePoll, WriterEnd, WriterPhase, WriterState, WriterStep};

fn direct_send(protocol_id: u8, payload: Vec<u8>) -> NetworkMessage {
    NetworkMessage::DirectSendMsg(DirectSendMsg { protocol_id, priority: 0, raw_msg: payload })
}

fn expect_fragment(step: WriterStep) -> (u32, u8, Vec<u8>) {
    match step {
        WriterStep::Emit(MultiplexMessage::Stream(StreamMessage::Fragment(f))) => {
            (f.request_id, f.fragment_id, f.raw_data)
        }
        _ => panic!("expected a stream fragment"),
    }
}

#[test]
fn small_message_when_idle_goes_whole() {
    let mut w = WriterState::new(100);
    let step = w.on_idle_event(IdleEvent::Received(direct_send(1, vec![1, 2, 3])));
    match step {
        WriterStep::Emit(MultiplexMessage::Message(NetworkMessage::DirectSendMsg(m))) => {
            assert_eq!(m.raw_msg, vec![1, 2, 3]);
        }
        _ => panic!("a small message goes out whole, never as a header"),
    }
    assert_eq!(w.phase(), WriterPhase::Idle);
}

#[test]
fn oversized_message_opens_a_stream() {
    let mut w = WriterState::new(4);
    let step = w.on_idle_event(IdleEvent::Received(direct_send(1, vec![0, 1, 2, 3, 4, 5, 6, 7, 8])));
    match step {
        WriterStep::Emit(MultiplexMessage::Stream(StreamMessage::Header(h))) => {
            assert_eq!(h.request_id, 1);
            assert_eq!(h.num_fragments, 3);
            match &h.message {
                NetworkMessage::DirectSendMsg(m) => assert_eq!(m.raw_msg, vec![0, 1, 2, 3]),
                _ => panic!("the header carries the truncated message"),
            }
        }
        _ => panic!("an oversized message opens a stream"),
    }
    assert_eq!(w.phase(), WriterPhase::PollQueue);
    // nothing queued: the stream continues without stalling
    let (rid, fid, data) = expect_fragment(w.on_queue_poll(QueuePoll::Empty));
    assert_eq!((rid, fid), (1, 1));
    assert_eq!(data, vec![4, 5, 6, 7]);
    let (rid, fid, data) = expect_fragment(w.on_queue_poll(QueuePoll::Empty));
    assert_eq!((rid, fid), (1, 2));
    assert_eq!(data, vec![8]);
    assert_eq!(w.phase(), WriterPhase::Idle);
}

#[test]
fn at_most_one_small_message_between_fragments() {
    let mut w = WriterState::new(4);
    w.on_idle_event(IdleEvent::Received(direct_send(1, vec![9; 10])));
    assert_eq!(w.phase(), WriterPhase::PollQueue);
    // a small message slips in once...
    let step = w.on_queue_poll(QueuePoll::Received(direct_send(2, vec![7])));
    assert!(matches!(
        step,
        WriterStep::Emit(MultiplexMessage::Message(NetworkMessage::DirectSendMsg(_)))
    ));
    // ...and the very next selection is the stream's fragment, with no
    // further look at the queue, however many small messages wait there
    assert_eq!(w.phase(), WriterPhase::EmitFragment);
    let (_, fid, data) = expect_fragment(WriterStep::Emit(w.next_large()));
    assert_eq!(fid, 1);
    assert_eq!(data, vec![9, 9, 9, 9]);
    // after the fragment the queue gets one more chance
    assert_eq!(w.phase(), WriterPhase::PollQueue);
}

#[test]
fn second_oversized_message_waits_its_turn() {
    let mut w = WriterState::new(4);
    w.on_idle_event(IdleEvent::Received(direct_send(1, vec![1; 6])));
    // an oversized message arrives mid-stream: the current stream finishes first
    let (rid, fid, data) = expect_fragment(w.on_queue_poll(QueuePoll::Received(direct_send(2, vec![2; 9]))));
    assert_eq!((rid, fid), (1, 1));
    assert_eq!(data, vec![1, 1]);
    // the first stream is done; the parked message starts a new one
    assert_eq!(w.phase(), WriterPhase::StartQueued);
    let step = w.start_queued();
    match step {
        WriterStep::Emit(MultiplexMessage::Stream(StreamMessage::Header(h))) => {
            assert_eq!(h.request_id, 2);
            assert_eq!(h.num_fragments, 3);
        }
        _ => panic!("the parked oversized message opens the next stream"),
    }
    assert_eq!(w.phase(), WriterPhase::PollQueue);
}

#[test]
fn queue_disconnect_ends_the_writer() {
    let mut w = WriterState::new(4);
    w.on_idle_event(IdleEvent::Received(direct_send(1, vec![1; 6])));
    assert!(matches!(
        w.on_queue_poll(QueuePoll::Disconnected),
        WriterStep::Shutdown(WriterEnd::QueueClosed)
    ));
    let mut idle = WriterState::new(4);
    assert!(matches!(
        idle.on_idle_event(IdleEvent::QueueClosed),
        WriterStep::Shutdown(WriterEnd::QueueClosed)
    ));
    assert!(matches!(
        idle.on_idle_event(IdleEvent::CloserFired),
        WriterStep::Shutdown(WriterEnd::CloserFired)
    ));
}

#[test]
fn payload_beyond_255_fragments_aborts_before_sending() {
    let mut w = WriterState::new(1);
    let step = w.on_idle_event(IdleEvent::Received(direct_send(1, vec![0; 300])));
    assert!(matches!(step, WriterStep::Shutdown(WriterEnd::MessageTooLarge)));
    // nothing of the message went out and no stream was opened
    assert_eq!(w.phase(), WriterPhase::Idle);
    assert_eq!(w.stream_request_id, 0);
}
