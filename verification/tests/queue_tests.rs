use yarden::{BufferedSource, EncodedPacket, StreamId, StreamQueues};

fn packet(stream_id: StreamId, tag: u8) -> EncodedPacket {
    EncodedPacket { stream_id, data: vec![tag] }
}

#[test]
fn pop_returns_only_the_requested_stream_in_order() {
    let packets = vec![
        packet(StreamId::Video, 1),
        packet(StreamId::Audio, 2),
        packet(StreamId::Video, 3),
        packet(StreamId::Audio, 4),
        packet(StreamId::Audio, 5),
        packet(StreamId::Video, 6),
    ];
    let mut q = StreamQueues::new(BufferedSource::new(packets));
    let v1 = q.pop(StreamId::Video).unwrap();
    assert_eq!(v1.stream_id, StreamId::Video);
    assert_eq!(v1.data, vec![1]);
    let v2 = q.pop(StreamId::Video).unwrap();
    assert_eq!(v2.stream_id, StreamId::Video);
    assert_eq!(v2.data, vec![3]);
    let v3 = q.pop(StreamId::Video).unwrap();
    assert_eq!(v3.data, vec![6]);
    assert!(q.pop(StreamId::Video).is_none());
}

#[test]
fn refill_for_one_stream_buffers_the_other() {
    // a refill triggered by a video pop must route the audio packets it
    // scans past into the audio queue, not drop them
    let packets = vec![
        packet(StreamId::Audio, 10),
        packet(StreamId::Audio, 11),
        packet(StreamId::Video, 12),
        packet(StreamId::Audio, 13),
    ];
    let mut q = StreamQueues::new(BufferedSource::new(packets));
    let v = q.pop(StreamId::Video).unwrap();
    assert_eq!(v.data, vec![12]);
    // the audio packets scanned past are all there, in container order
    assert_eq!(q.pop(StreamId::Audio).unwrap().data, vec![10]);
    assert_eq!(q.pop(StreamId::Audio).unwrap().data, vec![11]);
    assert_eq!(q.pop(StreamId::Audio).unwrap().data, vec![13]);
    assert!(q.pop(StreamId::Audio).is_none());
}

#[test]
fn empty_source_pops_nothing() {
    let mut q = StreamQueues::new(BufferedSource::new(Vec::new()));
    assert!(q.pop(StreamId::Video).is_none());
    assert!(q.pop(StreamId::Audio).is_none());
}

#[test]
fn refill_is_bounded_per_pop() {
    // 30 audio packets stand before the only video packet: one pop scans at
    // most one bounded batch, so the video packet surfaces only after the
    // audio backlog has been scanned by later pops
    let mut packets = Vec::new();
    for i in 0..30u8 {
        packets.push(packet(StreamId::Audio, i));
    }
    packets.push(packet(StreamId::Video, 99));
    let mut q = StreamQueues::new(BufferedSource::new(packets));
    assert!(q.pop(StreamId::Video).is_none());
    assert!(q.pop(StreamId::Video).is_none());
    let v = q.pop(StreamId::Video).unwrap();
    assert_eq!(v.data, vec![99]);
    // every audio packet scanned past is still there, in order
    for i in 0..30u8 {
        assert_eq!(q.pop(StreamId::Audio).unwrap().data, vec![i]);
    }
    assert!(q.pop(StreamId::Audio).is_none());
}
