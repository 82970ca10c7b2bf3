use yarden::{
    BufferedSource, ContainerMetadata, DecodedVideoFrame, EncodedPacket, Engine, EngineError,
    ImmediateAudioDecoder, LookaheadVideoDecoder, StreamId, VideoFrame, VideoStreamer,
    SAMPLE_RATE,
};

fn meta_2x2() -> ContainerMetadata {
    ContainerMetadata { fps: 10, width: 2, height: 2 }
}

fn video_packet(tag: u8) -> EncodedPacket {
    // a synthetic frame payload: 2 * 2 pixels * 4 bytes
    EncodedPacket { stream_id: StreamId::Video, data: vec![tag; 16] }
}

fn audio_packet(bytes: usize) -> EncodedPacket {
    EncodedPacket { stream_id: StreamId::Audio, data: vec![7; bytes] }
}

fn engine_with(
    meta: ContainerMetadata,
    packets: Vec<EncodedPacket>,
    lookahead: usize,
) -> Engine<BufferedSource, LookaheadVideoDecoder, ImmediateAudioDecoder> {
    Engine::new(
        meta,
        BufferedSource::new(packets),
        LookaheadVideoDecoder::new(meta.width, meta.height, lookahead),
        ImmediateAudioDecoder::new(),
        0,
    )
}

#[test]
fn five_packets_two_lookahead_yield_three_frames_then_none() {
    // five video packets against a decoder that holds two back: the first
    // two polls buffer, then exactly three frames come out, then none
    let packets = (1..=5u8).map(video_packet).collect();
    let mut e = engine_with(meta_2x2(), packets, 2);
    assert!(e.poll_frame().unwrap().is_none());
    assert!(e.poll_frame().unwrap().is_none());
    let f1 = e.poll_frame().unwrap().unwrap();
    assert_eq!(f1.data, vec![1; 16]);
    let f2 = e.poll_frame().unwrap().unwrap();
    assert_eq!(f2.data, vec![2; 16]);
    let f3 = e.poll_frame().unwrap().unwrap();
    assert_eq!(f3.data, vec![3; 16]);
    assert!(e.poll_frame().unwrap().is_none());
    assert!(e.poll_frame().unwrap().is_none());
    assert_eq!(e.frames_released(), 3);
}

#[test]
fn frames_carry_the_probed_dimensions() {
    let packets = vec![video_packet(1)];
    let mut e = engine_with(meta_2x2(), packets, 0);
    let f = e.poll_frame().unwrap().unwrap();
    assert_eq!(f.width, 2);
    assert_eq!(f.height, 2);
    assert_eq!(f.bgrz_pixels(), &[1u8; 16][..]);
}

#[test]
fn crafted_dimension_mismatch_surfaces_format_mismatch() {
    // the decoder emits 3-wide frames against 2-wide metadata: the first
    // frame out must surface FormatMismatch, and the pipeline then reports
    // permanent exhaustion instead of handing out wrong-sized buffers
    let meta = meta_2x2();
    let packets = vec![
        EncodedPacket { stream_id: StreamId::Video, data: vec![1; 24] },
        EncodedPacket { stream_id: StreamId::Video, data: vec![2; 24] },
    ];
    let mut e = Engine::new(
        meta,
        BufferedSource::new(packets),
        LookaheadVideoDecoder::new(3, 2, 0),
        ImmediateAudioDecoder::new(),
        0,
    );
    assert_eq!(e.poll_frame(), Err(EngineError::FormatMismatch));
    assert_eq!(e.poll_frame(), Ok(None));
    assert_eq!(e.frames_released(), 0);
}

#[test]
fn undecodable_packet_poisons_the_video_pipeline() {
    // an empty payload stands for a packet the decoder refuses; the
    // pipeline reports exhaustion from then on rather than skipping it
    let packets = vec![
        EncodedPacket { stream_id: StreamId::Video, data: Vec::new() },
        video_packet(2),
    ];
    let mut e = engine_with(meta_2x2(), packets, 0);
    assert_eq!(e.poll_frame(), Ok(None));
    assert_eq!(e.poll_frame(), Ok(None));
    assert_eq!(e.frames_released(), 0);
}

#[test]
fn audio_spans_come_out_in_the_fixed_format() {
    let packets = vec![audio_packet(8), audio_packet(4)];
    let mut e = engine_with(meta_2x2(), packets, 0);
    let s1 = e.poll_audio().unwrap();
    assert_eq!(s1.sample_rate, SAMPLE_RATE);
    assert_eq!(s1.channel_count, 1);
    assert_eq!(s1.sample_count, 2);
    assert_eq!(s1.data, vec![7; 8]);
    let s2 = e.poll_audio().unwrap();
    assert_eq!(s2.sample_count, 1);
    assert!(e.poll_audio().is_none());
}

#[test]
fn audio_span_duration_follows_sample_count() {
    // half a second of audio: SAMPLE_RATE / 2 sample frames
    let packets = vec![audio_packet((SAMPLE_RATE as usize / 2) * 4)];
    let mut e = engine_with(meta_2x2(), packets, 0);
    let s = e.poll_audio().unwrap();
    assert_eq!(s.sample_count, SAMPLE_RATE as usize / 2);
    assert_eq!(s.duration_millis(), 500);
}

#[test]
fn both_pipelines_draw_from_one_interleaved_source() {
    let packets = vec![
        audio_packet(4),
        video_packet(1),
        audio_packet(8),
        video_packet(2),
    ];
    let mut e = engine_with(meta_2x2(), packets, 0);
    let f1 = e.poll_frame().unwrap().unwrap();
    assert_eq!(f1.data, vec![1; 16]);
    let s1 = e.poll_audio().unwrap();
    assert_eq!(s1.sample_count, 1);
    let s2 = e.poll_audio().unwrap();
    assert_eq!(s2.sample_count, 2);
    let f2 = e.poll_frame().unwrap().unwrap();
    assert_eq!(f2.data, vec![2; 16]);
}

#[test]
fn engine_paces_frames_by_the_wall_clock() {
    // fps 10: one frame every 100 ms
    let mut e = engine_with(meta_2x2(), vec![video_packet(1)], 0);
    assert!(!e.pacer_due_at(99));
    assert!(e.pacer_due_at(100));
    e.mark_frame_released_at(100);
    assert!(!e.pacer_due_at(199));
    assert!(e.pacer_due_at(200));
}

#[test]
fn pausing_through_the_transport_gates_the_pacer() {
    let mut e = engine_with(meta_2x2(), vec![video_packet(1)], 0);
    e.transport().toggle_pause();
    assert!(!e.pacer_due_at(1_000_000));
    e.transport().toggle_pause();
    assert!(e.transport().speed_percent == 100);
}

#[test]
fn engine_reports_its_metadata() {
    let e = engine_with(meta_2x2(), Vec::new(), 0);
    let m = e.metadata();
    assert_eq!(m.fps, 10);
    assert_eq!(m.width, 2);
    assert_eq!(m.height, 2);
    assert_eq!(e.audio_metadata().sample_rate, SAMPLE_RATE);
}

#[test]
fn engine_streams_through_the_video_streamer_interface() {
    let packets = vec![video_packet(9)];
    let mut e = engine_with(meta_2x2(), packets, 0);
    assert_eq!(VideoStreamer::fps(&e), 10);
    assert_eq!(e.frame_width(), 2);
    assert_eq!(e.frame_height(), 2);
    let f: DecodedVideoFrame = e.next_frame().unwrap();
    assert_eq!(VideoFrame::width(&f), 2);
    assert_eq!(VideoFrame::height(&f), 2);
    assert!(e.next_frame().is_none());
}
