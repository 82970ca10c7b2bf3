//! A real-time media playback core: packet routing, decode pipelines,
//! and wall-clock pacing for a single multiplexed audio/video container.

mod audio;
mod clock;
mod decode;
mod engine;
mod frame;
mod frame_fetcher;
mod frame_streamer;
mod meta;
mod packet;
mod pacer;
mod probe;
mod queue;
mod transport;

pub use audio::{DecodedAudioSpan, SAMPLE_RATE};
pub use decode::{
    AudioDecode, DecodePoll, ImmediateAudioDecoder, LookaheadVideoDecoder, VideoDecode,
};
pub use engine::Engine;
pub use frame::DecodedVideoFrame;
pub use frame_fetcher::{Frame, FrameStreamer, FrameStreamerMetaData};
pub use frame_streamer::{AudioStreamerMetaData, VideoFrame, VideoStreamer, VideoStreamerMetaData};
pub use meta::{ContainerMetadata, EngineError};
pub use packet::{BufferedSource, EncodedPacket, PacketSource, StreamId};
pub use pacer::{
    interval_millis, interval_millis_spec, lemma_due_threshold, lemma_pause_resume,
    lemma_paused_poll_freezes, lemma_release_rate, lemma_release_spacing, Pacer,
};
pub use probe::{
    all_digits, digits_value, is_ascii_digit, is_ascii_space, parse_frame_rate, parse_unsigned,
    trimmed,
};
pub use queue::{lemma_routing_partition, stream_only, StreamQueues, REFILL_BATCH};
pub use transport::{clamped_u32, TransportState};
