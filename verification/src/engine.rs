use vstd::prelude::*;
use crate::audio::{DecodedAudioSpan, SAMPLE_RATE};
use crate::frame_streamer::{AudioStreamerMetaData, VideoStreamer, VideoStreamerMetaData};
use crate::clock::now_millis;
use crate::decode::{AudioDecode, DecodePoll, VideoDecode};
use crate::frame::DecodedVideoFrame;
use crate::meta::{ContainerMetadata, EngineError};
use crate::pacer::Pacer;
use crate::packet::{EncodedPacket, PacketSource, StreamId};
use crate::queue::{StreamQueues, REFILL_BATCH};
use crate::transport::TransportState;

verus! {

/// The playback engine: one packet source split into per-stream queues, a
/// video and an audio decode pipeline drawing from them, and the pacer and
/// transport state that decide when the next frame is due. Single-threaded;
/// no call here blocks.
pub struct Engine<S: PacketSource, V: VideoDecode, A: AudioDecode> {
    metadata: ContainerMetadata,
    queues: StreamQueues<S>,
    video_decoder: V,
    audio_decoder: A,
    /// Set when the video pipeline hit a fatal condition; the pipeline then
    /// reports permanent exhaustion rather than skipping data, which would
    /// silently desynchronize audio and video.
    video_failed: bool,
    /// The audio pipeline's counterpart of `video_failed`.
    audio_failed: bool,
    /// Video frames successfully released so far; diagnostics only, never
    /// used for synchronization (which is wall-clock based).
    frames_delivered: u64,
    pacer: Pacer,
    transport: TransportState,
}

impl<S: PacketSource, V: VideoDecode, A: AudioDecode> Engine<S, V, A> {
    pub closed spec fn metadata_spec(self) -> ContainerMetadata {
        self.metadata
    }

    pub closed spec fn transport_spec(self) -> TransportState {
        self.transport
    }

    pub closed spec fn pacer_spec(self) -> Pacer {
        self.pacer
    }

    pub closed spec fn video_failed(self) -> bool {
        self.video_failed
    }

    pub closed spec fn audio_failed(self) -> bool {
        self.audio_failed
    }

    pub closed spec fn frames_delivered(self) -> u64 {
        self.frames_delivered
    }

    /// Every packet drawn from the source so far, in container order.
    pub closed spec fn seen(self) -> Seq<EncodedPacket> {
        self.queues.seen()
    }

    /// The packets of stream `id` already fed to its decoder, in order.
    pub closed spec fn taken(self, id: StreamId) -> Seq<EncodedPacket> {
        self.queues.taken(id)
    }

    /// The packets of stream `id` still queued, in order.
    pub closed spec fn pending(self, id: StreamId) -> Seq<EncodedPacket> {
        self.queues.pending(id)
    }

    pub closed spec fn wf(self) -> bool {
        &&& self.metadata.wf()
        &&& self.queues.wf()
        &&& self.pacer.wf()
        &&& self.pacer.fps == self.metadata.fps
    }

    /// Build an engine over an opened packet source and its two decoders.
    /// `now_ms` is the wall-clock instant construction happens at; the first
    /// frame falls due one interval later.
    pub fn new(
        metadata: ContainerMetadata,
        source: S,
        video_decoder: V,
        audio_decoder: A,
        now_ms: u64,
    ) -> (r: Engine<S, V, A>)
        requires
            metadata.wf(),
        ensures
            r.wf(),
            r.metadata_spec() == metadata,
            r.transport_spec().paused == false,
            r.transport_spec().speed_percent == 100u32,
            r.transport_spec().volume_percent == 100u32,
            r.transport_spec().muted == false,
            r.pacer_spec() == (Pacer {
                fps: metadata.fps,
                reference_ms: now_ms,
                in_pause: false,
                pause_mark_ms: now_ms,
            }),
            r.video_failed() == false,
            r.audio_failed() == false,
            r.frames_delivered() == 0,
            r.seen().len() == 0,
            r.taken(StreamId::Video).len() == 0,
            r.taken(StreamId::Audio).len() == 0,
            r.pending(StreamId::Video).len() == 0,
            r.pending(StreamId::Audio).len() == 0,
    {
        Engine {
            metadata,
            queues: StreamQueues::new(source),
            video_decoder,
            audio_decoder,
            video_failed: false,
            audio_failed: false,
            frames_delivered: 0,
            pacer: Pacer::new(metadata.fps, now_ms),
            transport: TransportState::new(),
        }
    }

    /// The probed container facts this engine was built with.
    pub fn metadata(&self) -> (r: ContainerMetadata)
        ensures
            r == self.metadata_spec(),
    {
        self.metadata
    }

    /// What the audio sink needs to know of the delivered audio: every span
    /// comes at the fixed resample target rate.
    pub fn audio_metadata(&self) -> (r: AudioStreamerMetaData)
        ensures
            r.sample_rate == SAMPLE_RATE,
    {
        AudioStreamerMetaData { sample_rate: SAMPLE_RATE }
    }

    /// Video frames successfully released so far (diagnostics only).
    pub fn frames_released(&self) -> (r: u64)
        ensures
            r == self.frames_delivered(),
    {
        self.frames_delivered
    }

    /// Mutable access to the transport state. Changes take effect on the
    /// next pacer poll and the next read by the audio sink.
    pub fn transport(&mut self) -> (r: &mut TransportState)
        requires
            old(self).wf(),
        ensures
            *r == old(self).transport_spec(),
            final(self).transport_spec() == *final(r),
            final(self).wf(),
            final(self).metadata_spec() == old(self).metadata_spec(),
            final(self).pacer_spec() == old(self).pacer_spec(),
            final(self).video_failed() == old(self).video_failed(),
            final(self).audio_failed() == old(self).audio_failed(),
            final(self).frames_delivered() == old(self).frames_delivered(),
            final(self).seen() == old(self).seen(),
            final(self).taken(StreamId::Video) == old(self).taken(StreamId::Video),
            final(self).taken(StreamId::Audio) == old(self).taken(StreamId::Audio),
            final(self).pending(StreamId::Video) == old(self).pending(StreamId::Video),
            final(self).pending(StreamId::Audio) == old(self).pending(StreamId::Audio),
    {
        &mut self.transport
    }

    /// Pull the next video frame through the pipeline: pop one video packet
    /// (triggering at most one bounded refill), feed it to the decoder, and
    /// try to receive one decoded frame. `Ok(None)` means no frame this
    /// call: the stream is exhausted, the pipeline has failed, or the
    /// decoder is still buffering and wants further packets — poll again.
    /// A frame that comes out is checked against the probed metadata; any
    /// disagreement surfaces as `FormatMismatch` and poisons the pipeline.
    pub fn poll_frame(&mut self) -> (r: Result<Option<DecodedVideoFrame>, EngineError>)
        requires
            old(self).wf(),
        ensures
            final(self).wf(),
            final(self).metadata_spec() == old(self).metadata_spec(),
            final(self).transport_spec() == old(self).transport_spec(),
            final(self).pacer_spec() == old(self).pacer_spec(),
            final(self).audio_failed() == old(self).audio_failed(),
            final(self).taken(StreamId::Audio) == old(self).taken(StreamId::Audio),
            old(self).seen().is_prefix_of(final(self).seen()),
            final(self).seen().len() <= old(self).seen().len() + REFILL_BATCH,
            old(self).taken(StreamId::Video).is_prefix_of(final(self).taken(StreamId::Video)),
            final(self).taken(StreamId::Video).len() <= old(self).taken(StreamId::Video).len()
                + 1,
            old(self).video_failed() ==> (r matches Ok(None)) && final(self).video_failed()
                && final(self).seen() == old(self).seen() && final(self).taken(StreamId::Video)
                == old(self).taken(StreamId::Video),
            // the pipeline is only ever poisoned over a packet it consumed
            final(self).video_failed() && !old(self).video_failed() ==> final(self).taken(
                StreamId::Video,
            ).len() == old(self).taken(StreamId::Video).len() + 1,
            match r {
                Ok(Some(f)) => {
                    &&& f.wf()
                    &&& f.width == old(self).metadata_spec().width
                    &&& f.height == old(self).metadata_spec().height
                    &&& !old(self).video_failed()
                    &&& !final(self).video_failed()
                    &&& final(self).taken(StreamId::Video).len() == old(self).taken(
                        StreamId::Video,
                    ).len() + 1
                    &&& final(self).frames_delivered() == (if old(self).frames_delivered()
                        < u64::MAX {
                        old(self).frames_delivered() + 1
                    } else {
                        u64::MAX as int
                    })
                },
                Ok(None) => {
                    &&& final(self).frames_delivered() == old(self).frames_delivered()
                    &&& (!final(self).video_failed() && final(self).taken(StreamId::Video).len()
                        == old(self).taken(StreamId::Video).len()) ==> (final(self).pending(
                        StreamId::Video,
                    ).len() == 0 && old(self).pending(StreamId::Video).len() == 0)
                },
                Err(e) => {
                    &&& e == EngineError::FormatMismatch
                    &&& !old(self).video_failed()
                    &&& final(self).video_failed()
                    &&& final(self).frames_delivered() == old(self).frames_delivered()
                },
            },
    {
        if self.video_failed {
            return Ok(None);
        }
        let popped = self.queues.pop(StreamId::Video);
        match popped {
            None => Ok(None),
            Some(p) => {
                let accepted = self.video_decoder.submit(p);
                if !accepted {
                    // an undecodable packet is fatal to this pipeline:
                    // skipping it would silently desynchronize the streams
                    self.video_failed = true;
                    return Ok(None);
                }
                match self.video_decoder.try_receive() {
                    DecodePoll::Pending => Ok(None),
                    DecodePoll::Failed => {
                        self.video_failed = true;
                        Ok(None)
                    },
                    DecodePoll::Ready(frame) => {
                        match frame.conform(&self.metadata) {
                            Err(e) => {
                                self.video_failed = true;
                                Err(e)
                            },
                            Ok(f) => {
                                self.frames_delivered = if self.frames_delivered < u64::MAX {
                                    self.frames_delivered + 1
                                } else {
                                    u64::MAX
                                };
                                Ok(Some(f))
                            },
                        }
                    },
                }
            },
        }
    }

    /// Pull the next span of decoded audio through the pipeline: same
    /// pop/submit/receive structure as the video side, on the audio queue
    /// and decoder. One span generally covers less wall-clock time than one
    /// frame interval, so continuous playback polls this repeatedly and
    /// concatenates. `None` means no span this call: exhaustion, a failed
    /// pipeline, or a decoder that wants further packets.
    pub fn poll_audio(&mut self) -> (r: Option<DecodedAudioSpan>)
        requires
            old(self).wf(),
        ensures
            final(self).wf(),
            final(self).metadata_spec() == old(self).metadata_spec(),
            final(self).transport_spec() == old(self).transport_spec(),
            final(self).pacer_spec() == old(self).pacer_spec(),
            final(self).video_failed() == old(self).video_failed(),
            final(self).frames_delivered() == old(self).frames_delivered(),
            final(self).taken(StreamId::Video) == old(self).taken(StreamId::Video),
            old(self).seen().is_prefix_of(final(self).seen()),
            final(self).seen().len() <= old(self).seen().len() + REFILL_BATCH,
            old(self).taken(StreamId::Audio).is_prefix_of(final(self).taken(StreamId::Audio)),
            final(self).taken(StreamId::Audio).len() <= old(self).taken(StreamId::Audio).len()
                + 1,
            old(self).audio_failed() ==> r is None && final(self).audio_failed()
                && final(self).seen() == old(self).seen()
                && final(self).taken(StreamId::Audio) == old(self).taken(StreamId::Audio),
            // the pipeline is only ever poisoned over a packet it consumed
            final(self).audio_failed() && !old(self).audio_failed() ==> final(self).taken(
                StreamId::Audio,
            ).len() == old(self).taken(StreamId::Audio).len() + 1,
            match r {
                Some(span) => {
                    &&& span.wf()
                    &&& !old(self).audio_failed()
                    &&& !final(self).audio_failed()
                    &&& final(self).taken(StreamId::Audio).len() == old(self).taken(
                        StreamId::Audio,
                    ).len() + 1
                },
                None => {
                    (!final(self).audio_failed() && final(self).taken(StreamId::Audio).len()
                        == old(self).taken(StreamId::Audio).len()) ==> (final(self).pending(
                        StreamId::Audio,
                    ).len() == 0 && old(self).pending(StreamId::Audio).len() == 0)
                },
            },
    {
        if self.audio_failed {
            return None;
        }
        let popped = self.queues.pop(StreamId::Audio);
        match popped {
            None => None,
            Some(p) => {
                let accepted = self.audio_decoder.submit(p);
                if !accepted {
                    self.audio_failed = true;
                    return None;
                }
                match self.audio_decoder.try_receive() {
                    DecodePoll::Pending => None,
                    DecodePoll::Failed => {
                        self.audio_failed = true;
                        None
                    },
                    DecodePoll::Ready(span) => {
                        match span.conform() {
                            Err(_) => {
                                self.audio_failed = true;
                                None
                            },
                            Ok(s) => Some(s),
                        }
                    },
                }
            },
        }
    }

    /// Poll whether the next video frame is due at wall-clock `now_ms`.
    /// Never blocks; callers yield between polls. The exact threshold is
    /// `Pacer::due_spec`; paused time is folded away so unpausing resumes
    /// the interval where it froze.
    pub fn pacer_due_at(&mut self, now_ms: u64) -> (r: bool)
        requires
            old(self).wf(),
        ensures
            final(self).wf(),
            r == old(self).pacer_spec().due_spec(old(self).transport_spec(), now_ms),
            final(self).pacer_spec() == old(self).pacer_spec().after_poll(
                old(self).transport_spec(),
                now_ms,
            ),
            final(self).metadata_spec() == old(self).metadata_spec(),
            final(self).transport_spec() == old(self).transport_spec(),
            final(self).video_failed() == old(self).video_failed(),
            final(self).audio_failed() == old(self).audio_failed(),
            final(self).frames_delivered() == old(self).frames_delivered(),
            final(self).seen() == old(self).seen(),
            final(self).taken(StreamId::Video) == old(self).taken(StreamId::Video),
            final(self).taken(StreamId::Audio) == old(self).taken(StreamId::Audio),
            final(self).pending(StreamId::Video) == old(self).pending(StreamId::Video),
            final(self).pending(StreamId::Audio) == old(self).pending(StreamId::Audio),
    {
        let t = self.transport;
        self.pacer.poll_due(now_ms, &t)
    }

    /// Record at wall-clock `now_ms` that a frame was just released. The
    /// reference resets to `now_ms` itself, so a late tick never compounds
    /// into the next interval.
    pub fn mark_frame_released_at(&mut self, now_ms: u64)
        requires
            old(self).wf(),
        ensures
            final(self).wf(),
            final(self).pacer_spec() == (Pacer {
                reference_ms: now_ms,
                pause_mark_ms: now_ms,
                ..old(self).pacer_spec()
            }),
            final(self).metadata_spec() == old(self).metadata_spec(),
            final(self).transport_spec() == old(self).transport_spec(),
            final(self).video_failed() == old(self).video_failed(),
            final(self).audio_failed() == old(self).audio_failed(),
            final(self).frames_delivered() == old(self).frames_delivered(),
            final(self).seen() == old(self).seen(),
            final(self).taken(StreamId::Video) == old(self).taken(StreamId::Video),
            final(self).taken(StreamId::Audio) == old(self).taken(StreamId::Audio),
            final(self).pending(StreamId::Video) == old(self).pending(StreamId::Video),
            final(self).pending(StreamId::Audio) == old(self).pending(StreamId::Audio),
    {
        self.pacer.mark_released(now_ms);
    }

    /// Poll whether the next video frame is due, against the machine clock.
    /// What instant the clock reads is outside the program, so the exact
    /// threshold is stated over `pacer_due_at`, which this calls with the
    /// reading; whatever the reading, no frame is due while paused or with
    /// the speed floored at zero.
    pub fn pacer_due(&mut self) -> (r: bool)
        requires
            old(self).wf(),
        ensures
            final(self).wf(),
            old(self).transport_spec().paused ==> r == false,
            r ==> !old(self).transport_spec().paused && old(self).transport_spec().speed_percent
                > 0,
            final(self).metadata_spec() == old(self).metadata_spec(),
            final(self).transport_spec() == old(self).transport_spec(),
            final(self).pacer_spec().fps == old(self).pacer_spec().fps,
            final(self).video_failed() == old(self).video_failed(),
            final(self).audio_failed() == old(self).audio_failed(),
            final(self).frames_delivered() == old(self).frames_delivered(),
            final(self).seen() == old(self).seen(),
            final(self).taken(StreamId::Video) == old(self).taken(StreamId::Video),
            final(self).taken(StreamId::Audio) == old(self).taken(StreamId::Audio),
            final(self).pending(StreamId::Video) == old(self).pending(StreamId::Video),
            final(self).pending(StreamId::Audio) == old(self).pending(StreamId::Audio),
    {
        let now = now_millis();
        self.pacer_due_at(now)
    }

    /// Record that a frame was just released, against the machine clock.
    pub fn mark_frame_released(&mut self)
        requires
            old(self).wf(),
        ensures
            final(self).wf(),
            final(self).metadata_spec() == old(self).metadata_spec(),
            final(self).transport_spec() == old(self).transport_spec(),
            final(self).pacer_spec().fps == old(self).pacer_spec().fps,
            final(self).pacer_spec().in_pause == old(self).pacer_spec().in_pause,
            final(self).video_failed() == old(self).video_failed(),
            final(self).audio_failed() == old(self).audio_failed(),
            final(self).frames_delivered() == old(self).frames_delivered(),
            final(self).seen() == old(self).seen(),
            final(self).taken(StreamId::Video) == old(self).taken(StreamId::Video),
            final(self).taken(StreamId::Audio) == old(self).taken(StreamId::Audio),
            final(self).pending(StreamId::Video) == old(self).pending(StreamId::Video),
            final(self).pending(StreamId::Audio) == old(self).pending(StreamId::Audio),
    {
        let now = now_millis();
        self.mark_frame_released_at(now);
    }
}

impl<S: PacketSource, V: VideoDecode, A: AudioDecode> VideoStreamer for Engine<S, V, A> {
    type Frame = DecodedVideoFrame;

    open spec fn valid(&self) -> bool {
        self.wf()
    }

    fn metadata(&self) -> VideoStreamerMetaData {
        VideoStreamerMetaData {
            fps: self.metadata.fps as usize,
            frame_width: self.metadata.width,
            frame_height: self.metadata.height,
        }
    }

    /// One pipeline poll; a fatal pipeline error reads as end of stream
    /// through this interface.
    fn next_frame(&mut self) -> Option<DecodedVideoFrame> {
        match self.poll_frame() {
            Ok(f) => f,
            Err(_) => None,
        }
    }
}

} // verus!
