use vstd::prelude::*;
use std::collections::VecDeque;
use crate::audio::{DecodedAudioSpan, SAMPLE_RATE};
use crate::frame::DecodedVideoFrame;
use crate::packet::EncodedPacket;

verus! {

/// What one receive attempt from a decoder yields: a decoded item, a need
/// for more input before one can come out, or a decode failure.
pub enum DecodePoll<T> {
    Ready(T),
    Pending,
    Failed,
}

/// A video decoder with the send/receive shape of real codecs: packets go
/// in through `submit` (taking ownership; `false` means the packet cannot
/// be decoded), and frames come out through `try_receive`, possibly several
/// packets later, because decoders buffer reference frames internally.
/// Implementations also rescale to the engine's fixed output pixel layout.
pub trait VideoDecode {
    fn submit(&mut self, packet: EncodedPacket) -> bool;

    fn try_receive(&mut self) -> DecodePoll<DecodedVideoFrame>;
}

/// An audio decoder and resampler with the same send/receive shape,
/// emitting spans in the engine's fixed output sample format.
pub trait AudioDecode {
    fn submit(&mut self, packet: EncodedPacket) -> bool;

    fn try_receive(&mut self) -> DecodePoll<DecodedAudioSpan>;
}

/// A deterministic stand-in for a buffering video decoder: each submitted
/// packet's payload is taken as an already-decoded frame of the configured
/// dimensions, and the newest `lookahead` submissions are held back before
/// the first frame comes out, the way a real decoder holds reference
/// frames. A packet with an empty payload stands for data the decoder
/// cannot decode and is refused.
pub struct LookaheadVideoDecoder {
    pub width: u32,
    pub height: u32,
    /// How many submissions stay buffered before one frame is released.
    pub lookahead: usize,
    pub buffered: VecDeque<Vec<u8>>,
}

impl LookaheadVideoDecoder {
    pub fn new(width: u32, height: u32, lookahead: usize) -> (r: LookaheadVideoDecoder)
        ensures
            r.width == width,
            r.height == height,
            r.lookahead == lookahead,
            r.buffered@.len() == 0,
    {
        LookaheadVideoDecoder { width, height, lookahead, buffered: VecDeque::new() }
    }
}

impl VideoDecode for LookaheadVideoDecoder {
    fn submit(&mut self, packet: EncodedPacket) -> (r: bool)
        ensures
            r <==> packet.data@.len() > 0,
            r ==> final(self).buffered@ == old(self).buffered@.push(packet.data),
            !r ==> final(self).buffered@ == old(self).buffered@,
            final(self).width == old(self).width,
            final(self).height == old(self).height,
            final(self).lookahead == old(self).lookahead,
    {
        if packet.data.len() == 0 {
            return false;
        }
        self.buffered.push_back(packet.data);
        true
    }

    fn try_receive(&mut self) -> (r: DecodePoll<DecodedVideoFrame>)
        ensures
            old(self).buffered@.len() > old(self).lookahead ==> r == DecodePoll::Ready(
                DecodedVideoFrame {
                    width: old(self).width,
                    height: old(self).height,
                    data: old(self).buffered@[0],
                },
            ) && final(self).buffered@ == old(self).buffered@.drop_first(),
            old(self).buffered@.len() <= old(self).lookahead ==> r is Pending
                && final(self).buffered@ == old(self).buffered@,
            final(self).width == old(self).width,
            final(self).height == old(self).height,
            final(self).lookahead == old(self).lookahead,
    {
        if self.buffered.len() > self.lookahead {
            match self.buffered.pop_front() {
                Some(data) => {
                    assert(self.buffered@ =~= old(self).buffered@.drop_first());
                    DecodePoll::Ready(
                        DecodedVideoFrame { width: self.width, height: self.height, data },
                    )
                },
                None => DecodePoll::Pending,
            }
        } else {
            DecodePoll::Pending
        }
    }
}

/// A deterministic stand-in for an audio decoder and resampler: each
/// submitted packet's payload is taken as an already-resampled span in the
/// fixed output format, handed back on the next receive. An empty payload
/// stands for undecodable data and is refused.
pub struct ImmediateAudioDecoder {
    pub buffered: VecDeque<Vec<u8>>,
}

impl ImmediateAudioDecoder {
    pub fn new() -> (r: ImmediateAudioDecoder)
        ensures
            r.buffered@.len() == 0,
    {
        ImmediateAudioDecoder { buffered: VecDeque::new() }
    }
}

impl AudioDecode for ImmediateAudioDecoder {
    fn submit(&mut self, packet: EncodedPacket) -> (r: bool)
        ensures
            r <==> packet.data@.len() > 0,
            r ==> final(self).buffered@ == old(self).buffered@.push(packet.data),
            !r ==> final(self).buffered@ == old(self).buffered@,
    {
        if packet.data.len() == 0 {
            return false;
        }
        self.buffered.push_back(packet.data);
        true
    }

    fn try_receive(&mut self) -> (r: DecodePoll<DecodedAudioSpan>)
        ensures
            old(self).buffered@.len() == 0 ==> r is Pending
                && final(self).buffered@ == old(self).buffered@,
            old(self).buffered@.len() > 0 ==> final(self).buffered@
                == old(self).buffered@.drop_first(),
    {
        match self.buffered.pop_front() {
            Some(data) => {
                let n = data.len() / 4;
                DecodePoll::Ready(
                    DecodedAudioSpan {
                        sample_rate: SAMPLE_RATE,
                        channel_count: 1,
                        sample_count: n,
                        data,
                    },
                )
            },
            None => DecodePoll::Pending,
        }
    }
}

} // verus!
