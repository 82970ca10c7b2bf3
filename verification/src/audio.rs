use vstd::prelude::*;
use crate::meta::EngineError;

verus! {

/// The fixed resample target: sample frames per second of the audio the
/// engine hands out.
pub const SAMPLE_RATE: u32 = 51200;

/// A finite span of decoded, resampled audio in the engine's one fixed
/// output format: single-channel, four bytes per sample frame, at
/// `SAMPLE_RATE`. Ownership passes wholly to the caller on retrieval; the
/// pipeline keeps nothing of it.
#[derive(Clone, PartialEq, Eq, Debug)]
pub struct DecodedAudioSpan {
    /// Sample frames per second; `SAMPLE_RATE` when well-formed.
    pub sample_rate: u32,
    /// Interleaved channels per sample frame; 1 when well-formed.
    pub channel_count: u16,
    /// Number of sample frames in `data`.
    pub sample_count: usize,
    /// The raw sample bytes: four bytes per sample frame.
    pub data: Vec<u8>,
}

impl DecodedAudioSpan {
    pub open spec fn wf(self) -> bool {
        &&& self.sample_rate == SAMPLE_RATE
        &&& self.channel_count == 1
        &&& self.data@.len() == self.sample_count * 4
    }

    /// Defensive check on a span as it comes back from the decoder and
    /// resampler: it must already be in the fixed output format, with a
    /// whole number of four-byte sample frames. Anything else counts as a
    /// failed decode.
    pub fn conform(self) -> (r: Result<DecodedAudioSpan, EngineError>)
        ensures
            r is Ok <==> self.wf(),
            r matches Ok(s) ==> s == self,
            r is Err ==> r == Result::<DecodedAudioSpan, EngineError>::Err(EngineError::Decode),
    {
        if self.sample_rate != SAMPLE_RATE || self.channel_count != 1 {
            return Err(EngineError::Decode);
        }
        let len = self.data.len();
        if len % 4 != 0 {
            proof {
                assert(self.sample_count * 4 % 4 == 0) by (nonlinear_arith);
            }
            return Err(EngineError::Decode);
        }
        if len / 4 != self.sample_count {
            proof {
                assert(len % 4 == 0 && len / 4 != self.sample_count ==> len != self.sample_count
                    * 4) by (nonlinear_arith);
            }
            return Err(EngineError::Decode);
        }
        proof {
            assert(len % 4 == 0 && len / 4 == self.sample_count ==> len == self.sample_count * 4)
                by (nonlinear_arith);
        }
        Ok(self)
    }

    /// Wall-clock duration of the span in milliseconds, derived from the
    /// sample count and the fixed rate.
    pub fn duration_millis(&self) -> (r: u64)
        requires
            self.wf(),
        ensures
            r == self.sample_count * 1000 / (SAMPLE_RATE as int),
    {
        let wide: u128 = (self.sample_count as u128) * 1000 / (SAMPLE_RATE as u128);
        proof {
            assert((self.sample_count as int) * 1000 / (SAMPLE_RATE as int) <= (
            self.sample_count as int)) by (nonlinear_arith)
                requires
                    self.sample_count >= 0,
                    SAMPLE_RATE == 51200,
            ;
        }
        wide as u64
    }
}

} // verus!
