use vstd::prelude::*;
use crate::frame_fetcher::Frame;
use crate::frame_streamer::VideoFrame;
use crate::meta::{ContainerMetadata, EngineError};

verus! {

/// A decoded video frame in the engine's one fixed output pixel layout:
/// four bytes per pixel in padded blue-green-red order, rows top to bottom.
/// Read-only to the caller once handed out.
#[derive(Clone, PartialEq, Eq, Debug)]
pub struct DecodedVideoFrame {
    pub width: u32,
    pub height: u32,
    /// Exactly `width * height * 4` bytes when well-formed.
    pub data: Vec<u8>,
}

impl DecodedVideoFrame {
    pub open spec fn wf(self) -> bool {
        self.data@.len() == self.width * self.height * 4
    }

    /// Defensive check on a frame as it comes back from the decoder and
    /// rescaler: the dimensions must be exactly the probed ones, and the
    /// buffer exactly `width * height * 4` bytes. Any disagreement points at
    /// an upstream probing bug and surfaces as `FormatMismatch` instead of a
    /// silently wrong-sized buffer.
    pub fn conform(self, meta: &ContainerMetadata) -> (r: Result<DecodedVideoFrame, EngineError>)
        ensures
            r is Ok <==> self.wf() && self.width == meta.width && self.height == meta.height,
            r matches Ok(f) ==> f == self,
            r is Err ==> r == Result::<DecodedVideoFrame, EngineError>::Err(
                EngineError::FormatMismatch,
            ),
    {
        if self.width != meta.width || self.height != meta.height {
            return Err(EngineError::FormatMismatch);
        }
        let len = self.data.len();
        if len % 4 != 0 {
            proof {
                assert(self.width * self.height * 4 % 4 == 0) by (nonlinear_arith);
            }
            return Err(EngineError::FormatMismatch);
        }
        proof {
            assert((self.width as int) * (self.height as int) <= (u32::MAX as int) * (
            u32::MAX as int)) by (nonlinear_arith)
                requires
                    self.width <= u32::MAX,
                    self.height <= u32::MAX,
            ;
        }
        let pixels = (self.width as u64) * (self.height as u64);
        if (len / 4) as u64 != pixels {
            proof {
                assert(len % 4 == 0 && len / 4 != self.width * self.height ==> len
                    != self.width * self.height * 4) by (nonlinear_arith);
            }
            return Err(EngineError::FormatMismatch);
        }
        proof {
            assert(len % 4 == 0 && len / 4 == self.width * self.height ==> len
                == self.width * self.height * 4) by (nonlinear_arith);
        }
        Ok(self)
    }
}

impl VideoFrame for DecodedVideoFrame {
    /// The pixel bytes exactly as the pipeline produced them.
    fn bgrz_pixels(&self) -> (r: &[u8])
        ensures
            r@ == self.data@,
    {
        self.data.as_slice()
    }

    fn width(&self) -> u32 {
        self.width
    }

    fn height(&self) -> u32 {
        self.height
    }
}

impl Frame for DecodedVideoFrame {
    type Pixel = (u8, u8, u8);

    /// The blue, green and red of each pixel with its coordinates, row by
    /// row; padding bytes are not reported. A malformed buffer yields only
    /// the pixels it actually holds.
    fn pixels(&self) -> (r: Vec<(u32, u32, (u8, u8, u8))>) {
        let mut out: Vec<(u32, u32, (u8, u8, u8))> = Vec::new();
        if self.width == 0 || self.height == 0 {
            return out;
        }
        proof {
            assert((self.width as int) * (self.height as int) <= (u32::MAX as int) * (
            u32::MAX as int)) by (nonlinear_arith)
                requires
                    self.width <= u32::MAX,
                    self.height <= u32::MAX,
            ;
        }
        let total: u64 = (self.width as u64) * (self.height as u64);
        let len: usize = self.data.len();
        let quarter: u64 = (len / 4) as u64;
        let mut i: u64 = 0;
        while i < total
            invariant
                i <= total,
                len == self.data@.len(),
                quarter == len / 4,
                self.width > 0,
            decreases total - i,
        {
            if i >= quarter {
                break ;
            }
            proof {
                assert(4 * (i as int) + 3 < len);
            }
            let base = (i as usize) * 4;
            let b = self.data[base];
            let g = self.data[base + 1];
            let rr = self.data[base + 2];
            let x = #[verifier::truncate] ((i % (self.width as u64)) as u32);
            let y = #[verifier::truncate] ((i / (self.width as u64)) as u32);
            out.push((x, y, (b, g, rr)));
            i = i + 1;
        }
        out
    }

    fn width(&self) -> u32 {
        self.width
    }

    fn height(&self) -> u32 {
        self.height
    }
}

} // verus!
