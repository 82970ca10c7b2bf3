use vstd::prelude::*;

verus! {

/// Probed facts a video streamer reports to its clients.
#[derive(Clone, Copy, PartialEq, Eq, Structural, Debug)]
pub struct VideoStreamerMetaData {
    /// Whole frames per second.
    pub fps: usize,
    pub frame_width: u32,
    pub frame_height: u32,
}

/// Probed facts an audio source reports to its sink.
#[derive(Clone, Copy, PartialEq, Eq, Structural, Debug)]
pub struct AudioStreamerMetaData {
    /// Sample frames per second of the delivered audio.
    pub sample_rate: u32,
}

/// A decoded frame in the engine's fixed output pixel layout.
pub trait VideoFrame {
    /// The raw pixel bytes: four per pixel, padded blue-green-red order.
    fn bgrz_pixels(&self) -> &[u8];

    fn width(&self) -> u32;

    fn height(&self) -> u32;
}

/// Anything that can stream decoded video frames in order, one at a time.
pub trait VideoStreamer {
    type Frame: VideoFrame;

    /// Whether this streamer is in a state fit to stream from.
    spec fn valid(&self) -> bool;

    fn metadata(&self) -> VideoStreamerMetaData
        requires
            self.valid(),
    ;

    /// The next decoded frame, or `None` when no frame is available on this
    /// poll (the stream may be exhausted, or merely still buffering).
    fn next_frame(&mut self) -> (r: Option<Self::Frame>)
        requires
            old(self).valid(),
        ensures
            final(self).valid(),
    ;

    fn fps(&self) -> usize
        requires
            self.valid(),
    {
        self.metadata().fps
    }

    fn frame_width(&self) -> u32
        requires
            self.valid(),
    {
        self.metadata().frame_width
    }

    fn frame_height(&self) -> u32
        requires
            self.valid(),
    {
        self.metadata().frame_height
    }
}

} // verus!
