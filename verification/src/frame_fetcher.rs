use vstd::prelude::*;

verus! {

/// Probed facts a frame streamer reports to its clients.
#[derive(Clone, Copy, PartialEq, Eq, Structural, Debug)]
pub struct FrameStreamerMetaData {
    /// Whole frames per second.
    pub fps: usize,
    pub frame_width: u32,
    pub frame_height: u32,
}

/// A format-agnostic streaming interface: anything that hands out frames
/// of some pixel type in order.
pub trait FrameStreamer {
    type Frame;

    /// Whether this streamer is in a state fit to stream from.
    spec fn valid(&self) -> bool;

    fn metadata(&self) -> FrameStreamerMetaData
        requires
            self.valid(),
    ;

    fn next_frame(&mut self) -> (r: Option<Self::Frame>)
        requires
            old(self).valid(),
        ensures
            final(self).valid(),
    ;

    fn fps(&self) -> usize
        requires
            self.valid(),
    {
        self.metadata().fps
    }

    fn frame_width(&self) -> u32
        requires
            self.valid(),
    {
        self.metadata().frame_width
    }

    fn frame_height(&self) -> u32
        requires
            self.valid(),
    {
        self.metadata().frame_height
    }
}

/// A frame whose pixels can be enumerated with their coordinates.
pub trait Frame {
    type Pixel;

    /// The pixels row by row, each with its x and y coordinate.
    fn pixels(&self) -> Vec<(u32, u32, Self::Pixel)>;

    fn width(&self) -> u32;

    fn height(&self) -> u32;
}

} // verus!
