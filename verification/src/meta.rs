use vstd::prelude::*;

verus! {

/// Probed facts about a container, fixed before the engine starts: the
/// native frame rate and the dimensions the video decoder will emit.
/// Supplied from outside, already validated to be positive whole numbers.
#[derive(Clone, Copy, PartialEq, Eq, Structural, Debug)]
pub struct ContainerMetadata {
    /// Whole frames per second; positive.
    pub fps: u32,
    /// Frame width in pixels; positive.
    pub width: u32,
    /// Frame height in pixels; positive.
    pub height: u32,
}

impl ContainerMetadata {
    pub open spec fn wf(self) -> bool {
        &&& self.fps > 0
        &&& self.width > 0
        &&& self.height > 0
    }

    /// Runtime check of well-formedness, for callers that receive the
    /// numbers from an external probe.
    pub fn check(&self) -> (r: bool)
        ensures
            r == self.wf(),
    {
        self.fps > 0 && self.width > 0 && self.height > 0
    }
}

/// Fatal playback conditions. None is recoverable: the caller discards the
/// engine (or, for a per-pipeline decode failure, that pipeline reports
/// permanent exhaustion from then on).
#[derive(Clone, Copy, PartialEq, Eq, Structural, Debug)]
pub enum EngineError {
    /// The container is unreadable or malformed.
    Demux,
    /// The container lacks an expected video or audio stream.
    StreamNotFound,
    /// Decoded output disagrees with the probed metadata or the fixed
    /// output format.
    FormatMismatch,
    /// A packet failed to decode.
    Decode,
}

} // verus!
