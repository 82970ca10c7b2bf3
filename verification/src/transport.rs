use vstd::prelude::*;

verus! {

/// Clamp an unbounded integer into the `u32` range, saturating at both ends.
pub open spec fn clamped_u32(x: int) -> u32 {
    if x < 0 {
        0u32
    } else if x > u32::MAX {
        u32::MAX
    } else {
        x as u32
    }
}

/// User transport state: the pause gate, the playback-speed multiplier and
/// the volume (both in hundredths, so 100 stands for a multiplier of one),
/// and the mute flag. A pure state container: the pacer reads `paused` and
/// `speed_percent`; the external audio sink is handed `volume_percent` and
/// `muted`. No operation here can fail and none does any I/O.
#[derive(Clone, Copy, PartialEq, Eq, Structural, Debug)]
pub struct TransportState {
    pub paused: bool,
    /// Playback-speed multiplier in hundredths; 100 is normal speed.
    /// Never negative: playback direction cannot invert.
    pub speed_percent: u32,
    /// Volume in hundredths; 100 is full volume. Never negative.
    pub volume_percent: u32,
    pub muted: bool,
}

impl TransportState {
    /// Playback starts running, at normal speed and full volume, unmuted.
    pub fn new() -> (r: TransportState)
        ensures
            r.paused == false,
            r.speed_percent == 100u32,
            r.volume_percent == 100u32,
            r.muted == false,
    {
        TransportState { paused: false, speed_percent: 100, volume_percent: 100, muted: false }
    }

    /// Flip the pause gate. Nothing else changes; in particular no timing
    /// reference is touched, so the pacer resumes where it left off.
    pub fn toggle_pause(&mut self)
        ensures
            final(self).paused == !old(self).paused,
            final(self).speed_percent == old(self).speed_percent,
            final(self).volume_percent == old(self).volume_percent,
            final(self).muted == old(self).muted,
    {
        self.paused = !self.paused;
    }

    /// Flip the mute flag. Nothing else changes.
    pub fn toggle_mute(&mut self)
        ensures
            final(self).muted == !old(self).muted,
            final(self).paused == old(self).paused,
            final(self).speed_percent == old(self).speed_percent,
            final(self).volume_percent == old(self).volume_percent,
    {
        self.muted = !self.muted;
    }

    /// Adjust the speed multiplier by `delta` hundredths, clamping at zero:
    /// a negative adjustment can stop playback but never invert it.
    pub fn set_speed(&mut self, delta: i32)
        ensures
            final(self).speed_percent == clamped_u32(old(self).speed_percent + delta),
            final(self).paused == old(self).paused,
            final(self).volume_percent == old(self).volume_percent,
            final(self).muted == old(self).muted,
    {
        let next: i64 = self.speed_percent as i64 + delta as i64;
        self.speed_percent = if next < 0 {
            0
        } else if next > u32::MAX as i64 {
            u32::MAX
        } else {
            next as u32
        };
    }

    /// Adjust the volume by `delta` hundredths, clamping at zero.
    pub fn set_volume(&mut self, delta: i32)
        ensures
            final(self).volume_percent == clamped_u32(old(self).volume_percent + delta),
            final(self).paused == old(self).paused,
            final(self).speed_percent == old(self).speed_percent,
            final(self).muted == old(self).muted,
    {
        let next: i64 = self.volume_percent as i64 + delta as i64;
        self.volume_percent = if next < 0 {
            0
        } else if next > u32::MAX as i64 {
            u32::MAX
        } else {
            next as u32
        };
    }

    /// The volume the audio sink should honor: zero while muted, the set
    /// volume otherwise.
    pub fn effective_volume(&self) -> (r: u32)
        ensures
            r == (if self.muted {
                0u32
            } else {
                self.volume_percent
            }),
    {
        if self.muted {
            0
        } else {
            self.volume_percent
        }
    }
}

} // verus!
