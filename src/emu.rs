//! Frames captured from the emulator, and the pacing of image captures.
use vstd::prelude::*;

verus! {

/// An image captured from the emulator: BGRA pixels and the capture time in microseconds.
pub struct EmuImageFrame {
    pub buf: Vec<u8>,
    pub timestamp: u64,
}

/// Sound captured from the emulator: interleaved samples, `samples` per channel.
pub struct EmuSoundFrame {
    pub buf: Vec<i16>,
    pub sample_rate: usize,
    pub samples: usize,
    pub channels: usize,
    pub timestamp: u64,
}

/// Microseconds between two image captures at `fps` frames per second, counted in whole
/// milliseconds.
pub open spec fn frame_interval_micros(fps: usize) -> int {
    (1000int / (fps as int)) * 1000
}

/// Lets image captures through at most once per frame interval.
#[derive(PartialEq, Eq, Structural, Clone, Copy, Debug)]
pub struct FramePacer {
    pub fps: usize,
    pub last_updated: u64,
}

impl FramePacer {
    /// A pacer at `fps` whose last capture was at `now`.
    pub fn new(fps: usize, now: u64) -> (r: FramePacer)
        requires
            fps > 0,
        ensures
            r == (FramePacer { fps, last_updated: now }),
    {
        FramePacer { fps, last_updated: now }
    }

    /// Whether an image that arrives at `now` is to be captured: a whole frame interval
    /// has passed since the last capture. A capture moves the last capture time to `now`.
    pub fn should_update_image_frame(&mut self, now: u64) -> (r: bool)
        requires
            old(self).fps > 0,
        ensures
            r == (now >= old(self).last_updated && now - old(self).last_updated
                >= frame_interval_micros(old(self).fps)),
            final(self).fps == old(self).fps,
            final(self).last_updated == if r {
                now
            } else {
                old(self).last_updated
            },
    {
        let interval: u64 = (1000 / self.fps) as u64 * 1000;
        let due = now >= self.last_updated && now - self.last_updated >= interval;
        if due {
            self.last_updated = now;
        }
        due
    }
}

} // verus!
