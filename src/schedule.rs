//! Per-encoder frame scheduling: presentation timestamps, keyframe choice and the
//! staleness gate. Timestamps are microseconds since the Unix epoch.
use vstd::prelude::*;

verus! {

/// A raw frame older than this, in microseconds, when it reaches its encoder is dropped.
pub const FRAME_EXPIRE_MICROS: u64 = 30000;

/// A frame captured at `timestamp` is stale at `now` when it is older than the expiry,
/// that is when `timestamp < now - expiry`.
pub open spec fn is_stale(timestamp: u64, now: u64) -> bool {
    (timestamp as int) < now - FRAME_EXPIRE_MICROS
}

/// Where an admitted frame goes in the encoded stream.
#[derive(PartialEq, Eq, Structural, Clone, Copy, Debug)]
pub struct FrameSlot {
    /// Presentation timestamp, in the encoder's frame-index space.
    pub pts: u64,
    /// Whether the frame is to be coded as an I-frame (otherwise P).
    pub keyframe: bool,
}

/// The counters of one encoder. `frame_index` counts every submitted frame, dropped or
/// not, and gives the pts; `encoded_count` counts the frames the codec actually encoded,
/// and gives the keyframe cadence.
#[derive(PartialEq, Eq, Structural, Clone, Copy, Debug)]
pub struct FrameSchedule {
    pub frame_index: u64,
    pub encoded_count: u64,
    pub keyframe_interval: u64,
}

/// One submission to an encoder: capture timestamp, time of arrival at the encoder, and
/// whether the codec produced a packet for it (ignored for a stale frame).
pub type Submission = (u64, u64, bool);

impl FrameSchedule {
    pub open spec fn wf(self) -> bool {
        self.keyframe_interval > 0
    }

    /// The fresh schedule of a new encoder.
    pub open spec fn start(keyframe_interval: u64) -> FrameSchedule {
        FrameSchedule { frame_index: 0, encoded_count: 0, keyframe_interval }
    }

    /// The slot a frame gets, or `None` when it is stale.
    pub open spec fn slot_for(self, timestamp: u64, now: u64) -> Option<FrameSlot> {
        if is_stale(timestamp, now) {
            None
        } else {
            Some(
                FrameSlot {
                    pts: self.frame_index,
                    keyframe: self.encoded_count % self.keyframe_interval == 0,
                },
            )
        }
    }

    /// The schedule after one submission: the frame index always advances; the encoded
    /// count advances when the frame was fresh and the codec produced a packet.
    pub open spec fn step(self, timestamp: u64, now: u64, codec_ok: bool) -> FrameSchedule {
        FrameSchedule {
            frame_index: (self.frame_index + 1) as u64,
            encoded_count: if !is_stale(timestamp, now) && codec_ok {
                (self.encoded_count + 1) as u64
            } else {
                self.encoded_count
            },
            keyframe_interval: self.keyframe_interval,
        }
    }

    /// Starts the counters of a new encoder.
    pub fn new(keyframe_interval: u64) -> (r: FrameSchedule)
        requires
            keyframe_interval > 0,
        ensures
            r == FrameSchedule::start(keyframe_interval),
            r.wf(),
    {
        FrameSchedule { frame_index: 0, encoded_count: 0, keyframe_interval }
    }

    /// Gives a frame its slot: returns its slot, or `None` when it is stale. The frame index
    /// advances by one either way.
    pub fn take_slot(&mut self, timestamp: u64, now: u64) -> (r: Option<FrameSlot>)
        requires
            old(self).wf(),
            old(self).frame_index < u64::MAX,
        ensures
            r == old(self).slot_for(timestamp, now),
            r is None <==> is_stale(timestamp, now),
            final(self).frame_index == old(self).frame_index + 1,
            final(self).encoded_count == old(self).encoded_count,
            final(self).keyframe_interval == old(self).keyframe_interval,
    {
        let fresh = now < FRAME_EXPIRE_MICROS || timestamp >= now - FRAME_EXPIRE_MICROS;
        let slot = FrameSlot {
            pts: self.frame_index,
            keyframe: self.encoded_count % self.keyframe_interval == 0,
        };
        self.frame_index = self.frame_index + 1;
        if fresh {
            Some(slot)
        } else {
            None
        }
    }

    /// Records that the codec produced a packet for the last admitted frame.
    pub fn record_encoded(&mut self)
        requires
            old(self).encoded_count < u64::MAX,
        ensures
            final(self).encoded_count == old(self).encoded_count + 1,
            final(self).frame_index == old(self).frame_index,
            final(self).keyframe_interval == old(self).keyframe_interval,
    {
        self.encoded_count = self.encoded_count + 1;
    }
}

/// The schedule after a run of submissions, oldest first.
pub open spec fn replay(s: FrameSchedule, subs: Seq<Submission>) -> FrameSchedule
    decreases subs.len(),
{
    if subs.len() == 0 {
        s
    } else {
        let last = subs.last();
        replay(s, subs.drop_last()).step(last.0, last.1, last.2)
    }
}

/// How many of the submissions were encoded: fresh, with a packet from the codec.
pub open spec fn encoded_in(subs: Seq<Submission>) -> nat
    decreases subs.len(),
{
    if subs.len() == 0 {
        0
    } else {
        let last = subs.last();
        encoded_in(subs.drop_last()) + if !is_stale(last.0, last.1) && last.2 {
            1nat
        } else {
            0nat
        }
    }
}

proof fn lemma_replay_counts(keyframe_interval: u64, subs: Seq<Submission>)
    requires
        keyframe_interval > 0,
        subs.len() < u64::MAX,
    ensures
        replay(FrameSchedule::start(keyframe_interval), subs).frame_index == subs.len(),
        replay(FrameSchedule::start(keyframe_interval), subs).encoded_count == encoded_in(subs),
        encoded_in(subs) <= subs.len(),
        replay(FrameSchedule::start(keyframe_interval), subs).keyframe_interval
            == keyframe_interval,
    decreases subs.len(),
{
    if subs.len() > 0 {
        lemma_replay_counts(keyframe_interval, subs.drop_last());
    }
}

/// Monotone pts: whatever was submitted before, dropped or encoded, the next frame that an
/// encoder admits gets pts equal to the number of earlier submissions. The pts seen by the
/// codec therefore run 0, 1, 2, ... over the submitted frames.
pub proof fn lemma_pts_contiguous(
    keyframe_interval: u64,
    subs: Seq<Submission>,
    timestamp: u64,
    now: u64,
)
    requires
        keyframe_interval > 0,
        subs.len() < u64::MAX,
    ensures
        replay(FrameSchedule::start(keyframe_interval), subs).frame_index == subs.len(),
        replay(FrameSchedule::start(keyframe_interval), subs).slot_for(timestamp, now) matches Some(
            slot,
        ) ==> slot.pts == subs.len(),
{
    lemma_replay_counts(keyframe_interval, subs);
}

/// Keyframe cadence: the k-th encoded frame (counting from 1, dropped frames and codec
/// failures not counted) is an I-frame exactly when `(k - 1) % keyframe_interval == 0`.
pub proof fn lemma_keyframe_cadence(
    keyframe_interval: u64,
    subs: Seq<Submission>,
    timestamp: u64,
    now: u64,
)
    requires
        keyframe_interval > 0,
        subs.len() < u64::MAX,
    ensures
        replay(FrameSchedule::start(keyframe_interval), subs).slot_for(timestamp, now) matches Some(
            slot,
        ) ==> (slot.keyframe <==> ((encoded_in(subs) + 1) - 1) % (keyframe_interval as int)
            == 0),
{
    lemma_replay_counts(keyframe_interval, subs);
}

/// Staleness drop: a frame older than the expiry never gets a slot, so it never reaches the
/// codec; it still advances the frame index by one and leaves the encoded count alone.
pub proof fn lemma_stale_dropped(s: FrameSchedule, timestamp: u64, now: u64, codec_ok: bool)
    requires
        s.wf(),
        s.frame_index < u64::MAX,
        now - timestamp > FRAME_EXPIRE_MICROS,
    ensures
        s.slot_for(timestamp, now) is None,
        s.step(timestamp, now, codec_ok).frame_index == s.frame_index + 1,
        s.step(timestamp, now, codec_ok).encoded_count == s.encoded_count,
{
}

} // verus!
