//! Raw and encoded frames, and the verified steps around each codec call: the staleness
//! gate, pts and keyframe scheduling, colour conversion and downmix before the call, and the
//! packet or error after it.
use crate::audio::{copy_interleaved_sound_samples_mono, left_channel, pcm_le};
use crate::clock::now_utc;
use crate::convert::{bgra_to_yuv420, chroma_len, luma_plane, u_plane, v_plane};
use crate::schedule::{is_stale, FrameSchedule, FrameSlot};
use vstd::prelude::*;

verus! {

/// A raw BGRA image: `width * height * 4` bytes and its capture time.
pub struct VideoFrame {
    pub buf: Vec<u8>,
    pub timestamp: u64,
}

impl VideoFrame {
    /// Copies a captured image into an owned frame.
    pub fn from(buf: &[u8], timestamp: u64) -> (r: VideoFrame)
        ensures
            r.buf@ == buf@,
            r.timestamp == timestamp,
    {
        VideoFrame { buf: vstd::slice::slice_to_vec(buf), timestamp }
    }
}

/// Raw sound: interleaved stereo 16-bit samples, the number of samples per channel, the
/// sample rate and the capture time.
pub struct AudioFrame {
    pub buf: Vec<i16>,
    pub timestamp: u64,
    pub samples: usize,
    pub sample_rate: usize,
}

impl AudioFrame {
    /// Copies captured sound into an owned frame.
    pub fn from(buf: &[i16], timestamp: u64, samples: usize, sample_rate: usize) -> (r:
        AudioFrame)
        ensures
            r.buf@ == buf@,
            r.timestamp == timestamp,
            r.samples == samples,
            r.sample_rate == sample_rate,
    {
        AudioFrame { buf: vstd::slice::slice_to_vec(buf), timestamp, samples, sample_rate }
    }
}

/// A codec packet and the capture time of the frame it was encoded from.
pub struct EncodedFrame {
    pub buf: Vec<u8>,
    pub timestamp: u64,
}

/// Why a frame gave no packet.
#[derive(Debug, PartialEq, Eq)]
pub enum EncodeError {
    /// The frame was older than the expiry when it reached the encoder; it was dropped.
    StaleFrame,
    /// The frame's buffer does not have the size its geometry calls for.
    FrameSize,
    /// The codec failed; the detail is its message.
    CodecFailure(String),
    /// The encoder does not take this kind of frame.
    Unsupported,
}

/// The common interface of the video and audio encoders. Each encoder takes one kind of
/// frame and answers `Unsupported` for the other.
pub trait Encoder {
    fn encode_video(&mut self, frame: &VideoFrame) -> Result<EncodedFrame, EncodeError>;

    fn encode_audio(&mut self, frame: &AudioFrame) -> Result<EncodedFrame, EncodeError>;
}

/// What the video codec is handed for one admitted frame.
pub struct VideoJob {
    pub y: Vec<u8>,
    pub u: Vec<u8>,
    pub v: Vec<u8>,
    pub slot: FrameSlot,
    pub timestamp: u64,
}

/// What the voice codec is handed for one admitted frame: the left channel as packed
/// 16-bit little-endian PCM.
pub struct AudioJob {
    pub pcm: Vec<u8>,
    pub samples: usize,
    pub sample_rate: usize,
    pub pts: u64,
    pub timestamp: u64,
}

/// The packet for a frame captured at `timestamp`, from what the codec returned.
pub open spec fn packet_spec(timestamp: u64, codec_out: Result<Vec<u8>, String>) -> Result<
    (Vec<u8>, u64),
    EncodeError,
> {
    match codec_out {
        Ok(data) => Ok((data, timestamp)),
        Err(detail) => Err(EncodeError::CodecFailure(detail)),
    }
}

/// Turns what the codec returned for a frame into a packet stamped with the frame's
/// capture time, or a codec failure.
pub fn packet_from(timestamp: u64, codec_out: Result<Vec<u8>, String>) -> (r: Result<
    EncodedFrame,
    EncodeError,
>)
    ensures
        match packet_spec(timestamp, codec_out) {
            Ok((data, ts)) => r matches Ok(p) && p.buf == data && p.timestamp == ts,
            Err(e) => r == Err::<EncodedFrame, EncodeError>(e),
        },
{
    match codec_out {
        Ok(data) => Ok(EncodedFrame { buf: data, timestamp }),
        Err(detail) => Err(EncodeError::CodecFailure(detail)),
    }
}

/// The verified part of a video encoder: geometry, frame rate and schedule. The codec
/// context itself lives with the caller, which hands each job to it.
pub struct VideoEncoder {
    pub width: usize,
    pub height: usize,
    pub fps: usize,
    pub schedule: FrameSchedule,
}

impl VideoEncoder {
    pub open spec fn wf(self) -> bool {
        &&& self.schedule.wf()
        &&& self.fps > 0
        &&& 4 * self.width * self.height <= usize::MAX
    }

    /// Size in bytes of a raw frame of this encoder's geometry.
    pub open spec fn frame_size(self) -> int {
        4 * self.width * self.height
    }

    /// A video encoder for `width` by `height` frames at `fps`, with an I-frame every
    /// `keyframe_interval` encoded frames.
    pub fn create(width: usize, height: usize, fps: usize, keyframe_interval: usize) -> (r:
        VideoEncoder)
        requires
            fps > 0,
            keyframe_interval > 0,
            4 * width * height <= usize::MAX,
        ensures
            r.wf(),
            r.width == width,
            r.height == height,
            r.fps == fps,
            r.schedule == FrameSchedule::start(keyframe_interval as u64),
    {
        VideoEncoder {
            width,
            height,
            fps,
            schedule: FrameSchedule::new(keyframe_interval as u64),
        }
    }

    /// Prepares a raw frame for the codec at time `now`. A stale frame is dropped; a frame of
    /// the wrong size is refused; otherwise the frame is converted to YUV 4:2:0 and given its
    /// slot. The frame index advances by one in every case.
    pub fn prepare(&mut self, frame: &VideoFrame, now: u64) -> (r: Result<VideoJob, EncodeError>)
        requires
            old(self).wf(),
            old(self).schedule.frame_index < u64::MAX,
        ensures
            final(self).wf(),
            final(self).width == old(self).width,
            final(self).height == old(self).height,
            final(self).fps == old(self).fps,
            final(self).schedule == old(self).schedule.step(frame.timestamp, now, false),
            is_stale(frame.timestamp, now) <==> r == Err::<VideoJob, EncodeError>(
                EncodeError::StaleFrame,
            ),
            !is_stale(frame.timestamp, now) && frame.buf@.len() != old(self).frame_size() <==> r
                == Err::<VideoJob, EncodeError>(EncodeError::FrameSize),
            r is Ok <==> !is_stale(frame.timestamp, now) && frame.buf@.len() == old(
                self,
            ).frame_size(),
            r matches Ok(job) ==> {
                &&& Some(job.slot) == old(self).schedule.slot_for(frame.timestamp, now)
                &&& job.timestamp == frame.timestamp
                &&& job.y@ == luma_plane(
                    frame.buf@,
                    (old(self).width * old(self).height) as nat,
                )
                &&& job.u@ == u_plane(frame.buf@, old(self).width as nat, old(self).height as nat)
                &&& job.v@ == v_plane(frame.buf@, old(self).width as nat, old(self).height as nat)
            },
    {
        let slot = self.schedule.take_slot(frame.timestamp, now);
        let slot = match slot {
            None => {
                return Err(EncodeError::StaleFrame);
            },
            Some(slot) => slot,
        };
        let w = self.width;
        let h = self.height;
        proof {
            assert(w * h <= 4 * w * h) by (nonlinear_arith);
            assert(4 * w * h == 4 * (w * h)) by (nonlinear_arith);
        }
        let size = w * h;
        if frame.buf.len() != 4 * size {
            return Err(EncodeError::FrameSize);
        }
        let cw: usize = w / 2 + w % 2;
        let ch: usize = h / 2 + h % 2;
        proof {
            assert(cw * ch <= w * h) by (nonlinear_arith)
                requires
                    cw <= w,
                    ch <= h,
            ;
        }
        let chroma: usize = cw * ch;
        assert(chroma == chroma_len(w as nat, h as nat));
        let mut y = vec![0u8; size];
        let mut u = vec![0u8; chroma];
        let mut v = vec![0u8; chroma];
        bgra_to_yuv420(w, h, frame.buf.as_slice(), y.as_mut_slice(), u.as_mut_slice(), v.as_mut_slice());
        assert(y@ =~= luma_plane(frame.buf@, size as nat));
        assert(u@ =~= u_plane(frame.buf@, w as nat, h as nat));
        assert(v@ =~= v_plane(frame.buf@, w as nat, h as nat));
        Ok(VideoJob { y, u, v, slot, timestamp: frame.timestamp })
    }

    /// Prepares a raw frame for the codec, against the wall clock.
    pub fn prepare_now(&mut self, frame: &VideoFrame) -> (r: Result<VideoJob, EncodeError>)
        requires
            old(self).wf(),
            old(self).schedule.frame_index < u64::MAX,
        ensures
            final(self).wf(),
            final(self).schedule.frame_index == old(self).schedule.frame_index + 1,
            final(self).schedule.encoded_count == old(self).schedule.encoded_count,
            final(self).schedule.keyframe_interval == old(self).schedule.keyframe_interval,
            final(self).width == old(self).width,
            final(self).height == old(self).height,
            final(self).fps == old(self).fps,
            frame.buf@.len() != old(self).frame_size() ==> r is Err,
            r matches Ok(job) ==> {
                &&& job.slot.pts == old(self).schedule.frame_index
                &&& job.slot.keyframe == (old(self).schedule.encoded_count % old(
                    self,
                ).schedule.keyframe_interval == 0)
                &&& job.timestamp == frame.timestamp
                &&& job.y@ == luma_plane(
                    frame.buf@,
                    (old(self).width * old(self).height) as nat,
                )
                &&& job.u@ == u_plane(frame.buf@, old(self).width as nat, old(self).height as nat)
                &&& job.v@ == v_plane(frame.buf@, old(self).width as nat, old(self).height as nat)
            },
    {
        let now = now_utc();
        self.prepare(frame, now)
    }

    /// Takes what the codec returned for the last prepared frame. A packet counts towards the
    /// keyframe cadence; a codec error does not.
    pub fn finish(&mut self, timestamp: u64, codec_out: Result<Vec<u8>, String>) -> (r: Result<
        EncodedFrame,
        EncodeError,
    >)
        requires
            old(self).wf(),
            old(self).schedule.encoded_count < u64::MAX,
        ensures
            final(self).wf(),
            final(self).width == old(self).width,
            final(self).height == old(self).height,
            final(self).fps == old(self).fps,
            final(self).schedule.frame_index == old(self).schedule.frame_index,
            final(self).schedule.keyframe_interval == old(self).schedule.keyframe_interval,
            final(self).schedule.encoded_count == old(self).schedule.encoded_count + if codec_out
                is Ok {
                1int
            } else {
                0int
            },
            match packet_spec(timestamp, codec_out) {
                Ok((data, ts)) => r matches Ok(p) && p.buf == data && p.timestamp == ts,
                Err(e) => r == Err::<EncodedFrame, EncodeError>(e),
            },
    {
        let ok = codec_out.is_ok();
        if ok {
            self.schedule.record_encoded();
        }
        packet_from(timestamp, codec_out)
    }
}

/// The verified part of the voice encoder: frame rate and frame index.
pub struct AudioEncoder {
    pub fps: usize,
    pub frame_index: u64,
}

impl AudioEncoder {
    /// A voice encoder whose time base is `1 / fps`.
    pub fn create(fps: usize) -> (r: AudioEncoder)
        requires
            fps > 0,
        ensures
            r.fps == fps,
            r.frame_index == 0,
    {
        AudioEncoder { fps, frame_index: 0 }
    }

    /// Prepares raw sound for the codec at time `now`. Stale sound is dropped; a buffer that
    /// does not hold `samples` stereo pairs is refused; otherwise the left channel is packed
    /// as 16-bit little-endian PCM. The frame index advances by one in every case.
    pub fn prepare(&mut self, frame: &AudioFrame, now: u64) -> (r: Result<AudioJob, EncodeError>)
        requires
            old(self).frame_index < u64::MAX,
        ensures
            final(self).fps == old(self).fps,
            final(self).frame_index == old(self).frame_index + 1,
            is_stale(frame.timestamp, now) <==> r == Err::<AudioJob, EncodeError>(
                EncodeError::StaleFrame,
            ),
            !is_stale(frame.timestamp, now) && frame.buf@.len() != 2 * frame.samples <==> r
                == Err::<AudioJob, EncodeError>(EncodeError::FrameSize),
            r is Ok <==> !is_stale(frame.timestamp, now) && frame.buf@.len() == 2 * frame.samples,
            r matches Ok(job) ==> {
                &&& job.pcm@ == pcm_le(left_channel(frame.buf@))
                &&& job.samples == frame.samples
                &&& job.sample_rate == frame.sample_rate
                &&& job.pts == old(self).frame_index
                &&& job.timestamp == frame.timestamp
            },
    {
        let pts = self.frame_index;
        self.frame_index = self.frame_index + 1;
        if now >= crate::schedule::FRAME_EXPIRE_MICROS && frame.timestamp < now
            - crate::schedule::FRAME_EXPIRE_MICROS {
            return Err(EncodeError::StaleFrame);
        }
        let len = frame.buf.len();
        if len % 2 != 0 || len / 2 != frame.samples {
            return Err(EncodeError::FrameSize);
        }
        let mut pcm = vec![0u8; len];
        copy_interleaved_sound_samples_mono(frame.buf.as_slice(), pcm.as_mut_slice());
        assert(pcm@ =~= pcm@.subrange(0, 2 * (frame.buf@.len() / 2) as int));
        Ok(
            AudioJob {
                pcm,
                samples: frame.samples,
                sample_rate: frame.sample_rate,
                pts,
                timestamp: frame.timestamp,
            },
        )
    }

    /// Prepares raw sound for the codec, against the wall clock.
    pub fn prepare_now(&mut self, frame: &AudioFrame) -> (r: Result<AudioJob, EncodeError>)
        requires
            old(self).frame_index < u64::MAX,
        ensures
            final(self).fps == old(self).fps,
            final(self).frame_index == old(self).frame_index + 1,
            frame.buf@.len() != 2 * frame.samples ==> r is Err,
            r matches Ok(job) ==> {
                &&& job.pcm@ == pcm_le(left_channel(frame.buf@))
                &&& job.samples == frame.samples
                &&& job.sample_rate == frame.sample_rate
                &&& job.pts == old(self).frame_index
                &&& job.timestamp == frame.timestamp
            },
    {
        let now = now_utc();
        self.prepare(frame, now)
    }
}

} // verus!
