use arcade_stream::clock::now_utc;
use arcade_stream::emu::FramePacer;
use arcade_stream::encoder::{
    packet_from, AudioEncoder, AudioFrame, EncodeError, VideoEncoder, VideoFrame,
};
use arcade_stream::schedule::{FrameSchedule, FRAME_EXPIRE_MICROS};

const NOW: u64 = 1_700_000_000_000_000;

fn black(width: usize, height: usize) -> Vec<u8> {
    [0u8, 0, 0, 0xFF].repeat(width * height)
}

#[test]
fn keyframes_every_eight_encoded_frames() {
    let mut enc = VideoEncoder::create(2, 2, 30, 8);
    let mut kinds = Vec::new();
    for k in 0..24u64 {
        let ts = NOW + k * 33_333;
        let frame = VideoFrame::from(&black(2, 2), ts);
        let job = enc.prepare(&frame, ts).ok().unwrap();
        assert_eq!(job.slot.pts, k);
        kinds.push(job.slot.keyframe);
        let packet = enc.finish(job.timestamp, Ok(vec![k as u8])).ok().unwrap();
        assert_eq!(packet.buf, vec![k as u8]);
        assert_eq!(packet.timestamp, ts);
    }
    for (i, key) in kinds.iter().enumerate() {
        let position = i + 1;
        assert_eq!(*key, position == 1 || position == 9 || position == 17);
    }
}

#[test]
fn stale_frame_is_dropped_and_pts_still_advances() {
    let mut enc = VideoEncoder::create(4, 4, 30, 12);
    let fresh = VideoFrame::from(&black(4, 4), NOW);
    let first = enc.prepare(&fresh, NOW).ok().unwrap();
    assert_eq!(first.slot.pts, 0);
    enc.finish(first.timestamp, Ok(vec![1])).ok().unwrap();

    let stale = VideoFrame::from(&black(4, 4), NOW - 50_000);
    assert_eq!(enc.prepare(&stale, NOW).err(), Some(EncodeError::StaleFrame));
    let stale_pts = 1;

    let next = VideoFrame::from(&black(4, 4), NOW + 10);
    let job = enc.prepare(&next, NOW + 10).ok().unwrap();
    assert_eq!(job.slot.pts, stale_pts + 1);
    // the dropped frame does not count towards the keyframe cadence
    assert!(!job.slot.keyframe);
    assert_eq!(enc.schedule.encoded_count, 1);
}

#[test]
fn expiry_boundary_is_exclusive() {
    let mut enc = VideoEncoder::create(2, 2, 30, 1);
    let at_limit = VideoFrame::from(&black(2, 2), NOW - FRAME_EXPIRE_MICROS);
    assert!(enc.prepare(&at_limit, NOW).is_ok());
    let past_limit = VideoFrame::from(&black(2, 2), NOW - FRAME_EXPIRE_MICROS - 1);
    assert_eq!(enc.prepare(&past_limit, NOW).err(), Some(EncodeError::StaleFrame));
    // frames from the future and clocks near zero are never stale
    let future = VideoFrame::from(&black(2, 2), NOW + 5_000_000);
    assert!(enc.prepare(&future, NOW).is_ok());
    let early = VideoFrame::from(&black(2, 2), 0);
    assert!(enc.prepare(&early, 10).is_ok());
    assert_eq!(enc.schedule.frame_index, 4);
}

#[test]
fn wrong_frame_size_is_refused() {
    let mut enc = VideoEncoder::create(4, 4, 30, 12);
    let short = VideoFrame::from(&black(2, 2), NOW);
    assert_eq!(enc.prepare(&short, NOW).err(), Some(EncodeError::FrameSize));
    assert_eq!(enc.schedule.frame_index, 1);
}

#[test]
fn prepared_planes_are_the_converted_frame() {
    let mut enc = VideoEncoder::create(4, 4, 30, 12);
    let frame = VideoFrame::from(&black(4, 4), NOW);
    let job = enc.prepare(&frame, NOW).ok().unwrap();
    assert_eq!(job.y, vec![0u8; 16]);
    assert_eq!(job.u, vec![0x80u8; 4]);
    assert_eq!(job.v, vec![0x80u8; 4]);
    assert_eq!(job.timestamp, NOW);
    assert!(job.slot.keyframe);
}

#[test]
fn fresh_frame_against_the_wall_clock() {
    let mut enc = VideoEncoder::create(2, 2, 30, 4);
    let frame = VideoFrame::from(&black(2, 2), now_utc());
    let job = enc.prepare_now(&frame).ok().unwrap();
    assert_eq!(job.slot.pts, 0);
    assert!(now_utc() > 1_600_000_000_000_000);
}

#[test]
fn codec_failure_is_reported_and_not_counted() {
    let mut enc = VideoEncoder::create(2, 2, 30, 2);
    let frame = VideoFrame::from(&black(2, 2), NOW);
    let job = enc.prepare(&frame, NOW).ok().unwrap();
    let r = enc.finish(job.timestamp, Err(String::from("nothing encoded")));
    assert_eq!(r.err(), Some(EncodeError::CodecFailure(String::from("nothing encoded"))));
    assert_eq!(enc.schedule.encoded_count, 0);
    let job = enc.prepare(&frame, NOW).ok().unwrap();
    assert!(job.slot.keyframe);
    assert_eq!(job.slot.pts, 1);
}

#[test]
fn packet_keeps_codec_bytes_and_capture_time() {
    let p = packet_from(42, Ok(vec![9, 8, 7])).ok().unwrap();
    assert_eq!(p.buf, vec![9u8, 8, 7]);
    assert_eq!(p.timestamp, 42);
    assert_eq!(
        packet_from(42, Err(String::from("x"))).err(),
        Some(EncodeError::CodecFailure(String::from("x")))
    );
}

#[test]
fn audio_left_channel_as_pcm() {
    let mut enc = AudioEncoder::create(30);
    let frame = AudioFrame::from(&[0x0102, 7, -1, 7], NOW, 2, 48_000);
    let job = enc.prepare(&frame, NOW).ok().unwrap();
    assert_eq!(job.pcm, vec![0x02u8, 0x01, 0xFF, 0xFF]);
    assert_eq!(job.samples, 2);
    assert_eq!(job.sample_rate, 48_000);
    assert_eq!(job.pts, 0);
    assert_eq!(job.timestamp, NOW);
}

#[test]
fn audio_stale_and_size_errors() {
    let mut enc = AudioEncoder::create(30);
    let stale = AudioFrame::from(&[1, 2], NOW - 31_000, 1, 48_000);
    assert_eq!(enc.prepare(&stale, NOW).err(), Some(EncodeError::StaleFrame));
    let odd = AudioFrame::from(&[1, 2, 3], NOW, 1, 48_000);
    assert_eq!(enc.prepare(&odd, NOW).err(), Some(EncodeError::FrameSize));
    let good = AudioFrame::from(&[1, 2], NOW, 1, 48_000);
    let job = enc.prepare(&good, NOW).ok().unwrap();
    assert_eq!(job.pts, 2);
    assert_eq!(enc.frame_index, 3);
}

#[test]
fn schedule_counts_from_zero() {
    let mut s = FrameSchedule::new(3);
    let a = s.take_slot(NOW, NOW).unwrap();
    assert_eq!((a.pts, a.keyframe), (0, true));
    s.record_encoded();
    assert!(s.take_slot(0, NOW).is_none());
    let b = s.take_slot(NOW, NOW).unwrap();
    assert_eq!((b.pts, b.keyframe), (2, false));
}

#[test]
fn pacer_lets_one_image_per_frame_interval() {
    let mut p = FramePacer::new(30, 1_000_000);
    // 1000 / 30 = 33 ms
    assert!(!p.should_update_image_frame(1_032_999));
    assert!(p.should_update_image_frame(1_033_000));
    assert_eq!(p.last_updated, 1_033_000);
    assert!(!p.should_update_image_frame(1_040_000));
    assert!(!p.should_update_image_frame(900_000));
    assert!(p.should_update_image_frame(1_066_000));
}
