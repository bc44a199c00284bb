//! Stereo to mono downmix for the voice encoder. The downmix keeps the left channel.
use vstd::prelude::*;

verus! {

/// The left channel of an interleaved stereo stream `L0 R0 L1 R1 ...`: sample `i` of the
/// result is `src[2 * i]`. A trailing unpaired sample is left out.
pub open spec fn left_channel(src: Seq<i16>) -> Seq<i16> {
    Seq::new(src.len() / 2, |i: int| src[2 * i])
}

/// Low byte of a sample in two's complement.
pub open spec fn low_byte(s: i16) -> u8 {
    ((s as u16) % 256) as u8
}

/// High byte of a sample in two's complement.
pub open spec fn high_byte(s: i16) -> u8 {
    ((s as u16) / 256) as u8
}

/// Packed 16-bit little-endian PCM of a run of samples.
pub open spec fn pcm_le(samples: Seq<i16>) -> Seq<u8> {
    Seq::new(
        2 * samples.len(),
        |k: int|
            if k % 2 == 0 {
                low_byte(samples[k / 2])
            } else {
                high_byte(samples[k / 2])
            },
    )
}

/// The left channel of an interleaved stereo buffer.
pub fn downmix_left(src: &[i16]) -> (r: Vec<i16>)
    ensures
        r@ == left_channel(src@),
{
    let len: usize = src.len();
    let n: usize = len / 2;
    let mut out: Vec<i16> = Vec::with_capacity(n);
    let mut i: usize = 0;
    while i < n
        invariant
            len == src@.len(),
            n == len / 2,
            i <= n,
            out@.len() == i,
            forall|k: int| 0 <= k < i ==> #[trigger] out@[k] == src@[2 * k],
        decreases n - i,
    {
        out.push(src[2 * i]);
        i += 1;
    }
    assert(out@ =~= left_channel(src@));
    out
}

/// Writes the left channel of an interleaved stereo buffer into `dst_buf` as packed 16-bit
/// little-endian PCM. Bytes of `dst_buf` past the written samples are left as they were.
pub fn copy_interleaved_sound_samples_mono(src: &[i16], dst_buf: &mut [u8])
    requires
        old(dst_buf)@.len() >= 2 * (src@.len() / 2),
    ensures
        final(dst_buf)@.len() == old(dst_buf)@.len(),
        final(dst_buf)@.subrange(0, 2 * (src@.len() / 2) as int) == pcm_le(left_channel(src@)),
        final(dst_buf)@.subrange(2 * (src@.len() / 2) as int, old(dst_buf)@.len() as int) == old(
            dst_buf,
        )@.subrange(2 * (src@.len() / 2) as int, old(dst_buf)@.len() as int),
{
    let len: usize = src.len();
    let n: usize = len / 2;
    let ghost orig = dst_buf@;
    let ghost mono = left_channel(src@);
    let mut i: usize = 0;
    while i < n
        invariant
            len == src@.len(),
            n == len / 2,
            mono == left_channel(src@),
            i <= n,
            dst_buf@.len() == orig.len(),
            orig.len() >= 2 * n,
            forall|k: int| 0 <= k < 2 * i ==> #[trigger] dst_buf@[k] == pcm_le(mono)[k],
            forall|k: int| 2 * i <= k < orig.len() ==> #[trigger] dst_buf@[k] == orig[k],
        decreases n - i,
    {
        let w: u16 = #[verifier::truncate] (src[2 * i] as u16);
        dst_buf[2 * i] = (w % 256) as u8;
        dst_buf[2 * i + 1] = (w / 256) as u8;
        proof {
            assert(pcm_le(mono)[2 * i as int] == low_byte(mono[i as int]));
            assert(pcm_le(mono)[2 * i + 1] == high_byte(mono[i as int]));
        }
        i += 1;
    }
    assert(dst_buf@.subrange(0, 2 * n as int) =~= pcm_le(mono));
    assert(dst_buf@.subrange(2 * n as int, orig.len() as int) =~= orig.subrange(
        2 * n as int,
        orig.len() as int,
    ));
}

} // verus!
