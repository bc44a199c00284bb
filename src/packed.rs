//! BGRA to YUV 4:2:0 conversion that appends the planes to growable byte buffers of the
//! `bytes` crate.
use crate::convert::{chroma_u_at, chroma_v_at, luma_at, luma_plane};
use bytes::{BufMut, Bytes, BytesMut};
use vstd::prelude::*;

verus! {

#[verifier::external_type_specification]
#[verifier::external_body]
pub struct ExBytes(Bytes);

#[verifier::external_type_specification]
#[verifier::external_body]
pub struct ExBytesMut(BytesMut);

/// The bytes an immutable buffer holds.
pub uninterp spec fn bytes_contents(b: Bytes) -> Seq<u8>;

/// The bytes a growable buffer holds.
pub uninterp spec fn bytes_mut_contents(b: BytesMut) -> Seq<u8>;

/// Relies on `bytes::Bytes::len`: the number of bytes held.
#[verifier::external_body]
fn bytes_len(b: &Bytes) -> (r: usize)
    ensures
        r == bytes_contents(*b).len(),
{
    b.len()
}

/// Relies on `Bytes` dereferencing to the slice of the bytes it holds: the byte at `i`.
#[verifier::external_body]
fn bytes_at(b: &Bytes, i: usize) -> (r: u8)
    requires
        i < bytes_contents(*b).len(),
    ensures
        r == bytes_contents(*b)[i as int],
{
    b[i]
}

/// Relies on `BufMut::put_u8` for `BytesMut`, which appends the byte (through
/// `extend_from_slice`, growing the buffer as needed).
#[verifier::external_body]
fn put_u8(b: &mut BytesMut, x: u8)
    requires
        bytes_mut_contents(*old(b)).len() + 1 <= isize::MAX,
    ensures
        bytes_mut_contents(*final(b)) == bytes_mut_contents(*old(b)).push(x),
{
    b.put_u8(x)
}

/// Pixel `p` of a plane `width` pixels wide is at an even row and an even column.
pub open spec fn gives_chroma(width: nat, p: int) -> bool {
    (p / width as int) % 2 == 0 && (p % width as int) % 2 == 0
}

/// The U samples of the first `n` pixels, one for each pixel at an even row and an even
/// column, in pixel order.
pub open spec fn u_samples(bgra: Seq<u8>, width: nat, n: nat) -> Seq<u8>
    decreases n,
{
    if n == 0 {
        Seq::empty()
    } else if gives_chroma(width, n - 1) {
        u_samples(bgra, width, (n - 1) as nat).push(chroma_u_at(bgra, n - 1) as u8)
    } else {
        u_samples(bgra, width, (n - 1) as nat)
    }
}

/// The V samples of the first `n` pixels, as `u_samples`.
pub open spec fn v_samples(bgra: Seq<u8>, width: nat, n: nat) -> Seq<u8>
    decreases n,
{
    if n == 0 {
        Seq::empty()
    } else if gives_chroma(width, n - 1) {
        v_samples(bgra, width, (n - 1) as nat).push(chroma_v_at(bgra, n - 1) as u8)
    } else {
        v_samples(bgra, width, (n - 1) as nat)
    }
}

proof fn lemma_samples_len(bgra: Seq<u8>, width: nat, n: nat)
    ensures
        u_samples(bgra, width, n).len() <= n,
        v_samples(bgra, width, n).len() <= n,
    decreases n,
{
    if n > 0 {
        lemma_samples_len(bgra, width, (n - 1) as nat);
    }
}

/// Converts every whole BGRA pixel of `bgra` (rows `width` pixels wide) and appends the
/// luma of each pixel to `y`, and the U and V of each pixel at an even row and an even
/// column to `u` and `v`.
pub fn bgra_to_yuv420(
    width: usize,
    bgra: &Bytes,
    y: &mut BytesMut,
    u: &mut BytesMut,
    v: &mut BytesMut,
)
    requires
        width > 0,
        bytes_mut_contents(*old(y)).len() + bytes_contents(*bgra).len() / 4 <= isize::MAX,
        bytes_mut_contents(*old(u)).len() + bytes_contents(*bgra).len() / 4 <= isize::MAX,
        bytes_mut_contents(*old(v)).len() + bytes_contents(*bgra).len() / 4 <= isize::MAX,
    ensures
        bytes_mut_contents(*final(y)) == bytes_mut_contents(*old(y)) + luma_plane(
            bytes_contents(*bgra),
            bytes_contents(*bgra).len() / 4,
        ),
        bytes_mut_contents(*final(u)) == bytes_mut_contents(*old(u)) + u_samples(
            bytes_contents(*bgra),
            width as nat,
            bytes_contents(*bgra).len() / 4,
        ),
        bytes_mut_contents(*final(v)) == bytes_mut_contents(*old(v)) + v_samples(
            bytes_contents(*bgra),
            width as nat,
            bytes_contents(*bgra).len() / 4,
        ),
{
    let ghost src = bytes_contents(*bgra);
    let ghost y0 = bytes_mut_contents(*y);
    let ghost u0 = bytes_mut_contents(*u);
    let ghost v0 = bytes_mut_contents(*v);
    let len: usize = bytes_len(bgra);
    let n: usize = len / 4;
    let mut i: usize = 0;
    while i < n
        invariant
            src == bytes_contents(*bgra),
            len == src.len(),
            n == len / 4,
            width > 0,
            i <= n,
            y0.len() + n <= isize::MAX,
            u0.len() + n <= isize::MAX,
            v0.len() + n <= isize::MAX,
            bytes_mut_contents(*y) == y0 + luma_plane(src, i as nat),
            bytes_mut_contents(*u) == u0 + u_samples(src, width as nat, i as nat),
            bytes_mut_contents(*v) == v0 + v_samples(src, width as nat, i as nat),
        decreases n - i,
    {
        proof {
            lemma_samples_len(src, width as nat, i as nat);
        }
        let o: usize = i * 4;
        let b = bytes_at(bgra, o);
        let g = bytes_at(bgra, o + 1);
        let r = bytes_at(bgra, o + 2);
        put_u8(y, crate::convert::luma_of(b, g, r));
        if (i / width) % 2 == 0 && (i % width) % 2 == 0 {
            put_u8(u, crate::convert::chroma_u_of(b, g, r));
            put_u8(v, crate::convert::chroma_v_of(b, g, r));
        }
        proof {
            assert(luma_plane(src, (i + 1) as nat) =~= luma_plane(src, i as nat).push(
                luma_at(src, i as int) as u8,
            ));
            assert((y0 + luma_plane(src, i as nat)).push(luma_at(src, i as int) as u8) =~= y0
                + luma_plane(src, (i + 1) as nat));
            assert(u_samples(src, width as nat, (i + 1) as nat) == if gives_chroma(
                width as nat,
                i as int,
            ) {
                u_samples(src, width as nat, i as nat).push(chroma_u_at(src, i as int) as u8)
            } else {
                u_samples(src, width as nat, i as nat)
            });
            assert((u0 + u_samples(src, width as nat, i as nat)).push(
                chroma_u_at(src, i as int) as u8,
            ) =~= u0 + u_samples(src, width as nat, i as nat).push(
                chroma_u_at(src, i as int) as u8,
            ));
            assert((v0 + v_samples(src, width as nat, i as nat)).push(
                chroma_v_at(src, i as int) as u8,
            ) =~= v0 + v_samples(src, width as nat, i as nat).push(
                chroma_v_at(src, i as int) as u8,
            ));
        }
        i += 1;
    }
}

} // verus!
