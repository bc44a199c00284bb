//! BGRA to planar YUV 4:2:0 conversion with integer fixed-point arithmetic.
use vstd::arithmetic::div_mod::lemma_fundamental_div_mod_converse;
use vstd::prelude::*;

verus! {

/// Bytes per BGRA pixel.
pub const BYTES_PER_PIXEL: usize = 4;

/// `x` saturated to `[0, 255]`.
pub open spec fn clamp_spec(x: int) -> int {
    if x < 0 {
        0
    } else if x > 255 {
        255
    } else {
        x
    }
}

/// Luma of one pixel: `clamp8((77r + 150g + 29b + 128) >> 8)`.
/// An arithmetic shift right by 8 is floor division by 256.
pub open spec fn luma(b: int, g: int, r: int) -> int {
    clamp_spec((77 * r + 150 * g + 29 * b + 128) / 256)
}

/// Blue-difference chroma of one pixel: `clamp8(((-43r - 84g + 127b) >> 8) + 128)`.
pub open spec fn chroma_u(b: int, g: int, r: int) -> int {
    clamp_spec((-43 * r - 84 * g + 127 * b) / 256 + 128)
}

/// Red-difference chroma of one pixel: `clamp8(((127r - 106g - 21b) >> 8) + 128)`.
pub open spec fn chroma_v(b: int, g: int, r: int) -> int {
    clamp_spec((127 * r - 106 * g - 21 * b) / 256 + 128)
}

/// Luma of pixel `p` of a BGRA plane.
pub open spec fn luma_at(bgra: Seq<u8>, p: int) -> int {
    luma(bgra[4 * p] as int, bgra[4 * p + 1] as int, bgra[4 * p + 2] as int)
}

/// U of pixel `p` of a BGRA plane.
pub open spec fn chroma_u_at(bgra: Seq<u8>, p: int) -> int {
    chroma_u(bgra[4 * p] as int, bgra[4 * p + 1] as int, bgra[4 * p + 2] as int)
}

/// V of pixel `p` of a BGRA plane.
pub open spec fn chroma_v_at(bgra: Seq<u8>, p: int) -> int {
    chroma_v(bgra[4 * p] as int, bgra[4 * p + 1] as int, bgra[4 * p + 2] as int)
}

/// Number of chroma samples per row: one for each even column.
pub open spec fn chroma_width(width: nat) -> nat {
    (width + 1) / 2
}

/// Number of chroma rows: one for each even row.
pub open spec fn chroma_height(height: nat) -> nat {
    (height + 1) / 2
}

/// Length of each chroma plane: one sample for each pixel at an even row and an even column.
/// For even dimensions this is `width * height / 4`.
pub open spec fn chroma_len(width: nat, height: nat) -> nat {
    chroma_width(width) * chroma_height(height)
}

/// The pixel that chroma sample `j` is taken from: chroma samples are laid out densely in
/// row-major order over the pixels at even rows and even columns.
pub open spec fn chroma_source(width: nat, j: int) -> int {
    2 * (j / chroma_width(width) as int) * width + 2 * (j % chroma_width(width) as int)
}

/// The luma plane of the first `n` pixels of a BGRA plane.
pub open spec fn luma_plane(bgra: Seq<u8>, n: nat) -> Seq<u8> {
    Seq::new(n, |p: int| luma_at(bgra, p) as u8)
}

/// The U plane of a `width` by `height` BGRA plane.
pub open spec fn u_plane(bgra: Seq<u8>, width: nat, height: nat) -> Seq<u8> {
    Seq::new(chroma_len(width, height), |j: int| chroma_u_at(bgra, chroma_source(width, j)) as u8)
}

/// The V plane of a `width` by `height` BGRA plane.
pub open spec fn v_plane(bgra: Seq<u8>, width: nat, height: nat) -> Seq<u8> {
    Seq::new(chroma_len(width, height), |j: int| chroma_v_at(bgra, chroma_source(width, j)) as u8)
}

/// Saturates an integer to the range of a byte.
pub fn clamp8(val: i32) -> (r: u8)
    ensures
        r as int == clamp_spec(val as int),
        0 <= r <= 255,
        r as int == if 255 < val { 255 } else if val < 0 { 0 } else { val as int },
{
    if val < 0 {
        0
    } else if val > 255 {
        255
    } else {
        val as u8
    }
}

pub(crate) fn luma_of(b: u8, g: u8, r: u8) -> (y: u8)
    ensures
        y as int == luma(b as int, g as int, r as int),
{
    clamp8((77 * (r as i32) + 150 * (g as i32) + 29 * (b as i32) + 128) / 256)
}

proof fn lemma_floor_shift(x: int)
    requires
        -32768 <= x,
    ensures
        (x + 32768) / 256 == x / 256 + 128,
{
    assert((x + 32768) / 256 == x / 256 + 128);
}

pub(crate) fn chroma_u_of(b: u8, g: u8, r: u8) -> (u: u8)
    ensures
        u as int == chroma_u(b as int, g as int, r as int),
{
    let x: i32 = 127 * (b as i32) - 43 * (r as i32) - 84 * (g as i32);
    proof {
        lemma_floor_shift(x as int);
    }
    clamp8((x + 32768) / 256)
}

pub(crate) fn chroma_v_of(b: u8, g: u8, r: u8) -> (v: u8)
    ensures
        v as int == chroma_v(b as int, g as int, r as int),
{
    let x: i32 = 127 * (r as i32) - 106 * (g as i32) - 21 * (b as i32);
    proof {
        lemma_floor_shift(x as int);
    }
    clamp8((x + 32768) / 256)
}

proof fn lemma_chroma_geometry(width: nat, height: nat, row: nat, col: nat)
    requires
        row < chroma_height(height),
        col < chroma_width(width),
    ensures
        2 * row * width + 2 * col < width * height,
        row * chroma_width(width) + col < chroma_len(width, height),
        chroma_source(width, (row * chroma_width(width) + col) as int) == 2 * row * width + 2
            * col,
{
    let cw = chroma_width(width);
    let ch = chroma_height(height);
    assert(2 * row + 1 <= height);
    assert(2 * col + 1 <= width);
    assert(2 * row * width + 2 * col < width * height) by (nonlinear_arith)
        requires
            2 * row + 1 <= height,
            2 * col + 1 <= width,
    ;
    assert(row * cw + col < cw * ch) by (nonlinear_arith)
        requires
            row < ch,
            col < cw,
    ;
    lemma_fundamental_div_mod_converse((row * cw + col) as int, cw as int, row as int, col as int);
}

/// Converts a BGRA plane of `width * height` pixels to planar YUV 4:2:0.
/// Every pixel gets a luma sample; the pixels at even rows and even columns also give a U
/// and a V sample, written densely in row-major order.
pub fn bgra_to_yuv420(
    width: usize,
    height: usize,
    bgra: &[u8],
    y: &mut [u8],
    u: &mut [u8],
    v: &mut [u8],
)
    requires
        bgra@.len() == 4 * width * height,
        old(y)@.len() == width * height,
        old(u)@.len() == chroma_len(width as nat, height as nat),
        old(v)@.len() == chroma_len(width as nat, height as nat),
    ensures
        final(y)@.len() == width * height,
        final(u)@.len() == chroma_len(width as nat, height as nat),
        final(v)@.len() == chroma_len(width as nat, height as nat),
        forall|p: int|
            0 <= p < width * height ==> #[trigger] final(y)@[p] as int == luma_at(bgra@, p),
        forall|j: int|
            0 <= j < chroma_len(width as nat, height as nat) ==> #[trigger] final(u)@[j] as int
                == chroma_u_at(bgra@, chroma_source(width as nat, j)),
        forall|j: int|
            0 <= j < chroma_len(width as nat, height as nat) ==> #[trigger] final(v)@[j] as int
                == chroma_v_at(bgra@, chroma_source(width as nat, j)),
{
    let blen = bgra.len();
    proof {
        assert(width * height <= 4 * width * height) by (nonlinear_arith);
        assert(4 * width * height == 4 * (width * height)) by (nonlinear_arith);
    }
    let n: usize = width * height;
    let mut p: usize = 0;
    while p < n
        invariant
            n == width * height,
            bgra@.len() == 4 * n,
            bgra@.len() <= usize::MAX,
            y@.len() == n,
            p <= n,
            forall|q: int| 0 <= q < p ==> #[trigger] y@[q] as int == luma_at(bgra@, q),
        decreases n - p,
    {
        let o: usize = p * BYTES_PER_PIXEL;
        y[p] = luma_of(bgra[o], bgra[o + 1], bgra[o + 2]);
        p += 1;
    }
    let cw: usize = width / 2 + width % 2;
    let ch: usize = height / 2 + height % 2;
    assert(cw == chroma_width(width as nat));
    assert(ch == chroma_height(height as nat));
    let ghost clen = chroma_len(width as nat, height as nat);
    let mut row: usize = 0;
    let mut j: usize = 0;
    while row < ch
        invariant
            n == width * height,
            bgra@.len() == 4 * n,
            bgra@.len() <= usize::MAX,
            y@.len() == n,
            forall|q: int| 0 <= q < n ==> #[trigger] y@[q] as int == luma_at(bgra@, q),
            cw == chroma_width(width as nat),
            ch == chroma_height(height as nat),
            clen == cw * ch,
            u@.len() == clen,
            v@.len() == clen,
            row <= ch,
            j == row * cw,
            forall|k: int|
                0 <= k < j ==> #[trigger] u@[k] as int == chroma_u_at(
                    bgra@,
                    chroma_source(width as nat, k),
                ),
            forall|k: int|
                0 <= k < j ==> #[trigger] v@[k] as int == chroma_v_at(
                    bgra@,
                    chroma_source(width as nat, k),
                ),
        decreases ch - row,
    {
        let mut col: usize = 0;
        while col < cw
            invariant
                n == width * height,
                bgra@.len() == 4 * n,
                bgra@.len() <= usize::MAX,
                y@.len() == n,
                forall|q: int| 0 <= q < n ==> #[trigger] y@[q] as int == luma_at(bgra@, q),
                cw == chroma_width(width as nat),
                ch == chroma_height(height as nat),
                clen == cw * ch,
                u@.len() == clen,
                v@.len() == clen,
                row < ch,
                col <= cw,
                j == row * cw + col,
                forall|k: int|
                    0 <= k < j ==> #[trigger] u@[k] as int == chroma_u_at(
                        bgra@,
                        chroma_source(width as nat, k),
                    ),
                forall|k: int|
                    0 <= k < j ==> #[trigger] v@[k] as int == chroma_v_at(
                        bgra@,
                        chroma_source(width as nat, k),
                    ),
            decreases cw - col,
        {
            proof {
                lemma_chroma_geometry(width as nat, height as nat, row as nat, col as nat);
            }
            let px: usize = 2 * row * width + 2 * col;
            let o: usize = px * BYTES_PER_PIXEL;
            u[j] = chroma_u_of(bgra[o], bgra[o + 1], bgra[o + 2]);
            v[j] = chroma_v_of(bgra[o], bgra[o + 1], bgra[o + 2]);
            j += 1;
            col += 1;
        }
        proof {
            assert(j == (row + 1) * cw) by (nonlinear_arith)
                requires
                    j == row * cw + cw,
            ;
        }
        row += 1;
    }
    proof {
        assert(j == clen) by (nonlinear_arith)
            requires
                j == ch * cw,
                clen == cw * ch,
        ;
    }
}

/// A grey pixel (equal blue, green and red) survives conversion exactly: its luma is the
/// grey level and both of its chroma samples are the neutral 128.
pub proof fn lemma_grey_exact(level: u8)
    ensures
        luma(level as int, level as int, level as int) == level as int,
        chroma_u(level as int, level as int, level as int) == 128,
        chroma_v(level as int, level as int, level as int) == 128,
{
    let l = level as int;
    assert((77 * l + 150 * l + 29 * l + 128) / 256 == l);
    assert((-43 * l - 84 * l + 127 * l) / 256 == 0);
    assert((127 * l - 106 * l - 21 * l) / 256 == 0);
}

/// For even dimensions each chroma plane holds a quarter as many samples as the luma plane.
pub proof fn lemma_chroma_len_quarter(width: nat, height: nat)
    requires
        width % 2 == 0,
        height % 2 == 0,
    ensures
        chroma_len(width, height) == width * height / 4,
{
    let hw = width / 2;
    let hh = height / 2;
    assert(chroma_width(width) == hw);
    assert(chroma_height(height) == hh);
    assert(width * height == 4 * (hw * hh)) by (nonlinear_arith)
        requires
            width == 2 * hw,
            height == 2 * hh,
    ;
}

} // verus!
