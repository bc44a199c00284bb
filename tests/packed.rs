use arcade_stream::packed::bgra_to_yuv420;
use bytes::{Bytes, BytesMut};

#[test]
fn appends_planes_of_a_black_frame() {
    let bgra = Bytes::from([0u8, 0, 0, 0xFF].repeat(16));
    let mut y = BytesMut::new();
    let mut u = BytesMut::new();
    let mut v = BytesMut::new();
    bgra_to_yuv420(4, &bgra, &mut y, &mut u, &mut v);
    assert_eq!(&y[..], &[0u8; 16][..]);
    assert_eq!(&u[..], &[0x80u8; 4][..]);
    assert_eq!(&v[..], &[0x80u8; 4][..]);
}

#[test]
fn appends_after_existing_bytes() {
    let bgra = Bytes::from(vec![0xFFu8, 0xFF, 0xFF, 0xFF, 0, 0, 255, 0]);
    let mut y = BytesMut::from(&[7u8][..]);
    let mut u = BytesMut::new();
    let mut v = BytesMut::from(&[1u8, 2][..]);
    bgra_to_yuv420(2, &bgra, &mut y, &mut u, &mut v);
    assert_eq!(&y[..], &[7u8, 255, 77][..]);
    assert_eq!(&u[..], &[128u8][..]);
    assert_eq!(&v[..], &[1u8, 2, 128][..]);
}

#[test]
fn chroma_only_from_even_rows_and_columns() {
    // 2 pixels wide, 3 rows: pixels 0 and 4 give chroma; a trailing partial pixel is ignored
    let mut raw = Vec::new();
    for p in 0..6u8 {
        raw.extend_from_slice(&[p * 40, 0, 0, 255]);
    }
    raw.extend_from_slice(&[1, 2]);
    let bgra = Bytes::from(raw);
    let (mut y, mut u, mut v) = (BytesMut::new(), BytesMut::new(), BytesMut::new());
    bgra_to_yuv420(2, &bgra, &mut y, &mut u, &mut v);
    assert_eq!(y.len(), 6);
    assert_eq!(u.len(), 2);
    assert_eq!(v.len(), 2);
    // b = 0 gives U = 128 - 0; b = 160 gives ((127 * 160) >> 8) + 128 = 207
    assert_eq!(&u[..], &[128u8, 207][..]);
}
