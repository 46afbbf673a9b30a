//! Frame-size enforcement: an oversized message writes no bytes; an
//! oversized size word is refused before the body is read.

use arigato::raw::{RError, TError, R, T};
use arigato::server::frame::{decode_r, decode_t, encode_r_frame, encode_t_frame, frame_body_len, frame_size};

#[test]
fn writer_rejects_oversized_message() {
    let r = R::Read(1, vec![0u8; 100]);
    assert!(matches!(encode_r_frame(&r, 32), Err(RError::TooLong)));
    let t = T::Write(1, 2, 0, vec![0u8; 100]);
    assert!(matches!(encode_t_frame(&t, 32), Err(TError::TooLong)));
}

#[test]
fn reader_rejects_oversized_size_word() {
    let msize: u32 = 65536;
    assert_eq!(frame_body_len(msize + 1, msize), None);
    assert_eq!(frame_body_len(msize, msize), Some(msize - 4));
    assert_eq!(frame_body_len(11, msize), Some(7));
    assert_eq!(frame_body_len(3, msize), None);
}

#[test]
fn frame_round_trip_t() {
    let t = T::Clunk(5, 1);
    let frame = encode_t_frame(&t, 65536).unwrap();
    let size = frame_size(&frame[..4]).unwrap();
    assert_eq!(size as usize, frame.len());
    let body_len = frame_body_len(size, 65536).unwrap();
    assert_eq!(body_len as usize, frame.len() - 4);
    let decoded = decode_t(&frame[4..]).unwrap();
    assert_eq!(decoded, t);
}

#[test]
fn frame_round_trip_r() {
    let r = R::Version(0xFFFF, 65536, "9P2000.u".parse().unwrap());
    let frame = encode_r_frame(&r, 65536).unwrap();
    let size = frame_size(&frame[..4]).unwrap();
    assert_eq!(size as usize, frame.len());
    let decoded = decode_r(&frame[4..]).unwrap();
    assert_eq!(decoded, r);
}

#[test]
fn frame_size_counts_itself() {
    let t = T::Clunk(5, 1);
    let frame = encode_t_frame(&t, 65536).unwrap();
    // type byte + tag + fid = 7 bytes of body, plus the 4-byte size word.
    assert_eq!(frame.len(), 11);
    assert_eq!(&frame[..4], &[11, 0, 0, 0]);
}
