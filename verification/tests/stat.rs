//! The stat builder's mode discipline, and the codec's error cases.

use arigato::raw::{Dehydrate, FileType, Hydrate, Qid, Stat, StatError, StringError};

#[test]
fn builder_overrides_mode_top_byte() {
    let qid = Qid::new(FileType::Dir, 0, 1);
    let stat = Stat::builder("name", qid).with_mode(0xABCDEF12).build();
    let encoded: u32 = qid.ty.into();
    assert_eq!(stat.mode & 0xFF000000, encoded & 0xFF000000);
    assert_eq!(stat.mode, 0x80CDEF12);
    assert_eq!(stat.qid, qid);
}

#[test]
fn builder_special_kind_keeps_top_byte_clear() {
    let qid = Qid::new(FileType::Device, 7, 9);
    let stat = Stat::builder("dev", qid).with_mode(0xFFFFFFFF).build();
    assert_eq!(stat.mode & 0xFF000000, 0);
    assert_eq!(stat.mode, 0x00FFFFFF | 0x00800000);
}

#[test]
fn builder_defaults_are_zero_and_empty() {
    let stat = Stat::builder("n", Qid::new(FileType::File, 2, 3)).build();
    assert_eq!(stat.ty, 0);
    assert_eq!(stat.dev, 0);
    assert_eq!(stat.atime, 0);
    assert_eq!(stat.mtime, 0);
    assert_eq!(stat.length, 0);
    assert_eq!(stat.name, "n");
    assert_eq!(stat.uid, "");
    assert_eq!(stat.gid, "");
    assert_eq!(stat.muid, "");
    assert_eq!(stat.extension, "");
    assert_eq!(stat.nuid, 0);
    assert_eq!(stat.ngid, 0);
    assert_eq!(stat.nmuid, 0);
}

#[test]
fn stat_hydrate_rejects_truncated_input() {
    let stat = Stat::builder("x", Qid::new(FileType::File, 1, 2)).build();
    let mut b: Vec<u8> = Vec::new();
    stat.dehydrate(&mut b).unwrap();
    b.truncate(b.len() - 1);
    let mut pos: usize = 0;
    assert!(matches!(Stat::hydrate(&b, &mut pos), Err(StatError::Truncated)));
}

#[test]
fn stat_hydrate_rejects_wrong_size_prefix() {
    let stat = Stat::builder("x", Qid::new(FileType::File, 1, 2)).build();
    let mut b: Vec<u8> = Vec::new();
    stat.dehydrate(&mut b).unwrap();
    // One byte of trailing garbage within the announced count: the body
    // must occupy exactly the count.
    b[0] = b[0].wrapping_add(1);
    b.push(0);
    let mut pos: usize = 0;
    assert!(matches!(Stat::hydrate(&b, &mut pos), Err(StatError::Truncated)));
}

#[test]
fn string_encode_rejects_oversized() {
    let s = "a".repeat(0x10000);
    let mut b: Vec<u8> = Vec::new();
    assert!(matches!(s.dehydrate(&mut b), Err(StringError::TooLarge)));
    assert!(b.is_empty());
}

#[test]
fn string_decode_rejects_bad_unicode() {
    let b: Vec<u8> = vec![2, 0, 0xFF, 0xFF];
    let mut pos: usize = 0;
    assert!(matches!(String::hydrate(&b, &mut pos), Err(StringError::UnicodeError)));
}

#[test]
fn string_decode_reads_utf8() {
    let b: Vec<u8> = vec![3, 0, b'a', b'b', b'c'];
    let mut pos: usize = 0;
    assert_eq!(String::hydrate(&b, &mut pos).unwrap(), "abc");
    assert_eq!(pos, 5);
}

#[test]
fn string_decode_rejects_short_body() {
    let b: Vec<u8> = vec![4, 0, b'a'];
    let mut pos: usize = 0;
    assert!(matches!(String::hydrate(&b, &mut pos), Err(StringError::Truncated)));
}
