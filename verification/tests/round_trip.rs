//! Encode/decode round trips for every wire type: hydrating a
//! dehydrated value yields the value back.

use arigato::raw::{Dehydrate, FileType, Hydrate, Qid, Stat, Version, R, T};

fn encoded<V: Dehydrate>(v: &V) -> Vec<u8>
where
    V::Error: std::fmt::Debug,
{
    let mut b: Vec<u8> = Vec::new();
    v.dehydrate(&mut b).unwrap();
    b
}

fn round_trip<V: Dehydrate + Hydrate + PartialEq + std::fmt::Debug>(v: V)
where
    <V as Dehydrate>::Error: std::fmt::Debug,
    <V as Hydrate>::Error: std::fmt::Debug,
{
    let b = encoded(&v);
    let mut pos: usize = 0;
    let v1 = V::hydrate(&b, &mut pos).unwrap();
    assert_eq!(v, v1, "{:?} != {:?} after hydrate/dehydrate", v, v1);
    assert_eq!(pos, b.len());
}

#[test]
fn round_trip_u8() {
    round_trip(0u8);
    round_trip(1u8);
    round_trip(0xFFu8);
}

#[test]
fn round_trip_u16() {
    round_trip(0u16);
    round_trip(1u16);
    round_trip(0xFFFFu16);
}

#[test]
fn round_trip_u32() {
    round_trip(0u32);
    round_trip(1u32);
    round_trip(0xFFFFFFFFu32);
}

#[test]
fn round_trip_u64() {
    round_trip(0u64);
    round_trip(1u64);
    round_trip(0xFFFFFFFFFFFFFFFFu64);
}

#[test]
fn round_trip_string() {
    round_trip("foo bar".to_string());
    round_trip("fnord".to_string());
    round_trip("".to_string());
    round_trip("na\u{ef}vet\u{e9} \u{1f600}".to_string());
}

#[test]
fn round_trip_vec_u16() {
    round_trip(vec![0xABCDu16, 0xDEFA]);
}

#[test]
fn round_trip_vec_qid() {
    round_trip(vec![Qid::new(FileType::Tmp, 0, 0)]);
    round_trip(vec![Qid::new(FileType::Tmp, 2, 3), Qid::new(FileType::Dir, 5, 6)]);
}

#[test]
fn round_trip_qid() {
    round_trip(Qid::new(FileType::File, 10, 0xF00CAFE));
}

#[test]
fn round_trip_stat() {
    round_trip(
        Stat::builder("name", Qid::new(FileType::Unknown(3), 4, 5))
            .with_size(1024)
            .with_uid("uid")
            .with_gid("gid")
            .with_muid("muid")
            .with_atime(10)
            .with_mtime(20)
            .with_nuid(500)
            .with_ngid(501)
            .with_nmuid(502)
            .with_extension("something")
            .build(),
    );
}

#[test]
fn round_trip_version() {
    round_trip::<Version>("9P2000".parse().unwrap());
    round_trip::<Version>("9P2000.L".parse().unwrap());
}

#[test]
fn round_trip_t_unknown() {
    round_trip(T::Unknown(0xFF, 0xABCD, vec![1, 2, 3, 4]));
}

#[test]
fn round_trip_t_version() {
    round_trip(T::Version(0xABCD, 1024, "9P2000.L".parse().unwrap()));
}

#[test]
fn round_trip_t_auth() {
    round_trip(T::Auth(0x1234, 1, "foo".to_string(), "bar".to_string(), 0));
}

#[test]
fn round_trip_t_attach() {
    round_trip(T::Attach(0x1234, 1, 2, "foo".to_string(), "bar".to_string(), 0));
}

#[test]
fn round_trip_t_flush() {
    round_trip(T::Flush(0x1234, 0x4321));
}

#[test]
fn round_trip_t_walk() {
    round_trip(T::Walk(0x1234, 1, 2, vec!["bin".to_string(), "bash".to_string()]));
}

#[test]
fn round_trip_t_open() {
    round_trip(T::Open(0x1234, 1, 2.into()));
}

#[test]
fn round_trip_t_create() {
    round_trip(T::Create(0x1234, 1, "foo".to_string(), 20, 21, "".to_string()));
}

#[test]
fn round_trip_t_read() {
    round_trip(T::Read(0x1234, 1, 2, 3));
}

#[test]
fn round_trip_t_write() {
    round_trip(T::Write(0x1234, 1, 2, vec![1, 2, 3, 4, 5, 6]));
}

#[test]
fn round_trip_t_clunk() {
    round_trip(T::Clunk(0x1234, 1));
}

#[test]
fn round_trip_t_remove() {
    round_trip(T::Remove(0x1234, 20));
}

#[test]
fn round_trip_t_stat() {
    round_trip(T::Stat(0x1234, 2));
}

#[test]
fn round_trip_t_wstat() {
    round_trip(
        T::WStat(0x1234, 2, Stat::builder("name", Qid::new(FileType::File, 4, 5)).build()),
    );
}

#[test]
fn round_trip_r_unknown() {
    round_trip(R::Unknown(0xFF, 0xABCD, vec![1, 2, 3, 4]));
}

#[test]
fn round_trip_r_version() {
    round_trip(R::Version(0xABCD, 1024, "9P2000.L".parse().unwrap()));
}

#[test]
fn round_trip_r_auth() {
    round_trip(R::Auth(0xDCBA, Qid::new(FileType::File, 1, 0xDEADBEEF)));
}

#[test]
fn round_trip_r_attach() {
    round_trip(R::Attach(0xDCBA, Qid::new(FileType::Dir, 10, 0xDEADBEEF)));
}

#[test]
fn round_trip_r_error() {
    round_trip(R::Error(0xDCBA, "oh shoot".to_string(), 0));
}

#[test]
fn round_trip_r_flush() {
    round_trip(R::Flush(0xDCBA));
}

#[test]
fn round_trip_r_walk() {
    round_trip(
        R::Walk(0x1234, vec![Qid::new(FileType::Excl, 3, 2), Qid::new(FileType::Unknown(42), 1, 0)]),
    );
}

#[test]
fn round_trip_r_open() {
    round_trip(R::Open(0x9876, Qid::new(FileType::File, 2, 3), 1024));
}

#[test]
fn round_trip_r_create() {
    round_trip(R::Create(0xA012, Qid::new(FileType::File, 2, 3), 1024));
}

#[test]
fn round_trip_r_read() {
    round_trip(R::Read(0xA012, vec![1, 2, 3, 4, 5]));
}

#[test]
fn round_trip_r_write() {
    round_trip(R::Write(0xA012, 42));
}

#[test]
fn round_trip_r_remove() {
    round_trip(R::Remove(0xA012));
}

#[test]
fn round_trip_r_stat() {
    round_trip(R::Stat(0xB012, Stat::builder("name", Qid::new(FileType::File, 4, 5)).build()));
}

#[test]
fn round_trip_r_wstat() {
    round_trip(R::WStat(0x0000));
}
