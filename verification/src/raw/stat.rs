//! The `Stat` directory-entry record and its codec. A stat is encoded by
//! first serializing its body into a scratch buffer, then emitting a
//! 16-bit byte count followed by the body; where a stat appears inside a
//! message it is wrapped in one more 16-bit count.

use super::numbers::{parse_u16, parse_u32, parse_u64, push_u16, push_u32, push_u64, wire_u16, wire_u32, wire_u64};
use super::protocol::{filetype_to_u32, filetype_to_u8, parse_qid, push_qid, wire_qid, FileType, Qid};
use super::string::{parse_str, wire_str, wire_str_ok, StringError};
use super::{Dehydrate, Hydrate};
use vstd::prelude::*;

verus! {

/// Stat: one directory entry, with the `9P2000.u` numeric id extension.
#[derive(PartialEq, Debug, Clone)]
pub struct Stat {
    /// Type.
    pub ty: u16,
    /// Device.
    pub dev: u32,
    /// Qid of the file.
    pub qid: Qid,
    /// File mode.
    pub mode: u32,
    /// Access time.
    pub atime: u32,
    /// Modified time.
    pub mtime: u32,
    /// File length.
    pub length: u64,
    /// Name of the file.
    pub name: String,
    /// User id that owns the file.
    pub uid: String,
    /// Group id that owns the file.
    pub gid: String,
    /// User id of the last person to modify the file.
    pub muid: String,
    /// Extra information on the file (like a link target).
    pub extension: String,
    /// Numerical user id.
    pub nuid: u32,
    /// Numerical group id.
    pub ngid: u32,
    /// Numerical last modifier id.
    pub nmuid: u32,
}

/// The abstract form of a stat, with strings as character sequences.
pub ghost struct StatView {
    /// Type.
    pub ty: u16,
    /// Device.
    pub dev: u32,
    /// Qid of the file.
    pub qid: Qid,
    /// File mode.
    pub mode: u32,
    /// Access time.
    pub atime: u32,
    /// Modified time.
    pub mtime: u32,
    /// File length.
    pub length: u64,
    /// Name of the file.
    pub name: Seq<char>,
    /// User id that owns the file.
    pub uid: Seq<char>,
    /// Group id that owns the file.
    pub gid: Seq<char>,
    /// User id of the last modifier.
    pub muid: Seq<char>,
    /// Extra information on the file.
    pub extension: Seq<char>,
    /// Numerical user id.
    pub nuid: u32,
    /// Numerical group id.
    pub ngid: u32,
    /// Numerical last modifier id.
    pub nmuid: u32,
}

impl DeepView for Stat {
    type V = StatView;

    open spec fn deep_view(&self) -> StatView {
        StatView {
            ty: self.ty,
            dev: self.dev,
            qid: self.qid,
            mode: self.mode,
            atime: self.atime,
            mtime: self.mtime,
            length: self.length,
            name: self.name@,
            uid: self.uid@,
            gid: self.gid@,
            muid: self.muid@,
            extension: self.extension@,
            nuid: self.nuid,
            ngid: self.ngid,
            nmuid: self.nmuid,
        }
    }
}

/// Error that can take place during a stat encode or decode.
#[derive(Debug, Clone, Copy, PartialEq, Eq, Structural)]
pub enum StatError {
    /// The record is larger than its 16-bit byte count can say.
    TooLarge,
    /// The input ended early, or the record did not match its announced
    /// byte count.
    Truncated,
    /// A string field failed to decode or encode.
    StringError(StringError),
}

/// The body of a stat on the wire: every field in order, strings
/// length-prefixed, without the leading byte count.
pub open spec fn wire_stat_body(m: StatView) -> Seq<u8> {
    wire_u16(m.ty) + wire_u32(m.dev) + wire_qid(m.qid) + wire_u32(m.mode) + wire_u32(m.atime)
        + wire_u32(m.mtime) + wire_u64(m.length) + wire_str(m.name) + wire_str(m.uid) + wire_str(
        m.gid,
    ) + wire_str(m.muid) + wire_str(m.extension) + wire_u32(m.nuid) + wire_u32(m.ngid) + wire_u32(
        m.nmuid,
    )
}

/// Encoding of a stat: a 16-bit byte count, then the body.
pub open spec fn wire_stat(m: StatView) -> Seq<u8> {
    wire_u16(wire_stat_body(m).len() as u16) + wire_stat_body(m)
}

/// A stat fits the wire format when each string does and the whole body
/// fits its 16-bit count.
pub open spec fn wire_stat_ok(m: StatView) -> bool {
    &&& wire_str_ok(m.name)
    &&& wire_str_ok(m.uid)
    &&& wire_str_ok(m.gid)
    &&& wire_str_ok(m.muid)
    &&& wire_str_ok(m.extension)
    &&& wire_stat_body(m).len() <= 0xFFFF
}

/// Decoding of the five strings and three numeric ids that end a stat
/// body, from offset 39 of the body onwards.
pub open spec fn parse_stat_tail(s: Seq<u8>) -> Option<
    ((Seq<char>, Seq<char>, Seq<char>, Seq<char>, Seq<char>, u32, u32, u32), int),
> {
    match parse_str(s) {
        None => None,
        Some((name, k1)) => match parse_str(s.skip(k1)) {
            None => None,
            Some((uid, k2)) => match parse_str(s.skip(k1 + k2)) {
                None => None,
                Some((gid, k3)) => match parse_str(s.skip(k1 + k2 + k3)) {
                    None => None,
                    Some((muid, k4)) => match parse_str(s.skip(k1 + k2 + k3 + k4)) {
                        None => None,
                        Some((extension, k5)) => {
                            let o = k1 + k2 + k3 + k4 + k5;
                            match parse_u32(s.skip(o)) {
                                None => None,
                                Some((nuid, _)) => match parse_u32(s.skip(o + 4)) {
                                    None => None,
                                    Some((ngid, _)) => match parse_u32(s.skip(o + 8)) {
                                        None => None,
                                        Some((nmuid, _)) => Some(
                                            (
                                                (name, uid, gid, muid, extension, nuid, ngid,
                                                nmuid),
                                                o + 12,
                                            ),
                                        ),
                                    },
                                },
                            }
                        },
                    },
                },
            },
        },
    }
}

/// Decoding of a stat body from the head of `s`: seven fixed-width
/// fields, then the tail of strings and numeric ids.
pub open spec fn parse_stat_body(s: Seq<u8>) -> Option<(StatView, int)> {
    match parse_u16(s) {
        None => None,
        Some((ty, _)) => match parse_u32(s.skip(2)) {
            None => None,
            Some((dev, _)) => match parse_qid(s.skip(6)) {
                None => None,
                Some((qid, _)) => match parse_u32(s.skip(19)) {
                    None => None,
                    Some((mode, _)) => match parse_u32(s.skip(23)) {
                        None => None,
                        Some((atime, _)) => match parse_u32(s.skip(27)) {
                            None => None,
                            Some((mtime, _)) => match parse_u64(s.skip(31)) {
                                None => None,
                                Some((length, _)) => match parse_stat_tail(s.skip(39)) {
                                    None => None,
                                    Some((t, k)) => Some(
                                        (
                                            StatView {
                                                ty,
                                                dev,
                                                qid,
                                                mode,
                                                atime,
                                                mtime,
                                                length,
                                                name: t.0,
                                                uid: t.1,
                                                gid: t.2,
                                                muid: t.3,
                                                extension: t.4,
                                                nuid: t.5,
                                                ngid: t.6,
                                                nmuid: t.7,
                                            },
                                            39 + k,
                                        ),
                                    ),
                                },
                            },
                        },
                    },
                },
            },
        },
    }
}

/// Decoding of a stat from the head of `s`: the byte count, then a body
/// that must occupy exactly that count.
pub open spec fn parse_stat(s: Seq<u8>) -> Option<(StatView, int)> {
    match parse_u16(s) {
        None => None,
        Some((sz, _)) => match parse_stat_body(s.skip(2)) {
            None => None,
            Some((m, k)) => if k == sz {
                Some((m, 2 + k))
            } else {
                None
            },
        },
    }
}

/// Builder-pattern to create a new [Stat].
#[derive(Debug, Clone)]
pub struct StatBuilder {
    ty: u16,
    dev: u32,
    qid: Qid,
    mode: u32,
    atime: u32,
    mtime: u32,
    length: u64,
    name: String,
    uid: String,
    gid: String,
    muid: String,
    extension: String,
    nuid: u32,
    ngid: u32,
    nmuid: u32,
}

impl DeepView for StatBuilder {
    type V = StatView;

    closed spec fn deep_view(&self) -> StatView {
        StatView {
            ty: self.ty,
            dev: self.dev,
            qid: self.qid,
            mode: self.mode,
            atime: self.atime,
            mtime: self.mtime,
            length: self.length,
            name: self.name@,
            uid: self.uid@,
            gid: self.gid@,
            muid: self.muid@,
            extension: self.extension@,
            nuid: self.nuid,
            ngid: self.ngid,
            nmuid: self.nmuid,
        }
    }
}

impl StatBuilder {
    /// Create a new StatBuilder: the given name and qid, everything else
    /// zero or empty.
    pub fn new(name: &str, qid: Qid) -> (r: StatBuilder)
        ensures
            r.deep_view() == (StatView {
                ty: 0,
                dev: 0,
                qid,
                mode: 0,
                atime: 0,
                mtime: 0,
                length: 0,
                name: name@,
                uid: Seq::<char>::empty(),
                gid: Seq::<char>::empty(),
                muid: Seq::<char>::empty(),
                extension: Seq::<char>::empty(),
                nuid: 0,
                ngid: 0,
                nmuid: 0,
            }),
    {
        StatBuilder {
            ty: 0,
            dev: 0,
            qid,
            mode: 0,
            atime: 0,
            mtime: 0,
            length: 0,
            name: name.to_owned(),
            uid: String::new(),
            gid: String::new(),
            muid: String::new(),
            extension: String::new(),
            nuid: 0,
            ngid: 0,
            nmuid: 0,
        }
    }

    /// Set the mode of the file.
    pub fn with_mode(self, mode: u32) -> (r: Self)
        ensures
            r.deep_view() == (StatView { mode, ..self.deep_view() }),
    {
        Self { mode, ..self }
    }

    /// Set the atime of the file.
    pub fn with_atime(self, atime: u32) -> (r: Self)
        ensures
            r.deep_view() == (StatView { atime, ..self.deep_view() }),
    {
        Self { atime, ..self }
    }

    /// Set the mtime of the file.
    pub fn with_mtime(self, mtime: u32) -> (r: Self)
        ensures
            r.deep_view() == (StatView { mtime, ..self.deep_view() }),
    {
        Self { mtime, ..self }
    }

    /// Set the size of the file.
    pub fn with_size(self, size: u64) -> (r: Self)
        ensures
            r.deep_view() == (StatView { length: size, ..self.deep_view() }),
    {
        Self { length: size, ..self }
    }

    /// Set the owner uid of the file.
    pub fn with_uid(self, uid: &str) -> (r: Self)
        ensures
            r.deep_view() == (StatView { uid: uid@, ..self.deep_view() }),
    {
        Self { uid: uid.to_owned(), ..self }
    }

    /// Set the owner gid of the file.
    pub fn with_gid(self, gid: &str) -> (r: Self)
        ensures
            r.deep_view() == (StatView { gid: gid@, ..self.deep_view() }),
    {
        Self { gid: gid.to_owned(), ..self }
    }

    /// Set the extension of a file.
    pub fn with_extension(self, ext: &str) -> (r: Self)
        ensures
            r.deep_view() == (StatView { extension: ext@, ..self.deep_view() }),
    {
        Self { extension: ext.to_owned(), ..self }
    }

    /// Set the uid of the last one to modify the file.
    pub fn with_muid(self, muid: &str) -> (r: Self)
        ensures
            r.deep_view() == (StatView { muid: muid@, ..self.deep_view() }),
    {
        Self { muid: muid.to_owned(), ..self }
    }

    /// Set the numerical uid of the file's owner.
    pub fn with_nuid(self, nuid: u32) -> (r: Self)
        ensures
            r.deep_view() == (StatView { nuid, ..self.deep_view() }),
    {
        Self { nuid, ..self }
    }

    /// Set the numerical gid of the file's group.
    pub fn with_ngid(self, ngid: u32) -> (r: Self)
        ensures
            r.deep_view() == (StatView { ngid, ..self.deep_view() }),
    {
        Self { ngid, ..self }
    }

    /// Set the numerical uid of the file's last modifier.
    pub fn with_nmuid(self, nmuid: u32) -> (r: Self)
        ensures
            r.deep_view() == (StatView { nmuid, ..self.deep_view() }),
    {
        Self { nmuid, ..self }
    }

    /// Build a [Stat]. The top byte of the mode is overwritten with the
    /// qid's file kind, so the two can never contradict each other.
    pub fn build(self) -> (r: Stat)
        ensures
            r.deep_view() == (StatView {
                mode: (self.deep_view().mode & 0x00FFFFFF) | filetype_to_u32(
                    self.deep_view().qid.ty,
                ),
                ..self.deep_view()
            }),
    {
        let qid_mode: u32 = self.qid.ty.into();
        let mode = self.mode & 0x00FFFFFF | qid_mode;
        Stat::new(
            self.ty,
            self.dev,
            self.qid,
            mode,
            self.atime,
            self.mtime,
            self.length,
            self.name,
            self.uid,
            self.gid,
            self.muid,
            self.extension,
            self.nuid,
            self.ngid,
            self.nmuid,
        )
    }
}

impl Stat {
    /// Create a new StatBuilder.
    pub fn builder(name: &str, qid: Qid) -> (r: StatBuilder)
        ensures
            r.deep_view() == (StatView {
                ty: 0,
                dev: 0,
                qid,
                mode: 0,
                atime: 0,
                mtime: 0,
                length: 0,
                name: name@,
                uid: Seq::<char>::empty(),
                gid: Seq::<char>::empty(),
                muid: Seq::<char>::empty(),
                extension: Seq::<char>::empty(),
                nuid: 0,
                ngid: 0,
                nmuid: 0,
            }),
    {
        StatBuilder::new(name, qid)
    }

    /// Create a new Stat object.
    ///
    /// This is an internal method only used by the [StatBuilder].
    fn new(
        ty: u16,
        dev: u32,
        qid: Qid,
        mode: u32,
        atime: u32,
        mtime: u32,
        length: u64,
        name: String,
        uid: String,
        gid: String,
        muid: String,
        extension: String,
        nuid: u32,
        ngid: u32,
        nmuid: u32,
    ) -> (r: Stat)
        ensures
            r.deep_view() == (StatView {
                ty,
                dev,
                qid,
                mode,
                atime,
                mtime,
                length,
                name: name@,
                uid: uid@,
                gid: gid@,
                muid: muid@,
                extension: extension@,
                nuid,
                ngid,
                nmuid,
            }),
    {
        Self {
            ty,
            dev,
            qid,
            mode,
            atime,
            mtime,
            length,
            name,
            uid,
            gid,
            muid,
            extension,
            nuid,
            ngid,
            nmuid,
        }
    }
}

impl Stat {
    /// A copy whose abstract form is the same.
    pub fn duplicate(&self) -> (r: Stat)
        ensures
            r.deep_view() == self.deep_view(),
    {
        Stat {
            ty: self.ty,
            dev: self.dev,
            qid: self.qid,
            mode: self.mode,
            atime: self.atime,
            mtime: self.mtime,
            length: self.length,
            name: self.name.clone(),
            uid: self.uid.clone(),
            gid: self.gid.clone(),
            muid: self.muid.clone(),
            extension: self.extension.clone(),
            nuid: self.nuid,
            ngid: self.ngid,
            nmuid: self.nmuid,
        }
    }
}

/// After building, the top byte of the stat's mode word is exactly the
/// qid type's high bits: the builder overwrites whatever mode was given.
pub proof fn lemma_stat_builder_mode(mode: u32, t: FileType)
    ensures
        ((mode & 0x00FFFFFF) | filetype_to_u32(t)) & 0xFF000000 == ((filetype_to_u8(t) as u32)
            << 24),
{
    let v = filetype_to_u8(t) as u32;
    let sp: u32 = match t {
        FileType::Device => 0x00800000u32,
        FileType::NamedPipe => 0x00200000u32,
        FileType::Socket => 0x00100000u32,
        _ => 0u32,
    };
    assert(((mode & 0x00FFFFFF) | ((v << 24) | sp)) & 0xFF000000 == v << 24) by (bit_vector)
        requires
            v <= 0xFF,
            sp == 0x00800000u32 || sp == 0x00200000u32 || sp == 0x00100000u32 || sp == 0u32,
    ;
}

/// Parsing an encoded stat body yields the encoded record, whatever
/// follows it, when the qid's file kind keeps its byte form.
/// Parsing an encoded stat tail (the five strings and three numeric
/// ids) yields the encoded values, whatever follows them.
#[verifier::rlimit(100)]
#[verifier::spinoff_prover]
proof fn lemma_stat_tail_round_trip(m: StatView, rest: Seq<u8>)
    requires
        wire_str_ok(m.name),
        wire_str_ok(m.uid),
        wire_str_ok(m.gid),
        wire_str_ok(m.muid),
        wire_str_ok(m.extension),
    ensures
        ({
            let t = wire_str(m.name) + wire_str(m.uid) + wire_str(m.gid) + wire_str(m.muid)
                + wire_str(m.extension) + wire_u32(m.nuid) + wire_u32(m.ngid) + wire_u32(m.nmuid);
            parse_stat_tail(t + rest) == Some(
                (
                    (m.name, m.uid, m.gid, m.muid, m.extension, m.nuid, m.ngid, m.nmuid),
                    t.len() as int,
                ),
            )
        }),
{
    vstd::bytes::lemma_auto_spec_u32_to_from_le_bytes();
    let w8 = wire_str(m.name);
    let w9 = wire_str(m.uid);
    let w10 = wire_str(m.gid);
    let w11 = wire_str(m.muid);
    let w12 = wire_str(m.extension);
    let w13 = wire_u32(m.nuid);
    let w14 = wire_u32(m.ngid);
    let w15 = wire_u32(m.nmuid);
    let k1 = w8.len() as int;
    let k2 = w9.len() as int;
    let k3 = w10.len() as int;
    let k4 = w11.len() as int;
    let k5 = w12.len() as int;
    let t = w8 + w9 + w10 + w11 + w12 + w13 + w14 + w15;
    let r15 = w15 + rest;
    let r14 = w14 + r15;
    let r13 = w13 + r14;
    let r12 = w12 + r13;
    let r11 = w11 + r12;
    let r10 = w10 + r11;
    let r9 = w9 + r10;
    let s = t + rest;
    assert(s =~= w8 + r9);
    super::string::lemma_str_round_trip(m.name, r9);
    assert(s.skip(k1) =~= r9);
    super::string::lemma_str_round_trip(m.uid, r10);
    assert(s.skip(k1 + k2) =~= r10);
    super::string::lemma_str_round_trip(m.gid, r11);
    assert(s.skip(k1 + k2 + k3) =~= r11);
    super::string::lemma_str_round_trip(m.muid, r12);
    assert(s.skip(k1 + k2 + k3 + k4) =~= r12);
    super::string::lemma_str_round_trip(m.extension, r13);
    assert(s.skip(k1 + k2 + k3 + k4 + k5) =~= r13);
    super::numbers::lemma_u32_round_trip(m.nuid, r14);
    assert(s.skip(k1 + k2 + k3 + k4 + k5 + 4) =~= r14);
    super::numbers::lemma_u32_round_trip(m.ngid, r15);
    assert(s.skip(k1 + k2 + k3 + k4 + k5 + 8) =~= r15);
    super::numbers::lemma_u32_round_trip(m.nmuid, rest);
    assert(t.len() == k1 + k2 + k3 + k4 + k5 + 12);
}

/// Parsing an encoded stat body yields the encoded record, whatever
/// follows it, when the qid's file kind keeps its byte form.
#[verifier::rlimit(100)]
#[verifier::spinoff_prover]
pub proof fn lemma_stat_body_round_trip(m: StatView, rest: Seq<u8>)
    requires
        wire_stat_ok(m),
        super::protocol::filetype_canonical(m.qid.ty),
    ensures
        parse_stat_body(wire_stat_body(m) + rest) == Some((m, wire_stat_body(m).len() as int)),
{
    vstd::bytes::lemma_auto_spec_u16_to_from_le_bytes();
    vstd::bytes::lemma_auto_spec_u32_to_from_le_bytes();
    vstd::bytes::lemma_auto_spec_u64_to_from_le_bytes();
    let w1 = wire_u16(m.ty);
    let w2 = wire_u32(m.dev);
    let w3 = wire_qid(m.qid);
    let w4 = wire_u32(m.mode);
    let w5 = wire_u32(m.atime);
    let w6 = wire_u32(m.mtime);
    let w7 = wire_u64(m.length);
    let t = wire_str(m.name) + wire_str(m.uid) + wire_str(m.gid) + wire_str(m.muid) + wire_str(
        m.extension,
    ) + wire_u32(m.nuid) + wire_u32(m.ngid) + wire_u32(m.nmuid);
    assert(w3.len() == 13);
    let r8 = t + rest;
    let r7 = w7 + r8;
    let r6 = w6 + r7;
    let r5 = w5 + r6;
    let r4 = w4 + r5;
    let r3 = w3 + r4;
    let r2 = w2 + r3;
    let s = wire_stat_body(m) + rest;
    assert(s =~= w1 + r2);
    super::numbers::lemma_u16_round_trip(m.ty, r2);
    assert(s.skip(2) =~= r2);
    super::numbers::lemma_u32_round_trip(m.dev, r3);
    assert(s.skip(6) =~= r3);
    super::protocol::lemma_qid_round_trip(m.qid, r4);
    assert(s.skip(19) =~= r4);
    super::numbers::lemma_u32_round_trip(m.mode, r5);
    assert(s.skip(23) =~= r5);
    super::numbers::lemma_u32_round_trip(m.atime, r6);
    assert(s.skip(27) =~= r6);
    super::numbers::lemma_u32_round_trip(m.mtime, r7);
    assert(s.skip(31) =~= r7);
    super::numbers::lemma_u64_round_trip(m.length, r8);
    assert(s.skip(39) =~= r8);
    lemma_stat_tail_round_trip(m, rest);
    assert(wire_stat_body(m).len() == 39 + t.len());
    assert(parse_stat_tail(s.skip(39)) == Some(
        (
            (m.name, m.uid, m.gid, m.muid, m.extension, m.nuid, m.ngid, m.nmuid),
            t.len() as int,
        ),
    ));
}

/// Parsing an encoded stat yields the encoded record, whatever follows
/// it, when the qid's file kind keeps its byte form.
pub proof fn lemma_stat_round_trip(m: StatView, rest: Seq<u8>)
    requires
        wire_stat_ok(m),
        super::protocol::filetype_canonical(m.qid.ty),
    ensures
        parse_stat(wire_stat(m) + rest) == Some((m, wire_stat(m).len() as int)),
{
    let body = wire_stat_body(m);
    let sz = body.len() as u16;
    let whole = wire_stat(m) + rest;
    assert(wire_u16(sz).len() == 2 && parse_u16(whole) == Some((sz, 2int))) by {
        vstd::bytes::lemma_auto_spec_u16_to_from_le_bytes();
        assert(whole =~= wire_u16(sz) + (body + rest));
        super::numbers::lemma_u16_round_trip(sz, body + rest);
    }
    assert(whole.skip(2) =~= body + rest);
    lemma_stat_body_round_trip(m, rest);
}

impl Hydrate for Stat {
    type Error = StatError;

    open spec fn parse(s: Seq<u8>) -> Option<(StatView, int)> {
        parse_stat(s)
    }

    #[verifier::rlimit(100)]
    #[verifier::spinoff_prover]
    fn hydrate(b: &[u8], pos: &mut usize) -> (r: Result<Stat, StatError>) {
        let ghost p0 = *pos;
        let sz = match u16::hydrate(b, pos) {
            Ok(sz) => sz,
            Err(_) => {
                return Err(StatError::Truncated);
            },
        };
        let bs = *pos;
        let ghost s0 = b@.skip(bs as int);
        assert(b@.skip(p0 as int).skip(2) =~= s0);
        let ty = match u16::hydrate(b, pos) {
            Ok(v) => v,
            Err(_) => {
                return Err(StatError::Truncated);
            },
        };
        assert(s0.skip(2) =~= b@.skip(bs + 2));
        let dev = match u32::hydrate(b, pos) {
            Ok(v) => v,
            Err(_) => {
                return Err(StatError::Truncated);
            },
        };
        assert(s0.skip(6) =~= b@.skip(bs + 6));
        let qid = match Qid::hydrate(b, pos) {
            Ok(v) => v,
            Err(_) => {
                return Err(StatError::Truncated);
            },
        };
        assert(s0.skip(19) =~= b@.skip(bs + 19));
        let mode = match u32::hydrate(b, pos) {
            Ok(v) => v,
            Err(_) => {
                return Err(StatError::Truncated);
            },
        };
        assert(s0.skip(23) =~= b@.skip(bs + 23));
        let atime = match u32::hydrate(b, pos) {
            Ok(v) => v,
            Err(_) => {
                return Err(StatError::Truncated);
            },
        };
        assert(s0.skip(27) =~= b@.skip(bs + 27));
        let mtime = match u32::hydrate(b, pos) {
            Ok(v) => v,
            Err(_) => {
                return Err(StatError::Truncated);
            },
        };
        assert(s0.skip(31) =~= b@.skip(bs + 31));
        let length = match u64::hydrate(b, pos) {
            Ok(v) => v,
            Err(_) => {
                return Err(StatError::Truncated);
            },
        };
        assert(s0.skip(39) =~= b@.skip(bs + 39));
        let ghost q0 = bs + 39;
        let ghost s8 = s0.skip(39);
        let name = match String::hydrate(b, pos) {
            Ok(v) => v,
            Err(e) => {
                return Err(StatError::StringError(e));
            },
        };
        let ghost k1 = *pos - q0;
        assert(s8.skip(k1 as int) =~= b@.skip(q0 + k1));
        let uid = match String::hydrate(b, pos) {
            Ok(v) => v,
            Err(e) => {
                return Err(StatError::StringError(e));
            },
        };
        let ghost k2 = *pos - q0 - k1;
        assert(s8.skip(k1 + k2 as int) =~= b@.skip(q0 + k1 + k2));
        let gid = match String::hydrate(b, pos) {
            Ok(v) => v,
            Err(e) => {
                return Err(StatError::StringError(e));
            },
        };
        let ghost k3 = *pos - q0 - k1 - k2;
        assert(s8.skip(k1 + k2 + k3 as int) =~= b@.skip(q0 + k1 + k2 + k3));
        let muid = match String::hydrate(b, pos) {
            Ok(v) => v,
            Err(e) => {
                return Err(StatError::StringError(e));
            },
        };
        let ghost k4 = *pos - q0 - k1 - k2 - k3;
        assert(s8.skip(k1 + k2 + k3 + k4 as int) =~= b@.skip(q0 + k1 + k2 + k3 + k4));
        let extension = match String::hydrate(b, pos) {
            Ok(v) => v,
            Err(e) => {
                return Err(StatError::StringError(e));
            },
        };
        let ghost k5 = *pos - q0 - k1 - k2 - k3 - k4;
        let ghost o = k1 + k2 + k3 + k4 + k5;
        assert(s8.skip(o as int) =~= b@.skip(q0 + o));
        let nuid = match u32::hydrate(b, pos) {
            Ok(v) => v,
            Err(_) => {
                return Err(StatError::Truncated);
            },
        };
        assert(s8.skip(o + 4 as int) =~= b@.skip(q0 + o + 4));
        let ngid = match u32::hydrate(b, pos) {
            Ok(v) => v,
            Err(_) => {
                return Err(StatError::Truncated);
            },
        };
        assert(s8.skip(o + 8 as int) =~= b@.skip(q0 + o + 8));
        let nmuid = match u32::hydrate(b, pos) {
            Ok(v) => v,
            Err(_) => {
                return Err(StatError::Truncated);
            },
        };
        if *pos - bs != sz as usize {
            return Err(StatError::Truncated);
        }
        Ok(
            Stat {
                ty,
                dev,
                qid,
                mode,
                atime,
                mtime,
                length,
                name,
                uid,
                gid,
                muid,
                extension,
                nuid,
                ngid,
                nmuid,
            },
        )
    }
}

impl Dehydrate for Stat {
    type Error = StatError;

    open spec fn wire(m: StatView) -> Seq<u8> {
        wire_stat(m)
    }

    open spec fn wire_ok(m: StatView) -> bool {
        wire_stat_ok(m)
    }

    fn dehydrate(&self, b: &mut Vec<u8>) -> (r: Result<(), StatError>) {
        let ghost b0 = b@;
        let mut tmp: Vec<u8> = Vec::new();
        push_u16(&mut tmp, self.ty);
        push_u32(&mut tmp, self.dev);
        push_qid(&mut tmp, &self.qid);
        push_u32(&mut tmp, self.mode);
        push_u32(&mut tmp, self.atime);
        push_u32(&mut tmp, self.mtime);
        push_u64(&mut tmp, self.length);
        match self.name.dehydrate(&mut tmp) {
            Ok(_) => {},
            Err(e) => {
                return Err(StatError::StringError(e));
            },
        }
        match self.uid.dehydrate(&mut tmp) {
            Ok(_) => {},
            Err(e) => {
                return Err(StatError::StringError(e));
            },
        }
        match self.gid.dehydrate(&mut tmp) {
            Ok(_) => {},
            Err(e) => {
                return Err(StatError::StringError(e));
            },
        }
        match self.muid.dehydrate(&mut tmp) {
            Ok(_) => {},
            Err(e) => {
                return Err(StatError::StringError(e));
            },
        }
        match self.extension.dehydrate(&mut tmp) {
            Ok(_) => {},
            Err(e) => {
                return Err(StatError::StringError(e));
            },
        }
        push_u32(&mut tmp, self.nuid);
        push_u32(&mut tmp, self.ngid);
        push_u32(&mut tmp, self.nmuid);
        assert(tmp@ =~= wire_stat_body(self.deep_view()));
        if tmp.len() > 0xFFFF {
            return Err(StatError::TooLarge);
        }
        let len: u16 = tmp.len() as u16;
        push_u16(b, len);
        b.append(&mut tmp);
        assert(b@ =~= b0 + wire_stat(self.deep_view()));
        Ok(())
    }
}

} // verus!
