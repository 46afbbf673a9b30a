//! T messages: the requests a client sends to a server, with their wire
//! codec.

use super::numbers::{parse_u16, parse_u32, parse_u64, parse_u8, push_u16, push_u32, push_u64, push_u8, wire_u16, wire_u32, wire_u64, wire_u8};
use super::protocol::{parse_openmode, wire_openmode, Fid, OpenMode, Tag, Type};
use super::stat::{parse_stat, wire_stat, wire_stat_ok, Stat, StatError, StatView};
use super::string::{parse_str, wire_str, wire_str_ok, StringError};
use super::vec::{parse_seq, wire_seq, wire_seq_ok, SliceError};
use super::version::{parse_version, version_wf, wire_version, wire_version_ok, Version, VersionError, VersionView};
use super::{Dehydrate, Hydrate};
use vstd::prelude::*;
use vstd::slice::{slice_subrange, slice_to_vec};

verus! {

/// Error decoding or encoding a T message.
#[derive(Debug)]
pub enum TError {
    /// A count does not fit its width on the wire.
    TooLong,
    /// The input ended before the message was complete.
    Truncated,
    /// A string failed to decode or encode.
    StringError(StringError),
    /// The version text failed to negotiate its shape.
    VersionError(VersionError),
    /// A stat record failed to decode or encode.
    StatError(StatError),
}

impl From<StringError> for TError {
    fn from(se: StringError) -> (r: Self) {
        match se {
            StringError::Truncated => Self::Truncated,
            _ => Self::StringError(se),
        }
    }
}

impl vstd::std_specs::convert::FromSpecImpl<StringError> for TError {
    open spec fn obeys_from_spec() -> bool {
        true
    }

    open spec fn from_spec(se: StringError) -> TError {
        match se {
            StringError::Truncated => TError::Truncated,
            _ => TError::StringError(se),
        }
    }
}

impl From<SliceError<StringError>> for TError {
    fn from(se: SliceError<StringError>) -> (r: Self) {
        match se {
            SliceError::TooLong => Self::TooLong,
            SliceError::Truncated => Self::Truncated,
            SliceError::Inner(e) => Self::from(e),
        }
    }
}

impl vstd::std_specs::convert::FromSpecImpl<SliceError<StringError>> for TError {
    open spec fn obeys_from_spec() -> bool {
        true
    }

    open spec fn from_spec(se: SliceError<StringError>) -> TError {
        match se {
            SliceError::TooLong => TError::TooLong,
            SliceError::Truncated => TError::Truncated,
            SliceError::Inner(e) => <TError as vstd::std_specs::convert::FromSpec<StringError>>::from_spec(e),
        }
    }
}

impl From<VersionError> for TError {
    fn from(ve: VersionError) -> (r: Self) {
        match ve {
            VersionError::StringError(se) => TError::from(se),
            _ => Self::VersionError(ve),
        }
    }
}

impl vstd::std_specs::convert::FromSpecImpl<VersionError> for TError {
    open spec fn obeys_from_spec() -> bool {
        true
    }

    open spec fn from_spec(ve: VersionError) -> TError {
        match ve {
            VersionError::StringError(se) => <TError as vstd::std_specs::convert::FromSpec<StringError>>::from_spec(se),
            _ => TError::VersionError(ve),
        }
    }
}

impl From<StatError> for TError {
    fn from(se: StatError) -> (r: Self) {
        Self::StatError(se)
    }
}

impl vstd::std_specs::convert::FromSpecImpl<StatError> for TError {
    open spec fn obeys_from_spec() -> bool {
        true
    }

    open spec fn from_spec(se: StatError) -> TError {
        TError::StatError(se)
    }
}

/// T messages are client-to-server messages. This is `9P2000.u`, *not*
/// `9P2000`.
#[derive(Debug, PartialEq, Clone)]
pub enum T {
    /// Unknown is constructed when the type is unknown or unexpected.
    Unknown(Type, Tag, Vec<u8>),
    /// Negotiate the protocol version and message size.
    Version(Tag, u32, Version),
    /// Begin authentication.
    Auth(Tag, Fid, String, String, u32),
    /// Attach to a filesystem tree.
    Attach(Tag, Fid, Fid, String, String, u32),
    /// Abort an outstanding request.
    Flush(Tag, Tag),
    /// Walk from a fid to a path below it, binding a new fid.
    Walk(Tag, Fid, Fid, Vec<String>),
    /// Open a fid's file.
    Open(Tag, Fid, OpenMode),
    /// Create a file under a fid's directory.
    Create(Tag, Fid, String, u32, u8, String),
    /// Read from an open fid.
    Read(Tag, Fid, u64, u32),
    /// Write to an open fid.
    Write(Tag, Fid, u64, Vec<u8>),
    /// Release a fid.
    Clunk(Tag, Fid),
    /// Remove a fid's file and release the fid.
    Remove(Tag, Fid),
    /// Ask for a file's directory entry.
    Stat(Tag, Fid),
    /// Rewrite a file's directory entry.
    WStat(Tag, Fid, Stat),
}

/// The abstract form of a T message.
pub ghost enum TView {
    /// An unrecognised type byte with its tag and raw payload.
    Unknown(u8, u16, Seq<u8>),
    /// Version negotiation.
    Version(u16, u32, VersionView),
    /// Authentication request.
    Auth(u16, u32, Seq<char>, Seq<char>, u32),
    /// Attach request.
    Attach(u16, u32, u32, Seq<char>, Seq<char>, u32),
    /// Flush request.
    Flush(u16, u16),
    /// Walk request.
    Walk(u16, u32, u32, Seq<Seq<char>>),
    /// Open request.
    Open(u16, u32, OpenMode),
    /// Create request.
    Create(u16, u32, Seq<char>, u32, u8, Seq<char>),
    /// Read request.
    Read(u16, u32, u64, u32),
    /// Write request.
    Write(u16, u32, u64, Seq<u8>),
    /// Clunk request.
    Clunk(u16, u32),
    /// Remove request.
    Remove(u16, u32),
    /// Stat request.
    Stat(u16, u32),
    /// WStat request.
    WStat(u16, u32, StatView),
}

impl DeepView for T {
    type V = TView;

    open spec fn deep_view(&self) -> TView {
        match self {
            T::Unknown(ty, tag, buf) => TView::Unknown(*ty, *tag, buf.deep_view()),
            T::Version(tag, msize, v) => TView::Version(*tag, *msize, v.deep_view()),
            T::Auth(tag, afid, uname, aname, nuname) => TView::Auth(
                *tag,
                *afid,
                uname@,
                aname@,
                *nuname,
            ),
            T::Attach(tag, fid, afid, uname, aname, nuname) => TView::Attach(
                *tag,
                *fid,
                *afid,
                uname@,
                aname@,
                *nuname,
            ),
            T::Flush(tag, oldtag) => TView::Flush(*tag, *oldtag),
            T::Walk(tag, fid, newfid, names) => TView::Walk(
                *tag,
                *fid,
                *newfid,
                names.deep_view(),
            ),
            T::Open(tag, fid, mode) => TView::Open(*tag, *fid, *mode),
            T::Create(tag, fid, name, perm, mode, ext) => TView::Create(
                *tag,
                *fid,
                name@,
                *perm,
                *mode,
                ext@,
            ),
            T::Read(tag, fid, offset, count) => TView::Read(*tag, *fid, *offset, *count),
            T::Write(tag, fid, offset, data) => TView::Write(*tag, *fid, *offset, data.deep_view()),
            T::Clunk(tag, fid) => TView::Clunk(*tag, *fid),
            T::Remove(tag, fid) => TView::Remove(*tag, *fid),
            T::Stat(tag, fid) => TView::Stat(*tag, *fid),
            T::WStat(tag, fid, stat) => TView::WStat(*tag, *fid, stat.deep_view()),
        }
    }
}

/// The tag of a T message's abstract form.
pub open spec fn t_tag(m: TView) -> u16 {
    match m {
        TView::Unknown(_, tag, _) => tag,
        TView::Version(tag, _, _) => tag,
        TView::Auth(tag, _, _, _, _) => tag,
        TView::Attach(tag, _, _, _, _, _) => tag,
        TView::Flush(tag, _) => tag,
        TView::Walk(tag, _, _, _) => tag,
        TView::Open(tag, _, _) => tag,
        TView::Create(tag, _, _, _, _, _) => tag,
        TView::Read(tag, _, _, _) => tag,
        TView::Write(tag, _, _, _) => tag,
        TView::Clunk(tag, _) => tag,
        TView::Remove(tag, _) => tag,
        TView::Stat(tag, _) => tag,
        TView::WStat(tag, _, _) => tag,
    }
}

impl T {
    /// The tag that matches this request to its reply.
    pub fn tag(&self) -> (r: Tag)
        ensures
            r == t_tag(self.deep_view()),
    {
        match self {
            T::Version(tag, _, _) => *tag,
            T::Attach(tag, _, _, _, _, _) => *tag,
            T::Flush(tag, _) => *tag,
            T::Auth(tag, _, _, _, _) => *tag,
            T::Walk(tag, _, _, _) => *tag,
            T::Open(tag, _, _) => *tag,
            T::Create(tag, _, _, _, _, _) => *tag,
            T::Read(tag, _, _, _) => *tag,
            T::Write(tag, _, _, _) => *tag,
            T::Clunk(tag, _) => *tag,
            T::Remove(tag, _) => *tag,
            T::Stat(tag, _) => *tag,
            T::WStat(tag, _, _) => *tag,
            T::Unknown(_, tag, _) => *tag,
        }
    }
}

impl T {
    /// A copy whose abstract form is the same.
    pub fn duplicate(&self) -> (r: T)
        ensures
            r.deep_view() == self.deep_view(),
    {
        broadcast use vstd::std_specs::vec::group_vec_axioms;

        match self {
            T::Unknown(ty, tag, buf) => T::Unknown(*ty, *tag, buf.clone()),
            T::Version(tag, msize, v) => T::Version(*tag, *msize, v.duplicate()),
            T::Auth(tag, afid, uname, aname, nuname) => T::Auth(
                *tag,
                *afid,
                uname.clone(),
                aname.clone(),
                *nuname,
            ),
            T::Attach(tag, fid, afid, uname, aname, nuname) => T::Attach(
                *tag,
                *fid,
                *afid,
                uname.clone(),
                aname.clone(),
                *nuname,
            ),
            T::Flush(tag, oldtag) => T::Flush(*tag, *oldtag),
            T::Walk(tag, fid, newfid, names) => T::Walk(*tag, *fid, *newfid, names.clone()),
            T::Open(tag, fid, mode) => T::Open(*tag, *fid, *mode),
            T::Create(tag, fid, name, perm, mode, ext) => T::Create(
                *tag,
                *fid,
                name.clone(),
                *perm,
                *mode,
                ext.clone(),
            ),
            T::Read(tag, fid, offset, count) => T::Read(*tag, *fid, *offset, *count),
            T::Write(tag, fid, offset, data) => T::Write(*tag, *fid, *offset, data.clone()),
            T::Clunk(tag, fid) => T::Clunk(*tag, *fid),
            T::Remove(tag, fid) => T::Remove(*tag, *fid),
            T::Stat(tag, fid) => T::Stat(*tag, *fid),
            T::WStat(tag, fid, stat) => T::WStat(*tag, *fid, stat.duplicate()),
        }
    }
}

/// Type byte of a version request.
pub const TYPE_TVERSION: Type = 100;

/// Type byte of an auth request.
pub const TYPE_TAUTH: Type = 102;

/// Type byte of an attach request.
pub const TYPE_TATTACH: Type = 104;

/// Type byte of a flush request.
pub const TYPE_TFLUSH: Type = 108;

/// Type byte of a walk request.
pub const TYPE_TWALK: Type = 110;

/// Type byte of an open request.
pub const TYPE_TOPEN: Type = 112;

/// Type byte of a create request.
pub const TYPE_TCREATE: Type = 114;

/// Type byte of a read request.
pub const TYPE_TREAD: Type = 116;

/// Type byte of a write request.
pub const TYPE_TWRITE: Type = 118;

/// Type byte of a clunk request.
pub const TYPE_TCLUNK: Type = 120;

/// Type byte of a remove request.
pub const TYPE_TREMOVE: Type = 122;

/// Type byte of a stat request.
pub const TYPE_TSTAT: Type = 124;

/// Type byte of a wstat request.
pub const TYPE_TWSTAT: Type = 126;

/// Whether a type byte names a known T message.
pub open spec fn is_t_code(c: u8) -> bool {
    c == TYPE_TVERSION || c == TYPE_TAUTH || c == TYPE_TATTACH || c == TYPE_TFLUSH || c
        == TYPE_TWALK || c == TYPE_TOPEN || c == TYPE_TCREATE || c == TYPE_TREAD || c == TYPE_TWRITE
        || c == TYPE_TCLUNK || c == TYPE_TREMOVE || c == TYPE_TSTAT || c == TYPE_TWSTAT
}

/// Encoding of a T message: type byte, tag, then the payload of its
/// variant.
pub open spec fn wire_t(m: TView) -> Seq<u8> {
    match m {
        TView::Unknown(ty, tag, buf) => wire_u8(ty) + wire_u16(tag) + buf,
        TView::Version(tag, msize, v) => wire_u8(TYPE_TVERSION) + wire_u16(tag) + wire_u32(msize)
            + wire_version(v),
        TView::Auth(tag, afid, uname, aname, nuname) => wire_u8(TYPE_TAUTH) + wire_u16(tag)
            + wire_u32(afid) + wire_str(uname) + wire_str(aname) + wire_u32(nuname),
        TView::Attach(tag, fid, afid, uname, aname, nuname) => wire_u8(TYPE_TATTACH) + wire_u16(
            tag,
        ) + wire_u32(fid) + wire_u32(afid) + wire_str(uname) + wire_str(aname) + wire_u32(nuname),
        TView::Flush(tag, oldtag) => wire_u8(TYPE_TFLUSH) + wire_u16(tag) + wire_u16(oldtag),
        TView::Walk(tag, fid, newfid, names) => wire_u8(TYPE_TWALK) + wire_u16(tag) + wire_u32(fid)
            + wire_u32(newfid) + wire_seq::<String>(names),
        TView::Open(tag, fid, mode) => wire_u8(TYPE_TOPEN) + wire_u16(tag) + wire_u32(fid)
            + wire_openmode(mode),
        TView::Create(tag, fid, name, perm, mode, ext) => wire_u8(TYPE_TCREATE) + wire_u16(tag)
            + wire_u32(fid) + wire_str(name) + wire_u32(perm) + wire_u8(mode) + wire_str(ext),
        TView::Read(tag, fid, offset, count) => wire_u8(TYPE_TREAD) + wire_u16(tag) + wire_u32(fid)
            + wire_u64(offset) + wire_u32(count),
        TView::Write(tag, fid, offset, data) => wire_u8(TYPE_TWRITE) + wire_u16(tag) + wire_u32(
            fid,
        ) + wire_u64(offset) + wire_u32(data.len() as u32) + data,
        TView::Clunk(tag, fid) => wire_u8(TYPE_TCLUNK) + wire_u16(tag) + wire_u32(fid),
        TView::Remove(tag, fid) => wire_u8(TYPE_TREMOVE) + wire_u16(tag) + wire_u32(fid),
        TView::Stat(tag, fid) => wire_u8(TYPE_TSTAT) + wire_u16(tag) + wire_u32(fid),
        TView::WStat(tag, fid, st) => wire_u8(TYPE_TWSTAT) + wire_u16(tag) + wire_u32(fid)
            + wire_u16(wire_stat(st).len() as u16) + wire_stat(st),
    }
}

/// Whether a T message fits its wire format's length fields.
pub open spec fn wire_t_ok(m: TView) -> bool {
    match m {
        TView::Unknown(_, _, _) => true,
        TView::Version(_, _, v) => wire_version_ok(v),
        TView::Auth(_, _, uname, aname, _) => wire_str_ok(uname) && wire_str_ok(aname),
        TView::Attach(_, _, _, uname, aname, _) => wire_str_ok(uname) && wire_str_ok(aname),
        TView::Flush(_, _) => true,
        TView::Walk(_, _, _, names) => wire_seq_ok::<String>(names),
        TView::Open(_, _, _) => true,
        TView::Create(_, _, name, _, _, ext) => wire_str_ok(name) && wire_str_ok(ext),
        TView::Read(_, _, _, _) => true,
        TView::Write(_, _, _, data) => data.len() <= 0xFFFFFFFF,
        TView::Clunk(_, _) => true,
        TView::Remove(_, _) => true,
        TView::Stat(_, _) => true,
        TView::WStat(_, _, st) => wire_stat_ok(st) && wire_stat(st).len() <= 0xFFFF,
    }
}

/// The conditions under which a T message's encoding parses back to the
/// same message: a version's id must have no dot, a stat's qid kind must
/// keep its byte form, and an unknown type byte must really be unknown.
pub open spec fn t_invertible(m: TView) -> bool {
    match m {
        TView::Version(_, _, v) => version_wf(v),
        TView::WStat(_, _, st) => super::protocol::filetype_canonical(st.qid.ty),
        TView::Unknown(c, _, _) => !is_t_code(c),
        _ => true,
    }
}

/// Decoding of a version request payload.
pub open spec fn parse_t_version(tag: u16, p: Seq<u8>) -> Option<(TView, int)> {
    match parse_u32(p) {
        None => None,
        Some((msize, _)) => match parse_version(p.skip(4)) {
            None => None,
            Some((v, k)) => Some((TView::Version(tag, msize, v), 4 + k)),
        },
    }
}

/// Decoding of an auth request payload.
pub open spec fn parse_t_auth(tag: u16, p: Seq<u8>) -> Option<(TView, int)> {
    match parse_u32(p) {
        None => None,
        Some((afid, _)) => match parse_str(p.skip(4)) {
            None => None,
            Some((uname, k1)) => match parse_str(p.skip(4 + k1)) {
                None => None,
                Some((aname, k2)) => match parse_u32(p.skip(4 + k1 + k2)) {
                    None => None,
                    Some((nuname, _)) => Some(
                        (TView::Auth(tag, afid, uname, aname, nuname), 8 + k1 + k2),
                    ),
                },
            },
        },
    }
}

/// Decoding of an attach request payload.
pub open spec fn parse_t_attach(tag: u16, p: Seq<u8>) -> Option<(TView, int)> {
    match parse_u32(p) {
        None => None,
        Some((fid, _)) => match parse_u32(p.skip(4)) {
            None => None,
            Some((afid, _)) => match parse_str(p.skip(8)) {
                None => None,
                Some((uname, k1)) => match parse_str(p.skip(8 + k1)) {
                    None => None,
                    Some((aname, k2)) => match parse_u32(p.skip(8 + k1 + k2)) {
                        None => None,
                        Some((nuname, _)) => Some(
                            (TView::Attach(tag, fid, afid, uname, aname, nuname), 12 + k1 + k2),
                        ),
                    },
                },
            },
        },
    }
}

/// Decoding of a flush request payload.
pub open spec fn parse_t_flush(tag: u16, p: Seq<u8>) -> Option<(TView, int)> {
    match parse_u16(p) {
        None => None,
        Some((oldtag, _)) => Some((TView::Flush(tag, oldtag), 2int)),
    }
}

/// Decoding of a walk request payload.
pub open spec fn parse_t_walk(tag: u16, p: Seq<u8>) -> Option<(TView, int)> {
    match parse_u32(p) {
        None => None,
        Some((fid, _)) => match parse_u32(p.skip(4)) {
            None => None,
            Some((newfid, _)) => match parse_seq::<String>(p.skip(8)) {
                None => None,
                Some((names, k)) => Some((TView::Walk(tag, fid, newfid, names), 8 + k)),
            },
        },
    }
}

/// Decoding of an open request payload.
pub open spec fn parse_t_open(tag: u16, p: Seq<u8>) -> Option<(TView, int)> {
    match parse_u32(p) {
        None => None,
        Some((fid, _)) => match parse_openmode(p.skip(4)) {
            None => None,
            Some((mode, _)) => Some((TView::Open(tag, fid, mode), 5int)),
        },
    }
}

/// Decoding of a create request payload.
pub open spec fn parse_t_create(tag: u16, p: Seq<u8>) -> Option<(TView, int)> {
    match parse_u32(p) {
        None => None,
        Some((fid, _)) => match parse_str(p.skip(4)) {
            None => None,
            Some((name, k1)) => match parse_u32(p.skip(4 + k1)) {
                None => None,
                Some((perm, _)) => match parse_u8(p.skip(8 + k1)) {
                    None => None,
                    Some((mode, _)) => match parse_str(p.skip(9 + k1)) {
                        None => None,
                        Some((ext, k2)) => Some(
                            (TView::Create(tag, fid, name, perm, mode, ext), 9 + k1 + k2),
                        ),
                    },
                },
            },
        },
    }
}

/// Decoding of a read request payload.
pub open spec fn parse_t_read(tag: u16, p: Seq<u8>) -> Option<(TView, int)> {
    match parse_u32(p) {
        None => None,
        Some((fid, _)) => match parse_u64(p.skip(4)) {
            None => None,
            Some((offset, _)) => match parse_u32(p.skip(12)) {
                None => None,
                Some((count, _)) => Some((TView::Read(tag, fid, offset, count), 16int)),
            },
        },
    }
}

/// Decoding of a write request payload: the byte count is 32 bits wide,
/// unlike the 16-bit count of the generic sequence format.
pub open spec fn parse_t_write(tag: u16, p: Seq<u8>) -> Option<(TView, int)> {
    match parse_u32(p) {
        None => None,
        Some((fid, _)) => match parse_u64(p.skip(4)) {
            None => None,
            Some((offset, _)) => match parse_u32(p.skip(12)) {
                None => None,
                Some((count, _)) => {
                    if p.len() >= 16 + count {
                        Some(
                            (
                                TView::Write(tag, fid, offset, p.subrange(16, 16 + count)),
                                16 + count,
                            ),
                        )
                    } else {
                        None
                    }
                },
            },
        },
    }
}

/// Decoding of a clunk request payload.
pub open spec fn parse_t_clunk(tag: u16, p: Seq<u8>) -> Option<(TView, int)> {
    match parse_u32(p) {
        None => None,
        Some((fid, _)) => Some((TView::Clunk(tag, fid), 4int)),
    }
}

/// Decoding of a remove request payload.
pub open spec fn parse_t_remove(tag: u16, p: Seq<u8>) -> Option<(TView, int)> {
    match parse_u32(p) {
        None => None,
        Some((fid, _)) => Some((TView::Remove(tag, fid), 4int)),
    }
}

/// Decoding of a stat request payload.
pub open spec fn parse_t_stat(tag: u16, p: Seq<u8>) -> Option<(TView, int)> {
    match parse_u32(p) {
        None => None,
        Some((fid, _)) => Some((TView::Stat(tag, fid), 4int)),
    }
}

/// Decoding of a wstat request payload: the stat record is wrapped in
/// one more 16-bit byte count, and anything after the record within that
/// count is ignored.
pub open spec fn parse_t_wstat(tag: u16, p: Seq<u8>) -> Option<(TView, int)> {
    match parse_u32(p) {
        None => None,
        Some((fid, _)) => match parse_u16(p.skip(4)) {
            None => None,
            Some((osz, _)) => {
                if p.len() >= 6 + osz {
                    match parse_stat(p.subrange(6, 6 + osz)) {
                        None => None,
                        Some((st, _)) => Some((TView::WStat(tag, fid, st), 6 + osz)),
                    }
                } else {
                    None
                }
            },
        },
    }
}

/// Decoding of a payload with an unrecognised type byte: the rest of the
/// input, kept raw.
pub open spec fn parse_t_unknown(code: u8, tag: u16, p: Seq<u8>) -> Option<(TView, int)> {
    Some((TView::Unknown(code, tag, p), p.len() as int))
}

/// Decoding of a T message payload, by type byte.
pub open spec fn parse_t_payload(code: u8, tag: u16, p: Seq<u8>) -> Option<(TView, int)> {
    if code == TYPE_TVERSION {
        parse_t_version(tag, p)
    } else if code == TYPE_TAUTH {
        parse_t_auth(tag, p)
    } else if code == TYPE_TATTACH {
        parse_t_attach(tag, p)
    } else if code == TYPE_TFLUSH {
        parse_t_flush(tag, p)
    } else if code == TYPE_TWALK {
        parse_t_walk(tag, p)
    } else if code == TYPE_TOPEN {
        parse_t_open(tag, p)
    } else if code == TYPE_TCREATE {
        parse_t_create(tag, p)
    } else if code == TYPE_TREAD {
        parse_t_read(tag, p)
    } else if code == TYPE_TWRITE {
        parse_t_write(tag, p)
    } else if code == TYPE_TCLUNK {
        parse_t_clunk(tag, p)
    } else if code == TYPE_TREMOVE {
        parse_t_remove(tag, p)
    } else if code == TYPE_TSTAT {
        parse_t_stat(tag, p)
    } else if code == TYPE_TWSTAT {
        parse_t_wstat(tag, p)
    } else {
        parse_t_unknown(code, tag, p)
    }
}

/// Decoding of a T message from the head of `s`: type byte, tag, then
/// the payload of that type. An unrecognised type byte consumes the
/// whole input as an `Unknown` message.
pub open spec fn parse_t(s: Seq<u8>) -> Option<(TView, int)> {
    match parse_u8(s) {
        None => None,
        Some((code, _)) => match parse_u16(s.skip(1)) {
            None => None,
            Some((tag, _)) => match parse_t_payload(code, tag, s.skip(3)) {
                None => None,
                Some((m, k)) => Some((m, 3 + k)),
            },
        },
    }
}

/// The contract every payload reader meets: it returns exactly what the
/// corresponding payload parse names, advancing the cursor past it.
fn hydrate_t_version(b: &[u8], pos: &mut usize, tag: Tag) -> (r: Result<T, TError>)
    requires
        *old(pos) <= b@.len(),
    ensures
        match parse_t_version(tag, b@.skip(*old(pos) as int)) {
            Some((m, n)) => {
                &&& r matches Ok(v) && v.deep_view() == m
                &&& *final(pos) == *old(pos) + n
                &&& *old(pos) <= *final(pos) <= b@.len()
            },
            None => r is Err,
        },
{
    let ghost q = *pos;
    let ghost p = b@.skip(q as int);
    let msize = match u32::hydrate(b, pos) {
        Ok(v) => v,
        Err(_) => {
            return Err(TError::Truncated);
        },
    };
    assert(p.skip(4) =~= b@.skip(q + 4));
    let version = match Version::hydrate(b, pos) {
        Ok(v) => v,
        Err(e) => {
            return Err(TError::from(e));
        },
    };
    Ok(T::Version(tag, msize, version))
}

fn hydrate_t_auth(b: &[u8], pos: &mut usize, tag: Tag) -> (r: Result<T, TError>)
    requires
        *old(pos) <= b@.len(),
    ensures
        match parse_t_auth(tag, b@.skip(*old(pos) as int)) {
            Some((m, n)) => {
                &&& r matches Ok(v) && v.deep_view() == m
                &&& *final(pos) == *old(pos) + n
                &&& *old(pos) <= *final(pos) <= b@.len()
            },
            None => r is Err,
        },
{
    let ghost q = *pos;
    let ghost p = b@.skip(q as int);
    let afid = match u32::hydrate(b, pos) {
        Ok(v) => v,
        Err(_) => {
            return Err(TError::Truncated);
        },
    };
    assert(p.skip(4) =~= b@.skip(q + 4));
    let uname = match String::hydrate(b, pos) {
        Ok(v) => v,
        Err(e) => {
            return Err(TError::from(e));
        },
    };
    let ghost k1 = *pos - q - 4;
    assert(p.skip(4 + k1 as int) =~= b@.skip(q + 4 + k1));
    let aname = match String::hydrate(b, pos) {
        Ok(v) => v,
        Err(e) => {
            return Err(TError::from(e));
        },
    };
    let ghost k2 = *pos - q - 4 - k1;
    assert(p.skip(4 + k1 + k2 as int) =~= b@.skip(q + 4 + k1 + k2));
    let nuname = match u32::hydrate(b, pos) {
        Ok(v) => v,
        Err(_) => {
            return Err(TError::Truncated);
        },
    };
    Ok(T::Auth(tag, afid, uname, aname, nuname))
}

fn hydrate_t_attach(b: &[u8], pos: &mut usize, tag: Tag) -> (r: Result<T, TError>)
    requires
        *old(pos) <= b@.len(),
    ensures
        match parse_t_attach(tag, b@.skip(*old(pos) as int)) {
            Some((m, n)) => {
                &&& r matches Ok(v) && v.deep_view() == m
                &&& *final(pos) == *old(pos) + n
                &&& *old(pos) <= *final(pos) <= b@.len()
            },
            None => r is Err,
        },
{
    let ghost q = *pos;
    let ghost p = b@.skip(q as int);
    let fid = match u32::hydrate(b, pos) {
        Ok(v) => v,
        Err(_) => {
            return Err(TError::Truncated);
        },
    };
    assert(p.skip(4) =~= b@.skip(q + 4));
    let afid = match u32::hydrate(b, pos) {
        Ok(v) => v,
        Err(_) => {
            return Err(TError::Truncated);
        },
    };
    assert(p.skip(8) =~= b@.skip(q + 8));
    let uname = match String::hydrate(b, pos) {
        Ok(v) => v,
        Err(e) => {
            return Err(TError::from(e));
        },
    };
    let ghost k1 = *pos - q - 8;
    assert(p.skip(8 + k1 as int) =~= b@.skip(q + 8 + k1));
    let aname = match String::hydrate(b, pos) {
        Ok(v) => v,
        Err(e) => {
            return Err(TError::from(e));
        },
    };
    let ghost k2 = *pos - q - 8 - k1;
    assert(p.skip(8 + k1 + k2 as int) =~= b@.skip(q + 8 + k1 + k2));
    let nuname = match u32::hydrate(b, pos) {
        Ok(v) => v,
        Err(_) => {
            return Err(TError::Truncated);
        },
    };
    Ok(T::Attach(tag, fid, afid, uname, aname, nuname))
}

fn hydrate_t_walk(b: &[u8], pos: &mut usize, tag: Tag) -> (r: Result<T, TError>)
    requires
        *old(pos) <= b@.len(),
    ensures
        match parse_t_walk(tag, b@.skip(*old(pos) as int)) {
            Some((m, n)) => {
                &&& r matches Ok(v) && v.deep_view() == m
                &&& *final(pos) == *old(pos) + n
                &&& *old(pos) <= *final(pos) <= b@.len()
            },
            None => r is Err,
        },
{
    let ghost q = *pos;
    let ghost p = b@.skip(q as int);
    let fid = match u32::hydrate(b, pos) {
        Ok(v) => v,
        Err(_) => {
            return Err(TError::Truncated);
        },
    };
    assert(p.skip(4) =~= b@.skip(q + 4));
    let newfid = match u32::hydrate(b, pos) {
        Ok(v) => v,
        Err(_) => {
            return Err(TError::Truncated);
        },
    };
    assert(p.skip(8) =~= b@.skip(q + 8));
    let names = match Vec::<String>::hydrate(b, pos) {
        Ok(v) => v,
        Err(e) => {
            return Err(TError::from(e));
        },
    };
    Ok(T::Walk(tag, fid, newfid, names))
}

fn hydrate_t_create(b: &[u8], pos: &mut usize, tag: Tag) -> (r: Result<T, TError>)
    requires
        *old(pos) <= b@.len(),
    ensures
        match parse_t_create(tag, b@.skip(*old(pos) as int)) {
            Some((m, n)) => {
                &&& r matches Ok(v) && v.deep_view() == m
                &&& *final(pos) == *old(pos) + n
                &&& *old(pos) <= *final(pos) <= b@.len()
            },
            None => r is Err,
        },
{
    let ghost q = *pos;
    let ghost p = b@.skip(q as int);
    let fid = match u32::hydrate(b, pos) {
        Ok(v) => v,
        Err(_) => {
            return Err(TError::Truncated);
        },
    };
    assert(p.skip(4) =~= b@.skip(q + 4));
    let name = match String::hydrate(b, pos) {
        Ok(v) => v,
        Err(e) => {
            return Err(TError::from(e));
        },
    };
    let ghost k1 = *pos - q - 4;
    assert(p.skip(4 + k1 as int) =~= b@.skip(q + 4 + k1));
    let perm = match u32::hydrate(b, pos) {
        Ok(v) => v,
        Err(_) => {
            return Err(TError::Truncated);
        },
    };
    assert(p.skip(8 + k1 as int) =~= b@.skip(q + 8 + k1));
    let mode = match u8::hydrate(b, pos) {
        Ok(v) => v,
        Err(_) => {
            return Err(TError::Truncated);
        },
    };
    assert(p.skip(9 + k1 as int) =~= b@.skip(q + 9 + k1));
    let ext = match String::hydrate(b, pos) {
        Ok(v) => v,
        Err(e) => {
            return Err(TError::from(e));
        },
    };
    Ok(T::Create(tag, fid, name, perm, mode, ext))
}

fn hydrate_t_write(b: &[u8], pos: &mut usize, tag: Tag) -> (r: Result<T, TError>)
    requires
        *old(pos) <= b@.len(),
    ensures
        match parse_t_write(tag, b@.skip(*old(pos) as int)) {
            Some((m, n)) => {
                &&& r matches Ok(v) && v.deep_view() == m
                &&& *final(pos) == *old(pos) + n
                &&& *old(pos) <= *final(pos) <= b@.len()
            },
            None => r is Err,
        },
{
    let ghost q = *pos;
    let ghost p = b@.skip(q as int);
    let fid = match u32::hydrate(b, pos) {
        Ok(v) => v,
        Err(_) => {
            return Err(TError::Truncated);
        },
    };
    assert(p.skip(4) =~= b@.skip(q + 4));
    let offset = match u64::hydrate(b, pos) {
        Ok(v) => v,
        Err(_) => {
            return Err(TError::Truncated);
        },
    };
    assert(p.skip(12) =~= b@.skip(q + 12));
    let count = match u32::hydrate(b, pos) {
        Ok(v) => v,
        Err(_) => {
            return Err(TError::Truncated);
        },
    };
    if b.len() - *pos < count as usize {
        return Err(TError::Truncated);
    }
    let data_slice = slice_subrange(b, *pos, *pos + count as usize);
    let data = slice_to_vec(data_slice);
    assert(data.deep_view() =~= p.subrange(16, 16 + count as int));
    *pos = *pos + count as usize;
    Ok(T::Write(tag, fid, offset, data))
}

fn hydrate_t_wstat(b: &[u8], pos: &mut usize, tag: Tag) -> (r: Result<T, TError>)
    requires
        *old(pos) <= b@.len(),
    ensures
        match parse_t_wstat(tag, b@.skip(*old(pos) as int)) {
            Some((m, n)) => {
                &&& r matches Ok(v) && v.deep_view() == m
                &&& *final(pos) == *old(pos) + n
                &&& *old(pos) <= *final(pos) <= b@.len()
            },
            None => r is Err,
        },
{
    let ghost q = *pos;
    let ghost p = b@.skip(q as int);
    let fid = match u32::hydrate(b, pos) {
        Ok(v) => v,
        Err(_) => {
            return Err(TError::Truncated);
        },
    };
    assert(p.skip(4) =~= b@.skip(q + 4));
    let osz = match u16::hydrate(b, pos) {
        Ok(v) => v,
        Err(_) => {
            return Err(TError::Truncated);
        },
    };
    if b.len() - *pos < osz as usize {
        return Err(TError::Truncated);
    }
    let inner = slice_subrange(b, *pos, *pos + osz as usize);
    assert(inner@ =~= p.subrange(6, 6 + osz as int));
    proof {
        assert(inner@.skip(0) =~= inner@);
    }
    let mut ip: usize = 0;
    let st = match Stat::hydrate(inner, &mut ip) {
        Ok(v) => v,
        Err(e) => {
            return Err(TError::from(e));
        },
    };
    *pos = *pos + osz as usize;
    Ok(T::WStat(tag, fid, st))
}

proof fn lemma_t_head(code: u8, tag: u16, pw: Seq<u8>, rest: Seq<u8>)
    ensures
        ({
            let s = (wire_u8(code) + wire_u16(tag) + pw) + rest;
            &&& parse_u8(s) == Some((code, 1int))
            &&& parse_u16(s.skip(1)) == Some((tag, 2int))
            &&& s.skip(3) == pw + rest
            &&& (wire_u8(code) + wire_u16(tag) + pw).len() == 3 + pw.len()
        }),
{
    vstd::bytes::lemma_auto_spec_u16_to_from_le_bytes();
    let s = (wire_u8(code) + wire_u16(tag) + pw) + rest;
    assert(s =~= wire_u8(code) + (wire_u16(tag) + (pw + rest)));
    super::numbers::lemma_u8_round_trip(code, wire_u16(tag) + (pw + rest));
    assert(s.skip(1) =~= wire_u16(tag) + (pw + rest));
    super::numbers::lemma_u16_round_trip(tag, pw + rest);
    assert(s.skip(3) =~= pw + rest);
}

proof fn lemma_t_version_round_trip(tag: u16, msize: u32, v: VersionView, rest: Seq<u8>)
    requires
        version_wf(v),
        wire_version_ok(v),
    ensures
        ({
            let pw = wire_u32(msize) + wire_version(v);
            parse_t_version(tag, pw + rest) == Some(
                (TView::Version(tag, msize, v), pw.len() as int),
            )
        }),
{
    vstd::bytes::lemma_auto_spec_u32_to_from_le_bytes();
    let pw = wire_u32(msize) + wire_version(v);
    let s = pw + rest;
    assert(s =~= wire_u32(msize) + (wire_version(v) + rest));
    super::numbers::lemma_u32_round_trip(msize, wire_version(v) + rest);
    assert(s.skip(4) =~= wire_version(v) + rest);
    super::version::lemma_version_round_trip(v, rest);
}

proof fn lemma_t_auth_round_trip(
    tag: u16,
    afid: u32,
    uname: Seq<char>,
    aname: Seq<char>,
    nuname: u32,
    rest: Seq<u8>,
)
    requires
        wire_str_ok(uname),
        wire_str_ok(aname),
    ensures
        ({
            let pw = wire_u32(afid) + wire_str(uname) + wire_str(aname) + wire_u32(nuname);
            parse_t_auth(tag, pw + rest) == Some(
                (TView::Auth(tag, afid, uname, aname, nuname), pw.len() as int),
            )
        }),
{
    vstd::bytes::lemma_auto_spec_u32_to_from_le_bytes();
    let k1 = wire_str(uname).len() as int;
    let k2 = wire_str(aname).len() as int;
    let pw = wire_u32(afid) + wire_str(uname) + wire_str(aname) + wire_u32(nuname);
    let r3 = wire_u32(nuname) + rest;
    let r2 = wire_str(aname) + r3;
    let r1 = wire_str(uname) + r2;
    let s = pw + rest;
    assert(s =~= wire_u32(afid) + r1);
    super::numbers::lemma_u32_round_trip(afid, r1);
    assert(s.skip(4) =~= r1);
    super::string::lemma_str_round_trip(uname, r2);
    assert(s.skip(4 + k1) =~= r2);
    super::string::lemma_str_round_trip(aname, r3);
    assert(s.skip(4 + k1 + k2) =~= r3);
    super::numbers::lemma_u32_round_trip(nuname, rest);
}

proof fn lemma_t_attach_round_trip(
    tag: u16,
    fid: u32,
    afid: u32,
    uname: Seq<char>,
    aname: Seq<char>,
    nuname: u32,
    rest: Seq<u8>,
)
    requires
        wire_str_ok(uname),
        wire_str_ok(aname),
    ensures
        ({
            let pw = wire_u32(fid) + wire_u32(afid) + wire_str(uname) + wire_str(aname) + wire_u32(
                nuname,
            );
            parse_t_attach(tag, pw + rest) == Some(
                (TView::Attach(tag, fid, afid, uname, aname, nuname), pw.len() as int),
            )
        }),
{
    vstd::bytes::lemma_auto_spec_u32_to_from_le_bytes();
    let k1 = wire_str(uname).len() as int;
    let k2 = wire_str(aname).len() as int;
    let pw = wire_u32(fid) + wire_u32(afid) + wire_str(uname) + wire_str(aname) + wire_u32(nuname);
    let r4 = wire_u32(nuname) + rest;
    let r3 = wire_str(aname) + r4;
    let r2 = wire_str(uname) + r3;
    let r1 = wire_u32(afid) + r2;
    let s = pw + rest;
    assert(s =~= wire_u32(fid) + r1);
    super::numbers::lemma_u32_round_trip(fid, r1);
    assert(s.skip(4) =~= r1);
    super::numbers::lemma_u32_round_trip(afid, r2);
    assert(s.skip(8) =~= r2);
    super::string::lemma_str_round_trip(uname, r3);
    assert(s.skip(8 + k1) =~= r3);
    super::string::lemma_str_round_trip(aname, r4);
    assert(s.skip(8 + k1 + k2) =~= r4);
    super::numbers::lemma_u32_round_trip(nuname, rest);
}

proof fn lemma_t_walk_round_trip(
    tag: u16,
    fid: u32,
    newfid: u32,
    names: Seq<Seq<char>>,
    rest: Seq<u8>,
)
    requires
        wire_seq_ok::<String>(names),
    ensures
        ({
            let pw = wire_u32(fid) + wire_u32(newfid) + wire_seq::<String>(names);
            parse_t_walk(tag, pw + rest) == Some(
                (TView::Walk(tag, fid, newfid, names), pw.len() as int),
            )
        }),
{
    vstd::bytes::lemma_auto_spec_u32_to_from_le_bytes();
    let pw = wire_u32(fid) + wire_u32(newfid) + wire_seq::<String>(names);
    let r2 = wire_seq::<String>(names) + rest;
    let r1 = wire_u32(newfid) + r2;
    let s = pw + rest;
    assert(s =~= wire_u32(fid) + r1);
    super::numbers::lemma_u32_round_trip(fid, r1);
    assert(s.skip(4) =~= r1);
    super::numbers::lemma_u32_round_trip(newfid, r2);
    assert(s.skip(8) =~= r2);
    assert forall|i: int, r2x: Seq<u8>|
        0 <= i < names.len() implies #[trigger] <String as Hydrate>::parse(
        <String as Dehydrate>::wire(names[i]) + r2x,
    ) == Some((names[i], <String as Dehydrate>::wire(names[i]).len() as int)) by {
        assert(<String as Dehydrate>::wire(names[i]) == wire_str(names[i]));
        super::string::lemma_str_round_trip(names[i], r2x);
    }
    super::vec::lemma_seq_round_trip::<String>(names, rest);
}

proof fn lemma_t_create_round_trip(
    tag: u16,
    fid: u32,
    name: Seq<char>,
    perm: u32,
    mode: u8,
    ext: Seq<char>,
    rest: Seq<u8>,
)
    requires
        wire_str_ok(name),
        wire_str_ok(ext),
    ensures
        ({
            let pw = wire_u32(fid) + wire_str(name) + wire_u32(perm) + wire_u8(mode) + wire_str(
                ext,
            );
            parse_t_create(tag, pw + rest) == Some(
                (TView::Create(tag, fid, name, perm, mode, ext), pw.len() as int),
            )
        }),
{
    vstd::bytes::lemma_auto_spec_u32_to_from_le_bytes();
    let k1 = wire_str(name).len() as int;
    let k2 = wire_str(ext).len() as int;
    let pw = wire_u32(fid) + wire_str(name) + wire_u32(perm) + wire_u8(mode) + wire_str(ext);
    let r4 = wire_str(ext) + rest;
    let r3 = wire_u8(mode) + r4;
    let r2 = wire_u32(perm) + r3;
    let r1 = wire_str(name) + r2;
    let s = pw + rest;
    assert(s =~= wire_u32(fid) + r1);
    super::numbers::lemma_u32_round_trip(fid, r1);
    assert(s.skip(4) =~= r1);
    super::string::lemma_str_round_trip(name, r2);
    assert(s.skip(4 + k1) =~= r2);
    super::numbers::lemma_u32_round_trip(perm, r3);
    assert(s.skip(8 + k1) =~= r3);
    super::numbers::lemma_u8_round_trip(mode, r4);
    assert(s.skip(9 + k1) =~= r4);
    super::string::lemma_str_round_trip(ext, rest);
}

proof fn lemma_t_write_round_trip(tag: u16, fid: u32, offset: u64, data: Seq<u8>, rest: Seq<u8>)
    requires
        data.len() <= 0xFFFFFFFF,
    ensures
        ({
            let pw = wire_u32(fid) + wire_u64(offset) + wire_u32(data.len() as u32) + data;
            parse_t_write(tag, pw + rest) == Some(
                (TView::Write(tag, fid, offset, data), pw.len() as int),
            )
        }),
{
    vstd::bytes::lemma_auto_spec_u32_to_from_le_bytes();
    vstd::bytes::lemma_auto_spec_u64_to_from_le_bytes();
    let pw = wire_u32(fid) + wire_u64(offset) + wire_u32(data.len() as u32) + data;
    let r3 = data + rest;
    let r2 = wire_u32(data.len() as u32) + r3;
    let r1 = wire_u64(offset) + r2;
    let s = pw + rest;
    assert(s =~= wire_u32(fid) + r1);
    super::numbers::lemma_u32_round_trip(fid, r1);
    assert(s.skip(4) =~= r1);
    super::numbers::lemma_u64_round_trip(offset, r2);
    assert(s.skip(12) =~= r2);
    super::numbers::lemma_u32_round_trip(data.len() as u32, r3);
    assert(s.subrange(16, 16 + data.len() as int) =~= data);
}

proof fn lemma_t_wstat_round_trip(tag: u16, fid: u32, st: StatView, rest: Seq<u8>)
    requires
        wire_stat_ok(st),
        wire_stat(st).len() <= 0xFFFF,
        super::protocol::filetype_canonical(st.qid.ty),
    ensures
        ({
            let pw = wire_u32(fid) + wire_u16(wire_stat(st).len() as u16) + wire_stat(st);
            parse_t_wstat(tag, pw + rest) == Some((TView::WStat(tag, fid, st), pw.len() as int))
        }),
{
    vstd::bytes::lemma_auto_spec_u16_to_from_le_bytes();
    vstd::bytes::lemma_auto_spec_u32_to_from_le_bytes();
    let osz = wire_stat(st).len() as u16;
    let pw = wire_u32(fid) + wire_u16(osz) + wire_stat(st);
    let r2 = wire_stat(st) + rest;
    let r1 = wire_u16(osz) + r2;
    let s = pw + rest;
    assert(s =~= wire_u32(fid) + r1);
    super::numbers::lemma_u32_round_trip(fid, r1);
    assert(s.skip(4) =~= r1);
    super::numbers::lemma_u16_round_trip(osz, r2);
    assert(s.subrange(6, 6 + osz as int) =~= wire_stat(st));
    super::stat::lemma_stat_round_trip(st, Seq::<u8>::empty());
    assert(wire_stat(st) + Seq::<u8>::empty() =~= wire_stat(st));
}

/// Parsing an encoded T message yields the encoded message, whatever
/// follows it — except for an `Unknown` message, whose payload is the
/// whole remaining input, so nothing may follow it.
#[verifier::rlimit(100)]
#[verifier::spinoff_prover]
pub proof fn lemma_t_round_trip(m: TView, rest: Seq<u8>)
    requires
        wire_t_ok(m),
        t_invertible(m),
        m matches TView::Unknown(_, _, _) ==> rest.len() == 0,
    ensures
        parse_t(wire_t(m) + rest) == Some((m, wire_t(m).len() as int)),
{
    vstd::bytes::lemma_auto_spec_u16_to_from_le_bytes();
    vstd::bytes::lemma_auto_spec_u32_to_from_le_bytes();
    vstd::bytes::lemma_auto_spec_u64_to_from_le_bytes();
    let s = wire_t(m) + rest;
    match m {
        TView::Unknown(code, tag, buf) => {
            assert(s =~= wire_u8(code) + (wire_u16(tag) + buf));
            super::numbers::lemma_u8_round_trip(code, wire_u16(tag) + buf);
            assert(s.skip(1) =~= wire_u16(tag) + buf);
            super::numbers::lemma_u16_round_trip(tag, buf);
            assert(s.skip(3) =~= buf);
        },
        TView::Version(tag, msize, v) => {
            let pw = wire_u32(msize) + wire_version(v);
            assert(wire_t(m) =~= wire_u8(TYPE_TVERSION) + wire_u16(tag) + pw);
            lemma_t_head(TYPE_TVERSION, tag, pw, rest);
            lemma_t_version_round_trip(tag, msize, v, rest);
        },
        TView::Auth(tag, afid, uname, aname, nuname) => {
            let pw = wire_u32(afid) + wire_str(uname) + wire_str(aname) + wire_u32(nuname);
            assert(wire_t(m) =~= wire_u8(TYPE_TAUTH) + wire_u16(tag) + pw);
            lemma_t_head(TYPE_TAUTH, tag, pw, rest);
            lemma_t_auth_round_trip(tag, afid, uname, aname, nuname, rest);
        },
        TView::Attach(tag, fid, afid, uname, aname, nuname) => {
            let pw = wire_u32(fid) + wire_u32(afid) + wire_str(uname) + wire_str(aname) + wire_u32(
                nuname,
            );
            assert(wire_t(m) =~= wire_u8(TYPE_TATTACH) + wire_u16(tag) + pw);
            lemma_t_head(TYPE_TATTACH, tag, pw, rest);
            lemma_t_attach_round_trip(tag, fid, afid, uname, aname, nuname, rest);
        },
        TView::Flush(tag, oldtag) => {
            let pw = wire_u16(oldtag);
            assert(wire_t(m) =~= wire_u8(TYPE_TFLUSH) + wire_u16(tag) + pw);
            lemma_t_head(TYPE_TFLUSH, tag, pw, rest);
            super::numbers::lemma_u16_round_trip(oldtag, rest);
        },
        TView::Walk(tag, fid, newfid, names) => {
            let pw = wire_u32(fid) + wire_u32(newfid) + wire_seq::<String>(names);
            assert(wire_t(m) =~= wire_u8(TYPE_TWALK) + wire_u16(tag) + pw);
            lemma_t_head(TYPE_TWALK, tag, pw, rest);
            lemma_t_walk_round_trip(tag, fid, newfid, names, rest);
        },
        TView::Open(tag, fid, mode) => {
            let pw = wire_u32(fid) + super::protocol::wire_openmode(mode);
            assert(wire_t(m) =~= wire_u8(TYPE_TOPEN) + wire_u16(tag) + pw);
            lemma_t_head(TYPE_TOPEN, tag, pw, rest);
            let p = s.skip(3);
            let r1 = super::protocol::wire_openmode(mode) + rest;
            assert(p =~= wire_u32(fid) + r1);
            super::numbers::lemma_u32_round_trip(fid, r1);
            assert(p.skip(4) =~= r1);
            super::protocol::lemma_openmode_round_trip(mode, rest);
        },
        TView::Create(tag, fid, name, perm, mode, ext) => {
            let pw = wire_u32(fid) + wire_str(name) + wire_u32(perm) + wire_u8(mode) + wire_str(
                ext,
            );
            assert(wire_t(m) =~= wire_u8(TYPE_TCREATE) + wire_u16(tag) + pw);
            lemma_t_head(TYPE_TCREATE, tag, pw, rest);
            lemma_t_create_round_trip(tag, fid, name, perm, mode, ext, rest);
        },
        TView::Read(tag, fid, offset, count) => {
            let pw = wire_u32(fid) + wire_u64(offset) + wire_u32(count);
            assert(wire_t(m) =~= wire_u8(TYPE_TREAD) + wire_u16(tag) + pw);
            lemma_t_head(TYPE_TREAD, tag, pw, rest);
            let p = s.skip(3);
            let r2 = wire_u32(count) + rest;
            let r1 = wire_u64(offset) + r2;
            assert(p =~= wire_u32(fid) + r1);
            super::numbers::lemma_u32_round_trip(fid, r1);
            assert(p.skip(4) =~= r1);
            super::numbers::lemma_u64_round_trip(offset, r2);
            assert(p.skip(12) =~= r2);
            super::numbers::lemma_u32_round_trip(count, rest);
        },
        TView::Write(tag, fid, offset, data) => {
            let pw = wire_u32(fid) + wire_u64(offset) + wire_u32(data.len() as u32) + data;
            assert(wire_t(m) =~= wire_u8(TYPE_TWRITE) + wire_u16(tag) + pw);
            lemma_t_head(TYPE_TWRITE, tag, pw, rest);
            lemma_t_write_round_trip(tag, fid, offset, data, rest);
        },
        TView::Clunk(tag, fid) => {
            let pw = wire_u32(fid);
            assert(wire_t(m) =~= wire_u8(TYPE_TCLUNK) + wire_u16(tag) + pw);
            lemma_t_head(TYPE_TCLUNK, tag, pw, rest);
            super::numbers::lemma_u32_round_trip(fid, rest);
        },
        TView::Remove(tag, fid) => {
            let pw = wire_u32(fid);
            assert(wire_t(m) =~= wire_u8(TYPE_TREMOVE) + wire_u16(tag) + pw);
            lemma_t_head(TYPE_TREMOVE, tag, pw, rest);
            super::numbers::lemma_u32_round_trip(fid, rest);
        },
        TView::Stat(tag, fid) => {
            let pw = wire_u32(fid);
            assert(wire_t(m) =~= wire_u8(TYPE_TSTAT) + wire_u16(tag) + pw);
            lemma_t_head(TYPE_TSTAT, tag, pw, rest);
            super::numbers::lemma_u32_round_trip(fid, rest);
        },
        TView::WStat(tag, fid, st) => {
            let pw = wire_u32(fid) + wire_u16(wire_stat(st).len() as u16) + wire_stat(st);
            assert(wire_t(m) =~= wire_u8(TYPE_TWSTAT) + wire_u16(tag) + pw);
            lemma_t_head(TYPE_TWSTAT, tag, pw, rest);
            lemma_t_wstat_round_trip(tag, fid, st, rest);
        },
    }
}

impl Hydrate for T {
    type Error = TError;

    open spec fn parse(s: Seq<u8>) -> Option<(TView, int)> {
        parse_t(s)
    }

    #[verifier::rlimit(100)]
    #[verifier::spinoff_prover]
    fn hydrate(b: &[u8], pos: &mut usize) -> (r: Result<T, TError>) {
        let ghost p0 = *pos;
        let code = match u8::hydrate(b, pos) {
            Ok(v) => v,
            Err(_) => {
                return Err(TError::Truncated);
            },
        };
        assert(b@.skip(p0 as int).skip(1) =~= b@.skip(p0 + 1));
        let tag = match u16::hydrate(b, pos) {
            Ok(v) => v,
            Err(_) => {
                return Err(TError::Truncated);
            },
        };
        assert(b@.skip(p0 as int).skip(3) =~= b@.skip(p0 + 3));
        match code {
            TYPE_TVERSION => hydrate_t_version(b, pos, tag),
            TYPE_TAUTH => hydrate_t_auth(b, pos, tag),
            TYPE_TATTACH => hydrate_t_attach(b, pos, tag),
            TYPE_TFLUSH => {
                let oldtag = match u16::hydrate(b, pos) {
                    Ok(v) => v,
                    Err(_) => {
                        return Err(TError::Truncated);
                    },
                };
                Ok(T::Flush(tag, oldtag))
            },
            TYPE_TWALK => hydrate_t_walk(b, pos, tag),
            TYPE_TOPEN => {
                let ghost q = *pos;
                let fid = match u32::hydrate(b, pos) {
                    Ok(v) => v,
                    Err(_) => {
                        return Err(TError::Truncated);
                    },
                };
                assert(b@.skip(q as int).skip(4) =~= b@.skip(q + 4));
                let mode = match OpenMode::hydrate(b, pos) {
                    Ok(v) => v,
                    Err(_) => {
                        return Err(TError::Truncated);
                    },
                };
                Ok(T::Open(tag, fid, mode))
            },
            TYPE_TCREATE => hydrate_t_create(b, pos, tag),
            TYPE_TREAD => {
                let ghost q = *pos;
                let fid = match u32::hydrate(b, pos) {
                    Ok(v) => v,
                    Err(_) => {
                        return Err(TError::Truncated);
                    },
                };
                assert(b@.skip(q as int).skip(4) =~= b@.skip(q + 4));
                let offset = match u64::hydrate(b, pos) {
                    Ok(v) => v,
                    Err(_) => {
                        return Err(TError::Truncated);
                    },
                };
                assert(b@.skip(q as int).skip(12) =~= b@.skip(q + 12));
                let count = match u32::hydrate(b, pos) {
                    Ok(v) => v,
                    Err(_) => {
                        return Err(TError::Truncated);
                    },
                };
                Ok(T::Read(tag, fid, offset, count))
            },
            TYPE_TWRITE => hydrate_t_write(b, pos, tag),
            TYPE_TCLUNK => {
                let fid = match u32::hydrate(b, pos) {
                    Ok(v) => v,
                    Err(_) => {
                        return Err(TError::Truncated);
                    },
                };
                Ok(T::Clunk(tag, fid))
            },
            TYPE_TREMOVE => {
                let fid = match u32::hydrate(b, pos) {
                    Ok(v) => v,
                    Err(_) => {
                        return Err(TError::Truncated);
                    },
                };
                Ok(T::Remove(tag, fid))
            },
            TYPE_TSTAT => {
                let fid = match u32::hydrate(b, pos) {
                    Ok(v) => v,
                    Err(_) => {
                        return Err(TError::Truncated);
                    },
                };
                Ok(T::Stat(tag, fid))
            },
            TYPE_TWSTAT => hydrate_t_wstat(b, pos, tag),
            _ => {
                let buf_slice = slice_subrange(b, *pos, b.len());
                let buf = slice_to_vec(buf_slice);
                assert(buf.deep_view() =~= b@.skip(p0 as int).skip(3));
                *pos = b.len();
                Ok(T::Unknown(code, tag, buf))
            },
        }
    }
}

impl Dehydrate for T {
    type Error = TError;

    open spec fn wire(m: TView) -> Seq<u8> {
        wire_t(m)
    }

    open spec fn wire_ok(m: TView) -> bool {
        wire_t_ok(m)
    }

    #[verifier::rlimit(100)]
    #[verifier::spinoff_prover]
    fn dehydrate(&self, b: &mut Vec<u8>) -> (r: Result<(), TError>) {
        let ghost b0 = b@;
        let mut tmp: Vec<u8> = Vec::new();
        match self {
            T::Unknown(ty, tag, buf) => {
                push_u8(&mut tmp, *ty);
                push_u16(&mut tmp, *tag);
                super::numbers::push_bytes(&mut tmp, buf.as_slice());
                assert(buf.deep_view() =~= buf@);
                assert(tmp@ =~= wire_t(self.deep_view()));
            },
            T::Version(tag, msize, v) => {
                push_u8(&mut tmp, TYPE_TVERSION);
                push_u16(&mut tmp, *tag);
                push_u32(&mut tmp, *msize);
                match v.dehydrate(&mut tmp) {
                    Ok(_) => {},
                    Err(e) => {
                        return Err(TError::from(e));
                    },
                }
                assert(tmp@ =~= wire_t(self.deep_view()));
            },
            T::Auth(tag, afid, uname, aname, nuname) => {
                push_u8(&mut tmp, TYPE_TAUTH);
                push_u16(&mut tmp, *tag);
                push_u32(&mut tmp, *afid);
                match uname.dehydrate(&mut tmp) {
                    Ok(_) => {},
                    Err(e) => {
                        return Err(TError::from(e));
                    },
                }
                match aname.dehydrate(&mut tmp) {
                    Ok(_) => {},
                    Err(e) => {
                        return Err(TError::from(e));
                    },
                }
                push_u32(&mut tmp, *nuname);
                assert(tmp@ =~= wire_t(self.deep_view()));
            },
            T::Attach(tag, fid, afid, uname, aname, nuname) => {
                push_u8(&mut tmp, TYPE_TATTACH);
                push_u16(&mut tmp, *tag);
                push_u32(&mut tmp, *fid);
                push_u32(&mut tmp, *afid);
                match uname.dehydrate(&mut tmp) {
                    Ok(_) => {},
                    Err(e) => {
                        return Err(TError::from(e));
                    },
                }
                match aname.dehydrate(&mut tmp) {
                    Ok(_) => {},
                    Err(e) => {
                        return Err(TError::from(e));
                    },
                }
                push_u32(&mut tmp, *nuname);
                assert(tmp@ =~= wire_t(self.deep_view()));
            },
            T::Flush(tag, oldtag) => {
                push_u8(&mut tmp, TYPE_TFLUSH);
                push_u16(&mut tmp, *tag);
                push_u16(&mut tmp, *oldtag);
                assert(tmp@ =~= wire_t(self.deep_view()));
            },
            T::Walk(tag, fid, newfid, names) => {
                push_u8(&mut tmp, TYPE_TWALK);
                push_u16(&mut tmp, *tag);
                push_u32(&mut tmp, *fid);
                push_u32(&mut tmp, *newfid);
                match names.dehydrate(&mut tmp) {
                    Ok(_) => {},
                    Err(e) => {
                        return Err(TError::from(e));
                    },
                }
                assert(tmp@ =~= wire_t(self.deep_view()));
            },
            T::Open(tag, fid, mode) => {
                push_u8(&mut tmp, TYPE_TOPEN);
                push_u16(&mut tmp, *tag);
                push_u32(&mut tmp, *fid);
                match mode.dehydrate(&mut tmp) {
                    Ok(_) => {},
                    Err(_) => {
                        return Err(TError::Truncated);
                    },
                }
                assert(tmp@ =~= wire_t(self.deep_view()));
            },
            T::Create(tag, fid, name, perm, mode, ext) => {
                push_u8(&mut tmp, TYPE_TCREATE);
                push_u16(&mut tmp, *tag);
                push_u32(&mut tmp, *fid);
                match name.dehydrate(&mut tmp) {
                    Ok(_) => {},
                    Err(e) => {
                        return Err(TError::from(e));
                    },
                }
                push_u32(&mut tmp, *perm);
                push_u8(&mut tmp, *mode);
                match ext.dehydrate(&mut tmp) {
                    Ok(_) => {},
                    Err(e) => {
                        return Err(TError::from(e));
                    },
                }
                assert(tmp@ =~= wire_t(self.deep_view()));
            },
            T::Read(tag, fid, offset, count) => {
                push_u8(&mut tmp, TYPE_TREAD);
                push_u16(&mut tmp, *tag);
                push_u32(&mut tmp, *fid);
                push_u64(&mut tmp, *offset);
                push_u32(&mut tmp, *count);
                assert(tmp@ =~= wire_t(self.deep_view()));
            },
            T::Write(tag, fid, offset, data) => {
                if data.len() > 0xFFFFFFFFusize {
                    return Err(TError::TooLong);
                }
                push_u8(&mut tmp, TYPE_TWRITE);
                push_u16(&mut tmp, *tag);
                push_u32(&mut tmp, *fid);
                push_u64(&mut tmp, *offset);
                push_u32(&mut tmp, data.len() as u32);
                super::numbers::push_bytes(&mut tmp, data.as_slice());
                assert(data.deep_view() =~= data@);
                assert(tmp@ =~= wire_t(self.deep_view()));
            },
            T::Clunk(tag, fid) => {
                push_u8(&mut tmp, TYPE_TCLUNK);
                push_u16(&mut tmp, *tag);
                push_u32(&mut tmp, *fid);
                assert(tmp@ =~= wire_t(self.deep_view()));
            },
            T::Remove(tag, fid) => {
                push_u8(&mut tmp, TYPE_TREMOVE);
                push_u16(&mut tmp, *tag);
                push_u32(&mut tmp, *fid);
                assert(tmp@ =~= wire_t(self.deep_view()));
            },
            T::Stat(tag, fid) => {
                push_u8(&mut tmp, TYPE_TSTAT);
                push_u16(&mut tmp, *tag);
                push_u32(&mut tmp, *fid);
                assert(tmp@ =~= wire_t(self.deep_view()));
            },
            T::WStat(tag, fid, stat) => {
                let mut sb: Vec<u8> = Vec::new();
                match stat.dehydrate(&mut sb) {
                    Ok(_) => {},
                    Err(e) => {
                        return Err(TError::from(e));
                    },
                }
                if sb.len() > 0xFFFF {
                    return Err(TError::TooLong);
                }
                push_u8(&mut tmp, TYPE_TWSTAT);
                push_u16(&mut tmp, *tag);
                push_u32(&mut tmp, *fid);
                push_u16(&mut tmp, sb.len() as u16);
                tmp.append(&mut sb);
                assert(tmp@ =~= wire_t(self.deep_view()));
            },
        }
        b.append(&mut tmp);
        assert(b@ == b0 + wire_t(self.deep_view()));
        Ok(())
    }
}

} // verus!
