//! R messages: the replies a server sends to a client, with their wire
//! codec.

use super::numbers::{parse_u16, parse_u32, parse_u8, push_u16, push_u32, push_u8, wire_u16, wire_u32, wire_u8};
use super::protocol::{parse_qid, push_qid, wire_qid, Qid, Tag, Type};
use super::stat::{parse_stat, wire_stat, wire_stat_ok, Stat, StatError, StatView};
use super::string::{parse_str, wire_str, wire_str_ok, StringError};
use super::vec::{parse_seq, wire_seq, wire_seq_ok, SliceError};
use super::version::{parse_version, version_wf, wire_version, wire_version_ok, Version, VersionError, VersionView};
use super::{Dehydrate, Hydrate, Truncated};
use vstd::prelude::*;
use vstd::slice::{slice_subrange, slice_to_vec};

verus! {

/// Error decoding or encoding an R message.
#[derive(Debug)]
pub enum RError {
    /// A count does not fit its width on the wire.
    TooLong,
    /// The input ended before the message was complete.
    Truncated,
    /// The version text failed to decode.
    VersionError(VersionError),
    /// A string failed to decode or encode.
    StringError(StringError),
}

impl From<StringError> for RError {
    fn from(se: StringError) -> (r: Self) {
        match se {
            StringError::Truncated => Self::Truncated,
            _ => Self::StringError(se),
        }
    }
}

impl vstd::std_specs::convert::FromSpecImpl<StringError> for RError {
    open spec fn obeys_from_spec() -> bool {
        true
    }

    open spec fn from_spec(se: StringError) -> RError {
        match se {
            StringError::Truncated => RError::Truncated,
            _ => RError::StringError(se),
        }
    }
}

impl From<VersionError> for RError {
    fn from(ve: VersionError) -> (r: Self) {
        match ve {
            VersionError::StringError(se) => RError::from(se),
            _ => Self::VersionError(ve),
        }
    }
}

impl vstd::std_specs::convert::FromSpecImpl<VersionError> for RError {
    open spec fn obeys_from_spec() -> bool {
        true
    }

    open spec fn from_spec(ve: VersionError) -> RError {
        match ve {
            VersionError::StringError(se) => <RError as vstd::std_specs::convert::FromSpec<
                StringError,
            >>::from_spec(se),
            _ => RError::VersionError(ve),
        }
    }
}

impl From<StatError> for RError {
    fn from(se: StatError) -> (r: Self) {
        match se {
            StatError::TooLarge => Self::TooLong,
            StatError::Truncated => Self::Truncated,
            StatError::StringError(e) => RError::from(e),
        }
    }
}

impl vstd::std_specs::convert::FromSpecImpl<StatError> for RError {
    open spec fn obeys_from_spec() -> bool {
        true
    }

    open spec fn from_spec(se: StatError) -> RError {
        match se {
            StatError::TooLarge => RError::TooLong,
            StatError::Truncated => RError::Truncated,
            StatError::StringError(e) => <RError as vstd::std_specs::convert::FromSpec<
                StringError,
            >>::from_spec(e),
        }
    }
}

impl From<SliceError<Truncated>> for RError {
    fn from(se: SliceError<Truncated>) -> (r: Self) {
        match se {
            SliceError::TooLong => Self::TooLong,
            SliceError::Truncated => Self::Truncated,
            SliceError::Inner(_) => Self::Truncated,
        }
    }
}

impl vstd::std_specs::convert::FromSpecImpl<SliceError<Truncated>> for RError {
    open spec fn obeys_from_spec() -> bool {
        true
    }

    open spec fn from_spec(se: SliceError<Truncated>) -> RError {
        match se {
            SliceError::TooLong => RError::TooLong,
            _ => RError::Truncated,
        }
    }
}

/// R messages are server-to-client messages.
#[derive(Debug, PartialEq)]
pub enum R {
    /// Unknown is constructed when the type is unknown or unexpected.
    Unknown(Type, Tag, Vec<u8>),
    /// RVersion is part of the negotiation of the connection.
    Version(Tag, u32, Version),
    /// Open authentication file.
    Auth(Tag, Qid),
    /// Attach to a filesystem tree.
    Attach(Tag, Qid),
    /// Something went wrong. What went wrong?
    Error(Tag, String, u32),
    /// The command by this tag has been flushed from the queue.
    Flush(Tag),
    /// Walk the filesystem to a specific file, returning qids for
    /// everything along the path.
    Walk(Tag, Vec<Qid>),
    /// Confirmation that a specific file has been opened.
    Open(Tag, Qid, u32),
    /// Confirmation that a specific file has been created.
    Create(Tag, Qid, u32),
    /// Data that was read in response to a tag.
    Read(Tag, Vec<u8>),
    /// Data was confirmed to have been written.
    Write(Tag, u32),
    /// File descriptor has been clunked (closed).
    Clunk(Tag),
    /// File was removed.
    Remove(Tag),
    /// Information about a file.
    Stat(Tag, Stat),
    /// Information about a file was rewritten.
    WStat(Tag),
}

/// The abstract form of an R message.
pub ghost enum RView {
    /// An unrecognised type byte with its tag and raw payload.
    Unknown(u8, u16, Seq<u8>),
    /// Version reply.
    Version(u16, u32, VersionView),
    /// Auth reply.
    Auth(u16, Qid),
    /// Attach reply.
    Attach(u16, Qid),
    /// Error reply.
    Error(u16, Seq<char>, u32),
    /// Flush reply.
    Flush(u16),
    /// Walk reply.
    Walk(u16, Seq<Qid>),
    /// Open reply.
    Open(u16, Qid, u32),
    /// Create reply.
    Create(u16, Qid, u32),
    /// Read reply.
    Read(u16, Seq<u8>),
    /// Write reply.
    Write(u16, u32),
    /// Clunk reply.
    Clunk(u16),
    /// Remove reply.
    Remove(u16),
    /// Stat reply.
    Stat(u16, StatView),
    /// WStat reply.
    WStat(u16),
}

impl DeepView for R {
    type V = RView;

    open spec fn deep_view(&self) -> RView {
        match self {
            R::Unknown(ty, tag, buf) => RView::Unknown(*ty, *tag, buf.deep_view()),
            R::Version(tag, msize, v) => RView::Version(*tag, *msize, v.deep_view()),
            R::Auth(tag, qid) => RView::Auth(*tag, *qid),
            R::Attach(tag, qid) => RView::Attach(*tag, *qid),
            R::Error(tag, ename, errno) => RView::Error(*tag, ename@, *errno),
            R::Flush(tag) => RView::Flush(*tag),
            R::Walk(tag, qids) => RView::Walk(*tag, qids.deep_view()),
            R::Open(tag, qid, iounit) => RView::Open(*tag, *qid, *iounit),
            R::Create(tag, qid, iounit) => RView::Create(*tag, *qid, *iounit),
            R::Read(tag, data) => RView::Read(*tag, data.deep_view()),
            R::Write(tag, n) => RView::Write(*tag, *n),
            R::Clunk(tag) => RView::Clunk(*tag),
            R::Remove(tag) => RView::Remove(*tag),
            R::Stat(tag, stat) => RView::Stat(*tag, stat.deep_view()),
            R::WStat(tag) => RView::WStat(*tag),
        }
    }
}

/// The tag of an R message's abstract form.
pub open spec fn r_tag(m: RView) -> u16 {
    match m {
        RView::Unknown(_, tag, _) => tag,
        RView::Version(tag, _, _) => tag,
        RView::Auth(tag, _) => tag,
        RView::Attach(tag, _) => tag,
        RView::Error(tag, _, _) => tag,
        RView::Flush(tag) => tag,
        RView::Walk(tag, _) => tag,
        RView::Open(tag, _, _) => tag,
        RView::Create(tag, _, _) => tag,
        RView::Read(tag, _) => tag,
        RView::Write(tag, _) => tag,
        RView::Clunk(tag) => tag,
        RView::Remove(tag) => tag,
        RView::Stat(tag, _) => tag,
        RView::WStat(tag) => tag,
    }
}

impl R {
    /// The tag that matches this reply to its request.
    pub fn tag(&self) -> (r: Tag)
        ensures
            r == r_tag(self.deep_view()),
    {
        match self {
            R::Unknown(_, tag, _) => *tag,
            R::Version(tag, _, _) => *tag,
            R::Auth(tag, _) => *tag,
            R::Attach(tag, _) => *tag,
            R::Error(tag, _, _) => *tag,
            R::Flush(tag) => *tag,
            R::Walk(tag, _) => *tag,
            R::Open(tag, _, _) => *tag,
            R::Create(tag, _, _) => *tag,
            R::Read(tag, _) => *tag,
            R::Write(tag, _) => *tag,
            R::Clunk(tag) => *tag,
            R::Remove(tag) => *tag,
            R::Stat(tag, _) => *tag,
            R::WStat(tag) => *tag,
        }
    }
}

/// Type byte of a version reply.
pub const TYPE_RVERSION: Type = 101;

/// Type byte of an auth reply.
pub const TYPE_RAUTH: Type = 103;

/// Type byte of an attach reply.
pub const TYPE_RATTACH: Type = 105;

/// Type byte of an error reply.
pub const TYPE_RERROR: Type = 107;

/// Type byte of a flush reply.
pub const TYPE_RFLUSH: Type = 109;

/// Type byte of a walk reply.
pub const TYPE_RWALK: Type = 111;

/// Type byte of an open reply.
pub const TYPE_ROPEN: Type = 113;

/// Type byte of a create reply.
pub const TYPE_RCREATE: Type = 115;

/// Type byte of a read reply.
pub const TYPE_RREAD: Type = 117;

/// Type byte of a write reply.
pub const TYPE_RWRITE: Type = 119;

/// Type byte of a clunk reply.
pub const TYPE_RCLUNK: Type = 121;

/// Type byte of a remove reply.
pub const TYPE_RREMOVE: Type = 123;

/// Type byte of a stat reply.
pub const TYPE_RSTAT: Type = 125;

/// Type byte of a wstat reply.
pub const TYPE_RWSTAT: Type = 127;

/// Whether a type byte names a known R message.
pub open spec fn is_r_code(c: u8) -> bool {
    c == TYPE_RVERSION || c == TYPE_RAUTH || c == TYPE_RATTACH || c == TYPE_RERROR || c
        == TYPE_RFLUSH || c == TYPE_RWALK || c == TYPE_ROPEN || c == TYPE_RCREATE || c == TYPE_RREAD
        || c == TYPE_RWRITE || c == TYPE_RCLUNK || c == TYPE_RREMOVE || c == TYPE_RSTAT || c
        == TYPE_RWSTAT
}

/// Encoding of an R message: type byte, tag, then the payload of its
/// variant.
pub open spec fn wire_r(m: RView) -> Seq<u8> {
    match m {
        RView::Unknown(ty, tag, buf) => wire_u8(ty) + wire_u16(tag) + buf,
        RView::Version(tag, msize, v) => wire_u8(TYPE_RVERSION) + wire_u16(tag) + wire_u32(msize)
            + wire_version(v),
        RView::Auth(tag, qid) => wire_u8(TYPE_RAUTH) + wire_u16(tag) + wire_qid(qid),
        RView::Attach(tag, qid) => wire_u8(TYPE_RATTACH) + wire_u16(tag) + wire_qid(qid),
        RView::Error(tag, ename, errno) => wire_u8(TYPE_RERROR) + wire_u16(tag) + wire_str(ename)
            + wire_u32(errno),
        RView::Flush(tag) => wire_u8(TYPE_RFLUSH) + wire_u16(tag),
        RView::Walk(tag, qids) => wire_u8(TYPE_RWALK) + wire_u16(tag) + wire_seq::<Qid>(qids),
        RView::Open(tag, qid, iounit) => wire_u8(TYPE_ROPEN) + wire_u16(tag) + wire_qid(qid)
            + wire_u32(iounit),
        RView::Create(tag, qid, iounit) => wire_u8(TYPE_RCREATE) + wire_u16(tag) + wire_qid(qid)
            + wire_u32(iounit),
        RView::Read(tag, data) => wire_u8(TYPE_RREAD) + wire_u16(tag) + wire_u32(data.len() as u32)
            + data,
        RView::Write(tag, n) => wire_u8(TYPE_RWRITE) + wire_u16(tag) + wire_u32(n),
        RView::Clunk(tag) => wire_u8(TYPE_RCLUNK) + wire_u16(tag),
        RView::Remove(tag) => wire_u8(TYPE_RREMOVE) + wire_u16(tag),
        RView::Stat(tag, st) => wire_u8(TYPE_RSTAT) + wire_u16(tag) + wire_u16(
            wire_stat(st).len() as u16,
        ) + wire_stat(st),
        RView::WStat(tag) => wire_u8(TYPE_RWSTAT) + wire_u16(tag),
    }
}

/// Whether an R message fits its wire format's length fields.
pub open spec fn wire_r_ok(m: RView) -> bool {
    match m {
        RView::Version(_, _, v) => wire_version_ok(v),
        RView::Error(_, ename, _) => wire_str_ok(ename),
        RView::Walk(_, qids) => wire_seq_ok::<Qid>(qids),
        RView::Read(_, data) => data.len() <= 0xFFFFFFFF,
        RView::Stat(_, st) => wire_stat_ok(st) && wire_stat(st).len() <= 0xFFFF,
        _ => true,
    }
}

/// The conditions under which an R message's encoding parses back to the
/// same message.
pub open spec fn r_invertible(m: RView) -> bool {
    match m {
        RView::Version(_, _, v) => version_wf(v),
        RView::Auth(_, qid) => super::protocol::filetype_canonical(qid.ty),
        RView::Attach(_, qid) => super::protocol::filetype_canonical(qid.ty),
        RView::Walk(_, qids) => forall|i: int|
            0 <= i < qids.len() ==> super::protocol::filetype_canonical(#[trigger] qids[i].ty),
        RView::Open(_, qid, _) => super::protocol::filetype_canonical(qid.ty),
        RView::Create(_, qid, _) => super::protocol::filetype_canonical(qid.ty),
        RView::Stat(_, st) => super::protocol::filetype_canonical(st.qid.ty),
        RView::Unknown(c, _, _) => !is_r_code(c),
        _ => true,
    }
}

/// Decoding of an error reply payload.
pub open spec fn parse_r_error(tag: u16, p: Seq<u8>) -> Option<(RView, int)> {
    match parse_str(p) {
        None => None,
        Some((ename, k)) => match parse_u32(p.skip(k)) {
            None => None,
            Some((errno, _)) => Some((RView::Error(tag, ename, errno), k + 4)),
        },
    }
}

/// Decoding of a read reply payload: a 32-bit byte count, then the data.
pub open spec fn parse_r_read(tag: u16, p: Seq<u8>) -> Option<(RView, int)> {
    match parse_u32(p) {
        None => None,
        Some((count, _)) => {
            if p.len() >= 4 + count {
                Some((RView::Read(tag, p.subrange(4, 4 + count)), 4 + count))
            } else {
                None
            }
        },
    }
}

/// Decoding of a stat reply payload: the stat record wrapped in one more
/// 16-bit byte count; anything after the record within that count is
/// ignored.
pub open spec fn parse_r_stat(tag: u16, p: Seq<u8>) -> Option<(RView, int)> {
    match parse_u16(p) {
        None => None,
        Some((osz, _)) => {
            if p.len() >= 2 + osz {
                match parse_stat(p.subrange(2, 2 + osz)) {
                    None => None,
                    Some((st, _)) => Some((RView::Stat(tag, st), 2 + osz)),
                }
            } else {
                None
            }
        },
    }
}

/// Decoding of an R message payload, by type byte.
pub open spec fn parse_r_payload(code: u8, tag: u16, p: Seq<u8>) -> Option<(RView, int)> {
    if code == TYPE_RVERSION {
        match parse_u32(p) {
            None => None,
            Some((msize, _)) => match parse_version(p.skip(4)) {
                None => None,
                Some((v, k)) => Some((RView::Version(tag, msize, v), 4 + k)),
            },
        }
    } else if code == TYPE_RAUTH {
        match parse_qid(p) {
            None => None,
            Some((qid, _)) => Some((RView::Auth(tag, qid), 13int)),
        }
    } else if code == TYPE_RATTACH {
        match parse_qid(p) {
            None => None,
            Some((qid, _)) => Some((RView::Attach(tag, qid), 13int)),
        }
    } else if code == TYPE_RERROR {
        parse_r_error(tag, p)
    } else if code == TYPE_RFLUSH {
        Some((RView::Flush(tag), 0int))
    } else if code == TYPE_RWALK {
        match parse_seq::<Qid>(p) {
            None => None,
            Some((qids, k)) => Some((RView::Walk(tag, qids), k)),
        }
    } else if code == TYPE_ROPEN {
        match parse_qid(p) {
            None => None,
            Some((qid, _)) => match parse_u32(p.skip(13)) {
                None => None,
                Some((iounit, _)) => Some((RView::Open(tag, qid, iounit), 17int)),
            },
        }
    } else if code == TYPE_RCREATE {
        match parse_qid(p) {
            None => None,
            Some((qid, _)) => match parse_u32(p.skip(13)) {
                None => None,
                Some((iounit, _)) => Some((RView::Create(tag, qid, iounit), 17int)),
            },
        }
    } else if code == TYPE_RREAD {
        parse_r_read(tag, p)
    } else if code == TYPE_RWRITE {
        match parse_u32(p) {
            None => None,
            Some((n, _)) => Some((RView::Write(tag, n), 4int)),
        }
    } else if code == TYPE_RCLUNK {
        Some((RView::Clunk(tag), 0int))
    } else if code == TYPE_RREMOVE {
        Some((RView::Remove(tag), 0int))
    } else if code == TYPE_RSTAT {
        parse_r_stat(tag, p)
    } else if code == TYPE_RWSTAT {
        Some((RView::WStat(tag), 0int))
    } else {
        Some((RView::Unknown(code, tag, p), p.len() as int))
    }
}

/// Decoding of an R message from the head of `s`: type byte, tag, then
/// the payload of that type. An unrecognised type byte consumes the
/// whole input as an `Unknown` message.
pub open spec fn parse_r(s: Seq<u8>) -> Option<(RView, int)> {
    match parse_u8(s) {
        None => None,
        Some((code, _)) => match parse_u16(s.skip(1)) {
            None => None,
            Some((tag, _)) => match parse_r_payload(code, tag, s.skip(3)) {
                None => None,
                Some((m, k)) => Some((m, 3 + k)),
            },
        },
    }
}

fn hydrate_r_version(b: &[u8], pos: &mut usize, tag: Tag) -> (r: Result<R, RError>)
    requires
        *old(pos) <= b@.len(),
    ensures
        match parse_r_payload(TYPE_RVERSION, tag, b@.skip(*old(pos) as int)) {
            Some((m, n)) => {
                &&& r matches Ok(v) && v.deep_view() == m
                &&& *final(pos) == *old(pos) + n
                &&& *old(pos) <= *final(pos) <= b@.len()
            },
            None => r is Err,
        },
{
    let ghost q = *pos;
    let ghost p = b@.skip(q as int);
    let msize = match u32::hydrate(b, pos) {
        Ok(v) => v,
        Err(_) => {
            return Err(RError::Truncated);
        },
    };
    assert(p.skip(4) =~= b@.skip(q + 4));
    let version = match Version::hydrate(b, pos) {
        Ok(v) => v,
        Err(e) => {
            return Err(RError::from(e));
        },
    };
    Ok(R::Version(tag, msize, version))
}

fn hydrate_r_error(b: &[u8], pos: &mut usize, tag: Tag) -> (r: Result<R, RError>)
    requires
        *old(pos) <= b@.len(),
    ensures
        match parse_r_error(tag, b@.skip(*old(pos) as int)) {
            Some((m, n)) => {
                &&& r matches Ok(v) && v.deep_view() == m
                &&& *final(pos) == *old(pos) + n
                &&& *old(pos) <= *final(pos) <= b@.len()
            },
            None => r is Err,
        },
{
    let ghost q = *pos;
    let ghost p = b@.skip(q as int);
    let ename = match String::hydrate(b, pos) {
        Ok(v) => v,
        Err(e) => {
            return Err(RError::from(e));
        },
    };
    let ghost k = *pos - q;
    assert(p.skip(k as int) =~= b@.skip(q + k));
    let errno = match u32::hydrate(b, pos) {
        Ok(v) => v,
        Err(_) => {
            return Err(RError::Truncated);
        },
    };
    Ok(R::Error(tag, ename, errno))
}

fn hydrate_r_read(b: &[u8], pos: &mut usize, tag: Tag) -> (r: Result<R, RError>)
    requires
        *old(pos) <= b@.len(),
    ensures
        match parse_r_read(tag, b@.skip(*old(pos) as int)) {
            Some((m, n)) => {
                &&& r matches Ok(v) && v.deep_view() == m
                &&& *final(pos) == *old(pos) + n
                &&& *old(pos) <= *final(pos) <= b@.len()
            },
            None => r is Err,
        },
{
    let ghost q = *pos;
    let ghost p = b@.skip(q as int);
    let count = match u32::hydrate(b, pos) {
        Ok(v) => v,
        Err(_) => {
            return Err(RError::Truncated);
        },
    };
    if b.len() - *pos < count as usize {
        return Err(RError::Truncated);
    }
    let data_slice = slice_subrange(b, *pos, *pos + count as usize);
    let data = slice_to_vec(data_slice);
    assert(data.deep_view() =~= p.subrange(4, 4 + count as int));
    *pos = *pos + count as usize;
    Ok(R::Read(tag, data))
}

#[verifier::rlimit(100)]
#[verifier::spinoff_prover]
fn hydrate_r_stat(b: &[u8], pos: &mut usize, tag: Tag) -> (r: Result<R, RError>)
    requires
        *old(pos) <= b@.len(),
    ensures
        match parse_r_stat(tag, b@.skip(*old(pos) as int)) {
            Some((m, n)) => {
                &&& r matches Ok(v) && v.deep_view() == m
                &&& *final(pos) == *old(pos) + n
                &&& *old(pos) <= *final(pos) <= b@.len()
            },
            None => r is Err,
        },
{
    let ghost q = *pos;
    let ghost p = b@.skip(q as int);
    let osz = match u16::hydrate(b, pos) {
        Ok(v) => v,
        Err(_) => {
            return Err(RError::Truncated);
        },
    };
    if b.len() - *pos < osz as usize {
        return Err(RError::Truncated);
    }
    let inner = slice_subrange(b, *pos, *pos + osz as usize);
    assert(inner@ =~= p.subrange(2, 2 + osz as int));
    proof {
        assert(inner@.skip(0) =~= inner@);
    }
    let mut ip: usize = 0;
    let st = match Stat::hydrate(inner, &mut ip) {
        Ok(v) => v,
        Err(e) => {
            return Err(RError::from(e));
        },
    };
    *pos = *pos + osz as usize;
    Ok(R::Stat(tag, st))
}

impl Hydrate for R {
    type Error = RError;

    open spec fn parse(s: Seq<u8>) -> Option<(RView, int)> {
        parse_r(s)
    }

    #[verifier::rlimit(100)]
    #[verifier::spinoff_prover]
    fn hydrate(b: &[u8], pos: &mut usize) -> (r: Result<R, RError>) {
        let ghost p0 = *pos;
        let code = match u8::hydrate(b, pos) {
            Ok(v) => v,
            Err(_) => {
                return Err(RError::Truncated);
            },
        };
        assert(b@.skip(p0 as int).skip(1) =~= b@.skip(p0 + 1));
        let tag = match u16::hydrate(b, pos) {
            Ok(v) => v,
            Err(_) => {
                return Err(RError::Truncated);
            },
        };
        assert(b@.skip(p0 as int).skip(3) =~= b@.skip(p0 + 3));
        match code {
            TYPE_RVERSION => hydrate_r_version(b, pos, tag),
            TYPE_RAUTH => {
                let qid = match Qid::hydrate(b, pos) {
                    Ok(v) => v,
                    Err(_) => {
                        return Err(RError::Truncated);
                    },
                };
                Ok(R::Auth(tag, qid))
            },
            TYPE_RATTACH => {
                let qid = match Qid::hydrate(b, pos) {
                    Ok(v) => v,
                    Err(_) => {
                        return Err(RError::Truncated);
                    },
                };
                Ok(R::Attach(tag, qid))
            },
            TYPE_RERROR => hydrate_r_error(b, pos, tag),
            TYPE_RFLUSH => Ok(R::Flush(tag)),
            TYPE_RWALK => {
                let qids = match Vec::<Qid>::hydrate(b, pos) {
                    Ok(v) => v,
                    Err(e) => {
                        return Err(RError::from(e));
                    },
                };
                Ok(R::Walk(tag, qids))
            },
            TYPE_ROPEN => {
                let ghost q = *pos;
                let qid = match Qid::hydrate(b, pos) {
                    Ok(v) => v,
                    Err(_) => {
                        return Err(RError::Truncated);
                    },
                };
                assert(b@.skip(q as int).skip(13) =~= b@.skip(q + 13));
                let iounit = match u32::hydrate(b, pos) {
                    Ok(v) => v,
                    Err(_) => {
                        return Err(RError::Truncated);
                    },
                };
                Ok(R::Open(tag, qid, iounit))
            },
            TYPE_RCREATE => {
                let ghost q = *pos;
                let qid = match Qid::hydrate(b, pos) {
                    Ok(v) => v,
                    Err(_) => {
                        return Err(RError::Truncated);
                    },
                };
                assert(b@.skip(q as int).skip(13) =~= b@.skip(q + 13));
                let iounit = match u32::hydrate(b, pos) {
                    Ok(v) => v,
                    Err(_) => {
                        return Err(RError::Truncated);
                    },
                };
                Ok(R::Create(tag, qid, iounit))
            },
            TYPE_RREAD => hydrate_r_read(b, pos, tag),
            TYPE_RWRITE => {
                let n = match u32::hydrate(b, pos) {
                    Ok(v) => v,
                    Err(_) => {
                        return Err(RError::Truncated);
                    },
                };
                Ok(R::Write(tag, n))
            },
            TYPE_RCLUNK => Ok(R::Clunk(tag)),
            TYPE_RREMOVE => Ok(R::Remove(tag)),
            TYPE_RSTAT => hydrate_r_stat(b, pos, tag),
            TYPE_RWSTAT => Ok(R::WStat(tag)),
            _ => {
                let buf_slice = slice_subrange(b, *pos, b.len());
                let buf = slice_to_vec(buf_slice);
                assert(buf.deep_view() =~= b@.skip(p0 as int).skip(3));
                *pos = b.len();
                Ok(R::Unknown(code, tag, buf))
            },
        }
    }
}

impl Dehydrate for R {
    type Error = RError;

    open spec fn wire(m: RView) -> Seq<u8> {
        wire_r(m)
    }

    open spec fn wire_ok(m: RView) -> bool {
        wire_r_ok(m)
    }

    #[verifier::rlimit(100)]
    #[verifier::spinoff_prover]
    fn dehydrate(&self, b: &mut Vec<u8>) -> (r: Result<(), RError>) {
        let ghost b0 = b@;
        let mut tmp: Vec<u8> = Vec::new();
        match self {
            R::Unknown(ty, tag, buf) => {
                push_u8(&mut tmp, *ty);
                push_u16(&mut tmp, *tag);
                super::numbers::push_bytes(&mut tmp, buf.as_slice());
                assert(buf.deep_view() =~= buf@);
                assert(tmp@ =~= wire_r(self.deep_view()));
            },
            R::Version(tag, msize, v) => {
                push_u8(&mut tmp, TYPE_RVERSION);
                push_u16(&mut tmp, *tag);
                push_u32(&mut tmp, *msize);
                match v.dehydrate(&mut tmp) {
                    Ok(_) => {},
                    Err(e) => {
                        return Err(RError::from(e));
                    },
                }
                assert(tmp@ =~= wire_r(self.deep_view()));
            },
            R::Auth(tag, qid) => {
                push_u8(&mut tmp, TYPE_RAUTH);
                push_u16(&mut tmp, *tag);
                push_qid(&mut tmp, qid);
                assert(tmp@ =~= wire_r(self.deep_view()));
            },
            R::Attach(tag, qid) => {
                push_u8(&mut tmp, TYPE_RATTACH);
                push_u16(&mut tmp, *tag);
                push_qid(&mut tmp, qid);
                assert(tmp@ =~= wire_r(self.deep_view()));
            },
            R::Error(tag, ename, errno) => {
                push_u8(&mut tmp, TYPE_RERROR);
                push_u16(&mut tmp, *tag);
                match ename.dehydrate(&mut tmp) {
                    Ok(_) => {},
                    Err(e) => {
                        return Err(RError::from(e));
                    },
                }
                push_u32(&mut tmp, *errno);
                assert(tmp@ =~= wire_r(self.deep_view()));
            },
            R::Flush(tag) => {
                push_u8(&mut tmp, TYPE_RFLUSH);
                push_u16(&mut tmp, *tag);
                assert(tmp@ =~= wire_r(self.deep_view()));
            },
            R::Walk(tag, qids) => {
                push_u8(&mut tmp, TYPE_RWALK);
                push_u16(&mut tmp, *tag);
                match qids.dehydrate(&mut tmp) {
                    Ok(_) => {},
                    Err(e) => {
                        return Err(RError::from(e));
                    },
                }
                assert(tmp@ =~= wire_r(self.deep_view()));
            },
            R::Open(tag, qid, iounit) => {
                push_u8(&mut tmp, TYPE_ROPEN);
                push_u16(&mut tmp, *tag);
                push_qid(&mut tmp, qid);
                push_u32(&mut tmp, *iounit);
                assert(tmp@ =~= wire_r(self.deep_view()));
            },
            R::Create(tag, qid, iounit) => {
                push_u8(&mut tmp, TYPE_RCREATE);
                push_u16(&mut tmp, *tag);
                push_qid(&mut tmp, qid);
                push_u32(&mut tmp, *iounit);
                assert(tmp@ =~= wire_r(self.deep_view()));
            },
            R::Read(tag, data) => {
                if data.len() > 0xFFFFFFFFusize {
                    return Err(RError::TooLong);
                }
                push_u8(&mut tmp, TYPE_RREAD);
                push_u16(&mut tmp, *tag);
                push_u32(&mut tmp, data.len() as u32);
                super::numbers::push_bytes(&mut tmp, data.as_slice());
                assert(data.deep_view() =~= data@);
                assert(tmp@ =~= wire_r(self.deep_view()));
            },
            R::Write(tag, n) => {
                push_u8(&mut tmp, TYPE_RWRITE);
                push_u16(&mut tmp, *tag);
                push_u32(&mut tmp, *n);
                assert(tmp@ =~= wire_r(self.deep_view()));
            },
            R::Clunk(tag) => {
                push_u8(&mut tmp, TYPE_RCLUNK);
                push_u16(&mut tmp, *tag);
                assert(tmp@ =~= wire_r(self.deep_view()));
            },
            R::Remove(tag) => {
                push_u8(&mut tmp, TYPE_RREMOVE);
                push_u16(&mut tmp, *tag);
                assert(tmp@ =~= wire_r(self.deep_view()));
            },
            R::Stat(tag, stat) => {
                let mut sb: Vec<u8> = Vec::new();
                match stat.dehydrate(&mut sb) {
                    Ok(_) => {},
                    Err(e) => {
                        return Err(RError::from(e));
                    },
                }
                if sb.len() > 0xFFFF {
                    return Err(RError::TooLong);
                }
                push_u8(&mut tmp, TYPE_RSTAT);
                push_u16(&mut tmp, *tag);
                push_u16(&mut tmp, sb.len() as u16);
                tmp.append(&mut sb);
                assert(tmp@ =~= wire_r(self.deep_view()));
            },
            R::WStat(tag) => {
                push_u8(&mut tmp, TYPE_RWSTAT);
                push_u16(&mut tmp, *tag);
                assert(tmp@ =~= wire_r(self.deep_view()));
            },
        }
        b.append(&mut tmp);
        assert(b@ == b0 + wire_r(self.deep_view()));
        Ok(())
    }
}

proof fn lemma_r_head(code: u8, tag: u16, pw: Seq<u8>, rest: Seq<u8>)
    ensures
        ({
            let s = (wire_u8(code) + wire_u16(tag) + pw) + rest;
            &&& parse_u8(s) == Some((code, 1int))
            &&& parse_u16(s.skip(1)) == Some((tag, 2int))
            &&& s.skip(3) == pw + rest
            &&& (wire_u8(code) + wire_u16(tag) + pw).len() == 3 + pw.len()
        }),
{
    vstd::bytes::lemma_auto_spec_u16_to_from_le_bytes();
    let s = (wire_u8(code) + wire_u16(tag) + pw) + rest;
    assert(s =~= wire_u8(code) + (wire_u16(tag) + (pw + rest)));
    super::numbers::lemma_u8_round_trip(code, wire_u16(tag) + (pw + rest));
    assert(s.skip(1) =~= wire_u16(tag) + (pw + rest));
    super::numbers::lemma_u16_round_trip(tag, pw + rest);
    assert(s.skip(3) =~= pw + rest);
}

proof fn lemma_r_version_round_trip(tag: u16, msize: u32, v: VersionView, rest: Seq<u8>)
    requires
        version_wf(v),
        wire_version_ok(v),
    ensures
        ({
            let pw = wire_u32(msize) + wire_version(v);
            parse_r_payload(TYPE_RVERSION, tag, pw + rest) == Some(
                (RView::Version(tag, msize, v), pw.len() as int),
            )
        }),
{
    vstd::bytes::lemma_auto_spec_u32_to_from_le_bytes();
    let pw = wire_u32(msize) + wire_version(v);
    let s = pw + rest;
    assert(s =~= wire_u32(msize) + (wire_version(v) + rest));
    super::numbers::lemma_u32_round_trip(msize, wire_version(v) + rest);
    assert(s.skip(4) =~= wire_version(v) + rest);
    super::version::lemma_version_round_trip(v, rest);
}

proof fn lemma_r_error_round_trip(tag: u16, ename: Seq<char>, errno: u32, rest: Seq<u8>)
    requires
        wire_str_ok(ename),
    ensures
        ({
            let pw = wire_str(ename) + wire_u32(errno);
            parse_r_error(tag, pw + rest) == Some((RView::Error(tag, ename, errno), pw.len() as int))
        }),
{
    vstd::bytes::lemma_auto_spec_u32_to_from_le_bytes();
    let k = wire_str(ename).len() as int;
    let pw = wire_str(ename) + wire_u32(errno);
    let r1 = wire_u32(errno) + rest;
    let s = pw + rest;
    assert(s =~= wire_str(ename) + r1);
    super::string::lemma_str_round_trip(ename, r1);
    assert(s.skip(k) =~= r1);
    super::numbers::lemma_u32_round_trip(errno, rest);
}

proof fn lemma_r_qid_u32_round_trip(qid: Qid, iounit: u32, rest: Seq<u8>)
    requires
        super::protocol::filetype_canonical(qid.ty),
    ensures
        ({
            let pw = wire_qid(qid) + wire_u32(iounit);
            &&& parse_qid(pw + rest) == Some((qid, 13int))
            &&& parse_u32((pw + rest).skip(13)) == Some((iounit, 4int))
            &&& pw.len() == 17
        }),
{
    vstd::bytes::lemma_auto_spec_u32_to_from_le_bytes();
    vstd::bytes::lemma_auto_spec_u64_to_from_le_bytes();
    let pw = wire_qid(qid) + wire_u32(iounit);
    let r1 = wire_u32(iounit) + rest;
    let s = pw + rest;
    assert(s =~= wire_qid(qid) + r1);
    super::protocol::lemma_qid_round_trip(qid, r1);
    assert(wire_qid(qid).len() == 13);
    assert(s.skip(13) =~= r1);
    super::numbers::lemma_u32_round_trip(iounit, rest);
}

proof fn lemma_r_walk_round_trip(tag: u16, qids: Seq<Qid>, rest: Seq<u8>)
    requires
        wire_seq_ok::<Qid>(qids),
        forall|i: int|
            0 <= i < qids.len() ==> super::protocol::filetype_canonical(#[trigger] qids[i].ty),
    ensures
        parse_r_payload(TYPE_RWALK, tag, wire_seq::<Qid>(qids) + rest) == Some(
            (RView::Walk(tag, qids), wire_seq::<Qid>(qids).len() as int),
        ),
{
    assert forall|i: int, r2x: Seq<u8>|
        0 <= i < qids.len() implies #[trigger] <Qid as Hydrate>::parse(
        <Qid as Dehydrate>::wire(qids[i]) + r2x,
    ) == Some((qids[i], <Qid as Dehydrate>::wire(qids[i]).len() as int)) by {
        assert(<Qid as Dehydrate>::wire(qids[i]) == wire_qid(qids[i]));
        super::protocol::lemma_qid_round_trip(qids[i], r2x);
        assert(wire_qid(qids[i]).len() == 13) by {
            vstd::bytes::lemma_auto_spec_u32_to_from_le_bytes();
            vstd::bytes::lemma_auto_spec_u64_to_from_le_bytes();
        }
    }
    super::vec::lemma_seq_round_trip::<Qid>(qids, rest);
}

proof fn lemma_r_read_round_trip(tag: u16, data: Seq<u8>, rest: Seq<u8>)
    requires
        data.len() <= 0xFFFFFFFF,
    ensures
        ({
            let pw = wire_u32(data.len() as u32) + data;
            parse_r_read(tag, pw + rest) == Some((RView::Read(tag, data), pw.len() as int))
        }),
{
    vstd::bytes::lemma_auto_spec_u32_to_from_le_bytes();
    let pw = wire_u32(data.len() as u32) + data;
    let r1 = data + rest;
    let s = pw + rest;
    assert(s =~= wire_u32(data.len() as u32) + r1);
    super::numbers::lemma_u32_round_trip(data.len() as u32, r1);
    assert(s.subrange(4, 4 + data.len() as int) =~= data);
}

proof fn lemma_r_stat_round_trip(tag: u16, st: StatView, rest: Seq<u8>)
    requires
        wire_stat_ok(st),
        wire_stat(st).len() <= 0xFFFF,
        super::protocol::filetype_canonical(st.qid.ty),
    ensures
        ({
            let pw = wire_u16(wire_stat(st).len() as u16) + wire_stat(st);
            parse_r_stat(tag, pw + rest) == Some((RView::Stat(tag, st), pw.len() as int))
        }),
{
    vstd::bytes::lemma_auto_spec_u16_to_from_le_bytes();
    let osz = wire_stat(st).len() as u16;
    let pw = wire_u16(osz) + wire_stat(st);
    let r1 = wire_stat(st) + rest;
    let s = pw + rest;
    assert(s =~= wire_u16(osz) + r1);
    super::numbers::lemma_u16_round_trip(osz, r1);
    assert(s.subrange(2, 2 + osz as int) =~= wire_stat(st));
    super::stat::lemma_stat_round_trip(st, Seq::<u8>::empty());
    assert(wire_stat(st) + Seq::<u8>::empty() =~= wire_stat(st));
}

/// Parsing an encoded R message yields the encoded message, whatever
/// follows it — except for an `Unknown` message, whose payload is the
/// whole remaining input, so nothing may follow it.
#[verifier::rlimit(100)]
#[verifier::spinoff_prover]
pub proof fn lemma_r_round_trip(m: RView, rest: Seq<u8>)
    requires
        wire_r_ok(m),
        r_invertible(m),
        m matches RView::Unknown(_, _, _) ==> rest.len() == 0,
    ensures
        parse_r(wire_r(m) + rest) == Some((m, wire_r(m).len() as int)),
{
    vstd::bytes::lemma_auto_spec_u16_to_from_le_bytes();
    vstd::bytes::lemma_auto_spec_u32_to_from_le_bytes();
    vstd::bytes::lemma_auto_spec_u64_to_from_le_bytes();
    let s = wire_r(m) + rest;
    match m {
        RView::Unknown(code, tag, buf) => {
            assert(wire_r(m) =~= wire_u8(code) + wire_u16(tag) + buf);
            lemma_r_head(code, tag, buf, rest);
            assert(buf + rest =~= buf);
        },
        RView::Version(tag, msize, v) => {
            let pw = wire_u32(msize) + wire_version(v);
            assert(wire_r(m) =~= wire_u8(TYPE_RVERSION) + wire_u16(tag) + pw);
            lemma_r_head(TYPE_RVERSION, tag, pw, rest);
            lemma_r_version_round_trip(tag, msize, v, rest);
        },
        RView::Auth(tag, qid) => {
            let pw = wire_qid(qid);
            assert(wire_r(m) =~= wire_u8(TYPE_RAUTH) + wire_u16(tag) + pw);
            lemma_r_head(TYPE_RAUTH, tag, pw, rest);
            super::protocol::lemma_qid_round_trip(qid, rest);
            assert(wire_qid(qid).len() == 13);
        },
        RView::Attach(tag, qid) => {
            let pw = wire_qid(qid);
            assert(wire_r(m) =~= wire_u8(TYPE_RATTACH) + wire_u16(tag) + pw);
            lemma_r_head(TYPE_RATTACH, tag, pw, rest);
            super::protocol::lemma_qid_round_trip(qid, rest);
            assert(wire_qid(qid).len() == 13);
        },
        RView::Error(tag, ename, errno) => {
            let pw = wire_str(ename) + wire_u32(errno);
            assert(wire_r(m) =~= wire_u8(TYPE_RERROR) + wire_u16(tag) + pw);
            lemma_r_head(TYPE_RERROR, tag, pw, rest);
            lemma_r_error_round_trip(tag, ename, errno, rest);
        },
        RView::Flush(tag) => {
            let pw = Seq::<u8>::empty();
            assert(wire_r(m) =~= wire_u8(TYPE_RFLUSH) + wire_u16(tag) + pw);
            lemma_r_head(TYPE_RFLUSH, tag, pw, rest);
        },
        RView::Walk(tag, qids) => {
            let pw = wire_seq::<Qid>(qids);
            assert(wire_r(m) =~= wire_u8(TYPE_RWALK) + wire_u16(tag) + pw);
            lemma_r_head(TYPE_RWALK, tag, pw, rest);
            lemma_r_walk_round_trip(tag, qids, rest);
        },
        RView::Open(tag, qid, iounit) => {
            let pw = wire_qid(qid) + wire_u32(iounit);
            assert(wire_r(m) =~= wire_u8(TYPE_ROPEN) + wire_u16(tag) + pw);
            lemma_r_head(TYPE_ROPEN, tag, pw, rest);
            lemma_r_qid_u32_round_trip(qid, iounit, rest);
        },
        RView::Create(tag, qid, iounit) => {
            let pw = wire_qid(qid) + wire_u32(iounit);
            assert(wire_r(m) =~= wire_u8(TYPE_RCREATE) + wire_u16(tag) + pw);
            lemma_r_head(TYPE_RCREATE, tag, pw, rest);
            lemma_r_qid_u32_round_trip(qid, iounit, rest);
        },
        RView::Read(tag, data) => {
            let pw = wire_u32(data.len() as u32) + data;
            assert(wire_r(m) =~= wire_u8(TYPE_RREAD) + wire_u16(tag) + pw);
            lemma_r_head(TYPE_RREAD, tag, pw, rest);
            lemma_r_read_round_trip(tag, data, rest);
        },
        RView::Write(tag, n) => {
            let pw = wire_u32(n);
            assert(wire_r(m) =~= wire_u8(TYPE_RWRITE) + wire_u16(tag) + pw);
            lemma_r_head(TYPE_RWRITE, tag, pw, rest);
            super::numbers::lemma_u32_round_trip(n, rest);
        },
        RView::Clunk(tag) => {
            let pw = Seq::<u8>::empty();
            assert(wire_r(m) =~= wire_u8(TYPE_RCLUNK) + wire_u16(tag) + pw);
            lemma_r_head(TYPE_RCLUNK, tag, pw, rest);
        },
        RView::Remove(tag) => {
            let pw = Seq::<u8>::empty();
            assert(wire_r(m) =~= wire_u8(TYPE_RREMOVE) + wire_u16(tag) + pw);
            lemma_r_head(TYPE_RREMOVE, tag, pw, rest);
        },
        RView::Stat(tag, st) => {
            let pw = wire_u16(wire_stat(st).len() as u16) + wire_stat(st);
            assert(wire_r(m) =~= wire_u8(TYPE_RSTAT) + wire_u16(tag) + pw);
            lemma_r_head(TYPE_RSTAT, tag, pw, rest);
            lemma_r_stat_round_trip(tag, st, rest);
        },
        RView::WStat(tag) => {
            let pw = Seq::<u8>::empty();
            assert(wire_r(m) =~= wire_u8(TYPE_RWSTAT) + wire_u16(tag) + pw);
            lemma_r_head(TYPE_RWSTAT, tag, pw, rest);
        },
    }
}

} // verus!
