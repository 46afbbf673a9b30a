//! Core protocol values: message type and handle identifiers, open modes,
//! file kinds and the 13-byte qid that names a file.

use super::numbers::{parse_u32, parse_u64, parse_u8, push_u32, push_u64, push_u8, wire_u32, wire_u64, wire_u8};
use super::{Dehydrate, Hydrate, Truncated};
use vstd::prelude::*;

verus! {

/// Type represents the underlying message type byte. This is usually
/// abstracted away by the message enums, except when the type is unknown
/// or unexpected.
pub type Type = u8;

/// Tag is the message request/response unique identifier.
pub type Tag = u16;

/// Client-defined file descriptor.
pub type Fid = u32;

/// Mode bits given when a file is opened.
#[derive(Copy, Clone, Debug, PartialEq, Eq, Structural)]
pub struct OpenMode(pub u8);

/// The raw byte of an open mode.
pub open spec fn openmode_to_u8(m: OpenMode) -> u8 {
    m.0
}

impl From<OpenMode> for u8 {
    #[verifier::spinoff_prover]
    #[verifier::rlimit(100)]
    fn from(v: OpenMode) -> (r: Self) {
        v.0
    }
}

impl vstd::std_specs::convert::FromSpecImpl<OpenMode> for u8 {
    open spec fn obeys_from_spec() -> bool {
        true
    }

    open spec fn from_spec(v: OpenMode) -> u8 {
        openmode_to_u8(v)
    }
}

impl From<u8> for OpenMode {
    #[verifier::spinoff_prover]
    #[verifier::rlimit(100)]
    fn from(v: u8) -> (r: Self) {
        OpenMode(v)
    }
}

impl vstd::std_specs::convert::FromSpecImpl<u8> for OpenMode {
    open spec fn obeys_from_spec() -> bool {
        true
    }

    open spec fn from_spec(v: u8) -> OpenMode {
        OpenMode(v)
    }
}

/// The direction of I/O that an open mode asks for.
pub enum IoDirection {
    /// Reads only.
    Read,
    /// Writes only.
    Write,
    /// Both reads and writes.
    ReadWrite,
}

/// The direction named by the low two bits of an open mode: 0 reads,
/// 1 writes, 2 both, and 3 ("execute") reads.
pub open spec fn spec_direction(m: OpenMode) -> IoDirection {
    if m.0 % 4 == 0 {
        IoDirection::Read
    } else if m.0 % 4 == 1 {
        IoDirection::Write
    } else if m.0 % 4 == 2 {
        IoDirection::ReadWrite
    } else {
        IoDirection::Read
    }
}

impl OpenMode {
    /// The direction of I/O this mode asks for.
    pub fn direction(&self) -> (r: IoDirection)
        ensures
            r == spec_direction(*self),
    {
        match self.0 % 0x04 {
            1 => IoDirection::Write,
            2 => IoDirection::ReadWrite,
            _ => IoDirection::Read,
        }
    }

    /// Whether the execute bits are set.
    pub fn execute(&self) -> (r: bool)
        ensures
            r == (openmode_to_u8(*self) & 0x03 == 0x03),
    {
        self.0 & 0x03 == 0x03
    }

    /// Whether the file is to be truncated on open.
    pub fn truncate(&self) -> (r: bool)
        ensures
            r == (openmode_to_u8(*self) & 0x10 == 0x10),
    {
        self.0 & 0x10 == 0x10
    }

    /// Whether the file is to be removed when the fid is clunked.
    pub fn remove(&self) -> (r: bool)
        ensures
            r == (openmode_to_u8(*self) & 0x40 == 0x40),
    {
        self.0 & 0x40 == 0x40
    }
}

impl View for OpenMode {
    type V = OpenMode;

    open spec fn view(&self) -> OpenMode {
        *self
    }
}

impl DeepView for OpenMode {
    type V = OpenMode;

    open spec fn deep_view(&self) -> OpenMode {
        *self
    }
}

/// Encoding of an open mode: its byte.
pub open spec fn wire_openmode(m: OpenMode) -> Seq<u8> {
    wire_u8(m.0)
}

/// Decoding of an open mode from the head of `s`.
pub open spec fn parse_openmode(s: Seq<u8>) -> Option<(OpenMode, int)> {
    match parse_u8(s) {
        Some((v, n)) => Some((OpenMode(v), n)),
        None => None,
    }
}

/// Parsing an encoded open mode yields the encoded mode, whatever
/// follows it.
pub proof fn lemma_openmode_round_trip(m: OpenMode, rest: Seq<u8>)
    ensures
        parse_openmode(wire_openmode(m) + rest) == Some((m, 1int)),
{
    super::numbers::lemma_u8_round_trip(m.0, rest);
}

impl Hydrate for OpenMode {
    type Error = Truncated;

    open spec fn parse(s: Seq<u8>) -> Option<(OpenMode, int)> {
        parse_openmode(s)
    }

    fn hydrate(b: &[u8], pos: &mut usize) -> (r: Result<OpenMode, Truncated>) {
        proof {
            assert(<OpenMode as Hydrate>::parse(b@.skip(*pos as int)) == parse_openmode(
                b@.skip(*pos as int),
            ));
        }
        match u8::hydrate(b, pos) {
            Ok(v) => Ok(OpenMode(v)),
            Err(e) => Err(e),
        }
    }
}

impl Dehydrate for OpenMode {
    type Error = Truncated;

    open spec fn wire(m: OpenMode) -> Seq<u8> {
        wire_openmode(m)
    }

    open spec fn wire_ok(m: OpenMode) -> bool {
        true
    }

    fn dehydrate(&self, b: &mut Vec<u8>) -> (r: Result<(), Truncated>) {
        push_u8(b, self.0);
        Ok(())
    }
}

/// The kind of a file, as carried in the high bits of a mode word and in
/// the type byte of a qid.
#[derive(Debug, Clone, Copy, PartialEq, Eq, Structural)]
#[non_exhaustive]
pub enum FileType {
    /// A directory.
    Dir,
    /// An append-only file.
    Append,
    /// A file open for exclusive use.
    Excl,
    /// An authentication file.
    Auth,
    /// A temporary file, not backed up.
    Tmp,
    /// A symbolic link.
    Link,
    /// A device file.
    Device,
    /// A named pipe.
    NamedPipe,
    /// A socket.
    Socket,
    /// A plain file.
    File,
    /// Any type byte this library does not know, kept for forward
    /// compatibility.
    Unknown(u8),
}

/// The file kind named by a qid type byte.
pub open spec fn filetype_from_u8(v: u8) -> FileType {
    if v == 0x80 {
        FileType::Dir
    } else if v == 0x40 {
        FileType::Append
    } else if v == 0x20 {
        FileType::Excl
    } else if v == 0x08 {
        FileType::Auth
    } else if v == 0x04 {
        FileType::Tmp
    } else if v == 0x02 {
        FileType::Link
    } else if v == 0x00 {
        FileType::File
    } else {
        FileType::Unknown(v)
    }
}

/// The qid type byte of a file kind. The special kinds Device, NamedPipe
/// and Socket live only in the mode word and encode as zero here.
pub open spec fn filetype_to_u8(t: FileType) -> u8 {
    match t {
        FileType::Dir => 0x80,
        FileType::Append => 0x40,
        FileType::Excl => 0x20,
        FileType::Auth => 0x08,
        FileType::Tmp => 0x04,
        FileType::Link => 0x02,
        FileType::File => 0x00,
        FileType::Unknown(v) => v,
        _ => 0x00,
    }
}

/// The 32-bit mode word bits of a file kind: the type byte shifted to the
/// top, with the three special kinds in dedicated lower bits.
pub open spec fn filetype_to_u32(t: FileType) -> u32 {
    ((filetype_to_u8(t) as u32) << 24) | (match t {
        FileType::Device => 0x00800000u32,
        FileType::NamedPipe => 0x00200000u32,
        FileType::Socket => 0x00100000u32,
        _ => 0u32,
    })
}

/// The file kind named by a 32-bit mode word: mask off the permission
/// bits, test the three special patterns, otherwise take the top byte.
pub open spec fn filetype_from_u32(v: u32) -> FileType {
    let w = v & 0xfffffe00;
    if w == 0x00800000 {
        FileType::Device
    } else if w == 0x00200000 {
        FileType::NamedPipe
    } else if w == 0x00100000 {
        FileType::Socket
    } else {
        filetype_from_u8((w >> 24) as u8)
    }
}

/// A file kind whose qid type byte decodes back to itself. The special
/// kinds and the unknown values that collide with a named kind are not
/// canonical: their byte form loses them.
pub open spec fn filetype_canonical(t: FileType) -> bool {
    filetype_from_u8(filetype_to_u8(t)) == t
}

/// The file kind named by a qid type byte.
pub fn filetype_of_byte(v: u8) -> (r: FileType)
    ensures
        r == filetype_from_u8(v),
{
    match v {
        0x80 => FileType::Dir,
        0x40 => FileType::Append,
        0x20 => FileType::Excl,
        0x08 => FileType::Auth,
        0x04 => FileType::Tmp,
        0x02 => FileType::Link,
        0x00 => FileType::File,
        _ => FileType::Unknown(v),
    }
}

/// The qid type byte of a file kind.
pub fn byte_of_filetype(t: FileType) -> (r: u8)
    ensures
        r == filetype_to_u8(t),
{
    match t {
        FileType::Dir => 0x80,
        FileType::Append => 0x40,
        FileType::Excl => 0x20,
        FileType::Auth => 0x08,
        FileType::Tmp => 0x04,
        FileType::Link => 0x02,
        FileType::File => 0x00,
        FileType::Unknown(v) => v,
        _ => 0x00,
    }
}

impl vstd::std_specs::convert::FromSpecImpl<u8> for FileType {
    open spec fn obeys_from_spec() -> bool {
        true
    }

    open spec fn from_spec(v: u8) -> FileType {
        filetype_from_u8(v)
    }
}

impl From<u8> for FileType {
    #[verifier::spinoff_prover]
    #[verifier::rlimit(100)]
    fn from(v: u8) -> (r: FileType) {
        filetype_of_byte(v)
    }
}

impl vstd::std_specs::convert::FromSpecImpl<FileType> for u8 {
    open spec fn obeys_from_spec() -> bool {
        true
    }

    open spec fn from_spec(t: FileType) -> u8 {
        filetype_to_u8(t)
    }
}

impl From<FileType> for u8 {
    #[verifier::spinoff_prover]
    #[verifier::rlimit(100)]
    fn from(qt: FileType) -> (r: u8) {
        byte_of_filetype(qt)
    }
}

impl From<FileType> for u32 {
    #[verifier::spinoff_prover]
    #[verifier::rlimit(100)]
    fn from(qt: FileType) -> (r: u32) {
        let v: u8 = qt.into();
        let v: u32 = v as u32;
        let v = v << 24;
        v | (match qt {
            FileType::Device => 0x00800000,
            FileType::NamedPipe => 0x00200000,
            FileType::Socket => 0x00100000,
            _ => 0,
        })
    }
}

impl vstd::std_specs::convert::FromSpecImpl<FileType> for u32 {
    open spec fn obeys_from_spec() -> bool {
        true
    }

    open spec fn from_spec(t: FileType) -> u32 {
        filetype_to_u32(t)
    }
}

impl From<u32> for FileType {
    #[verifier::spinoff_prover]
    #[verifier::rlimit(100)]
    fn from(v: u32) -> (r: FileType) {
        let w = v & 0xfffffe00;
        match w {
            0x00800000 => FileType::Device,
            0x00200000 => FileType::NamedPipe,
            0x00100000 => FileType::Socket,
            _ => {
                let t: u8 = (w >> 24) as u8;
                t.into()
            },
        }
    }
}

impl vstd::std_specs::convert::FromSpecImpl<u32> for FileType {
    open spec fn obeys_from_spec() -> bool {
        true
    }

    open spec fn from_spec(v: u32) -> FileType {
        filetype_from_u32(v)
    }
}

/// The concrete bit facts behind the file-kind encodings, gathered in
/// one place: shifting each type byte to the top of the word, masking
/// the permission bits off, and reading the top byte back.
proof fn lemma_filetype_bits()
    by (bit_vector)
    ensures
        ((0x80u32 << 24) | 0u32) == 0x80000000u32,
        (0x80000000u32 & 0xfffffe00u32) == 0x80000000u32,
        (0x80000000u32 >> 24) == 0x80u32,
        ((0x40u32 << 24) | 0u32) == 0x40000000u32,
        (0x40000000u32 & 0xfffffe00u32) == 0x40000000u32,
        (0x40000000u32 >> 24) == 0x40u32,
        ((0x20u32 << 24) | 0u32) == 0x20000000u32,
        (0x20000000u32 & 0xfffffe00u32) == 0x20000000u32,
        (0x20000000u32 >> 24) == 0x20u32,
        ((0x08u32 << 24) | 0u32) == 0x08000000u32,
        (0x08000000u32 & 0xfffffe00u32) == 0x08000000u32,
        (0x08000000u32 >> 24) == 0x08u32,
        ((0x04u32 << 24) | 0u32) == 0x04000000u32,
        (0x04000000u32 & 0xfffffe00u32) == 0x04000000u32,
        (0x04000000u32 >> 24) == 0x04u32,
        ((0x02u32 << 24) | 0u32) == 0x02000000u32,
        (0x02000000u32 & 0xfffffe00u32) == 0x02000000u32,
        (0x02000000u32 >> 24) == 0x02u32,
        ((0x00u32 << 24) | 0u32) == 0u32,
        (0u32 & 0xfffffe00u32) == 0u32,
        (0u32 >> 24) == 0u32,
        ((0x00u32 << 24) | 0x00800000u32) == 0x00800000u32,
        (0x00800000u32 & 0xfffffe00u32) == 0x00800000u32,
        ((0x00u32 << 24) | 0x00200000u32) == 0x00200000u32,
        (0x00200000u32 & 0xfffffe00u32) == 0x00200000u32,
        ((0x00u32 << 24) | 0x00100000u32) == 0x00100000u32,
        (0x00100000u32 & 0xfffffe00u32) == 0x00100000u32,
{
}

/// For the ten named file kinds: encoding into the 32-bit mode word and
/// decoding it again returns the same kind.
pub proof fn lemma_filetype_mode_bijection(t: FileType)
    requires
        !(t matches FileType::Unknown(_)),
    ensures
        filetype_from_u32(filetype_to_u32(t)) == t,
{
    lemma_filetype_bits();
}

/// For the ten named file kinds: the qid type byte is the mode word's top
/// byte for the ordinary kinds, and zero for the three special kinds.
pub proof fn lemma_filetype_byte_agrees(t: FileType)
    requires
        !(t matches FileType::Unknown(_)),
    ensures
        (t matches FileType::Device || t matches FileType::NamedPipe || t
            matches FileType::Socket) ==> filetype_to_u8(t) == 0,
        !(t matches FileType::Device || t matches FileType::NamedPipe || t
            matches FileType::Socket) ==> filetype_to_u8(t) as u32 == filetype_to_u32(t) >> 24,
{
    lemma_filetype_bits();
}

impl View for FileType {
    type V = FileType;

    open spec fn view(&self) -> FileType {
        *self
    }
}

impl DeepView for FileType {
    type V = FileType;

    open spec fn deep_view(&self) -> FileType {
        *self
    }
}

/// Encoding of a file kind: its qid type byte.
pub open spec fn wire_filetype(t: FileType) -> Seq<u8> {
    wire_u8(filetype_to_u8(t))
}

/// Decoding of a file kind from the head of `s`.
pub open spec fn parse_filetype(s: Seq<u8>) -> Option<(FileType, int)> {
    match parse_u8(s) {
        Some((v, n)) => Some((filetype_from_u8(v), n)),
        None => None,
    }
}

/// Parsing an encoded file kind yields the encoded kind, whatever follows
/// it, for the kinds whose byte form keeps them apart. A special kind
/// such as `Device` encodes to zero and comes back as `File`.
pub proof fn lemma_filetype_round_trip(t: FileType, rest: Seq<u8>)
    requires
        filetype_canonical(t),
    ensures
        parse_filetype(wire_filetype(t) + rest) == Some((t, 1int)),
{
    super::numbers::lemma_u8_round_trip(filetype_to_u8(t), rest);
}

impl Hydrate for FileType {
    type Error = Truncated;

    open spec fn parse(s: Seq<u8>) -> Option<(FileType, int)> {
        parse_filetype(s)
    }

    fn hydrate(b: &[u8], pos: &mut usize) -> (r: Result<FileType, Truncated>) {
        proof {
            assert(<FileType as Hydrate>::parse(b@.skip(*pos as int)) == parse_filetype(
                b@.skip(*pos as int),
            ));
        }
        match u8::hydrate(b, pos) {
            Ok(v) => Ok(v.into()),
            Err(e) => Err(e),
        }
    }
}

impl Dehydrate for FileType {
    type Error = Truncated;

    open spec fn wire(m: FileType) -> Seq<u8> {
        wire_filetype(m)
    }

    open spec fn wire_ok(m: FileType) -> bool {
        true
    }

    fn dehydrate(&self, b: &mut Vec<u8>) -> (r: Result<(), Truncated>) {
        let v: u8 = (*self).into();
        push_u8(b, v);
        Ok(())
    }
}

/// Qid is a unique file identifier. Two files are the same iff they have
/// the same qid.
#[derive(Debug, Clone, Copy, PartialEq, Eq, Structural)]
pub struct Qid {
    /// The kind of the file (directory, etc.), carried as the high bits
    /// of the file's mode word.
    pub ty: FileType,
    /// Version number for the given path.
    pub version: u32,
    /// The file server's unique identification for the file.
    pub path: u64,
}

impl Qid {
    /// Create a new Qid from parts. This is not something you want to do
    /// as a client; but fair play for the server.
    pub fn new(ty: FileType, version: u32, path: u64) -> (r: Qid)
        ensures
            r == (Qid { ty, version, path }),
    {
        Qid { ty, version, path }
    }
}

impl View for Qid {
    type V = Qid;

    open spec fn view(&self) -> Qid {
        *self
    }
}

impl DeepView for Qid {
    type V = Qid;

    open spec fn deep_view(&self) -> Qid {
        *self
    }
}

/// Encoding of a qid: type byte, version, path; 13 bytes.
pub open spec fn wire_qid(q: Qid) -> Seq<u8> {
    wire_filetype(q.ty) + wire_u32(q.version) + wire_u64(q.path)
}

/// Decoding of a qid from the head of `s`.
pub open spec fn parse_qid(s: Seq<u8>) -> Option<(Qid, int)> {
    match parse_filetype(s) {
        Some((ty, _)) => match parse_u32(s.skip(1)) {
            Some((version, _)) => match parse_u64(s.skip(5)) {
                Some((path, _)) => Some((Qid { ty, version, path }, 13int)),
                None => None,
            },
            None => None,
        },
        None => None,
    }
}

/// Parsing an encoded qid yields the encoded qid, whatever follows it,
/// when the file kind's byte form keeps it apart.
pub proof fn lemma_qid_round_trip(q: Qid, rest: Seq<u8>)
    requires
        filetype_canonical(q.ty),
    ensures
        parse_qid(wire_qid(q) + rest) == Some((q, 13int)),
{
    let whole = wire_qid(q) + rest;
    assert(wire_filetype(q.ty).len() == 1);
    assert(whole =~= wire_filetype(q.ty) + (wire_u32(q.version) + (wire_u64(q.path) + rest)));
    lemma_filetype_round_trip(q.ty, wire_u32(q.version) + (wire_u64(q.path) + rest));
    assert(wire_u32(q.version).len() == 4) by {
        vstd::bytes::lemma_auto_spec_u32_to_from_le_bytes();
    }
    assert(whole.skip(1) =~= wire_u32(q.version) + (wire_u64(q.path) + rest));
    super::numbers::lemma_u32_round_trip(q.version, wire_u64(q.path) + rest);
    assert(whole.skip(5) =~= wire_u64(q.path) + rest);
    super::numbers::lemma_u64_round_trip(q.path, rest);
    assert(wire_qid(q).len() == 13) by {
        vstd::bytes::lemma_auto_spec_u64_to_from_le_bytes();
    }
}

/// Append the encoding of a qid to `b`. Qid encodes never fail.
pub fn push_qid(b: &mut Vec<u8>, q: &Qid)
    ensures
        final(b)@ == old(b)@ + wire_qid(*q),
{
    let ghost b0 = b@;
    let v: u8 = q.ty.into();
    push_u8(b, v);
    push_u32(b, q.version);
    push_u64(b, q.path);
    assert(b@ =~= b0 + wire_qid(*q));
}

impl Hydrate for Qid {
    type Error = Truncated;

    open spec fn parse(s: Seq<u8>) -> Option<(Qid, int)> {
        parse_qid(s)
    }

    fn hydrate(b: &[u8], pos: &mut usize) -> (r: Result<Qid, Truncated>) {
        let ghost p0 = *pos;
        proof {
            assert(<Qid as Hydrate>::parse(b@.skip(p0 as int)) == parse_qid(b@.skip(p0 as int)));
        }
        let ty = match FileType::hydrate(b, pos) {
            Ok(ty) => ty,
            Err(e) => {
                return Err(e);
            },
        };
        assert(b@.skip(p0 as int).skip(1) =~= b@.skip(p0 + 1));
        let version = match u32::hydrate(b, pos) {
            Ok(version) => version,
            Err(e) => {
                return Err(e);
            },
        };
        assert(b@.skip(p0 as int).skip(5) =~= b@.skip(p0 + 5));
        let path = match u64::hydrate(b, pos) {
            Ok(path) => path,
            Err(e) => {
                return Err(e);
            },
        };
        Ok(Qid { ty, version, path })
    }
}

impl Dehydrate for Qid {
    type Error = Truncated;

    open spec fn wire(m: Qid) -> Seq<u8> {
        wire_qid(m)
    }

    open spec fn wire_ok(m: Qid) -> bool {
        true
    }

    fn dehydrate(&self, b: &mut Vec<u8>) -> (r: Result<(), Truncated>) {
        let ghost b0 = b@;
        let v: u8 = self.ty.into();
        push_u8(b, v);
        push_u32(b, self.version);
        push_u64(b, self.path);
        assert(b@ =~= b0 + wire_qid(*self));
        Ok(())
    }
}

} // verus!
