//! End-to-end dispatch against the zero device: a directory holding
//! `zero`, `1gig`, `10gig` and `100gig`, read as endless zero bytes.

use arigato::raw::{Dehydrate, FileType, IoDirection, OpenMode, Qid, Stat, R, T};
use arigato::server::{
    accept_request, error_reply, finish_request, handshake, message_handler, read_buffer,
    read_reply, walk_reply, FileError, FileHandles, FileResult, Filesystem, FilesystemMap,
    FilesystemResult, HandshakeOutcome, Requests, Session,
};
use arigato::server::File as FileTrait;
use arigato::raw::Version;

struct Zero {}

impl Zero {
    fn new() -> Zero {
        Zero {}
    }
}

impl Filesystem for Zero {
    type File = File;

    fn attach(&self, _: &str, _: &str, _: u32) -> FilesystemResult<File> {
        Ok(File::Directory)
    }
}

#[derive(Clone, Debug)]
enum File {
    Directory,
    Zero,
    Gig,
    TenGig,
    HundredGig,
}

impl File {
    fn name(&self) -> &str {
        match self {
            Self::Directory => "/",
            Self::Zero => "zero",
            Self::Gig => "1gig",
            Self::TenGig => "10gig",
            Self::HundredGig => "100gig",
        }
    }

    fn stat_sync(&self) -> Stat {
        let qid = self.qid();
        let sb = Stat::builder(self.name(), qid).with_nuid(0).with_ngid(0).with_nmuid(0);
        let sb = match self {
            Self::Directory => sb.with_mode(0o777),
            Self::Zero => sb.with_mode(0o666),
            Self::Gig => sb.with_mode(0o666).with_size(1_000_000_000),
            Self::TenGig => sb.with_mode(0o666).with_size(10_000_000_000),
            Self::HundredGig => sb.with_mode(0o666).with_size(100_000_000_000),
        };
        sb.build()
    }
}

impl arigato::server::File for File {
    type OpenFile = OpenFile;

    fn qid(&self) -> Qid {
        match self {
            Self::Directory => Qid::new(FileType::Dir, 0, 1),
            Self::Zero => Qid::new(FileType::File, 0, 2),
            Self::Gig => Qid::new(FileType::File, 0, 3),
            Self::TenGig => Qid::new(FileType::File, 0, 4),
            Self::HundredGig => Qid::new(FileType::File, 0, 5),
        }
    }

    fn stat(&self) -> FileResult<Stat> {
        Ok(self.stat_sync())
    }

    fn wstat(&mut self, _: &Stat) -> FileResult<()> {
        Ok(())
    }

    fn walk(&self, path: &Vec<String>) -> FileResult<(Option<Self>, Vec<Self>)> {
        if path.is_empty() {
            return Ok((Some(self.clone()), vec![]));
        }
        if let Self::Directory = self {
            if path.len() != 1 {
                return Err(FileError(2, "ENOENT".to_string()));
            }
            match path[0].as_str() {
                "zero" => return Ok((Some(Self::Zero), vec![self.clone()])),
                "1gig" => return Ok((Some(Self::Gig), vec![self.clone()])),
                "10gig" => return Ok((Some(Self::TenGig), vec![self.clone()])),
                "100gig" => return Ok((Some(Self::HundredGig), vec![self.clone()])),
                _ => {},
            }
        }
        Err(FileError(2, "ENOENT".to_string()))
    }

    fn unlink(&mut self) -> FileResult<()> {
        Err(FileError(1, "EPERM".to_string()))
    }

    fn create(
        &mut self,
        _: &str,
        _: u16,
        _: FileType,
        _: OpenMode,
        _: &str,
    ) -> FileResult<Self> {
        Err(FileError(1, "EPERM".to_string()))
    }

    fn open(&mut self, om: OpenMode) -> FileResult<OpenFile> {
        match self {
            Self::Directory => {
                match om.direction() {
                    IoDirection::Read => {},
                    _ => return Err(FileError(1, "EPERM".to_string())),
                }
                let mut ent: Vec<u8> = Vec::new();
                Self::Zero.stat_sync().dehydrate(&mut ent).unwrap();
                Self::Gig.stat_sync().dehydrate(&mut ent).unwrap();
                Self::TenGig.stat_sync().dehydrate(&mut ent).unwrap();
                Self::HundredGig.stat_sync().dehydrate(&mut ent).unwrap();
                Ok(OpenFile::Listing(ent))
            },
            Self::Zero => Ok(OpenFile::Zero),
            Self::Gig => Ok(OpenFile::Sized(1_000_000_000)),
            Self::TenGig => Ok(OpenFile::Sized(10_000_000_000)),
            Self::HundredGig => Ok(OpenFile::Sized(100_000_000_000)),
        }
    }
}

enum OpenFile {
    Listing(Vec<u8>),
    Zero,
    Sized(u64),
}

impl arigato::server::OpenFile for OpenFile {
    fn iounit(&self) -> u32 {
        0
    }

    fn read_at(&mut self, buf: &mut Vec<u8>, off: u64) -> FileResult<u32> {
        match self {
            Self::Listing(ent) => {
                let start = (off as usize).min(ent.len());
                let n = buf.len().min(ent.len() - start);
                buf[..n].copy_from_slice(&ent[start..start + n]);
                Ok(n as u32)
            },
            Self::Zero => Ok(buf.len() as u32),
            Self::Sized(size) => Ok(buf.len().min((*size - off) as usize) as u32),
        }
    }

    fn write_at(&mut self, buf: &Vec<u8>, _: u64) -> FileResult<u32> {
        match self {
            Self::Listing(_) => Err(FileError(1, "EPERM".to_string())),
            Self::Zero => Ok(buf.len() as u32),
            Self::Sized(_) => Err(FileError(1, "EPERM".to_string())),
        }
    }
}

struct Conn {
    msize: u32,
    filesystems: FilesystemMap<Zero>,
    handles: FileHandles<File>,
    requests: Requests,
}

fn fresh_ready_connection() -> Conn {
    let mut filesystems = FilesystemMap::new();
    filesystems.insert("", Zero::new());
    let server_version: Version = "9P2000.u".parse().unwrap();
    let hello = T::Version(0xFFFF, 65536, "9P2000.u".parse().unwrap());
    let msize = match handshake(0xFFFFFF00, &server_version, &hello) {
        HandshakeOutcome::Accept(msize, version, reply) => {
            assert_eq!(msize, 65536);
            assert_eq!(version, server_version);
            assert_eq!(reply, R::Version(0xFFFF, 65536, "9P2000.u".parse().unwrap()));
            msize
        },
        _ => panic!("handshake did not accept 9P2000.u"),
    };
    Conn { msize, filesystems, handles: FileHandles::new(), requests: Requests::new() }
}

fn dispatch(conn: &mut Conn, t: T) -> Result<R, arigato::server::ServerError> {
    message_handler(conn.msize, &conn.filesystems, &mut conn.handles, &mut conn.requests, t)
}

#[test]
fn zero_device_session() {
    let mut conn = fresh_ready_connection();

    let r = dispatch(
        &mut conn,
        T::Attach(1, 0, 0xFFFFFFFF, "u".to_string(), "".to_string(), 0),
    )
    .unwrap();
    assert_eq!(r, R::Attach(1, Qid::new(FileType::Dir, 0, 1)));

    let r = dispatch(&mut conn, T::Walk(2, 0, 1, vec!["zero".to_string()])).unwrap();
    assert_eq!(r, R::Walk(2, vec![Qid::new(FileType::Dir, 0, 1)]));

    let r = dispatch(&mut conn, T::Open(3, 1, 0u8.into())).unwrap();
    assert_eq!(r, R::Open(3, Qid::new(FileType::File, 0, 2), 0));

    let r = dispatch(&mut conn, T::Read(4, 1, 0, 16)).unwrap();
    assert_eq!(r, R::Read(4, vec![0u8; 16]));

    let r = dispatch(&mut conn, T::Clunk(5, 1)).unwrap();
    assert_eq!(r, R::Clunk(5));

    let err = dispatch(&mut conn, T::Stat(6, 1)).unwrap_err();
    let reply = error_reply(6, &err);
    assert_eq!(reply, R::Error(6, "FileHandlesError(NoSuchFid)".to_string(), 0xFFFFFFFF));
}

#[test]
fn handshake_rejects_wrong_variant() {
    let server_version: Version = "9P2000.u".parse().unwrap();
    let hello = T::Version(0xFFFF, 65536, "9P2000.L".parse().unwrap());
    match handshake(0xFFFFFF00, &server_version, &hello) {
        HandshakeOutcome::Reject(reply) => {
            assert_eq!(reply, R::Error(0xFFFF, "MismatchedVariant".to_string(), 0xFFFFFFFF));
        },
        _ => panic!("handshake accepted a mismatched variant"),
    }
}

#[test]
fn handshake_drops_other_messages() {
    let server_version: Version = "9P2000.u".parse().unwrap();
    let stray = T::Clunk(9, 1);
    assert!(matches!(
        handshake(0xFFFFFF00, &server_version, &stray),
        HandshakeOutcome::Pending
    ));
}

#[test]
fn handshake_takes_smaller_msize() {
    let server_version: Version = "9P2000.u".parse().unwrap();
    let hello = T::Version(1, 1 << 20, "9P2000.u".parse().unwrap());
    match handshake(8192, &server_version, &hello) {
        HandshakeOutcome::Accept(msize, _, reply) => {
            assert_eq!(msize, 8192);
            assert_eq!(reply, R::Version(1, 8192, "9P2000.u".parse().unwrap()));
        },
        _ => panic!("handshake did not accept"),
    }
}

#[test]
fn dispatch_rebuffs_version_auth_unknown() {
    let mut conn = fresh_ready_connection();

    let r = dispatch(&mut conn, T::Version(7, 65536, "9P2000.u".parse().unwrap())).unwrap();
    assert_eq!(r, R::Error(7, "EALREADY".to_string(), 114));

    let r = dispatch(
        &mut conn,
        T::Auth(8, 1, "u".to_string(), "".to_string(), 0),
    )
    .unwrap();
    assert_eq!(r, R::Error(8, "ECONNREFUSED".to_string(), 111));

    let r = dispatch(&mut conn, T::Unknown(0xF0, 9, vec![])).unwrap();
    assert_eq!(r, R::Error(9, "ENOSYS".to_string(), 38));
}

#[test]
fn read_without_open_is_ebadfd() {
    let mut conn = fresh_ready_connection();
    dispatch(
        &mut conn,
        T::Attach(1, 0, 0xFFFFFFFF, "u".to_string(), "".to_string(), 0),
    )
    .unwrap();
    let r = dispatch(&mut conn, T::Read(2, 0, 0, 8)).unwrap();
    assert_eq!(r, R::Error(2, "EBADFD".to_string(), 77));
    let r = dispatch(&mut conn, T::Write(3, 0, 0, vec![1, 2, 3])).unwrap();
    assert_eq!(r, R::Error(3, "EBADFD".to_string(), 77));
}

#[test]
fn walk_to_missing_name_is_enoent() {
    let mut conn = fresh_ready_connection();
    dispatch(
        &mut conn,
        T::Attach(1, 0, 0xFFFFFFFF, "u".to_string(), "".to_string(), 0),
    )
    .unwrap();
    let err = dispatch(&mut conn, T::Walk(2, 0, 1, vec!["nope".to_string()])).unwrap_err();
    let reply = error_reply(2, &err);
    assert_eq!(reply, R::Error(2, "ENOENT".to_string(), 2));
}

#[test]
fn attach_to_unknown_tree_fails() {
    let mut conn = fresh_ready_connection();
    let err = dispatch(
        &mut conn,
        T::Attach(1, 0, 0xFFFFFFFF, "u".to_string(), "other".to_string(), 0),
    )
    .unwrap_err();
    let reply = error_reply(1, &err);
    assert_eq!(reply, R::Error(1, "NoSuchFilesystem".to_string(), 0xFFFFFFFF));
}

#[test]
fn attach_to_live_fid_fails() {
    let mut conn = fresh_ready_connection();
    dispatch(
        &mut conn,
        T::Attach(1, 0, 0xFFFFFFFF, "u".to_string(), "".to_string(), 0),
    )
    .unwrap();
    let err = dispatch(
        &mut conn,
        T::Attach(2, 0, 0xFFFFFFFF, "u".to_string(), "".to_string(), 0),
    )
    .unwrap_err();
    let reply = error_reply(2, &err);
    assert_eq!(reply, R::Error(2, "FileHandlesError(FidAlreadyExists)".to_string(), 0xFFFFFFFF));
}

#[test]
fn directory_listing_reads_stats() {
    let mut conn = fresh_ready_connection();
    dispatch(
        &mut conn,
        T::Attach(1, 0, 0xFFFFFFFF, "u".to_string(), "".to_string(), 0),
    )
    .unwrap();
    dispatch(&mut conn, T::Open(2, 0, 0u8.into())).unwrap();
    let r = dispatch(&mut conn, T::Read(3, 0, 0, 65536)).unwrap();
    let mut expect: Vec<u8> = Vec::new();
    File::Zero.stat_sync().dehydrate(&mut expect).unwrap();
    File::Gig.stat_sync().dehydrate(&mut expect).unwrap();
    File::TenGig.stat_sync().dehydrate(&mut expect).unwrap();
    File::HundredGig.stat_sync().dehydrate(&mut expect).unwrap();
    assert_eq!(r, R::Read(3, expect));
}

#[test]
fn flush_suppresses_late_reply() {
    let mut conn = fresh_ready_connection();

    // A request under tag 7 arrives and is admitted before dispatch.
    let pending = T::Stat(7, 0);
    assert!(accept_request(&mut conn.requests, &pending));

    // Before its reply is sent, a flush for tag 7 arrives, is admitted,
    // dispatched, and acknowledged at once.
    let flush = T::Flush(8, 7);
    assert!(accept_request(&mut conn.requests, &flush));
    let flush_reply = dispatch(&mut conn, flush).unwrap();
    assert_eq!(flush_reply, R::Flush(8));
    assert_eq!(finish_request(&mut conn.requests, 8, flush_reply), Some(R::Flush(8)));

    // The flushed request finishes late: its reply is discarded.
    let late = R::Error(7, "FileHandlesError(NoSuchFid)".to_string(), 0xFFFFFFFF);
    assert_eq!(finish_request(&mut conn.requests, 7, late), None);
}

#[test]
fn duplicate_tag_is_dropped() {
    let mut conn = fresh_ready_connection();
    let first = T::Stat(5, 0);
    assert!(accept_request(&mut conn.requests, &first));
    let second = T::Clunk(5, 0);
    assert!(!accept_request(&mut conn.requests, &second));
}

#[test]
fn walk_decision_table() {
    let mut handles: FileHandles<File> = FileHandles::new();
    let session = || Session::new("u".to_string(), "".to_string());

    // No final file, as many intermediates as names: not found.
    let r = walk_reply(&mut handles, 9, 0, 1, session(), 1, None, vec![File::Directory]).unwrap();
    assert_eq!(r, R::Error(9, "ENOENT".to_string(), 2));

    // No final file, shorter intermediate list: the successful prefix
    // is reported and nothing is bound.
    let r = walk_reply(&mut handles, 10, 0, 1, session(), 2, None, vec![File::Directory]).unwrap();
    assert_eq!(r, R::Walk(10, vec![Qid::new(FileType::Dir, 0, 1)]));
    assert!(handles.get(1).is_err());

    // A final file with a count mismatch is a back-end inconsistency.
    let r = walk_reply(&mut handles, 11, 0, 1, session(), 2, Some(File::Zero), vec![
        File::Directory,
    ])
    .unwrap();
    assert_eq!(r, R::Error(11, "EINVAL".to_string(), 22));
    assert!(handles.get(1).is_err());

    // A final file with a matching count binds the new fid.
    let r = walk_reply(&mut handles, 12, 0, 1, session(), 1, Some(File::Zero), vec![
        File::Directory,
    ])
    .unwrap();
    assert_eq!(r, R::Walk(12, vec![Qid::new(FileType::Dir, 0, 1)]));
    let h = handles.get(1).unwrap();
    assert_eq!(h.file.qid(), Qid::new(FileType::File, 0, 2));
    assert!(h.of.is_none());
    assert_eq!(h.session.uname(), "u");
    assert_eq!(h.session.aname(), "");

    // A collision with a distinct live fid fails.
    let err = walk_reply(&mut handles, 13, 0, 1, session(), 0, Some(File::Zero), vec![])
        .unwrap_err();
    let reply = error_reply(13, &err);
    assert_eq!(reply, R::Error(13, "FileHandlesError(FidAlreadyExists)".to_string(), 0xFFFFFFFF));

    // Rebinding the same fid is allowed.
    let r = walk_reply(&mut handles, 14, 1, 1, session(), 0, Some(File::Gig), vec![]).unwrap();
    assert_eq!(r, R::Walk(14, vec![]));
    assert_eq!(handles.get(1).unwrap().file.qid(), Qid::new(FileType::File, 0, 3));
}

#[test]
fn read_buffer_and_reply() {
    // The dispatcher's buffer: min(count, msize) zero bytes.
    assert_eq!(read_buffer(16, 8), vec![0u8; 8]);
    assert_eq!(read_buffer(4, 8), vec![0u8; 4]);

    // The reply: the buffer resized to the reported count.
    assert_eq!(read_reply(4, vec![1, 2, 3, 4], 2), R::Read(4, vec![1, 2]));
    assert_eq!(read_reply(4, vec![1, 2], 4), R::Read(4, vec![1, 2, 0, 0]));
    assert_eq!(read_reply(4, vec![1, 2], 2), R::Read(4, vec![1, 2]));
}
