//! The capability set an embedding application implements: a filesystem
//! that hands out files, files that can be walked, opened and created,
//! and open files that can be read and written.
//!
//! The methods here carry no contracts on purpose: the library is
//! verified for every behaviour an implementation may have, and promises
//! about replies are made only where no capability call decides them.

use crate::raw::{FileType, OpenMode, Qid, Stat};
use vstd::prelude::*;

verus! {

/// A 9P error: numerical code and description as defined by the 9P UNIX
/// variant.
#[derive(Debug)]
pub struct FileError(pub u32, pub String);

/// Result used by the File trait.
pub type FileResult<RetT> = Result<RetT, FileError>;

/// Result used by the Filesystem trait.
pub type FilesystemResult<RetT> = Result<RetT, FileError>;

/// Handle to an open file.
pub trait OpenFile: Sized {
    /// Negotiated iounit; 0 means "no preferred unit".
    fn iounit(&self) -> u32;

    /// Read the file at some particular offset into `buf`, returning how
    /// many bytes were read.
    fn read_at(&mut self, buf: &mut Vec<u8>, offset: u64) -> FileResult<u32>;

    /// Write the file at some particular offset, returning how many
    /// bytes were written.
    fn write_at(&mut self, buf: &Vec<u8>, offset: u64) -> FileResult<u32>;
}

/// Trait to be implemented by a File returned by some Filesystem.
pub trait File: Sized {
    /// Type used to store state of an open File being accessed by the
    /// remote.
    type OpenFile: OpenFile;

    /// Get metadata about the file itself.
    fn stat(&self) -> FileResult<Stat>;

    /// Write stat back to the file.
    fn wstat(&mut self, s: &Stat) -> FileResult<()>;

    /// Walk from self (must be a directory) to some specific path in
    /// relation to self. This returns the ending file (if no error state
    /// was hit), as well as the files traversed along the way.
    fn walk(&self, path: &Vec<String>) -> FileResult<(Option<Self>, Vec<Self>)>;

    /// Remove the file.
    fn unlink(&mut self) -> FileResult<()>;

    /// Create a file named `name` under this directory.
    fn create(
        &mut self,
        name: &str,
        perm: u16,
        ty: FileType,
        mode: OpenMode,
        extension: &str,
    ) -> FileResult<Self>;

    /// Open the file.
    fn open(&mut self, mode: OpenMode) -> FileResult<Self::OpenFile>;

    /// The qid that names this file.
    fn qid(&self) -> Qid;
}

/// Filesystem represents a collection of files which may be accessed by
/// some peer.
pub trait Filesystem {
    /// Underlying File type to be returned when a file is accessed.
    type File: File;

    /// Create a new connection to this filesystem for some peer,
    /// returning an open file descriptor at the root directory.
    fn attach(&self, aname: &str, uname: &str, nuname: u32) -> FilesystemResult<Self::File>;
}

} // verus!
