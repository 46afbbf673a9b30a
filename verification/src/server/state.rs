//! Per-connection session state: the fid table of open file handles and
//! the tag table of in-flight requests.

use super::traits::File;
use crate::raw::{Fid, Tag, T};
use std::collections::hash_map::Entry;
use std::collections::HashMap;
use vstd::prelude::*;

verus! {

broadcast use vstd::std_specs::hash::group_hash_axioms;

/// The abstract form of a session: who attached, and to which tree.
pub ghost struct SessionView {
    /// The user name given at attach.
    pub uname: Seq<char>,
    /// The tree name given at attach.
    pub aname: Seq<char>,
}

/// Session being requested. This contains internal state about the
/// connecting user and the filesystem requested.
#[derive(Debug, Clone)]
pub struct Session {
    uname: String,
    aname: String,
}

impl DeepView for Session {
    type V = SessionView;

    closed spec fn deep_view(&self) -> SessionView {
        SessionView { uname: self.uname@, aname: self.aname@ }
    }
}

impl Session {
    /// Create a new Session.
    pub fn new(uname: String, aname: String) -> (r: Self)
        ensures
            r.deep_view() == (SessionView { uname: uname@, aname: aname@ }),
    {
        Self { uname, aname }
    }

    /// The user name given at attach.
    pub fn uname(&self) -> (r: &str)
        ensures
            r@ == self.deep_view().uname,
    {
        self.uname.as_str()
    }

    /// The tree name given at attach.
    pub fn aname(&self) -> (r: &str)
        ensures
            r@ == self.deep_view().aname,
    {
        self.aname.as_str()
    }

    /// A copy whose abstract form is the same.
    pub fn duplicate(&self) -> (r: Session)
        ensures
            r.deep_view() == self.deep_view(),
    {
        Session { uname: self.uname.clone(), aname: self.aname.clone() }
    }
}

/// Handle to an open File of type FileT: the logical file, the session
/// that established it, and any open-file state once an open succeeds.
pub struct FileHandle<FileT: File> {
    /// The session of the attach this fid descends from.
    pub session: Session,
    /// The file this fid names.
    pub file: FileT,
    /// The open-file state, once the fid has been opened.
    pub of: Option<FileT::OpenFile>,
}

/// Errors which the FileHandles manager may return.
#[derive(Debug, Clone, Copy, PartialEq, Eq, Structural)]
pub enum FileHandlesError {
    /// File descriptor already exists.
    FidAlreadyExists,
    /// No such file descriptor has been defined yet, or it has been
    /// clunked.
    NoSuchFid,
}

/// Map of all open Files (wrapped in their FileHandle) by file
/// descriptor.
pub struct FileHandles<FileT: File> {
    handles: HashMap<Fid, FileHandle<FileT>>,
}

impl<FileT: File> View for FileHandles<FileT> {
    type V = Map<Fid, FileHandle<FileT>>;

    closed spec fn view(&self) -> Map<Fid, FileHandle<FileT>> {
        self.handles@
    }
}

impl<FileT: File> Default for FileHandles<FileT> {
    fn default() -> (r: Self)
        ensures
            r@ == Map::<Fid, FileHandle<FileT>>::empty(),
    {
        Self::new()
    }
}

impl<FileT: File> FileHandles<FileT> {
    /// Create a new FileHandles wrapper with no live fids.
    pub fn new() -> (r: Self)
        ensures
            r@ == Map::<Fid, FileHandle<FileT>>::empty(),
    {
        Self { handles: HashMap::new() }
    }

    /// Add a new FileT, bound to the provided Session, known by the
    /// provided file descriptor. Fails if the fid is live.
    pub fn insert(&mut self, fid: Fid, session: Session, file: FileT) -> (r: Result<
        (),
        FileHandlesError,
    >)
        ensures
            old(self)@.contains_key(fid) ==> (r matches Err(FileHandlesError::FidAlreadyExists)
                && final(self)@ == old(self)@),
            !old(self)@.contains_key(fid) ==> (r matches Ok(_) && final(self)@ == old(
                self,
            )@.insert(fid, FileHandle { session, file, of: None })),
    {
        if self.handles.contains_key(&fid) {
            return Err(FileHandlesError::FidAlreadyExists);
        }
        self.handles.insert(fid, FileHandle { session, file, of: None });
        Ok(())
    }

    /// Remove the FileT known by the provided file descriptor, returning
    /// its handle.
    pub fn remove(&mut self, fid: Fid) -> (r: Result<FileHandle<FileT>, FileHandlesError>)
        ensures
            old(self)@.contains_key(fid) ==> (r matches Ok(h) && h == old(self)@[fid] && final(self)@ == old(self)@.remove(fid)),
            !old(self)@.contains_key(fid) ==> (r matches Err(FileHandlesError::NoSuchFid) && final(self)@ == old(self)@),
    {
        match self.handles.remove(&fid) {
            Some(fh) => Ok(fh),
            None => Err(FileHandlesError::NoSuchFid),
        }
    }

    /// Borrow the handle known by the provided file descriptor.
    pub fn get(&self, fid: Fid) -> (r: Result<&FileHandle<FileT>, FileHandlesError>)
        ensures
            self@.contains_key(fid) ==> (r matches Ok(h) && *h == self@[fid]),
            !self@.contains_key(fid) ==> r matches Err(FileHandlesError::NoSuchFid),
    {
        match self.handles.get(&fid) {
            Some(fh) => Ok(fh),
            None => Err(FileHandlesError::NoSuchFid),
        }
    }

    /// Borrow the handle known by the provided file descriptor, for
    /// mutation.
    pub fn get_mut(&mut self, fid: Fid) -> (r: Result<&mut FileHandle<FileT>, FileHandlesError>)
        ensures
            old(self)@.contains_key(fid) ==> (r matches Ok(h) && *h == old(self)@[fid] && final(self)@ == old(self)@.insert(fid, *final(h))),
            !old(self)@.contains_key(fid) ==> (r matches Err(FileHandlesError::NoSuchFid) && final(self)@ == old(self)@),
    {
        match self.handles.entry(fid) {
            Entry::Occupied(e) => Ok(e.into_mut()),
            Entry::Vacant(v) => {
                let _ = v.into_key();
                proof {
                    assert(old(self)@.remove(fid) =~= old(self)@);
                }
                Err(FileHandlesError::NoSuchFid)
            },
        }
    }
}

/// Request type: a handle keeping the T message a tag stands for.
pub struct Request {
    /// The request message, as it arrived.
    pub t: T,
}

/// Possible errors from the state code when resolving a tag during a
/// session.
#[derive(Debug, Clone, Copy, PartialEq, Eq, Structural)]
pub enum RequestsError {
    /// That tag already exists and is still active.
    TagAlreadyExists,
    /// No such tag exists by that name anymore.
    NoSuchTag,
}

/// All pending requests known to the server.
pub struct Requests {
    requests: HashMap<Tag, Request>,
}

impl View for Requests {
    type V = Map<Tag, Request>;

    closed spec fn view(&self) -> Map<Tag, Request> {
        self.requests@
    }
}

impl Default for Requests {
    fn default() -> (r: Self)
        ensures
            r@ == Map::<Tag, Request>::empty(),
    {
        Self::new()
    }
}

impl Requests {
    /// Create a new Requests state tracking object with no tags in
    /// flight.
    pub fn new() -> (r: Self)
        ensures
            r@ == Map::<Tag, Request>::empty(),
    {
        Self { requests: HashMap::new() }
    }

    /// Insert a new T message under its tag. Fails if the tag is still
    /// in flight.
    pub fn insert(&mut self, tag: Tag, t: T) -> (r: Result<(), RequestsError>)
        ensures
            old(self)@.contains_key(tag) ==> (r matches Err(RequestsError::TagAlreadyExists)
                && final(self)@ == old(self)@),
            !old(self)@.contains_key(tag) ==> (r matches Ok(_) && final(self)@ == old(
                self,
            )@.insert(tag, Request { t })),
    {
        if self.requests.contains_key(&tag) {
            return Err(RequestsError::TagAlreadyExists);
        }
        self.requests.insert(tag, Request { t });
        Ok(())
    }

    /// Remove the request known to us by the provided tag, returning it.
    pub fn remove(&mut self, tag: Tag) -> (r: Result<Request, RequestsError>)
        ensures
            old(self)@.contains_key(tag) ==> (r matches Ok(req) && req == old(self)@[tag] && final(self)@ == old(self)@.remove(tag)),
            !old(self)@.contains_key(tag) ==> (r matches Err(RequestsError::NoSuchTag) && final(self)@ == old(self)@),
    {
        match self.requests.remove(&tag) {
            Some(req) => Ok(req),
            None => Err(RequestsError::NoSuchTag),
        }
    }

    /// Borrow the request known to us by the provided tag.
    pub fn get(&self, tag: Tag) -> (r: Result<&Request, RequestsError>)
        ensures
            self@.contains_key(tag) ==> (r matches Ok(req) && *req == self@[tag]),
            !self@.contains_key(tag) ==> r matches Err(RequestsError::NoSuchTag),
    {
        match self.requests.get(&tag) {
            Some(req) => Ok(req),
            None => Err(RequestsError::NoSuchTag),
        }
    }
}

} // verus!
