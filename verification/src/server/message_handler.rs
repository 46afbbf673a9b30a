//! The request dispatcher: one handler per opcode, translating each
//! request into calls against the abstract filesystem and a typed reply.
//!
//! The contract pins every reply that no filesystem call decides — the
//! post-handshake version rebuff, the auth refusal, flush, clunk, the
//! unknown-opcode error, and every fid-table error — and states, for the
//! rest, exactly how the fid table may change and which replies may come
//! back, whatever the filesystem did.

use super::async_server::FilesystemMap;
use super::state::{FileHandle, FileHandles, FileHandlesError, Requests, Session, SessionView};
use super::traits::{File, Filesystem, OpenFile};
use super::ServerError;
use crate::raw::messages_r::{RView, R};
use crate::raw::messages_t::{TView, T};
use crate::raw::protocol::{Fid, FileType, OpenMode, Qid, Tag};
use vstd::prelude::*;
use vstd::string::StringExecFns;

verus! {

/// The smaller of two 32-bit counts.
pub open spec fn spec_min_u32(a: u32, b: u32) -> u32 {
    if a < b {
        a
    } else {
        b
    }
}

/// A read reply's data: the buffer the embedder filled, resized to the
/// count it reported — truncated if it claimed less than the buffer,
/// padded with zero bytes if it claimed more.
pub open spec fn spec_read_crop(data: Seq<u8>, n: u32) -> Seq<u8> {
    if n <= data.len() {
        data.take(n as int)
    } else {
        data + Seq::new((n - data.len()) as nat, |i: int| 0u8)
    }
}

/// The buffer the dispatcher hands to a read: `min(count, msize)` zero
/// bytes. The count is the client's ask; the negotiated msize caps it.
pub fn read_buffer(count: u32, msize: u32) -> (r: Vec<u8>)
    ensures
        r@.len() == spec_min_u32(count, msize),
        forall|i: int| 0 <= i < r@.len() ==> r@[i] == 0u8,
{
    let cap: u32 = if count < msize {
        count
    } else {
        msize
    };
    let mut buf: Vec<u8> = Vec::new();
    let mut i: u32 = 0;
    while i < cap
        invariant
            i <= cap,
            buf@.len() == i,
            forall|j: int| 0 <= j < i ==> buf@[j] == 0u8,
        decreases cap - i,
    {
        buf.push(0u8);
        i = i + 1;
    }
    buf
}

/// Build the read reply: the buffer as the embedder left it, resized to
/// the count the embedder reported.
pub fn read_reply(tag: Tag, data: Vec<u8>, n: u32) -> (r: R)
    ensures
        r.deep_view() == RView::Read(tag, spec_read_crop(data@, n)),
{
    let ghost data0 = data@;
    let mut data = data;
    if (n as usize) <= data.len() {
        data.truncate(n as usize);
    } else {
        while data.len() < n as usize
            invariant
                data0.len() < n,
                data0.len() <= data@.len() <= n,
                data@ == data0 + Seq::new((data@.len() - data0.len()) as nat, |i: int| 0u8),
            decreases n as usize - data@.len(),
        {
            data.push(0u8);
            proof {
                assert(data@ =~= data0 + Seq::new((data@.len() - data0.len()) as nat, |i: int| 0u8));
            }
        }
    }
    proof {
        assert(data.deep_view() =~= spec_read_crop(data0, n));
    }
    R::Read(tag, data)
}

/// The qids of the files a walk traversed, one per intermediate, in
/// order.
fn walk_qids<FileT: File>(files: &Vec<FileT>) -> (r: Vec<Qid>)
    ensures
        r@.len() == files@.len(),
    decreases files@.len(),
{
    let mut qids: Vec<Qid> = Vec::new();
    let mut i: usize = 0;
    while i < files.len()
        invariant
            i <= files@.len(),
            qids@.len() == i,
        decreases files@.len() - i,
    {
        qids.push(files[i].qid());
        i = i + 1;
    }
    qids
}

/// Decide a walk's reply and binding from what the embedder's walk
/// returned: the file it ended on (if any) and the intermediates it
/// traversed.
///
/// The decision table: no final file with a full intermediate list is
/// "not found"; no final file with a shorter list reports the
/// successful prefix and binds nothing; a final file with a count
/// mismatch is a back-end inconsistency; a final file with a matching
/// count binds `newfid` — rebinding is allowed when `newfid` equals
/// `fid`, while a collision with a distinct live fid fails. A walk
/// reply always carries one qid per intermediate.
#[verifier::rlimit(30)]
#[verifier::spinoff_prover]
pub fn walk_reply<FileT: File>(
    handles: &mut FileHandles<FileT>,
    tag: Tag,
    fid: Fid,
    newfid: Fid,
    session: Session,
    nwname: usize,
    fileopt: Option<FileT>,
    files: Vec<FileT>,
) -> (r: Result<R, ServerError>)
    ensures
        fileopt is None ==> {
            &&& files@.len() == nwname ==> (r matches Ok(resp) && resp.deep_view() == RView::Error(
                tag,
                "ENOENT"@,
                2u32,
            ) && final(handles)@ == old(handles)@)
            &&& files@.len() != nwname ==> (r matches Ok(resp) && (resp.deep_view()
                matches RView::Walk(t2, qs) && t2 == tag && qs.len() == files@.len()) && final(handles)@ == old(handles)@)
        },
        fileopt matches Some(f) ==> {
            &&& files@.len() != nwname ==> (r matches Ok(resp) && resp.deep_view() == RView::Error(
                tag,
                "EINVAL"@,
                22u32,
            ) && final(handles)@ == old(handles)@)
            &&& files@.len() == nwname && newfid != fid && old(handles)@.contains_key(newfid)
                ==> (r matches Err(e) && e == ServerError::FileHandlesError(
                FileHandlesError::FidAlreadyExists,
            ) && final(handles)@ == old(handles)@)
            &&& files@.len() == nwname && (newfid == fid || !old(handles)@.contains_key(newfid))
                ==> (r matches Ok(resp) && (resp.deep_view() matches RView::Walk(t2, qs) && t2
                == tag && qs.len() == files@.len()) && final(handles)@ == old(handles)@.insert(
                newfid,
                FileHandle { session, file: f, of: None },
            ))
        },
{
    let ghost h0 = handles@;
    let qids = walk_qids(&files);
    match fileopt {
        None => {
            if files.len() == nwname {
                Ok(R::Error(tag, String::from_str("ENOENT"), 2))
            } else {
                Ok(R::Walk(tag, qids))
            }
        },
        Some(file) => {
            if files.len() != nwname {
                return Ok(R::Error(tag, String::from_str("EINVAL"), 22));
            }
            if newfid == fid {
                let _ = handles.remove(newfid);
            }
            match handles.insert(newfid, session, file) {
                Ok(_) => {
                    proof {
                        if newfid == fid {
                            assert(h0.remove(fid).insert(newfid, final(handles)@[newfid]) =~= h0.insert(
                                newfid,
                                final(handles)@[newfid],
                            ));
                        }
                    }
                    Ok(R::Walk(tag, qids))
                },
                Err(e) => Err(ServerError::FileHandlesError(e)),
            }
        },
    }
}

/// Dispatch one request against the connection's state, producing the
/// reply to send or the server error to report.
#[verifier::rlimit(100)]
#[verifier::spinoff_prover]
pub fn message_handler<FilesystemT: Filesystem>(
    msize: u32,
    filesystems: &FilesystemMap<FilesystemT>,
    handles: &mut FileHandles<FilesystemT::File>,
    requests: &mut Requests,
    t: T,
) -> (r: Result<R, ServerError>)
    ensures
        !(t.deep_view() matches TView::Flush(_, _)) ==> final(requests)@ == old(requests)@,
        match t.deep_view() {
            TView::Unknown(_, tag, _) => final(handles)@ == old(handles)@ && (r matches Ok(resp)
                && resp.deep_view() == RView::Error(tag, "ENOSYS"@, 38u32)),
            TView::Version(tag, _, _) => final(handles)@ == old(handles)@ && (r matches Ok(resp)
                && resp.deep_view() == RView::Error(tag, "EALREADY"@, 114u32)),
            TView::Auth(tag, _, _, _, _) => final(handles)@ == old(handles)@ && (r matches Ok(resp)
                && resp.deep_view() == RView::Error(tag, "ECONNREFUSED"@, 111u32)),
            TView::Flush(tag, oldtag) => {
                &&& final(handles)@ == old(handles)@
                &&& final(requests)@ == old(requests)@.remove(oldtag)
                &&& r matches Ok(resp) && resp.deep_view() == RView::Flush(tag)
            },
            TView::Attach(tag, fid, _afid, uname, aname, _nuname) => {
                &&& !filesystems@.contains_key(aname) ==> (r matches Err(e) && e matches
                    ServerError::NoSuchFilesystem && final(handles)@ == old(handles)@)
                &&& filesystems@.contains_key(aname) ==> {
                    ||| (r matches Err(e) && e matches ServerError::FileError(_) && final(handles)@
                        == old(handles)@)
                    ||| (r matches Err(e) && e == ServerError::FileHandlesError(
                        FileHandlesError::FidAlreadyExists,
                    ) && old(handles)@.contains_key(fid) && final(handles)@ == old(handles)@)
                    ||| (r matches Ok(resp) && {
                        &&& resp.deep_view() matches RView::Attach(t2, _) && t2 == tag
                        &&& !old(handles)@.contains_key(fid)
                        &&& final(handles)@ == old(handles)@.insert(fid, final(handles)@[fid])
                        &&& final(handles)@[fid].of is None
                        &&& final(handles)@[fid].session.deep_view() == (SessionView {
                            uname,
                            aname,
                        })
                    })
                }
            },
            TView::Walk(tag, fid, newfid, _names) => {
                &&& !old(handles)@.contains_key(fid) ==> (r matches Err(e) && e
                    == ServerError::FileHandlesError(FileHandlesError::NoSuchFid) && final(handles)@ == old(handles)@)
                &&& old(handles)@.contains_key(fid) ==> {
                    ||| (r matches Err(e) && e matches ServerError::FileError(_) && final(handles)@
                        == old(handles)@)
                    ||| (r matches Err(e) && e == ServerError::FileHandlesError(
                        FileHandlesError::FidAlreadyExists,
                    ) && newfid != fid && old(handles)@.contains_key(newfid) && final(handles)@
                        == old(handles)@)
                    ||| (r matches Ok(resp) && {
                        ||| (resp.deep_view() matches RView::Error(t2, s2, c2) && t2 == tag && ((s2
                            == "ENOENT"@ && c2 == 2) || (s2 == "EINVAL"@ && c2 == 22)) && final(handles)@ == old(handles)@)
                        ||| (resp.deep_view() matches RView::Walk(t2, _) && t2 == tag && {
                            ||| final(handles)@ == old(handles)@
                            ||| ({
                                &&& final(handles)@ == old(handles)@.insert(
                                    newfid,
                                    final(handles)@[newfid],
                                )
                                &&& final(handles)@[newfid].of is None
                                &&& final(handles)@[newfid].session.deep_view() == old(
                                    handles,
                                )@[fid].session.deep_view()
                            })
                        })
                    })
                }
            },
            TView::Open(tag, fid, _mode) => {
                &&& !old(handles)@.contains_key(fid) ==> (r matches Err(e) && e
                    == ServerError::FileHandlesError(FileHandlesError::NoSuchFid) && final(handles)@ == old(handles)@)
                &&& old(handles)@.contains_key(fid) ==> {
                    &&& final(handles)@ == old(handles)@.insert(fid, final(handles)@[fid])
                    &&& final(handles)@[fid].session == old(handles)@[fid].session
                    &&& match r {
                        Ok(resp) => (resp.deep_view() matches RView::Open(t2, _, _) && t2 == tag)
                            && final(handles)@[fid].of is Some,
                        Err(e) => e matches ServerError::FileError(_) && final(handles)@[fid].of
                            == old(handles)@[fid].of,
                    }
                }
            },
            TView::Create(tag, fid, _name, _perm, _mode, _ext) => {
                &&& !old(handles)@.contains_key(fid) ==> (r matches Err(e) && e
                    == ServerError::FileHandlesError(FileHandlesError::NoSuchFid) && final(handles)@ == old(handles)@)
                &&& old(handles)@.contains_key(fid) ==> {
                    &&& final(handles)@ == old(handles)@.insert(fid, final(handles)@[fid])
                    &&& final(handles)@[fid].session == old(handles)@[fid].session
                    &&& match r {
                        Ok(resp) => (resp.deep_view() matches RView::Create(t2, _, iou) && t2
                            == tag && iou == 0) && final(handles)@[fid].of is Some,
                        Err(e) => e matches ServerError::FileError(_) && final(handles)@[fid].of
                            == old(handles)@[fid].of,
                    }
                }
            },
            TView::Read(tag, fid, _offset, _count) => {
                &&& !old(handles)@.contains_key(fid) ==> (r matches Err(e) && e
                    == ServerError::FileHandlesError(FileHandlesError::NoSuchFid) && final(handles)@ == old(handles)@)
                &&& old(handles)@.contains_key(fid) && old(handles)@[fid].of is None ==> (r
                    matches Ok(resp) && resp.deep_view() == RView::Error(tag, "EBADFD"@, 77u32)
                    && final(handles)@ == old(handles)@)
                &&& old(handles)@.contains_key(fid) && old(handles)@[fid].of is Some ==> {
                    &&& final(handles)@ == old(handles)@.insert(fid, final(handles)@[fid])
                    &&& final(handles)@[fid].session == old(handles)@[fid].session
                    &&& final(handles)@[fid].file == old(handles)@[fid].file
                    &&& final(handles)@[fid].of is Some
                    &&& match r {
                        Ok(resp) => resp.deep_view() matches RView::Read(t2, _) && t2 == tag,
                        Err(e) => e matches ServerError::FileError(_),
                    }
                }
            },
            TView::Write(tag, fid, _offset, _data) => {
                &&& !old(handles)@.contains_key(fid) ==> (r matches Err(e) && e
                    == ServerError::FileHandlesError(FileHandlesError::NoSuchFid) && final(handles)@ == old(handles)@)
                &&& old(handles)@.contains_key(fid) && old(handles)@[fid].of is None ==> (r
                    matches Ok(resp) && resp.deep_view() == RView::Error(tag, "EBADFD"@, 77u32)
                    && final(handles)@ == old(handles)@)
                &&& old(handles)@.contains_key(fid) && old(handles)@[fid].of is Some ==> {
                    &&& final(handles)@ == old(handles)@.insert(fid, final(handles)@[fid])
                    &&& final(handles)@[fid].session == old(handles)@[fid].session
                    &&& final(handles)@[fid].file == old(handles)@[fid].file
                    &&& final(handles)@[fid].of is Some
                    &&& match r {
                        Ok(resp) => resp.deep_view() matches RView::Write(t2, _) && t2 == tag,
                        Err(e) => e matches ServerError::FileError(_),
                    }
                }
            },
            TView::Clunk(tag, fid) => {
                &&& !old(handles)@.contains_key(fid) ==> (r matches Err(e) && e
                    == ServerError::FileHandlesError(FileHandlesError::NoSuchFid) && final(handles)@ == old(handles)@)
                &&& old(handles)@.contains_key(fid) ==> (r matches Ok(resp) && resp.deep_view()
                    == RView::Clunk(tag) && final(handles)@ == old(handles)@.remove(fid))
            },
            TView::Remove(tag, fid) => {
                &&& !old(handles)@.contains_key(fid) ==> (r matches Err(e) && e
                    == ServerError::FileHandlesError(FileHandlesError::NoSuchFid) && final(handles)@ == old(handles)@)
                &&& old(handles)@.contains_key(fid) ==> final(handles)@ == old(handles)@.remove(
                    fid,
                ) && match r {
                    Ok(resp) => resp.deep_view() == RView::Remove(tag),
                    Err(e) => e matches ServerError::FileError(_),
                }
            },
            TView::Stat(tag, fid) => {
                &&& !old(handles)@.contains_key(fid) ==> (r matches Err(e) && e
                    == ServerError::FileHandlesError(FileHandlesError::NoSuchFid))
                &&& final(handles)@ == old(handles)@
                &&& old(handles)@.contains_key(fid) ==> match r {
                    Ok(resp) => resp.deep_view() matches RView::Stat(t2, _) && t2 == tag,
                    Err(e) => e matches ServerError::FileError(_),
                }
            },
            TView::WStat(tag, fid, _stat) => {
                &&& !old(handles)@.contains_key(fid) ==> (r matches Err(e) && e
                    == ServerError::FileHandlesError(FileHandlesError::NoSuchFid) && final(handles)@ == old(handles)@)
                &&& old(handles)@.contains_key(fid) ==> {
                    &&& final(handles)@ == old(handles)@.insert(fid, final(handles)@[fid])
                    &&& final(handles)@[fid].session == old(handles)@[fid].session
                    &&& final(handles)@[fid].of == old(handles)@[fid].of
                    &&& match r {
                        Ok(resp) => resp.deep_view() == RView::WStat(tag),
                        Err(e) => e matches ServerError::FileError(_),
                    }
                }
            },
        },
{
    let ghost h0 = handles@;
    let ghost rq0 = requests@;
    match t {
        T::Version(tag, _, _) => Ok(R::Error(tag, String::from_str("EALREADY"), 114)),
        T::Auth(tag, _, _, _, _) => Ok(R::Error(tag, String::from_str("ECONNREFUSED"), 111)),
        T::Attach(tag, fid, _afid, uname, aname, nuname) => {
            let file = {
                let fs = match filesystems.get(&aname) {
                    Some(fs) => fs,
                    None => {
                        return Err(ServerError::NoSuchFilesystem);
                    },
                };
                match fs.attach(uname.as_str(), aname.as_str(), nuname) {
                    Ok(f) => f,
                    Err(e) => {
                        return Err(ServerError::FileError(e));
                    },
                }
            };
            let qid = file.qid();
            let session = Session::new(uname, aname);
            match handles.insert(fid, session, file) {
                Ok(_) => Ok(R::Attach(tag, qid)),
                Err(e) => Err(ServerError::FileHandlesError(e)),
            }
        },
        T::Flush(tag, oldtag) => {
            let removed = requests.remove(oldtag);
            proof {
                if !rq0.contains_key(oldtag) {
                    assert(rq0.remove(oldtag) =~= rq0);
                }
            }
            let _ = removed;
            Ok(R::Flush(tag))
        },
        T::Walk(tag, fid, newfid, names) => {
            let (session, walk_result) = {
                let handle = match handles.get(fid) {
                    Ok(h) => h,
                    Err(e) => {
                        return Err(ServerError::FileHandlesError(e));
                    },
                };
                let session = handle.session.duplicate();
                let walk_result = handle.file.walk(&names);
                (session, walk_result)
            };
            let (fileopt, files) = match walk_result {
                Ok(x) => x,
                Err(e) => {
                    return Err(ServerError::FileError(e));
                },
            };
            walk_reply(handles, tag, fid, newfid, session, names.len(), fileopt, files)
        },
        T::Open(tag, fid, mode) => {
            let handle = match handles.get_mut(fid) {
                Ok(h) => h,
                Err(e) => {
                    return Err(ServerError::FileHandlesError(e));
                },
            };
            let of = match handle.file.open(mode) {
                Ok(of) => of,
                Err(e) => {
                    return Err(ServerError::FileError(e));
                },
            };
            let iounit = of.iounit();
            let qid = handle.file.qid();
            handle.of = Some(of);
            Ok(R::Open(tag, qid, iounit))
        },
        T::Create(tag, fid, name, perm, mode, extension) => {
            let handle = match handles.get_mut(fid) {
                Ok(h) => h,
                Err(e) => {
                    return Err(ServerError::FileHandlesError(e));
                },
            };
            let mode: OpenMode = mode.into();
            let ty: FileType = perm.into();
            let perm16: u16 = (perm & 0o777) as u16;
            let mut f = match handle.file.create(
                name.as_str(),
                perm16,
                ty,
                mode,
                extension.as_str(),
            ) {
                Ok(f) => f,
                Err(e) => {
                    return Err(ServerError::FileError(e));
                },
            };
            let of = match f.open(mode) {
                Ok(of) => of,
                Err(e) => {
                    return Err(ServerError::FileError(e));
                },
            };
            let qid = f.qid();
            handle.of = Some(of);
            Ok(R::Create(tag, qid, 0))
        },
        T::Read(tag, fid, offset, count) => {
            let handle = match handles.get_mut(fid) {
                Ok(h) => h,
                Err(e) => {
                    return Err(ServerError::FileHandlesError(e));
                },
            };
            match &mut handle.of {
                Some(of) => {
                    let mut buf = read_buffer(count, msize);
                    let n = match of.read_at(&mut buf, offset) {
                        Ok(n) => n,
                        Err(e) => {
                            return Err(ServerError::FileError(e));
                        },
                    };
                    Ok(read_reply(tag, buf, n))
                },
                None => {
                    proof {
                        assert(h0.insert(fid, h0[fid]) =~= h0);
                    }
                    Ok(R::Error(tag, String::from_str("EBADFD"), 77))
                },
            }
        },
        T::Write(tag, fid, offset, data) => {
            let handle = match handles.get_mut(fid) {
                Ok(h) => h,
                Err(e) => {
                    return Err(ServerError::FileHandlesError(e));
                },
            };
            match &mut handle.of {
                Some(of) => {
                    let n = match of.write_at(&data, offset) {
                        Ok(n) => n,
                        Err(e) => {
                            return Err(ServerError::FileError(e));
                        },
                    };
                    Ok(R::Write(tag, n))
                },
                None => {
                    proof {
                        assert(h0.insert(fid, h0[fid]) =~= h0);
                    }
                    Ok(R::Error(tag, String::from_str("EBADFD"), 77))
                },
            }
        },
        T::Clunk(tag, fid) => {
            match handles.remove(fid) {
                Ok(_) => Ok(R::Clunk(tag)),
                Err(e) => Err(ServerError::FileHandlesError(e)),
            }
        },
        T::Remove(tag, fid) => {
            let mut handle = match handles.remove(fid) {
                Ok(h) => h,
                Err(e) => {
                    return Err(ServerError::FileHandlesError(e));
                },
            };
            match handle.file.unlink() {
                Ok(_) => Ok(R::Remove(tag)),
                Err(e) => Err(ServerError::FileError(e)),
            }
        },
        T::Stat(tag, fid) => {
            let handle = match handles.get(fid) {
                Ok(h) => h,
                Err(e) => {
                    return Err(ServerError::FileHandlesError(e));
                },
            };
            let stat = match handle.file.stat() {
                Ok(s) => s,
                Err(e) => {
                    return Err(ServerError::FileError(e));
                },
            };
            Ok(R::Stat(tag, stat))
        },
        T::WStat(tag, fid, stat) => {
            let handle = match handles.get_mut(fid) {
                Ok(h) => h,
                Err(e) => {
                    return Err(ServerError::FileHandlesError(e));
                },
            };
            match handle.file.wstat(&stat) {
                Ok(_) => Ok(R::WStat(tag)),
                Err(e) => {
                    return Err(ServerError::FileError(e));
                },
            }
        },
        T::Unknown(_ty, tag, _) => Ok(R::Error(tag, String::from_str("ENOSYS"), 38)),
    }
}

} // verus!
