//! The per-connection decisions around the dispatcher: the handshake
//! that negotiates version and message size, the bookkeeping that
//! tracks each request's tag from arrival to reply, and the mapping
//! from server errors to error replies. The loop that moves bytes belongs to the
//! embedding application; every decision it takes is here.

use super::state::{Request, Requests};
use super::ServerError;
use crate::raw::messages_r::{RView, R};
use crate::raw::messages_t::{t_tag, TView, T};
use crate::raw::version::{Version, VersionError};
use crate::raw::Tag;
use vstd::prelude::*;
use vstd::string::StringExecFns;

verus! {

/// What one message does to a handshake in progress.
pub enum HandshakeOutcome {
    /// Not a version request: the message is dropped and the handshake
    /// keeps waiting.
    Pending,
    /// Agreement: the negotiated message size ceiling, the negotiated
    /// version, and the version reply to send before entering service.
    Accept(u32, Version, R),
    /// No agreement: the error reply to send before closing the
    /// connection.
    Reject(R),
}

/// Decide a handshake step. A version request negotiates: the message
/// size ceiling becomes the smaller of the two offers, the ids must
/// match exactly, and the client's variant must equal the server's
/// unless the server offered none. Any other message is dropped.
pub fn handshake(server_msize: u32, version: &Version, t: &T) -> (r: HandshakeOutcome)
    ensures
        match t.deep_view() {
            TView::Version(tag, client_msize, cv) => {
                let sv = version.deep_view();
                let m = if server_msize < client_msize {
                    server_msize
                } else {
                    client_msize
                };
                &&& sv.id != cv.id ==> (r matches HandshakeOutcome::Reject(reply)
                    && reply.deep_view() == RView::Error(tag, "MismatchedId"@, 0xFFFFFFFFu32))
                &&& sv.id == cv.id && (sv.variant == cv.variant || sv.variant is None) ==> (r
                    matches HandshakeOutcome::Accept(ms, v, reply) && ms == m && v.deep_view()
                    == sv && reply.deep_view() == RView::Version(tag, m, sv))
                &&& sv.id == cv.id && sv.variant != cv.variant && sv.variant is Some ==> (r
                    matches HandshakeOutcome::Reject(reply) && reply.deep_view() == RView::Error(
                    tag,
                    "MismatchedVariant"@,
                    0xFFFFFFFFu32,
                ))
            },
            _ => r is Pending,
        },
{
    match t {
        T::Version(tag, client_msize, client_version) => {
            let conn_msize = if server_msize < *client_msize {
                server_msize
            } else {
                *client_msize
            };
            match version.try_negotiate(client_version) {
                Ok(conn_version) => {
                    let reply = R::Version(*tag, conn_msize, conn_version.duplicate());
                    HandshakeOutcome::Accept(conn_msize, conn_version, reply)
                },
                Err(e) => {
                    let text = match e {
                        VersionError::MismatchedId => String::from_str("MismatchedId"),
                        VersionError::MismatchedVariant => String::from_str("MismatchedVariant"),
                        VersionError::StringError(_) => String::from_str("StringError"),
                    };
                    HandshakeOutcome::Reject(R::Error(*tag, text, 0xFFFFFFFF))
                },
            }
        },
        _ => HandshakeOutcome::Pending,
    }
}

/// Admit a request into the tag table before dispatching it. A tag
/// still in flight is a protocol fault: the request is not admitted,
/// and the caller drops it without a reply.
pub fn accept_request(requests: &mut Requests, t: &T) -> (r: bool)
    ensures
        old(requests)@.contains_key(t_tag(t.deep_view())) ==> r == false && final(requests)@ == old(
            requests,
        )@,
        !old(requests)@.contains_key(t_tag(t.deep_view())) ==> r == true && final(requests)@
            == old(requests)@.insert(t_tag(t.deep_view()), final(requests)@[t_tag(t.deep_view())])
            && final(requests)@[t_tag(t.deep_view())].t.deep_view() == t.deep_view(),
{
    let tag = t.tag();
    match requests.insert(tag, t.duplicate()) {
        Ok(_) => true,
        Err(_) => false,
    }
}

/// Hand back the reply for a finished request, removing its tag. A tag
/// no longer in the table was flushed while the request ran: its late
/// reply is discarded, and the caller sends nothing.
pub fn finish_request(requests: &mut Requests, tag: Tag, reply: R) -> (r: Option<R>)
    ensures
        old(requests)@.contains_key(tag) ==> r == Some(reply) && final(requests)@ == old(
            requests,
        )@.remove(tag),
        !old(requests)@.contains_key(tag) ==> r is None && final(requests)@ == old(requests)@,
{
    match requests.remove(tag) {
        Ok(_) => Some(reply),
        Err(_) => None,
    }
}

/// The error reply for a failed dispatch. A file error carries the
/// back-end's own errno and description — the only path that hands a
/// real POSIX errno to the client; every other server error is reported
/// under its name with the all-ones errno.
pub fn error_reply(tag: Tag, err: &ServerError) -> (r: R)
    ensures
        match err {
            ServerError::FileError(fe) => r.deep_view() == RView::Error(tag, fe.1@, fe.0),
            _ => r.deep_view() == RView::Error(
                tag,
                super::server_error_text(*err),
                0xFFFFFFFFu32,
            ),
        },
{
    match err {
        ServerError::FileError(fe) => R::Error(tag, fe.1.clone(), fe.0),
        _ => R::Error(tag, err.describe(), 0xFFFFFFFF),
    }
}

/// Flushing suppresses the flushed request's own reply. Dispatching a
/// flush of `oldtag` leaves the tag table without it (see
/// [`super::message_handler::message_handler`]); [`finish_request`]
/// discards the reply of any tag no longer in the table. So once the
/// flush has been dispatched, the flushed request's eventual reply is
/// never sent, and only the flush's own acknowledgement reaches the
/// wire.
pub proof fn lemma_flush_suppresses_reply(
    before: Map<Tag, Request>,
    after: Map<Tag, Request>,
    oldtag: Tag,
)
    requires
        after == before.remove(oldtag),
    ensures
        !after.contains_key(oldtag),
{
}

} // verus!
