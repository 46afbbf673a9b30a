//! The server half: per-connection session state, the request
//! dispatcher, the handshake and framing rules, and the builder the
//! embedding application configures.

pub mod async_server;
pub mod connection_handler;
pub mod frame;
pub mod message_handler;
pub mod state;
pub mod traits;

pub use async_server::{AsyncServerBuilder, FilesystemMap};
pub use connection_handler::{accept_request, error_reply, finish_request, handshake, HandshakeOutcome};
pub use message_handler::{message_handler, read_buffer, read_reply, walk_reply};
pub use state::{FileHandle, FileHandles, FileHandlesError, Request, Requests, RequestsError, Session};
pub use traits::{File, FileError, FileResult, Filesystem, FilesystemResult, OpenFile};

use crate::raw::{RError, TError};
use crate::server::state::{FileHandlesError as FhErr, RequestsError as RqErr};
use vstd::prelude::*;
use vstd::string::StringExecFns;

verus! {

/// Possible errors that may be returned while serving a connection.
#[derive(Debug)]
pub enum ServerError {
    /// Failed to come to an agreement with the client about the protocol
    /// to use.
    FailedToNegotiate,
    /// No filesystem by that name is known by this server.
    NoSuchFilesystem,
    /// The transport below us failed.
    IoError,
    /// A T message could not be decoded or encoded.
    TError(TError),
    /// An R message could not be decoded or encoded.
    RError(RError),
    /// Error with state management of incoming and outgoing requests.
    RequestsError(RequestsError),
    /// Error with the file handles management.
    FileHandlesError(FileHandlesError),
    /// Error with an underlying File.
    FileError(FileError),
}

impl vstd::std_specs::convert::FromSpecImpl<FileError> for ServerError {
    open spec fn obeys_from_spec() -> bool {
        true
    }

    open spec fn from_spec(fe: FileError) -> ServerError {
        ServerError::FileError(fe)
    }
}

impl From<FileError> for ServerError {
    fn from(fe: FileError) -> (r: Self) {
        Self::FileError(fe)
    }
}

impl vstd::std_specs::convert::FromSpecImpl<RequestsError> for ServerError {
    open spec fn obeys_from_spec() -> bool {
        true
    }

    open spec fn from_spec(re: RequestsError) -> ServerError {
        ServerError::RequestsError(re)
    }
}

impl From<RequestsError> for ServerError {
    fn from(re: RequestsError) -> (r: Self) {
        Self::RequestsError(re)
    }
}

impl vstd::std_specs::convert::FromSpecImpl<FileHandlesError> for ServerError {
    open spec fn obeys_from_spec() -> bool {
        true
    }

    open spec fn from_spec(fhe: FileHandlesError) -> ServerError {
        ServerError::FileHandlesError(fhe)
    }
}

impl From<FileHandlesError> for ServerError {
    fn from(fhe: FileHandlesError) -> (r: Self) {
        Self::FileHandlesError(fhe)
    }
}

impl vstd::std_specs::convert::FromSpecImpl<TError> for ServerError {
    open spec fn obeys_from_spec() -> bool {
        true
    }

    open spec fn from_spec(te: TError) -> ServerError {
        ServerError::TError(te)
    }
}

impl From<TError> for ServerError {
    fn from(te: TError) -> (r: Self) {
        Self::TError(te)
    }
}

impl vstd::std_specs::convert::FromSpecImpl<RError> for ServerError {
    open spec fn obeys_from_spec() -> bool {
        true
    }

    open spec fn from_spec(re: RError) -> ServerError {
        ServerError::RError(re)
    }
}

impl From<RError> for ServerError {
    fn from(re: RError) -> (r: Self) {
        Self::RError(re)
    }
}

/// The text a server error shows a client: the variant's name, with the
/// table errors carrying their member's name too. File errors carry
/// their own description instead and never reach this text on the wire.
pub open spec fn server_error_text(e: ServerError) -> Seq<char> {
    match e {
        ServerError::FailedToNegotiate => "FailedToNegotiate"@,
        ServerError::NoSuchFilesystem => "NoSuchFilesystem"@,
        ServerError::IoError => "IoError"@,
        ServerError::TError(_) => "TError"@,
        ServerError::RError(_) => "RError"@,
        ServerError::RequestsError(RqErr::TagAlreadyExists) => "RequestsError(TagAlreadyExists)"@,
        ServerError::RequestsError(RqErr::NoSuchTag) => "RequestsError(NoSuchTag)"@,
        ServerError::FileHandlesError(FhErr::FidAlreadyExists) => "FileHandlesError(FidAlreadyExists)"@,
        ServerError::FileHandlesError(FhErr::NoSuchFid) => "FileHandlesError(NoSuchFid)"@,
        ServerError::FileError(_) => "FileError"@,
    }
}

impl ServerError {
    /// The error's text form, as [`server_error_text`] names it.
    pub fn describe(&self) -> (r: String)
        ensures
            r@ == server_error_text(*self),
    {
        match self {
            ServerError::FailedToNegotiate => String::from_str("FailedToNegotiate"),
            ServerError::NoSuchFilesystem => String::from_str("NoSuchFilesystem"),
            ServerError::IoError => String::from_str("IoError"),
            ServerError::TError(_) => String::from_str("TError"),
            ServerError::RError(_) => String::from_str("RError"),
            ServerError::RequestsError(RequestsError::TagAlreadyExists) => String::from_str(
                "RequestsError(TagAlreadyExists)",
            ),
            ServerError::RequestsError(RequestsError::NoSuchTag) => String::from_str(
                "RequestsError(NoSuchTag)",
            ),
            ServerError::FileHandlesError(FileHandlesError::FidAlreadyExists) => String::from_str(
                "FileHandlesError(FidAlreadyExists)",
            ),
            ServerError::FileHandlesError(FileHandlesError::NoSuchFid) => String::from_str(
                "FileHandlesError(NoSuchFid)",
            ),
            ServerError::FileError(_) => String::from_str("FileError"),
        }
    }
}

} // verus!
