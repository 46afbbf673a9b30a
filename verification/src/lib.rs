//! A server library for the Plan 9 file protocol, in its `9P2000.u` flavour
//! (the Unix extension with numeric uid/gid/muid fields and a per-file
//! extension string).
//!
//! The crate has two halves:
//!
//! * [`raw`] holds the wire codec: every message of the `9P2000.u` family,
//!   the `Stat` directory-entry record, and the primitive little-endian
//!   integer, string and sequence encodings they are built from. Each
//!   encoder and decoder carries a contract against a byte-level
//!   specification, and encode followed by decode is proved to return the
//!   original value.
//! * [`server`] holds the per-connection session state (fid and tag
//!   tables), the request dispatcher, and the handshake and framing rules,
//!   against an abstract filesystem supplied by the embedding application.

pub mod raw;
pub mod server;
