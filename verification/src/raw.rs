//! Raw protocol primitives: the byte-level encodings shared by client and
//! server messages.
//!
//! Every type that crosses the wire implements [`Dehydrate`] (value to
//! bytes) and [`Hydrate`] (bytes to value). Both traits are specified
//! against a pair of specification functions per type: a total encode on
//! the type's abstract form, and a total parse on byte sequences. The
//! round-trip lemmas in each module prove that parsing an encoding yields
//! the value that was encoded.

pub mod messages_r;
pub mod messages_t;
pub mod numbers;
pub mod protocol;
pub mod stat;
pub mod string;
pub mod vec;
pub mod version;

pub use messages_r::{RError, R};
pub use messages_t::{TError, T};
pub use protocol::{Fid, FileType, IoDirection, OpenMode, Qid, Tag, Type};
pub use stat::{Stat, StatBuilder, StatError};
pub use string::StringError;
pub use vec::SliceError;
pub use version::{Version, VersionError};

use vstd::prelude::*;

verus! {

/// The decoder ran out of bytes before the value was complete.
#[derive(Clone, Copy, Debug, PartialEq, Eq, Structural)]
pub struct Truncated;

/// Hydrate takes bytes and produces an object from them.
///
/// `parse` is the type's decoding specification: given the bytes from the
/// cursor onwards, it names the abstract value whose encoding starts
/// there and the width of that encoding, or `None` when no well-formed
/// encoding does. `hydrate` must return exactly the parsed value and
/// advance the cursor by exactly that width. Implementations further fix
/// which error value comes back, and where the cursor stands, on their
/// own failure cases.
pub trait Hydrate: Sized + DeepView {
    /// Error to be returned when no well-formed encoding starts at the
    /// cursor.
    type Error;

    /// Decoding specification: the abstract value whose encoding is a
    /// prefix of `s`, with the length of that prefix.
    spec fn parse(s: Seq<u8>) -> Option<(Self::V, int)>;

    /// Read bytes at `*pos`, advancing `*pos` past the value read.
    fn hydrate(b: &[u8], pos: &mut usize) -> (r: Result<Self, Self::Error>)
        requires
            *old(pos) <= b@.len(),
        ensures
            match Self::parse(b@.skip(*old(pos) as int)) {
                Some((m, n)) => {
                    &&& r matches Ok(v) && v.deep_view() == m
                    &&& *final(pos) == *old(pos) + n
                    &&& *old(pos) <= *final(pos) <= b@.len()
                },
                None => r is Err,
            },
    ;
}

/// Dehydrate turns an object into bytes, appended to a growable buffer.
///
/// `wire` is the type's encoding specification on its abstract form, and
/// `wire_ok` says when the value fits the format's length fields (a
/// length prefix that must fit in 16 bits, for instance). On success the
/// buffer has grown by exactly the encoding; on failure it is unchanged,
/// and implementations further fix which error value comes back.
pub trait Dehydrate: Sized + DeepView {
    /// Error to be returned when the value does not fit the wire format.
    type Error;

    /// Encoding specification on the abstract form.
    spec fn wire(m: Self::V) -> Seq<u8>;

    /// Whether the value fits the wire format's length fields.
    spec fn wire_ok(m: Self::V) -> bool;

    /// Append this value's encoding to `b`.
    fn dehydrate(&self, b: &mut Vec<u8>) -> (r: Result<(), Self::Error>)
        ensures
            match r {
                Ok(_) => Self::wire_ok(self.deep_view()) && final(b)@ == old(b)@ + Self::wire(
                    self.deep_view(),
                ),
                Err(_) => !Self::wire_ok(self.deep_view()) && final(b)@ == old(b)@,
            },
    ;
}

} // verus!
