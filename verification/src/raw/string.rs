//! Length-prefixed UTF-8 string codec: a 16-bit byte count followed by
//! exactly that many UTF-8 bytes.

use super::numbers::{parse_u16, wire_u16};
use super::{Dehydrate, Hydrate};
use vstd::prelude::*;
use vstd::slice::slice_subrange;
use vstd::string::StrSliceExecFns;
use vstd::utf8::{
    decode_utf8, encode_utf8, encode_utf8_decode_utf8, encode_utf8_valid_utf8, valid_utf8,
};

verus! {

/// Error decoding or encoding a string.
#[derive(Clone, Copy, Debug, PartialEq, Eq, Structural)]
pub enum StringError {
    /// The string's UTF-8 form is longer than the 16-bit length prefix
    /// can say.
    TooLarge,
    /// The input ended before the announced byte count was reached.
    Truncated,
    /// The announced bytes are not valid UTF-8.
    UnicodeError,
}

/// Encoding of a string: a `u16` byte count, then the UTF-8 bytes.
pub open spec fn wire_str(s: Seq<char>) -> Seq<u8> {
    wire_u16(encode_utf8(s).len() as u16) + encode_utf8(s)
}

/// A string fits the wire format when its UTF-8 form fits the 16-bit
/// count.
pub open spec fn wire_str_ok(s: Seq<char>) -> bool {
    encode_utf8(s).len() <= 0xFFFF
}

/// Decoding of a string from the head of `s`.
pub open spec fn parse_str(s: Seq<u8>) -> Option<(Seq<char>, int)> {
    match parse_u16(s) {
        Some((len, n)) => {
            if s.len() >= n + len {
                let body = s.subrange(n, n + len);
                if valid_utf8(body) {
                    Some((decode_utf8(body), n + len))
                } else {
                    None
                }
            } else {
                None
            }
        },
        None => None,
    }
}

/// Parsing an encoded string yields the encoded characters, whatever
/// follows them.
pub proof fn lemma_str_round_trip(s: Seq<char>, rest: Seq<u8>)
    requires
        wire_str_ok(s),
    ensures
        parse_str(wire_str(s) + rest) == Some((s, wire_str(s).len() as int)),
{
    let bytes = encode_utf8(s);
    let len = bytes.len() as u16;
    let whole = wire_str(s) + rest;
    assert(wire_u16(len).len() == 2 && parse_u16(whole) == Some((len, 2int))) by {
        vstd::bytes::lemma_auto_spec_u16_to_from_le_bytes();
        assert(whole =~= wire_u16(len) + (bytes + rest));
        super::numbers::lemma_u16_round_trip(len, bytes + rest);
    }
    assert(whole.subrange(2, 2 + len as int) =~= bytes);
    assert(valid_utf8(bytes)) by {
        encode_utf8_valid_utf8(s);
    }
    assert(decode_utf8(bytes) == s) by {
        encode_utf8_decode_utf8(s);
    }
    assert(whole.len() >= 2 + len as int);
    assert(wire_str(s).len() == 2 + len as int);
}

/// Relies on `str::from_utf8`: it accepts exactly the valid UTF-8 byte
/// sequences, and the characters of the accepted string are the ones the
/// bytes encode.
#[verifier::external_body]
fn utf8_to_string(v: &[u8]) -> (r: Option<String>)
    ensures
        match r {
            Some(s) => valid_utf8(v@) && s@ == decode_utf8(v@),
            None => !valid_utf8(v@),
        },
{
    match std::str::from_utf8(v) {
        Ok(s) => Some(s.to_owned()),
        Err(_) => None,
    }
}

impl Hydrate for String {
    type Error = StringError;

    open spec fn parse(s: Seq<u8>) -> Option<(Seq<char>, int)> {
        parse_str(s)
    }

    fn hydrate(b: &[u8], pos: &mut usize) -> (r: Result<String, StringError>)
        ensures
            ({
                let s = b@.skip(*old(pos) as int);
                match parse_u16(s) {
                    None => r matches Err(StringError::Truncated) && *final(pos) == *old(pos),
                    Some((len, _)) => {
                        &&& s.len() < 2 + len ==> (r matches Err(StringError::Truncated) && *final(pos) == *old(pos) + 2)
                        &&& s.len() >= 2 + len && !valid_utf8(s.subrange(2, 2 + len as int)) ==> (r
                            matches Err(StringError::UnicodeError) && *final(pos) == *old(pos) + 2)
                    },
                }
            }),
    {
        let ghost p0 = *pos;
        let len = match u16::hydrate(b, pos) {
            Ok(len) => len,
            Err(_) => {
                return Err(StringError::Truncated);
            },
        };
        if b.len() - *pos < len as usize {
            return Err(StringError::Truncated);
        }
        let body = slice_subrange(b, *pos, *pos + len as usize);
        assert(body@ =~= b@.skip(p0 as int).subrange(2, 2 + len as int));
        match utf8_to_string(body) {
            Some(s) => {
                *pos = *pos + len as usize;
                Ok(s)
            },
            None => Err(StringError::UnicodeError),
        }
    }
}

impl Dehydrate for String {
    type Error = StringError;

    open spec fn wire(m: Seq<char>) -> Seq<u8> {
        wire_str(m)
    }

    open spec fn wire_ok(m: Seq<char>) -> bool {
        wire_str_ok(m)
    }

    fn dehydrate(&self, b: &mut Vec<u8>) -> (r: Result<(), StringError>)
        ensures
            r is Err ==> r matches Err(StringError::TooLarge),
    {
        let ghost b0 = b@;
        let mut bytes = self.as_str().as_bytes_vec();
        if bytes.len() > 0xFFFF {
            return Err(StringError::TooLarge);
        }
        let len: u16 = bytes.len() as u16;
        super::numbers::push_u16(b, len);
        b.append(&mut bytes);
        assert(b@ =~= b0 + wire_str(self@));
        Ok(())
    }
}

} // verus!
