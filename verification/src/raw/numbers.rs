//! Fixed-width little-endian integer codecs: the ground layer every other
//! encoding is built from.

use super::{Dehydrate, Hydrate, Truncated};
use vstd::bytes::{
    lemma_auto_spec_u16_to_from_le_bytes, lemma_auto_spec_u32_to_from_le_bytes,
    lemma_auto_spec_u64_to_from_le_bytes, spec_u16_from_le_bytes, spec_u16_to_le_bytes,
    spec_u32_from_le_bytes, spec_u32_to_le_bytes, spec_u64_from_le_bytes, spec_u64_to_le_bytes,
    u16_from_le_bytes, u16_to_le_bytes, u32_from_le_bytes, u32_to_le_bytes, u64_from_le_bytes,
    u64_to_le_bytes,
};
use vstd::prelude::*;
use vstd::slice::slice_subrange;

verus! {

/// Encoding of a `u8`: the byte itself.
pub open spec fn wire_u8(x: u8) -> Seq<u8> {
    seq![x]
}

/// Decoding of a `u8` from the head of `s`.
pub open spec fn parse_u8(s: Seq<u8>) -> Option<(u8, int)> {
    if s.len() >= 1 {
        Some((s[0], 1int))
    } else {
        None
    }
}

/// Encoding of a `u16`: two bytes, least significant first.
pub open spec fn wire_u16(x: u16) -> Seq<u8> {
    spec_u16_to_le_bytes(x)
}

/// Decoding of a `u16` from the head of `s`.
pub open spec fn parse_u16(s: Seq<u8>) -> Option<(u16, int)> {
    if s.len() >= 2 {
        Some((spec_u16_from_le_bytes(s.take(2)), 2int))
    } else {
        None
    }
}

/// Encoding of a `u32`: four bytes, least significant first.
pub open spec fn wire_u32(x: u32) -> Seq<u8> {
    spec_u32_to_le_bytes(x)
}

/// Decoding of a `u32` from the head of `s`.
pub open spec fn parse_u32(s: Seq<u8>) -> Option<(u32, int)> {
    if s.len() >= 4 {
        Some((spec_u32_from_le_bytes(s.take(4)), 4int))
    } else {
        None
    }
}

/// Encoding of a `u64`: eight bytes, least significant first.
pub open spec fn wire_u64(x: u64) -> Seq<u8> {
    spec_u64_to_le_bytes(x)
}

/// Decoding of a `u64` from the head of `s`.
pub open spec fn parse_u64(s: Seq<u8>) -> Option<(u64, int)> {
    if s.len() >= 8 {
        Some((spec_u64_from_le_bytes(s.take(8)), 8int))
    } else {
        None
    }
}

/// Parsing an encoded `u8` yields the encoded value, whatever follows it.
pub proof fn lemma_u8_round_trip(x: u8, rest: Seq<u8>)
    ensures
        parse_u8(wire_u8(x) + rest) == Some((x, 1int)),
{
    assert((wire_u8(x) + rest)[0] == x);
}

/// Parsing an encoded `u16` yields the encoded value, whatever follows it.
pub proof fn lemma_u16_round_trip(x: u16, rest: Seq<u8>)
    ensures
        parse_u16(wire_u16(x) + rest) == Some((x, 2int)),
{
    lemma_auto_spec_u16_to_from_le_bytes();
    assert((wire_u16(x) + rest).take(2) =~= wire_u16(x));
}

/// Parsing an encoded `u32` yields the encoded value, whatever follows it.
pub proof fn lemma_u32_round_trip(x: u32, rest: Seq<u8>)
    ensures
        parse_u32(wire_u32(x) + rest) == Some((x, 4int)),
{
    lemma_auto_spec_u32_to_from_le_bytes();
    assert((wire_u32(x) + rest).take(4) =~= wire_u32(x));
}

/// Parsing an encoded `u64` yields the encoded value, whatever follows it.
pub proof fn lemma_u64_round_trip(x: u64, rest: Seq<u8>)
    ensures
        parse_u64(wire_u64(x) + rest) == Some((x, 8int)),
{
    lemma_auto_spec_u64_to_from_le_bytes();
    assert((wire_u64(x) + rest).take(8) =~= wire_u64(x));
}

/// Append the encoding of a `u8` to `b`. Integer encodes never fail.
pub fn push_u8(b: &mut Vec<u8>, x: u8)
    ensures
        final(b)@ == old(b)@ + wire_u8(x),
{
    let ghost b0 = b@;
    b.push(x);
    assert(b@ =~= b0 + wire_u8(x));
}

/// Append the encoding of a `u16` to `b`.
pub fn push_u16(b: &mut Vec<u8>, x: u16)
    ensures
        final(b)@ == old(b)@ + wire_u16(x),
{
    let mut enc = u16_to_le_bytes(x);
    b.append(&mut enc);
}

/// Append the encoding of a `u32` to `b`.
pub fn push_u32(b: &mut Vec<u8>, x: u32)
    ensures
        final(b)@ == old(b)@ + wire_u32(x),
{
    let mut enc = u32_to_le_bytes(x);
    b.append(&mut enc);
}

/// Append the encoding of a `u64` to `b`.
pub fn push_u64(b: &mut Vec<u8>, x: u64)
    ensures
        final(b)@ == old(b)@ + wire_u64(x),
{
    let mut enc = u64_to_le_bytes(x);
    b.append(&mut enc);
}

/// Append raw bytes to `b` verbatim.
pub fn push_bytes(b: &mut Vec<u8>, data: &[u8])
    ensures
        final(b)@ == old(b)@ + data@,
{
    let ghost b0 = b@;
    let mut i: usize = 0;
    while i < data.len()
        invariant
            i <= data@.len(),
            b@ == b0 + data@.take(i as int),
        decreases data@.len() - i,
    {
        b.push(data[i]);
        proof {
            assert(b@ =~= b0 + data@.take(i + 1));
        }
        i = i + 1;
    }
    assert(data@.take(data@.len() as int) =~= data@);
}

impl Hydrate for u8 {
    type Error = Truncated;

    open spec fn parse(s: Seq<u8>) -> Option<(u8, int)> {
        parse_u8(s)
    }

    #[verifier::spinoff_prover]
    fn hydrate(b: &[u8], pos: &mut usize) -> (r: Result<u8, Truncated>)
        ensures
            r is Err ==> *final(pos) == *old(pos),
    {
        let ghost s0 = b@.skip(*pos as int);
        proof {
            assert(<u8 as Hydrate>::parse(s0) == parse_u8(s0));
        }
        if b.len() - *pos >= 1 {
            let x = b[*pos];
            assert(b@.skip(*pos as int)[0] == b@[*pos as int]);
            *pos = *pos + 1;
            Ok(x)
        } else {
            Err(Truncated)
        }
    }
}

impl Dehydrate for u8 {
    type Error = Truncated;

    open spec fn wire(m: u8) -> Seq<u8> {
        wire_u8(m)
    }

    open spec fn wire_ok(m: u8) -> bool {
        true
    }

    fn dehydrate(&self, b: &mut Vec<u8>) -> (r: Result<(), Truncated>) {
        let ghost b0 = b@;
        b.push(*self);
        assert(b@ =~= b0 + wire_u8(*self));
        Ok(())
    }
}

impl Hydrate for u16 {
    type Error = Truncated;

    open spec fn parse(s: Seq<u8>) -> Option<(u16, int)> {
        parse_u16(s)
    }

    #[verifier::spinoff_prover]
    fn hydrate(b: &[u8], pos: &mut usize) -> (r: Result<u16, Truncated>)
        ensures
            r is Err ==> *final(pos) == *old(pos),
    {
        let ghost s0 = b@.skip(*pos as int);
        proof {
            assert(<u16 as Hydrate>::parse(s0) == parse_u16(s0));
        }
        if b.len() - *pos >= 2 {
            let s = slice_subrange(b, *pos, *pos + 2);
            assert(s@ =~= s0.take(2));
            let x = u16_from_le_bytes(s);
            *pos = *pos + 2;
            assert(parse_u16(s0) == Some((x, 2int)));
            assert(<u16 as Hydrate>::parse(s0) == parse_u16(s0));
            Ok(x)
        } else {
            assert(parse_u16(s0) is None);
            Err(Truncated)
        }
    }
}

impl Dehydrate for u16 {
    type Error = Truncated;

    open spec fn wire(m: u16) -> Seq<u8> {
        wire_u16(m)
    }

    open spec fn wire_ok(m: u16) -> bool {
        true
    }

    fn dehydrate(&self, b: &mut Vec<u8>) -> (r: Result<(), Truncated>) {
        let mut enc = u16_to_le_bytes(*self);
        b.append(&mut enc);
        Ok(())
    }
}

impl Hydrate for u32 {
    type Error = Truncated;

    open spec fn parse(s: Seq<u8>) -> Option<(u32, int)> {
        parse_u32(s)
    }

    #[verifier::spinoff_prover]
    fn hydrate(b: &[u8], pos: &mut usize) -> (r: Result<u32, Truncated>)
        ensures
            r is Err ==> *final(pos) == *old(pos),
    {
        let ghost s0 = b@.skip(*pos as int);
        proof {
            assert(<u32 as Hydrate>::parse(s0) == parse_u32(s0));
        }
        if b.len() - *pos >= 4 {
            let s = slice_subrange(b, *pos, *pos + 4);
            assert(s@ =~= s0.take(4));
            let x = u32_from_le_bytes(s);
            *pos = *pos + 4;
            assert(parse_u32(s0) == Some((x, 4int)));
            Ok(x)
        } else {
            assert(parse_u32(s0) is None);
            Err(Truncated)
        }
    }
}

impl Dehydrate for u32 {
    type Error = Truncated;

    open spec fn wire(m: u32) -> Seq<u8> {
        wire_u32(m)
    }

    open spec fn wire_ok(m: u32) -> bool {
        true
    }

    fn dehydrate(&self, b: &mut Vec<u8>) -> (r: Result<(), Truncated>) {
        let mut enc = u32_to_le_bytes(*self);
        b.append(&mut enc);
        Ok(())
    }
}

impl Hydrate for u64 {
    type Error = Truncated;

    open spec fn parse(s: Seq<u8>) -> Option<(u64, int)> {
        parse_u64(s)
    }

    #[verifier::spinoff_prover]
    fn hydrate(b: &[u8], pos: &mut usize) -> (r: Result<u64, Truncated>)
        ensures
            r is Err ==> *final(pos) == *old(pos),
    {
        let ghost s0 = b@.skip(*pos as int);
        proof {
            assert(<u64 as Hydrate>::parse(s0) == parse_u64(s0));
        }
        if b.len() - *pos >= 8 {
            let s = slice_subrange(b, *pos, *pos + 8);
            assert(s@ =~= s0.take(8));
            let x = u64_from_le_bytes(s);
            *pos = *pos + 8;
            assert(parse_u64(s0) == Some((x, 8int)));
            Ok(x)
        } else {
            assert(parse_u64(s0) is None);
            Err(Truncated)
        }
    }
}

impl Dehydrate for u64 {
    type Error = Truncated;

    open spec fn wire(m: u64) -> Seq<u8> {
        wire_u64(m)
    }

    open spec fn wire_ok(m: u64) -> bool {
        true
    }

    fn dehydrate(&self, b: &mut Vec<u8>) -> (r: Result<(), Truncated>) {
        let mut enc = u64_to_le_bytes(*self);
        b.append(&mut enc);
        Ok(())
    }
}

} // verus!
