//! Framing: every message travels as `size[4] body[size-4]`, where the
//! 32-bit little-endian size counts itself, and the negotiated msize
//! caps the whole frame. These functions do the byte work; the
//! transport around them only moves the bytes.

use crate::raw::messages_r::{parse_r, wire_r, wire_r_ok, RError, R};
use crate::raw::messages_t::{parse_t, wire_t, wire_t_ok, TError, T};
use crate::raw::numbers::{push_u32, wire_u32};
use crate::raw::{Dehydrate, Hydrate};
use vstd::bytes::{spec_u32_from_le_bytes, u32_from_le_bytes};
use vstd::prelude::*;

verus! {

/// A complete frame: the size word, counting itself, then the body.
pub open spec fn spec_frame(body: Seq<u8>) -> Seq<u8> {
    wire_u32((body.len() + 4) as u32) + body
}

/// Encode one T message as a complete frame, within `msize` bytes. On
/// `TooLong` nothing has been produced: an oversized message writes no
/// bytes at all.
pub fn encode_t_frame(t: &T, msize: u32) -> (r: Result<Vec<u8>, TError>)
    ensures
        wire_t_ok(t.deep_view()) && wire_t(t.deep_view()).len() + 4 <= msize ==> (r matches Ok(v)
            && v@ == spec_frame(wire_t(t.deep_view()))),
        wire_t_ok(t.deep_view()) && wire_t(t.deep_view()).len() + 4 > msize ==> r matches Err(
            TError::TooLong,
        ),
        !wire_t_ok(t.deep_view()) ==> r is Err,
{
    let mut body: Vec<u8> = Vec::new();
    match t.dehydrate(&mut body) {
        Ok(_) => {},
        Err(e) => {
            return Err(e);
        },
    }
    if msize < 4 || body.len() > (msize - 4) as usize {
        return Err(TError::TooLong);
    }
    let size: u32 = body.len() as u32 + 4;
    let mut out: Vec<u8> = Vec::new();
    push_u32(&mut out, size);
    out.append(&mut body);
    Ok(out)
}

/// Encode one R message as a complete frame, within `msize` bytes. On
/// `TooLong` nothing has been produced.
pub fn encode_r_frame(r: &R, msize: u32) -> (res: Result<Vec<u8>, RError>)
    ensures
        wire_r_ok(r.deep_view()) && wire_r(r.deep_view()).len() + 4 <= msize ==> (res matches Ok(v)
            && v@ == spec_frame(wire_r(r.deep_view()))),
        wire_r_ok(r.deep_view()) && wire_r(r.deep_view()).len() + 4 > msize ==> res matches Err(
            RError::TooLong,
        ),
        !wire_r_ok(r.deep_view()) ==> res is Err,
{
    let mut body: Vec<u8> = Vec::new();
    match r.dehydrate(&mut body) {
        Ok(_) => {},
        Err(e) => {
            return Err(e);
        },
    }
    if msize < 4 || body.len() > (msize - 4) as usize {
        return Err(RError::TooLong);
    }
    let size: u32 = body.len() as u32 + 4;
    let mut out: Vec<u8> = Vec::new();
    push_u32(&mut out, size);
    out.append(&mut body);
    Ok(out)
}

/// Read the size word of a frame from its first four bytes.
pub fn frame_size(header: &[u8]) -> (r: Option<u32>)
    ensures
        header@.len() == 4 ==> r == Some(spec_u32_from_le_bytes(header@)),
        header@.len() != 4 ==> r is None,
{
    if header.len() != 4 {
        return None;
    }
    Some(u32_from_le_bytes(header))
}

/// How many bytes of body follow a frame's size word. The size counts
/// itself, must cover its own four bytes, and must not exceed the
/// negotiated msize: a larger frame is a protocol error that ends the
/// connection before its body is read.
pub fn frame_body_len(size: u32, msize: u32) -> (r: Option<u32>)
    ensures
        4 <= size <= msize ==> r == Some((size - 4) as u32),
        !(4 <= size <= msize) ==> r is None,
{
    if size < 4 || size > msize {
        return None;
    }
    Some(size - 4)
}

/// Decode one T message from a frame body. Trailing bytes after the
/// message are tolerated, as the frame's size word delimits it.
pub fn decode_t(body: &[u8]) -> (r: Result<T, TError>)
    ensures
        match parse_t(body@) {
            Some((m, _)) => r matches Ok(t) && t.deep_view() == m,
            None => r is Err,
        },
{
    proof {
        assert(body@.skip(0) =~= body@);
    }
    let mut pos: usize = 0;
    T::hydrate(body, &mut pos)
}

/// Decode one R message from a frame body. Trailing bytes after the
/// message are tolerated, as the frame's size word delimits it.
pub fn decode_r(body: &[u8]) -> (r: Result<R, RError>)
    ensures
        match parse_r(body@) {
            Some((m, _)) => r matches Ok(t) && t.deep_view() == m,
            None => r is Err,
        },
{
    proof {
        assert(body@.skip(0) =~= body@);
    }
    let mut pos: usize = 0;
    R::hydrate(body, &mut pos)
}

} // verus!
