//! Count-prefixed sequence codec: a 16-bit element count followed by that
//! many encoded elements, back to back.

use super::numbers::{parse_u16, push_u16, wire_u16};
use super::{Dehydrate, Hydrate};
use vstd::prelude::*;

verus! {

/// Error decoding or encoding a sequence.
#[derive(Debug)]
pub enum SliceError<T> {
    /// More elements than the 16-bit count can say.
    TooLong,
    /// The input ended before the announced element count was reached.
    Truncated,
    /// An element failed to decode or encode.
    Inner(T),
}

/// Concatenated encodings of the elements of `ms`.
pub open spec fn wire_elems<T: Dehydrate>(ms: Seq<T::V>) -> Seq<u8>
    decreases ms.len(),
{
    if ms.len() == 0 {
        Seq::empty()
    } else {
        T::wire(ms[0]) + wire_elems::<T>(ms.drop_first())
    }
}

/// Encoding of a sequence: a `u16` element count, then each element.
pub open spec fn wire_seq<T: Dehydrate>(ms: Seq<T::V>) -> Seq<u8> {
    wire_u16(ms.len() as u16) + wire_elems::<T>(ms)
}

/// A sequence fits the wire format when its length fits the 16-bit count
/// and every element fits its own format.
pub open spec fn wire_seq_ok<T: Dehydrate>(ms: Seq<T::V>) -> bool {
    ms.len() <= 0xFFFF && (forall|i: int| 0 <= i < ms.len() ==> T::wire_ok(#[trigger] ms[i]))
}

/// Decoding of `count` consecutive elements from the head of `s`.
pub open spec fn parse_elems<T: Hydrate>(s: Seq<u8>, count: nat) -> Option<(Seq<T::V>, int)>
    decreases count,
{
    if count == 0 {
        Some((Seq::empty(), 0int))
    } else {
        match T::parse(s) {
            Some((m, n)) => {
                if 0 <= n <= s.len() {
                    match parse_elems::<T>(s.skip(n), (count - 1) as nat) {
                        Some((ms, k)) => Some((seq![m] + ms, n + k)),
                        None => None,
                    }
                } else {
                    None
                }
            },
            None => None,
        }
    }
}

/// Decoding of a sequence from the head of `s`.
pub open spec fn parse_seq<T: Hydrate>(s: Seq<u8>) -> Option<(Seq<T::V>, int)> {
    match parse_u16(s) {
        Some((count, _)) => match parse_elems::<T>(s.skip(2), count as nat) {
            Some((ms, k)) => Some((ms, 2 + k)),
            None => None,
        },
        None => None,
    }
}

/// Appending one element to a sequence appends its encoding to the
/// sequence's encoding.
pub proof fn lemma_wire_elems_push<T: Dehydrate>(ms: Seq<T::V>, m: T::V)
    ensures
        wire_elems::<T>(ms.push(m)) == wire_elems::<T>(ms) + T::wire(m),
    decreases ms.len(),
{
    if ms.len() == 0 {
        assert(ms.push(m) =~= seq![m]);
        assert(wire_elems::<T>(seq![m]) == T::wire(seq![m][0]) + wire_elems::<T>(
            seq![m].drop_first(),
        ));
        assert(seq![m].drop_first() =~= Seq::<T::V>::empty());
        assert(wire_elems::<T>(Seq::<T::V>::empty()) == Seq::<u8>::empty());
        assert(wire_elems::<T>(ms) == Seq::<u8>::empty());
        assert(T::wire(m) + Seq::<u8>::empty() =~= Seq::<u8>::empty() + T::wire(m));
    } else {
        assert(wire_elems::<T>(ms.push(m)) == T::wire(ms.push(m)[0]) + wire_elems::<T>(
            ms.push(m).drop_first(),
        ));
        assert(ms.push(m)[0] == ms[0]);
        assert(ms.push(m).drop_first() =~= ms.drop_first().push(m));
        lemma_wire_elems_push::<T>(ms.drop_first(), m);
        assert(wire_elems::<T>(ms) == T::wire(ms[0]) + wire_elems::<T>(ms.drop_first()));
        assert(T::wire(ms[0]) + (wire_elems::<T>(ms.drop_first()) + T::wire(m)) =~= (T::wire(ms[0])
            + wire_elems::<T>(ms.drop_first())) + T::wire(m));
    }
}

/// Parsing `count` encoded elements yields them back, whatever follows,
/// provided each element's own encoding parses back to itself.
pub proof fn lemma_elems_round_trip<T: Hydrate + Dehydrate>(ms: Seq<T::V>, rest: Seq<u8>)
    requires
        forall|i: int, r2: Seq<u8>|
            0 <= i < ms.len() ==> #[trigger] T::parse(T::wire(ms[i]) + r2) == Some(
                (ms[i], T::wire(ms[i]).len() as int),
            ),
    ensures
        parse_elems::<T>(wire_elems::<T>(ms) + rest, ms.len() as nat) == Some(
            (ms, wire_elems::<T>(ms).len() as int),
        ),
    decreases ms.len(),
{
    if ms.len() == 0 {
        assert(wire_elems::<T>(ms) =~= Seq::<u8>::empty());
    } else {
        let m = ms[0];
        let tail = ms.drop_first();
        let whole = wire_elems::<T>(ms) + rest;
        assert(whole =~= T::wire(m) + (wire_elems::<T>(tail) + rest));
        assert(T::parse(whole) == Some((m, T::wire(m).len() as int)));
        let n = T::wire(m).len() as int;
        assert(whole.skip(n) =~= wire_elems::<T>(tail) + rest);
        assert(forall|i: int, r2: Seq<u8>|
            0 <= i < tail.len() ==> #[trigger] T::parse(T::wire(tail[i]) + r2) == Some(
                (tail[i], T::wire(tail[i]).len() as int),
            )) by {
            assert(forall|i: int| 0 <= i < tail.len() ==> tail[i] == ms[i + 1]);
        }
        lemma_elems_round_trip::<T>(tail, rest);
        assert(seq![m] + tail =~= ms);
    }
}

/// Parsing an encoded sequence yields the encoded elements, whatever
/// follows them, provided each element's own encoding parses back to
/// itself.
pub proof fn lemma_seq_round_trip<T: Hydrate + Dehydrate>(ms: Seq<T::V>, rest: Seq<u8>)
    requires
        ms.len() <= 0xFFFF,
        forall|i: int, r2: Seq<u8>|
            0 <= i < ms.len() ==> #[trigger] T::parse(T::wire(ms[i]) + r2) == Some(
                (ms[i], T::wire(ms[i]).len() as int),
            ),
    ensures
        parse_seq::<T>(wire_seq::<T>(ms) + rest) == Some((ms, wire_seq::<T>(ms).len() as int)),
{
    let count = ms.len() as u16;
    let body = wire_elems::<T>(ms);
    let whole = wire_seq::<T>(ms) + rest;
    assert(wire_u16(count).len() == 2 && parse_u16(whole) == Some((count, 2int))) by {
        vstd::bytes::lemma_auto_spec_u16_to_from_le_bytes();
        assert(whole =~= wire_u16(count) + (body + rest));
        super::numbers::lemma_u16_round_trip(count, body + rest);
    }
    assert(whole.skip(2) =~= body + rest);
    lemma_elems_round_trip::<T>(ms, rest);
}

impl<T: Hydrate> Hydrate for Vec<T> {
    type Error = SliceError<T::Error>;

    open spec fn parse(s: Seq<u8>) -> Option<(Seq<T::V>, int)> {
        parse_seq::<T>(s)
    }

    #[verifier::loop_isolation(false)]
    fn hydrate(b: &[u8], pos: &mut usize) -> (r: Result<Vec<T>, SliceError<T::Error>>)
        ensures
            match parse_u16(b@.skip(*old(pos) as int)) {
                None => r matches Err(SliceError::Truncated) && *final(pos) == *old(pos),
                Some(_) => r is Err ==> r matches Err(SliceError::Inner(_)),
            },
    {
        let ghost p0 = *pos;
        let count = match u16::hydrate(b, pos) {
            Ok(count) => count,
            Err(_) => {
                return Err(SliceError::Truncated);
            },
        };
        let mut out: Vec<T> = Vec::new();
        proof {
            assert(b@.skip(p0 as int).skip(2) =~= b@.skip(p0 + 2));
            if parse_elems::<T>(b@.skip(p0 + 2), count as nat) is Some {
                let ms = parse_elems::<T>(b@.skip(p0 + 2), count as nat)->Some_0.0;
                assert(out.deep_view() + ms =~= ms);
            }
        }
        let mut i: u16 = 0;
        while i < count
            invariant
                p0 + 2 <= *pos <= b@.len(),
                i <= count,
                out.deep_view().len() == i as int,
                parse_u16(b@.skip(p0 as int)) == Some((count, 2int)),
                match parse_elems::<T>(b@.skip(*pos as int), (count - i) as nat) {
                    Some((ms, k)) => parse_elems::<T>(b@.skip(p0 + 2), count as nat) == Some(
                        (out.deep_view() + ms, (*pos - (p0 + 2)) + k),
                    ),
                    None => parse_elems::<T>(b@.skip(p0 + 2), count as nat) is None,
                },
            decreases count - i,
        {
            let ghost cur = *pos;
            let ghost rem = b@.skip(cur as int);
            let ghost out0 = out.deep_view();
            match T::hydrate(b, pos) {
                Ok(v) => {
                    out.push(v);
                    proof {
                        let mn = T::parse(rem)->Some_0;
                        let m = mn.0;
                        let n = mn.1;
                        assert(out.deep_view() =~= out0.push(m));
                        assert(0 <= n <= rem.len());
                        assert(b@.skip(*pos as int) =~= rem.skip(n));
                        let c = (count - i) as nat;
                        if parse_elems::<T>(rem.skip(n), (c - 1) as nat) is Some {
                            let tail = parse_elems::<T>(rem.skip(n), (c - 1) as nat)->Some_0;
                            assert(parse_elems::<T>(rem, c) == Some(
                                (seq![m] + tail.0, n + tail.1),
                            ));
                            assert(out0 + (seq![m] + tail.0) =~= out.deep_view() + tail.0);
                        } else {
                            assert(parse_elems::<T>(rem, c) is None);
                        }
                    }
                },
                Err(e) => {
                    proof {
                        assert(T::parse(rem) is None);
                        assert(parse_elems::<T>(rem, (count - i) as nat) is None);
                        assert(b@.skip(p0 as int).skip(2) =~= b@.skip(p0 + 2));
                    }
                    return Err(SliceError::Inner(e));
                },
            }
            i = i + 1;
        }
        proof {
            assert(b@.skip(p0 as int).skip(2) =~= b@.skip(p0 + 2));
            assert(parse_elems::<T>(b@.skip(*pos as int), 0nat) == Some(
                (Seq::<T::V>::empty(), 0int),
            ));
            assert(out.deep_view() + Seq::<T::V>::empty() =~= out.deep_view());
        }
        Ok(out)
    }
}

impl<T: Dehydrate> Dehydrate for Vec<T> {
    type Error = SliceError<T::Error>;

    open spec fn wire(m: Seq<T::V>) -> Seq<u8> {
        wire_seq::<T>(m)
    }

    open spec fn wire_ok(m: Seq<T::V>) -> bool {
        wire_seq_ok::<T>(m)
    }

    #[verifier::loop_isolation(false)]
    fn dehydrate(&self, b: &mut Vec<u8>) -> (r: Result<(), SliceError<T::Error>>)
        ensures
            self@.len() > 0xFFFF ==> r matches Err(SliceError::TooLong),
            self@.len() <= 0xFFFF && r is Err ==> r matches Err(SliceError::Inner(_)),
    {
        let ghost b0 = b@;
        if self.len() > 0xFFFF {
            return Err(SliceError::TooLong);
        }
        let mut tmp: Vec<u8> = Vec::new();
        let mut i: usize = 0;
        while i < self.len()
            invariant
                i <= self@.len() <= 0xFFFF,
                tmp@ == wire_elems::<T>(self.deep_view().take(i as int)),
                forall|j: int| 0 <= j < i ==> T::wire_ok(#[trigger] self.deep_view()[j]),
                b@ == b0,
            decreases self@.len() - i,
        {
            proof {
                assert(self.deep_view()[i as int] == self@[i as int].deep_view());
            }
            match self[i].dehydrate(&mut tmp) {
                Ok(_) => {},
                Err(e) => {
                    proof {
                        assert(!T::wire_ok(self.deep_view()[i as int]));
                        assert(!wire_seq_ok::<T>(self.deep_view()));
                    }
                    return Err(SliceError::Inner(e));
                },
            }
            proof {
                let dv = self.deep_view();
                assert(dv.take(i + 1) =~= dv.take(i as int).push(dv[i as int]));
                lemma_wire_elems_push::<T>(dv.take(i as int), dv[i as int]);
            }
            i = i + 1;
        }
        assert(self.deep_view().take(self@.len() as int) =~= self.deep_view());
        push_u16(b, self.len() as u16);
        b.append(&mut tmp);
        assert(b@ =~= b0 + wire_seq::<T>(self.deep_view()));
        Ok(())
    }
}

} // verus!
