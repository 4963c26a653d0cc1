use vstd::prelude::*;

use crate::error::Error;
use crate::wire::{drop_front, push_u32, read_u32, u32_bytes, u32_of};

verus! {

/// Largest value of a 31-bit number.
pub const U31_MAX: u32 = 0x7fff_ffff;

/// Largest value of a 24-bit number.
pub const U24_MAX: u32 = 0xff_ffff;

/// The 32-bit word that carries a 31-bit value `v` with the flag `e` in its top bit.
pub open spec fn u31_word(e: bool, v: u32) -> u32 {
    if e {
        v | 0x8000_0000u32
    } else {
        v
    }
}

/// The flag in the top bit of the big-endian word at the front of `s`.
pub open spec fn u31_flag_of(s: Seq<u8>) -> bool {
    s[0] & 0x80u8 != 0
}

/// The 31-bit value under the flag of the big-endian word at the front of `s`.
pub open spec fn u31_value_of(s: Seq<u8>) -> u32 {
    u32_of(s) & 0x7fff_ffffu32
}

/// The three bytes of `n`, most significant first.
pub open spec fn u24_bytes(n: u32) -> Seq<u8> {
    seq![(n >> 16u32) as u8, (n >> 8u32) as u8, n as u8]
}

/// The number held big-endian in the first three bytes of `s`.
pub open spec fn u24_of(s: Seq<u8>) -> u32 {
    ((s[0] as u32) << 16u32) | ((s[1] as u32) << 8u32) | (s[2] as u32)
}

/// `n` capped at `max`.
pub open spec fn saturate(n: u32, max: u32) -> u32 {
    if n > max {
        max
    } else {
        n
    }
}

/// A 31-bit unsigned integer, as carried by stream identifiers and window sizes.
#[derive(Clone, Copy, Debug, PartialEq, Eq, Structural)]
pub struct U31(u32);

impl U31 {
    #[verifier::type_invariant]
    spec fn inv(self) -> bool {
        self.0 <= U31_MAX
    }

    /// The numeric value.
    pub closed spec fn value(self) -> u32 {
        self.0
    }

    /// The number with value `v`.
    pub closed spec fn spec_new(v: u32) -> U31 {
        U31(v)
    }

    pub broadcast proof fn lemma_spec_new(v: u32)
        ensures
            #[trigger] U31::spec_new(v).value() == v,
    {
    }

    /// A number is determined by its value.
    pub broadcast proof fn lemma_value_determines(x: U31)
        ensures
            #[trigger] U31::spec_new(x.value()) == x,
    {
    }


    /// The value `v`, which must fit in 31 bits.
    pub fn new(v: u32) -> (r: U31)
        requires
            v <= U31_MAX,
        ensures
            r.value() == v,
    {
        U31(v)
    }

    pub fn min_value() -> (r: U31)
        ensures
            r.value() == 0,
    {
        U31(0)
    }

    /// The initial flow-control window size.
    pub fn initial_value() -> (r: U31)
        ensures
            r.value() == 0xffff,
    {
        U31(0xffff)
    }

    pub fn max_value() -> (r: U31)
        ensures
            r.value() == U31_MAX,
    {
        U31(U31_MAX)
    }

    pub fn as_u32(&self) -> (r: u32)
        ensures
            r == self.value(),
            r <= U31_MAX,
    {
        proof {
            use_type_invariant(self);
        }
        self.0
    }
}

impl From<u32> for U31 {
    /// The value `src`, capped at the largest 31-bit value.
    fn from(src: u32) -> (r: U31)
        ensures
            r.value() == saturate(src, U31_MAX),
    {
        if src > U31_MAX {
            U31(U31_MAX)
        } else {
            U31(src)
        }
    }
}

impl vstd::std_specs::convert::FromSpecImpl<u32> for U31 {
    open spec fn obeys_from_spec() -> bool {
        false
    }

    open spec fn from_spec(v: u32) -> U31 {
        arbitrary()
    }
}

/// A 24-bit unsigned integer, as carried by frame lengths.
#[derive(Clone, Copy, Debug, PartialEq, Eq, Structural)]
pub struct U24(u32);

impl U24 {
    #[verifier::type_invariant]
    spec fn inv(self) -> bool {
        self.0 <= U24_MAX
    }

    /// The numeric value.
    pub closed spec fn value(self) -> u32 {
        self.0
    }

    /// The number with value `v`.
    pub closed spec fn spec_new(v: u32) -> U24 {
        U24(v)
    }

    pub broadcast proof fn lemma_spec_new(v: u32)
        ensures
            #[trigger] U24::spec_new(v).value() == v,
    {
    }

    /// A number is determined by its value.
    pub broadcast proof fn lemma_value_determines(x: U24)
        ensures
            #[trigger] U24::spec_new(x.value()) == x,
    {
    }

    /// The value `v`, which must fit in 24 bits.
    pub fn new(v: u32) -> (r: U24)
        requires
            v <= U24_MAX,
        ensures
            r.value() == v,
    {
        U24(v)
    }

    pub fn min_value() -> (r: U24)
        ensures
            r.value() == 0,
    {
        U24(0)
    }

    /// The initial largest frame payload.
    pub fn initial_value() -> (r: U24)
        ensures
            r.value() == 0x4000,
    {
        U24(0x4000)
    }

    pub fn max_value() -> (r: U24)
        ensures
            r.value() == U24_MAX,
    {
        U24(U24_MAX)
    }

    pub fn as_u32(&self) -> (r: u32)
        ensures
            r == self.value(),
            r <= U24_MAX,
    {
        proof {
            use_type_invariant(self);
        }
        self.0
    }
}

impl From<u32> for U24 {
    /// The value `src`, capped at the largest 24-bit value.
    fn from(src: u32) -> (r: U24)
        ensures
            r.value() == saturate(src, U24_MAX),
    {
        if src > U24_MAX {
            U24(U24_MAX)
        } else {
            U24(src)
        }
    }
}

impl vstd::std_specs::convert::FromSpecImpl<u32> for U24 {
    open spec fn obeys_from_spec() -> bool {
        false
    }

    open spec fn from_spec(v: u32) -> U24 {
        arbitrary()
    }
}

/// Reads the flag and 31-bit value of the big-endian word at `s[at..at + 4]`.
pub fn read_u31(s: &[u8], at: usize) -> (r: (bool, U31))
    requires
        at + 4 <= s@.len(),
    ensures
        r.0 == u31_flag_of(s@.subrange(at as int, s@.len() as int)),
        r.1.value() == u31_value_of(s@.subrange(at as int, s@.len() as int)),
{
    let w = read_u32(s, at);
    let b = s[at] & 0x80u8 != 0;
    assert(w & 0x7fff_ffffu32 <= U31_MAX) by (bit_vector);
    (b, U31(w & 0x7fff_ffffu32))
}

/// Reads the big-endian number at `s[at..at + 3]`.
pub fn read_u24(s: &[u8], at: usize) -> (r: U24)
    requires
        at + 3 <= s@.len(),
    ensures
        r.value() == u24_of(s@.subrange(at as int, s@.len() as int)),
{
    let b0 = s[at];
    let b1 = s[at + 1];
    let b2 = s[at + 2];
    let n = ((b0 as u32) << 16u32) | ((b1 as u32) << 8u32) | (b2 as u32);
    assert(((b0 as u32) << 16u32) | ((b1 as u32) << 8u32) | (b2 as u32) <= U24_MAX)
        by (bit_vector);
    U24(n)
}

/// Appends the word of the flag `e` and the 31-bit value `v`.
pub fn push_u31(dst: &mut Vec<u8>, e: bool, v: U31)
    ensures
        final(dst)@ == old(dst)@ + u32_bytes(u31_word(e, v.value())),
{
    let n = v.as_u32();
    let w = if e {
        n | 0x8000_0000u32
    } else {
        n
    };
    push_u32(dst, w);
}

/// Appends the three bytes of `v`.
pub fn push_u24(dst: &mut Vec<u8>, v: U24)
    ensures
        final(dst)@ == old(dst)@ + u24_bytes(v.value()),
{
    let n = v.as_u32();
    dst.push((n >> 16u32) as u8);
    dst.push((n >> 8u32) as u8);
    dst.push(n as u8);
    assert(final(dst)@ =~= old(dst)@ + u24_bytes(n));
}

/// A 31-bit value and its flag are read back from the word written for them,
/// whatever follows it.
pub proof fn lemma_u31_round_trip(e: bool, v: u32, rest: Seq<u8>)
    requires
        v <= U31_MAX,
    ensures
        u31_flag_of(u32_bytes(u31_word(e, v)) + rest) == e,
        u31_value_of(u32_bytes(u31_word(e, v)) + rest) == v,
{
    let w = u31_word(e, v);
    crate::wire::lemma_u32_round_trip(w, rest);
    let s = u32_bytes(w) + rest;
    assert(s[0] == (w >> 24u32) as u8);
    if e {
        assert(w == v | 0x8000_0000u32);
        assert((((v | 0x8000_0000u32) >> 24u32) as u8) & 0x80u8 != 0) by (bit_vector);
        assert((v | 0x8000_0000u32) & 0x7fff_ffffu32 == v) by (bit_vector)
            requires
                v <= 0x7fff_ffffu32,
        ;
    } else {
        assert(((v >> 24u32) as u8) & 0x80u8 == 0) by (bit_vector)
            requires
                v <= 0x7fff_ffffu32,
        ;
        assert(v & 0x7fff_ffffu32 == v) by (bit_vector)
            requires
                v <= 0x7fff_ffffu32,
        ;
    }
}

/// A 24-bit number is read back from the three bytes written for it, whatever
/// follows them.
pub proof fn lemma_u24_round_trip(n: u32, rest: Seq<u8>)
    requires
        n <= U24_MAX,
    ensures
        u24_of(u24_bytes(n) + rest) == n,
{
    let s = u24_bytes(n) + rest;
    let b0 = s[0];
    let b1 = s[1];
    let b2 = s[2];
    assert(b0 == (n >> 16u32) as u8);
    assert(b1 == (n >> 8u32) as u8);
    assert(b2 == n as u8);
    assert(((b0 as u32) << 16u32) | ((b1 as u32) << 8u32) | (b2 as u32) == n) by (bit_vector)
        requires
            n <= 0xff_ffffu32,
            b0 == (n >> 16u32) as u8,
            b1 == (n >> 8u32) as u8,
            b2 == n as u8,
    ;
}

/// Reads and writes a flag and a 31-bit value as one 32-bit big-endian word.
pub struct U31Codec;

impl U31Codec {
    /// Takes one word off the front of `src`; `None`, with `src` untouched, while
    /// fewer than four bytes are there.
    pub fn decode(&mut self, src: &mut Vec<u8>) -> (r: Result<Option<(bool, U31)>, Error>)
        ensures
            old(src)@.len() < 4 ==> (r matches Ok(None)) && final(src)@ == old(src)@,
            old(src)@.len() >= 4 ==> final(src)@ == old(src)@.subrange(4, old(src)@.len() as int)
                && match r {
                Ok(Some((e, v))) => e == u31_flag_of(old(src)@) && v.value() == u31_value_of(
                    old(src)@,
                ),
                _ => false,
            },
    {
        if src.len() < 4 {
            return Ok(None);
        }
        let r = read_u31(src.as_slice(), 0);
        assert(src@.subrange(0, src@.len() as int) =~= src@);
        drop_front(src, 4);
        Ok(Some(r))
    }

    /// Appends the word for `item`.
    pub fn encode(&mut self, item: (bool, U31), dst: &mut Vec<u8>) -> (r: Result<(), Error>)
        ensures
            r matches Ok(()),
            final(dst)@ == old(dst)@ + u32_bytes(u31_word(item.0, item.1.value())),
    {
        push_u31(dst, item.0, item.1);
        Ok(())
    }
}

/// Reads and writes 24-bit numbers as three big-endian bytes.
pub struct U24Codec;

impl U24Codec {
    /// Takes one number off the front of `src`; `None`, with `src` untouched, while
    /// fewer than three bytes are there.
    pub fn decode(&mut self, src: &mut Vec<u8>) -> (r: Result<Option<U24>, Error>)
        ensures
            old(src)@.len() < 3 ==> (r matches Ok(None)) && final(src)@ == old(src)@,
            old(src)@.len() >= 3 ==> final(src)@ == old(src)@.subrange(3, old(src)@.len() as int)
                && match r {
                Ok(Some(n)) => n.value() == u24_of(old(src)@),
                _ => false,
            },
    {
        if src.len() < 3 {
            return Ok(None);
        }
        let n = read_u24(src.as_slice(), 0);
        assert(src@.subrange(0, src@.len() as int) =~= src@);
        drop_front(src, 3);
        Ok(Some(n))
    }

    /// Appends the three bytes of `item`.
    pub fn encode(&mut self, item: U24, dst: &mut Vec<u8>) -> (r: Result<(), Error>)
        ensures
            r matches Ok(()),
            final(dst)@ == old(dst)@ + u24_bytes(item.value()),
    {
        push_u24(dst, item);
        Ok(())
    }
}

} // verus!
