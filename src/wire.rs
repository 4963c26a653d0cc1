use vstd::prelude::*;

verus! {

/// The two bytes of `n`, most significant first.
pub open spec fn u16_bytes(n: u16) -> Seq<u8> {
    seq![(n >> 8u16) as u8, n as u8]
}

/// The four bytes of `n`, most significant first.
pub open spec fn u32_bytes(n: u32) -> Seq<u8> {
    seq![(n >> 24u32) as u8, (n >> 16u32) as u8, (n >> 8u32) as u8, n as u8]
}

/// The eight bytes of `n`, most significant first.
pub open spec fn u64_bytes(n: u64) -> Seq<u8> {
    u32_bytes((n >> 32u64) as u32) + u32_bytes(n as u32)
}

/// The number held big-endian in the first two bytes of `s`.
pub open spec fn u16_of(s: Seq<u8>) -> u16 {
    ((s[0] as u16) << 8u16) | (s[1] as u16)
}

/// The number held big-endian in the first four bytes of `s`.
pub open spec fn u32_of(s: Seq<u8>) -> u32 {
    ((s[0] as u32) << 24u32) | ((s[1] as u32) << 16u32) | ((s[2] as u32) << 8u32) | (s[3] as u32)
}

/// The number held big-endian in the first eight bytes of `s`.
pub open spec fn u64_of(s: Seq<u8>) -> u64 {
    ((u32_of(s) as u64) << 32u64) | (u32_of(s.subrange(4, 8)) as u64)
}

proof fn lemma_u16_bits(n: u16, b0: u8, b1: u8)
    requires
        b0 == (n >> 8u16) as u8,
        b1 == n as u8,
    ensures
        ((b0 as u16) << 8u16) | (b1 as u16) == n,
{
    assert(((b0 as u16) << 8u16) | (b1 as u16) == n) by (bit_vector)
        requires
            b0 == (n >> 8u16) as u8,
            b1 == n as u8,
    ;
}

proof fn lemma_u32_bits(n: u32, b0: u8, b1: u8, b2: u8, b3: u8)
    requires
        b0 == (n >> 24u32) as u8,
        b1 == (n >> 16u32) as u8,
        b2 == (n >> 8u32) as u8,
        b3 == n as u8,
    ensures
        ((b0 as u32) << 24u32) | ((b1 as u32) << 16u32) | ((b2 as u32) << 8u32) | (b3 as u32)
            == n,
{
    assert(((b0 as u32) << 24u32) | ((b1 as u32) << 16u32) | ((b2 as u32) << 8u32) | (b3 as u32)
        == n) by (bit_vector)
        requires
            b0 == (n >> 24u32) as u8,
            b1 == (n >> 16u32) as u8,
            b2 == (n >> 8u32) as u8,
            b3 == n as u8,
    ;
}

/// Reading back two written bytes gives the number, whatever follows them.
pub proof fn lemma_u16_round_trip(n: u16, rest: Seq<u8>)
    ensures
        u16_of(u16_bytes(n) + rest) == n,
{
    let s = u16_bytes(n) + rest;
    assert(s[0] == (n >> 8u16) as u8);
    assert(s[1] == n as u8);
    lemma_u16_bits(n, s[0], s[1]);
}

/// Reading back four written bytes gives the number, whatever follows them.
pub proof fn lemma_u32_round_trip(n: u32, rest: Seq<u8>)
    ensures
        u32_of(u32_bytes(n) + rest) == n,
{
    let s = u32_bytes(n) + rest;
    assert(s[0] == (n >> 24u32) as u8);
    assert(s[1] == (n >> 16u32) as u8);
    assert(s[2] == (n >> 8u32) as u8);
    assert(s[3] == n as u8);
    lemma_u32_bits(n, s[0], s[1], s[2], s[3]);
}

/// Reading back eight written bytes gives the number, whatever follows them.
pub proof fn lemma_u64_round_trip(n: u64, rest: Seq<u8>)
    ensures
        u64_of(u64_bytes(n) + rest) == n,
{
    let hi = (n >> 32u64) as u32;
    let lo = n as u32;
    let s = u64_bytes(n) + rest;
    assert(s =~= u32_bytes(hi) + (u32_bytes(lo) + rest));
    lemma_u32_round_trip(hi, u32_bytes(lo) + rest);
    assert(s.subrange(4, 8) =~= u32_bytes(lo) + Seq::<u8>::empty());
    lemma_u32_round_trip(lo, Seq::<u8>::empty());
    assert(((hi as u64) << 32u64) | (lo as u64) == n) by (bit_vector)
        requires
            hi == (n >> 32u64) as u32,
            lo == n as u32,
    ;
}

/// Reads the big-endian number in `s[at..at + 2]`.
pub fn read_u16(s: &[u8], at: usize) -> (r: u16)
    requires
        at + 2 <= s@.len(),
    ensures
        r == u16_of(s@.subrange(at as int, s@.len() as int)),
{
    ((s[at] as u16) << 8u16) | (s[at + 1] as u16)
}

/// Reads the big-endian number in `s[at..at + 4]`.
pub fn read_u32(s: &[u8], at: usize) -> (r: u32)
    requires
        at + 4 <= s@.len(),
    ensures
        r == u32_of(s@.subrange(at as int, s@.len() as int)),
{
    ((s[at] as u32) << 24u32) | ((s[at + 1] as u32) << 16u32) | ((s[at + 2] as u32) << 8u32)
        | (s[at + 3] as u32)
}

/// Reads the big-endian number in `s[at..at + 8]`.
pub fn read_u64(s: &[u8], at: usize) -> (r: u64)
    requires
        at + 8 <= s@.len(),
    ensures
        r == u64_of(s@.subrange(at as int, s@.len() as int)),
{
    let hi = read_u32(s, at);
    let _len = s.len();
    let lo = read_u32(s, at + 4);
    let ghost t = s@.subrange(at as int, s@.len() as int);
    assert(t.subrange(4, 8).subrange(0, 4) =~= s@.subrange(at + 4, s@.len() as int).subrange(0, 4));
    assert(u32_of(t.subrange(4, 8)) == u32_of(s@.subrange(at + 4, s@.len() as int)));
    ((hi as u64) << 32u64) | (lo as u64)
}

/// Appends the two bytes of `n`, most significant first.
pub fn push_u16(dst: &mut Vec<u8>, n: u16)
    ensures
        final(dst)@ == old(dst)@ + u16_bytes(n),
{
    dst.push((n >> 8u16) as u8);
    dst.push(n as u8);
    assert(final(dst)@ =~= old(dst)@ + u16_bytes(n));
}

/// Appends the four bytes of `n`, most significant first.
pub fn push_u32(dst: &mut Vec<u8>, n: u32)
    ensures
        final(dst)@ == old(dst)@ + u32_bytes(n),
{
    dst.push((n >> 24u32) as u8);
    dst.push((n >> 16u32) as u8);
    dst.push((n >> 8u32) as u8);
    dst.push(n as u8);
    assert(final(dst)@ =~= old(dst)@ + u32_bytes(n));
}

/// Appends the eight bytes of `n`, most significant first.
pub fn push_u64(dst: &mut Vec<u8>, n: u64)
    ensures
        final(dst)@ == old(dst)@ + u64_bytes(n),
{
    push_u32(dst, (n >> 32u64) as u32);
    push_u32(dst, n as u32);
    assert(final(dst)@ =~= old(dst)@ + u64_bytes(n));
}

/// Appends all of `src`.
pub fn push_all(dst: &mut Vec<u8>, src: &[u8])
    ensures
        final(dst)@ == old(dst)@ + src@,
{
    let mut i: usize = 0;
    while i < src.len()
        invariant
            i <= src@.len(),
            dst@ == old(dst)@ + src@.subrange(0, i as int),
        decreases src@.len() - i,
    {
        dst.push(src[i]);
        i = i + 1;
        assert(dst@ =~= old(dst)@ + src@.subrange(0, i as int));
    }
    assert(src@.subrange(0, i as int) =~= src@);
}

/// Appends `n` zero bytes.
pub fn push_zeros(dst: &mut Vec<u8>, n: usize)
    ensures
        final(dst)@ == old(dst)@ + Seq::new(n as nat, |i: int| 0u8),
{
    let mut i: usize = 0;
    while i < n
        invariant
            i <= n,
            dst@ == old(dst)@ + Seq::new(i as nat, |k: int| 0u8),
        decreases n - i,
    {
        dst.push(0u8);
        i = i + 1;
        assert(dst@ =~= old(dst)@ + Seq::new(i as nat, |k: int| 0u8));
    }
}

/// The bytes of `s[lo..hi]`, as a vector of their own.
pub fn copy_range(s: &[u8], lo: usize, hi: usize) -> (r: Vec<u8>)
    requires
        lo <= hi <= s@.len(),
    ensures
        r@ == s@.subrange(lo as int, hi as int),
{
    let mut r: Vec<u8> = Vec::with_capacity(hi - lo);
    let mut i: usize = lo;
    while i < hi
        invariant
            lo <= i <= hi <= s@.len(),
            r@ == s@.subrange(lo as int, i as int),
        decreases hi - i,
    {
        r.push(s[i]);
        i = i + 1;
        assert(r@ =~= s@.subrange(lo as int, i as int));
    }
    r
}

/// Removes the first `n` bytes of `v`.
pub fn drop_front(v: &mut Vec<u8>, n: usize)
    requires
        n <= old(v)@.len(),
    ensures
        final(v)@ == old(v)@.subrange(n as int, old(v)@.len() as int),
{
    let rest = v.split_off(n);
    *v = rest;
}

} // verus!
