//! Big-endian integers as byte sequences.
use vstd::prelude::*;

verus! {

/// The two bytes of `v`, most significant first.
#[verifier::opaque]
pub open spec fn u16_be(v: u16) -> Seq<u8> {
    seq![(v / 0x100) as u8, (v % 0x100) as u8]
}

/// The four bytes of `v`, most significant first.
#[verifier::opaque]
pub open spec fn u32_be(v: u32) -> Seq<u8> {
    seq![
        (v / 0x100_0000) as u8,
        (v / 0x1_0000 % 0x100) as u8,
        (v / 0x100 % 0x100) as u8,
        (v % 0x100) as u8,
    ]
}

/// The eight bytes of `v`, most significant first.
#[verifier::opaque]
pub open spec fn u64_be(v: u64) -> Seq<u8> {
    u32_be((v / 0x1_0000_0000) as u32) + u32_be((v % 0x1_0000_0000) as u32)
}

/// The integer whose big-endian bytes are the first two of `s`.
#[verifier::opaque]
pub open spec fn be_u16(s: Seq<u8>) -> u16
    recommends
        s.len() >= 2,
{
    (s[0] as int * 0x100 + s[1] as int) as u16
}

/// The integer whose big-endian bytes are the first four of `s`.
#[verifier::opaque]
pub open spec fn be_u32(s: Seq<u8>) -> u32
    recommends
        s.len() >= 4,
{
    (s[0] as int * 0x100_0000 + s[1] as int * 0x1_0000 + s[2] as int * 0x100 + s[3] as int) as u32
}

/// The integer whose big-endian bytes are the first eight of `s`.
#[verifier::opaque]
pub open spec fn be_u64(s: Seq<u8>) -> u64
    recommends
        s.len() >= 8,
{
    (be_u32(s) as int * 0x1_0000_0000 + be_u32(s.skip(4)) as int) as u64
}

/// An integer of sixteen bits takes two bytes.
pub broadcast proof fn lemma_u16_be_len(v: u16)
    ensures
        #[trigger] u16_be(v).len() == 2,
{
    reveal(u16_be);
}

/// An integer of thirty-two bits takes four bytes.
pub broadcast proof fn lemma_u32_be_len(v: u32)
    ensures
        #[trigger] u32_be(v).len() == 4,
{
    reveal(u32_be);
}

/// An integer of sixty-four bits takes eight bytes.
pub broadcast proof fn lemma_u64_be_len(v: u64)
    ensures
        #[trigger] u64_be(v).len() == 8,
{
    reveal(u64_be);
    reveal(u32_be);
}

/// How many bytes the integers take.
pub broadcast group group_be_len {
    lemma_u16_be_len,
    lemma_u32_be_len,
    lemma_u64_be_len,
}

/// Reading back two bytes written big-endian gives the integer written.
pub proof fn lemma_be_u16_of_u16_be(v: u16, rest: Seq<u8>)
    ensures
        u16_be(v).len() == 2,
        be_u16(u16_be(v) + rest) == v,
        (u16_be(v) + rest).skip(2) == rest,
{
    reveal(u16_be);
    reveal(be_u16);
    assert((u16_be(v) + rest).skip(2) =~= rest);
}

/// Reading back four bytes written big-endian gives the integer written.
pub proof fn lemma_be_u32_of_u32_be(v: u32, rest: Seq<u8>)
    ensures
        u32_be(v).len() == 4,
        be_u32(u32_be(v) + rest) == v,
        (u32_be(v) + rest).skip(4) == rest,
{
    reveal(u32_be);
    reveal(be_u32);
    assert((u32_be(v) + rest).skip(4) =~= rest);
}

/// Reading back eight bytes written big-endian gives the integer written.
pub proof fn lemma_be_u64_of_u64_be(v: u64, rest: Seq<u8>)
    ensures
        u64_be(v).len() == 8,
        be_u64(u64_be(v) + rest) == v,
        (u64_be(v) + rest).skip(8) == rest,
{
    reveal(u64_be);
    reveal(be_u64);
    lemma_u32_be_len(0);
    let hi = (v / 0x1_0000_0000) as u32;
    let lo = (v % 0x1_0000_0000) as u32;
    let s = u64_be(v) + rest;
    assert(s =~= u32_be(hi) + (u32_be(lo) + rest));
    lemma_be_u32_of_u32_be(hi, u32_be(lo) + rest);
    lemma_be_u32_of_u32_be(lo, rest);
    assert(s.skip(4) == u32_be(lo) + rest);
    assert(s.skip(8) =~= s.skip(4).skip(4));
}

/// The first byte of a 31-bit integer has its highest bit clear.
pub proof fn lemma_u32_be_high_bit(v: u32)
    requires
        v <= 0x7FFF_FFFF,
    ensures
        u32_be(v).len() == 4,
        u32_be(v)[0] < 0x80,
{
    reveal(u32_be);
}

} // verus!
