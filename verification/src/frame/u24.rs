//! The 24-bit unsigned integer that prefixes metadata.
use bytes::BytesMut;
use super::buf::{put_u16, put_u8, written};
use super::encode::Encode;
use super::wire::u16_be;
use vstd::prelude::*;

verus! {

broadcast use crate::frame::wire::group_be_len;

/// A 24-bit integer splits into, and is made of, its eight high bits and
/// its sixteen low bits.
proof fn lemma_u24_parts(a: u32, b: u32)
    by (bit_vector)
    ensures
        a <= 0xFF_FFFFu32 ==> (a >> 16u32) == a / 0x1_0000u32 && (a & 0xFFFFu32) == a % 0x1_0000u32,
        a <= 0xFFu32 && b <= 0xFFFFu32 ==> ((a << 16u32) | b) == a * 0x1_0000u32 + b,
{
}

/// The 24-bit unsigned integer type: its eight high bits and its sixteen low bits.
#[derive(Debug, Copy, Clone, PartialEq, Eq, Structural)]
pub struct U24(pub u8, pub u16);

impl U24 {
    /// The maximum value `U24` can hold.
    pub const MAX: u32 = 0xFF_FFFF;

    /// The minimum value `U24` can hold.
    pub const MIN: u32 = 0;

    /// The integer that `self` stands for.
    pub open spec fn spec_value(self) -> nat {
        (self.0 as nat) * 0x1_0000 + self.1 as nat
    }

    /// Builds a `U24` from the given `higher_bits` and `lower_bits`.
    pub fn new(higher_bits: u8, lower_bits: u16) -> (r: U24)
        ensures
            r == U24(higher_bits, lower_bits),
    {
        U24(higher_bits, lower_bits)
    }

    /// Builds a `U24` from a `u32` value, which may not be greater than
    /// `U24::MAX` (16,777,215).
    pub fn from_u32(val: u32) -> (r: U24)
        requires
            val <= U24::MAX,
        ensures
            r.spec_value() == val,
    {
        proof {
            lemma_u24_parts(val, 0);
        }
        U24((val >> 16) as u8, (val & 0xFFFF) as u16)
    }

    /// Builds a `U24` from a `usize` value, which may not be greater than
    /// `U24::MAX` (16,777,215).
    pub fn from_usize(val: usize) -> (r: U24)
        requires
            val <= U24::MAX,
        ensures
            r.spec_value() == val,
    {
        U24::from_u32(val as u32)
    }

    /// Converts `Self` into `u32`.
    pub fn into_u32(self) -> (r: u32)
        ensures
            r == self.spec_value(),
            r <= U24::MAX,
    {
        let hi = self.0 as u32;
        let lo = self.1 as u32;
        proof {
            lemma_u24_parts(hi, lo);
        }
        (hi << 16) | lo
    }

    /// Converts `Self` into `usize`.
    pub fn into_usize(self) -> (r: usize)
        ensures
            r == self.spec_value(),
            r <= U24::MAX,
    {
        self.into_u32() as usize
    }
}

impl Encode for U24 {
    /// Three bytes, most significant first.
    open spec fn wire(&self) -> Seq<u8> {
        seq![self.0] + u16_be(self.1)
    }

    open spec fn encodable(&self) -> bool {
        true
    }

    fn encode(&self, buf: &mut BytesMut) {
        put_u8(buf, self.0);
        put_u16(buf, self.1);
        assert(written(*buf) =~= written(*old(buf)) + self.wire());
    }

    fn encoded_len(&self) -> Option<usize> {
        Some(3)
    }

    fn len(&self) -> usize {
        3
    }
}

} // verus!
