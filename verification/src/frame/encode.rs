//! Encoding into bytes.
use bytes::{Bytes, BytesMut};
use super::buf::{
    bytes_len, bytes_mut_len, bytes_mut_with_capacity, contents, freeze, opt_contents, opt_len,
    put_u16, put_u32, written,
};
use super::flags::{only_flag_bits, FrameType, FLAG_BITS};
use super::wire::{u16_be, u32_be};
use vstd::prelude::*;

verus! {

broadcast use crate::frame::wire::group_be_len;

/// The greatest number of bytes that a buffer holds.
pub fn buffer_limit() -> (r: usize)
    ensures
        r == isize::MAX,
{
    isize::MAX as usize
}

/// `b` more than `a`, if `a` is a length and the sum is no more than a
/// buffer holds.
pub fn add_within(a: Option<usize>, b: usize) -> (r: Option<usize>)
    ensures
        r is Some <==> (a matches Some(n) && n + b <= isize::MAX),
        r matches Some(sum) ==> sum == a->Some_0 + b,
{
    match a {
        Some(n) => {
            let limit = buffer_limit();
            if b <= limit && n <= limit - b {
                Some(n + b)
            } else {
                None
            }
        },
        None => None,
    }
}

/// The number of bytes that an optional buffer holds.
pub fn opt_bytes_len(o: &Option<Bytes>) -> (n: usize)
    ensures
        n == opt_len(opt_contents(*o)),
{
    match o {
        Some(bytes) => bytes_len(bytes),
        None => 0,
    }
}

/// A trait for encoding a frame, or a part of one, into bytes.
pub trait Encode {
    /// The bytes that stand for `self` on the wire.
    spec fn wire(&self) -> Seq<u8>;

    /// Whether the lengths inside `self` fit the fields that the wire
    /// format has for them.
    spec fn encodable(&self) -> bool;

    /// Encodes `self` into bytes, appended to `buf`.
    fn encode(&self, buf: &mut BytesMut)
        requires
            self.encodable(),
            written(*old(buf)).len() + self.wire().len() <= isize::MAX,
        ensures
            written(*final(buf)) == written(*old(buf)) + self.wire(),
    ;

    /// Returns the length (in bytes) that this value has when encoded, if
    /// it can be encoded and is then no longer than a buffer holds.
    fn encoded_len(&self) -> (r: Option<usize>)
        ensures
            r is Some <==> self.encodable() && self.wire().len() <= isize::MAX,
            r matches Some(n) ==> n == self.wire().len(),
    ;

    /// Encodes `self` into bytes, appended to `buf`, if `self` can be
    /// encoded and `buf` can take it; says whether it did. Where it did
    /// not, `buf` is as it was.
    fn try_encode(&self, buf: &mut BytesMut) -> (done: bool)
        ensures
            done == (self.encodable() && written(*old(buf)).len() + self.wire().len()
                <= isize::MAX),
            done ==> written(*final(buf)) == written(*old(buf)) + self.wire(),
            !done ==> written(*final(buf)) == written(*old(buf)),
    {
        match self.encoded_len() {
            Some(n) => {
                if bytes_mut_len(buf) <= buffer_limit() - n {
                    self.encode(buf);
                    true
                } else {
                    false
                }
            },
            None => false,
        }
    }

    /// Encodes `self` into a buffer of its own, if it can be encoded and is
    /// then no longer than a buffer holds.
    fn try_to_bytes(&self) -> (r: Option<Bytes>)
        ensures
            r is Some <==> self.encodable() && self.wire().len() <= isize::MAX,
            r matches Some(b) ==> contents(b) == self.wire(),
    {
        match self.encoded_len() {
            Some(n) => {
                let mut buf = bytes_mut_with_capacity(n);
                self.encode(&mut buf);
                assert(written(buf) =~= self.wire());
                Some(freeze(buf))
            },
            None => None,
        }
    }

    /// Returns the length (in bytes) of this value.
    fn len(&self) -> (n: usize)
        requires
            self.wire().len() <= usize::MAX,
        ensures
            n == self.wire().len(),
    ;

    /// Returns whether this value is empty.
    fn is_empty(&self) -> (r: bool)
        requires
            self.wire().len() <= usize::MAX,
        ensures
            r == (self.wire().len() == 0),
    {
        self.len() == 0
    }

    /// Encodes `self` into a buffer of its own.
    fn to_bytes(&self) -> (b: Bytes)
        requires
            self.encodable(),
            self.wire().len() <= isize::MAX,
        ensures
            contents(b) == self.wire(),
    {
        let mut buf = bytes_mut_with_capacity(self.len());
        self.encode(&mut buf);
        assert(written(buf) =~= self.wire());
        freeze(buf)
    }
}

/// The six bytes that open every frame: the stream ID, then the word that
/// holds the frame type in its six high bits and the flags below them.
pub open spec fn header(stream_id: u32, frame_type: FrameType, flags: u16) -> Seq<u8> {
    u32_be(stream_id) + u16_be(frame_type.spec_bits() | flags)
}

/// Writes the header of a frame.
pub fn put_header(buf: &mut BytesMut, stream_id: u32, frame_type: FrameType, flags: u16)
    requires
        written(*old(buf)).len() + 6 <= isize::MAX,
    ensures
        written(*final(buf)) == written(*old(buf)) + header(stream_id, frame_type, flags),
        header(stream_id, frame_type, flags).len() == 6,
{
    put_u32(buf, stream_id);
    put_u16(buf, frame_type.bits() | flags);
    assert(written(*buf) =~= written(*old(buf)) + header(stream_id, frame_type, flags));
}

/// The header word gives back the frame type and the flags it was made of.
pub proof fn lemma_header_word(frame_type: FrameType, flags: u16)
    requires
        only_flag_bits(flags),
    ensures
        (frame_type.spec_bits() | flags) / 0x400 == frame_type.spec_value(),
        (frame_type.spec_bits() | flags) & FLAG_BITS == flags,
{
    let v = frame_type.spec_value();
    let b = frame_type.spec_bits();
    frame_type.lemma_value_round_trip();
    assert(b == v * 0x400);
    assert((b | flags) / 0x400 == v && (b | flags) & 0x1F0 == flags) by (bit_vector)
        requires
            v <= 0x3F,
            b == v * 0x400,
            flags & 0x1F0 == flags,
    ;
}

} // verus!
