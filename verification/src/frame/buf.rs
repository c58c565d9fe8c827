//! The byte buffers of the `bytes` crate, as the codec sees them.
//!
//! What a buffer holds is a sequence of bytes. The functions marked
//! `external_body` and the `assume_specification` items are not proved: each
//! states what is documented of the call that it makes or stands for.
use bytes::{Buf, BufMut, Bytes, BytesMut};
use super::wire::{be_u16, be_u32, be_u64, u16_be, u32_be, u64_be};
use vstd::prelude::*;
use vstd::string::StringSliceAdditionalSpecFns;

verus! {

#[verifier::external_type_specification]
#[verifier::external_body]
pub struct ExBytes(bytes::Bytes);

#[verifier::external_type_specification]
#[verifier::external_body]
pub struct ExBytesMut(bytes::BytesMut);

/// The bytes that a `Bytes` holds, from its cursor to its end.
pub uninterp spec fn contents(b: Bytes) -> Seq<u8>;

/// The bytes that a `BytesMut` holds, in the order they were written.
pub uninterp spec fn written(b: BytesMut) -> Seq<u8>;

/// `Bytes::len`: the number of bytes held.
#[verifier::external_body]
pub(crate) fn bytes_len(b: &Bytes) -> (n: usize)
    ensures
        n == contents(*b).len(),
{
    b.len()
}

/// `Clone` of a `Bytes`: a second handle on the same bytes.
pub assume_specification[ <Bytes as Clone>::clone ](b: &Bytes) -> (copy: Bytes)
    ensures
        contents(copy) == contents(*b),
;

/// `Buf::get_u8` on a `Bytes`: hands out the first byte and moves the
/// cursor past it. The call panics on an empty buffer.
#[verifier::external_body]
pub(crate) fn get_u8(b: &mut Bytes) -> (v: u8)
    requires
        contents(*old(b)).len() >= 1,
    ensures
        v == contents(*old(b))[0],
        contents(*final(b)) == contents(*old(b)).skip(1),
{
    b.get_u8()
}

/// `Buf::get_u16` on a `Bytes`: reads two bytes as a big-endian integer and
/// moves the cursor past them. The call panics when fewer than two remain.
#[verifier::external_body]
pub(crate) fn get_u16(b: &mut Bytes) -> (v: u16)
    requires
        contents(*old(b)).len() >= 2,
    ensures
        v == be_u16(contents(*old(b))),
        contents(*final(b)) == contents(*old(b)).skip(2),
{
    b.get_u16()
}

/// `Buf::get_u32` on a `Bytes`: reads four bytes as a big-endian integer and
/// moves the cursor past them. The call panics when fewer than four remain.
#[verifier::external_body]
pub(crate) fn get_u32(b: &mut Bytes) -> (v: u32)
    requires
        contents(*old(b)).len() >= 4,
    ensures
        v == be_u32(contents(*old(b))),
        contents(*final(b)) == contents(*old(b)).skip(4),
{
    b.get_u32()
}

/// `Buf::get_u64` on a `Bytes`: reads eight bytes as a big-endian integer and
/// moves the cursor past them. The call panics when fewer than eight remain.
#[verifier::external_body]
pub(crate) fn get_u64(b: &mut Bytes) -> (v: u64)
    requires
        contents(*old(b)).len() >= 8,
    ensures
        v == be_u64(contents(*old(b))),
        contents(*final(b)) == contents(*old(b)).skip(8),
{
    b.get_u64()
}

/// `Buf::copy_to_bytes` on a `Bytes`: hands out the first `len` bytes as a
/// `Bytes` of their own and leaves the rest. The call panics when `len`
/// exceeds what remains.
#[verifier::external_body]
pub(crate) fn copy_to_bytes(b: &mut Bytes, len: usize) -> (head: Bytes)
    requires
        len <= contents(*old(b)).len(),
    ensures
        contents(head) == contents(*old(b)).take(len as int),
        contents(*final(b)) == contents(*old(b)).skip(len as int),
{
    b.copy_to_bytes(len)
}

/// `Bytes::split_to`: afterwards the buffer holds the bytes from `at` on and
/// the result holds those before `at`. The call panics when `at` exceeds the
/// length.
#[verifier::external_body]
pub(crate) fn split_to(b: &mut Bytes, at: usize) -> (head: Bytes)
    requires
        at <= contents(*old(b)).len(),
    ensures
        contents(head) == contents(*old(b)).take(at as int),
        contents(*final(b)) == contents(*old(b)).skip(at as int),
{
    b.split_to(at)
}

/// `Bytes::from` a `String`: a buffer that holds the string's bytes.
#[verifier::external_body]
pub(crate) fn bytes_from_string(s: String) -> (b: Bytes)
    ensures
        contents(b) == vstd::utf8::encode_utf8(s@),
{
    Bytes::from(s)
}

/// `AsRef<[u8]>` of a `Bytes`: the bytes held, as a slice.
#[verifier::external_body]
pub(crate) fn bytes_as_slice(b: &Bytes) -> (s: &[u8])
    ensures
        s@ == contents(*b),
{
    b.as_ref()
}

/// `BytesMut::with_capacity`: a buffer with room set aside and no bytes in
/// it. The call panics where the room asked for is more than `isize::MAX`
/// bytes.
#[verifier::external_body]
pub(crate) fn bytes_mut_with_capacity(capacity: usize) -> (b: BytesMut)
    requires
        capacity <= isize::MAX,
    ensures
        written(b) == Seq::<u8>::empty(),
{
    BytesMut::with_capacity(capacity)
}

/// `BytesMut::new`: a buffer with no bytes in it.
#[verifier::external_body]
pub(crate) fn bytes_mut_new() -> (b: BytesMut)
    ensures
        written(b) == Seq::<u8>::empty(),
{
    BytesMut::new()
}

/// `BytesMut::len`: the number of bytes written.
#[verifier::external_body]
pub(crate) fn bytes_mut_len(b: &BytesMut) -> (n: usize)
    ensures
        n == written(*b).len(),
{
    b.len()
}

/// `BytesMut::freeze`: the same bytes, now immutable.
#[verifier::external_body]
pub(crate) fn freeze(b: BytesMut) -> (frozen: Bytes)
    ensures
        contents(frozen) == written(b),
{
    b.freeze()
}

/// `BufMut::put_u8` on a `BytesMut`: appends one byte. The buffer grows as
/// needed; the call panics once it would hold more than `isize::MAX` bytes.
#[verifier::external_body]
pub(crate) fn put_u8(b: &mut BytesMut, v: u8)
    requires
        written(*old(b)).len() + 1 <= isize::MAX,
    ensures
        written(*final(b)) == written(*old(b)).push(v),
{
    b.put_u8(v)
}

/// `BufMut::put_u16` on a `BytesMut`: appends `v` as two bytes, big-endian.
/// The call panics once the buffer would hold more than `isize::MAX` bytes.
#[verifier::external_body]
pub(crate) fn put_u16(b: &mut BytesMut, v: u16)
    requires
        written(*old(b)).len() + 2 <= isize::MAX,
    ensures
        written(*final(b)) == written(*old(b)) + u16_be(v),
{
    b.put_u16(v)
}

/// `BufMut::put_u32` on a `BytesMut`: appends `v` as four bytes, big-endian.
/// The call panics once the buffer would hold more than `isize::MAX` bytes.
#[verifier::external_body]
pub(crate) fn put_u32(b: &mut BytesMut, v: u32)
    requires
        written(*old(b)).len() + 4 <= isize::MAX,
    ensures
        written(*final(b)) == written(*old(b)) + u32_be(v),
{
    b.put_u32(v)
}

/// `BufMut::put_u64` on a `BytesMut`: appends `v` as eight bytes, big-endian.
/// The call panics once the buffer would hold more than `isize::MAX` bytes.
#[verifier::external_body]
pub(crate) fn put_u64(b: &mut BytesMut, v: u64)
    requires
        written(*old(b)).len() + 8 <= isize::MAX,
    ensures
        written(*final(b)) == written(*old(b)) + u64_be(v),
{
    b.put_u64(v)
}

/// `BufMut::put_slice` on a `BytesMut`, with the bytes of a `Bytes`: appends
/// them all. The call panics once the buffer would hold more than
/// `isize::MAX` bytes.
#[verifier::external_body]
pub(crate) fn put_slice(b: &mut BytesMut, src: &Bytes)
    requires
        written(*old(b)).len() + contents(*src).len() <= isize::MAX,
    ensures
        written(*final(b)) == written(*old(b)) + contents(*src),
{
    b.put_slice(src)
}

#[verifier::external_type_specification]
#[verifier::external_body]
pub struct ExUtf8Error(core::str::Utf8Error);

/// `core::str::from_utf8`: the bytes as a string slice if they are valid
/// UTF-8, an error if they are not.
pub assume_specification[ core::str::from_utf8 ](v: &[u8]) -> (r: core::result::Result<
    &str,
    core::str::Utf8Error,
>)
    ensures
        r is Ok <==> vstd::utf8::valid_utf8(v@),
        r matches Ok(s) ==> s.spec_bytes() == v@,
;

/// The text that a buffer holds, if its bytes are valid UTF-8.
pub fn bytes_utf8(b: &Bytes) -> (r: Option<&str>)
    ensures
        r is Some <==> vstd::utf8::valid_utf8(contents(*b)),
        r matches Some(s) ==> s.spec_bytes() == contents(*b),
{
    match core::str::from_utf8(bytes_as_slice(b)) {
        Ok(s) => Some(s),
        Err(_) => None,
    }
}

/// What an optional buffer holds.
pub open spec fn opt_contents(o: Option<Bytes>) -> Option<Seq<u8>> {
    match o {
        Some(b) => Some(contents(b)),
        None => None,
    }
}

/// The number of bytes in an optional byte sequence; none where it is absent.
pub open spec fn opt_len(o: Option<Seq<u8>>) -> nat {
    match o {
        Some(s) => s.len(),
        None => 0,
    }
}

/// The bytes of an optional byte sequence; none where it is absent.
pub open spec fn opt_bytes(o: Option<Seq<u8>>) -> Seq<u8> {
    match o {
        Some(s) => s,
        None => Seq::empty(),
    }
}

} // verus!
