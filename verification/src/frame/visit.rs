//! Reading the fields of a frame off the front of a buffer.
//!
//! Each reader has a specification beside it: a function from the bytes in
//! the buffer to what is read, or the error, and the bytes that stay.
use bytes::Bytes;
use crate::payload::{metadata_len_prefix, Payload, PayloadView};
use super::buf::{
    bytes_len, contents, copy_to_bytes, get_u16, get_u32, get_u64, get_u8, opt_contents,
};
use super::decode::DecodeError;
use super::flags::{Flags, FrameType, FLAG_BITS, FOLLOWS_BIT};
use super::u24::U24;
use super::version::Version;
use super::wire::{
    be_u16, be_u32, be_u64, lemma_be_u16_of_u16_be, lemma_be_u32_of_u32_be, lemma_be_u64_of_u64_be,
    u16_be, u32_be, u64_be,
};
use vstd::prelude::*;

verus! {

broadcast use crate::frame::wire::group_be_len;

/// The maximum value 31-bit unsigned integer can hold.
pub const MAX_U31: u32 = 0x7FFF_FFFF;

/// The maximum value 63-bit unsigned integer can hold.
pub const MAX_U63: u64 = 0x7FFF_FFFF_FFFF_FFFF;

/// Cutting to 31 bits gives a 31-bit number, and changes none.
pub proof fn lemma_mask_u31(v: u32)
    by (bit_vector)
    ensures
        v & 0x7FFF_FFFFu32 <= 0x7FFF_FFFFu32,
        v <= 0x7FFF_FFFFu32 ==> v & 0x7FFF_FFFFu32 == v,
{
}

/// Cutting to 63 bits gives a 63-bit number, and changes none.
pub proof fn lemma_mask_u63(v: u64)
    by (bit_vector)
    ensures
        v & 0x7FFF_FFFF_FFFF_FFFFu64 <= 0x7FFF_FFFF_FFFF_FFFFu64,
        v <= 0x7FFF_FFFF_FFFF_FFFFu64 ==> v & 0x7FFF_FFFF_FFFF_FFFFu64 == v,
{
}

/// `v` without its highest bit.
pub fn mask_u31(v: u32) -> (r: u32)
    ensures
        r == v & MAX_U31,
        r <= MAX_U31,
        v <= MAX_U31 ==> r == v,
{
    proof {
        lemma_mask_u31(v);
    }
    v & MAX_U31
}

/// `v` without its highest bit.
pub fn mask_u63(v: u64) -> (r: u64)
    ensures
        r == v & MAX_U63,
        r <= MAX_U63,
        v <= MAX_U63 ==> r == v,
{
    proof {
        lemma_mask_u63(v);
    }
    v & MAX_U63
}

/// The result of reading a `T` off the front of a byte sequence, and the bytes left.
pub type Parsed<T> = (Result<T, DecodeError>, Seq<u8>);

/// One byte.
pub open spec fn parse_u8(s: Seq<u8>) -> Parsed<u8> {
    if s.len() < 1 {
        (Err(DecodeError::InComplete), s)
    } else {
        (Ok(s[0]), s.skip(1))
    }
}

/// Two bytes, big-endian.
pub open spec fn parse_u16(s: Seq<u8>) -> Parsed<u16> {
    if s.len() < 2 {
        (Err(DecodeError::InComplete), s)
    } else {
        (Ok(be_u16(s)), s.skip(2))
    }
}

/// Three bytes, big-endian: one byte, then two.
pub open spec fn parse_u24(s: Seq<u8>) -> Parsed<U24> {
    match parse_u8(s) {
        (Err(e), rest) => (Err(e), rest),
        (Ok(high), s1) => match parse_u16(s1) {
            (Err(e), rest) => (Err(e), rest),
            (Ok(low), s2) => (Ok(U24(high, low)), s2),
        },
    }
}

/// Four bytes, big-endian.
pub open spec fn parse_u32(s: Seq<u8>) -> Parsed<u32> {
    if s.len() < 4 {
        (Err(DecodeError::InComplete), s)
    } else {
        (Ok(be_u32(s)), s.skip(4))
    }
}

/// Four bytes, big-endian, without the highest bit.
pub open spec fn parse_u31(s: Seq<u8>) -> Parsed<u32> {
    if s.len() < 4 {
        (Err(DecodeError::InComplete), s)
    } else {
        (Ok(be_u32(s) & MAX_U31), s.skip(4))
    }
}

/// Eight bytes, big-endian, without the highest bit.
pub open spec fn parse_u63(s: Seq<u8>) -> Parsed<u64> {
    if s.len() < 8 {
        (Err(DecodeError::InComplete), s)
    } else {
        (Ok(be_u64(s) & MAX_U63), s.skip(8))
    }
}

/// The header word: the frame type from its six high bits, and the flag
/// bits among its ten low bits.
pub open spec fn parse_flags(s: Seq<u8>) -> Parsed<(FrameType, u16)> {
    if s.len() < 2 {
        (Err(DecodeError::InComplete), s)
    } else {
        let word = be_u16(s);
        match FrameType::spec_from_value(word / 0x400) {
            Some(frame_type) => (Ok((frame_type, word & FLAG_BITS)), s.skip(2)),
            None => (Err(DecodeError::UnrecognizedFrameType(word / 0x400)), s.skip(2)),
        }
    }
}

/// A version: major, then minor.
pub open spec fn parse_version(s: Seq<u8>) -> Parsed<Version> {
    if s.len() < 4 {
        (Err(DecodeError::InComplete), s)
    } else {
        (Ok(Version { major: be_u16(s), minor: be_u16(s.skip(2)) }), s.skip(4))
    }
}

/// The next `len` bytes.
pub open spec fn parse_bytes(s: Seq<u8>, len: nat) -> Parsed<Seq<u8>> {
    if s.len() < len {
        (Err(DecodeError::InComplete), s)
    } else {
        (Ok(s.take(len as int)), s.skip(len as int))
    }
}

/// All the bytes left, or nothing where none is left.
pub open spec fn parse_rest(s: Seq<u8>) -> Parsed<Option<Seq<u8>>> {
    if s.len() == 0 {
        (Ok(None), s)
    } else {
        (Ok(Some(s)), Seq::empty())
    }
}

/// A payload: the 24-bit length of the metadata (read only where
/// `can_have_data` holds, else taken as zero), that many bytes of metadata
/// if the length is not zero, and all that is left as data.
pub open spec fn parse_payload(s: Seq<u8>, can_have_data: bool) -> Parsed<PayloadView> {
    let (len, s1) = if can_have_data {
        parse_u24(s)
    } else {
        (Ok(U24(0, 0)), s)
    };
    match len {
        Err(e) => (Err(e), s1),
        Ok(len) => if len.spec_value() > 0 {
            match parse_bytes(s1, len.spec_value()) {
                (Err(e), rest) => (Err(e), rest),
                (Ok(metadata), s2) => (
                    Ok(PayloadView { metadata: Some(metadata), data: parse_rest(s2).0->Ok_0 }),
                    parse_rest(s2).1,
                ),
            }
        } else {
            (Ok(PayloadView { metadata: None, data: parse_rest(s1).0->Ok_0 }), parse_rest(s1).1)
        },
    }
}

/// A resume token, present where the flags hold the RESUME bit: its
/// 16-bit length, then that many bytes.
pub open spec fn parse_resume_token(s: Seq<u8>, flags: u16) -> Parsed<Option<Seq<u8>>> {
    if flags & FOLLOWS_BIT == FOLLOWS_BIT {
        match parse_u16(s) {
            (Err(e), rest) => (Err(e), rest),
            (Ok(len), s1) => match parse_bytes(s1, len as nat) {
                (Err(e), rest) => (Err(e), rest),
                (Ok(token), s2) => (Ok(Some(token)), s2),
            },
        }
    } else {
        (Ok(None), s)
    }
}

/// Reads the stream ID that opens a frame.
pub fn eat_stream_id(buf: &mut Bytes) -> (r: Result<u32, DecodeError>)
    ensures
        (r, contents(*final(buf))) == parse_u31(contents(*old(buf))),
        r matches Ok(id) ==> id <= MAX_U31,
{
    eat_u31(buf)
}

/// Reads the header word: the frame type and the flags.
pub fn eat_flags(buf: &mut Bytes) -> (r: Result<(FrameType, Flags), DecodeError>)
    ensures
        match r {
            Ok((frame_type, flags)) => parse_flags(contents(*old(buf))) == (
                Ok::<(FrameType, u16), DecodeError>((frame_type, flags@)),
                contents(*final(buf)),
            ),
            Err(e) => parse_flags(contents(*old(buf))) == (
                Err::<(FrameType, u16), DecodeError>(e),
                contents(*final(buf)),
            ),
        },
{
    if bytes_len(buf) < 2 {
        return Err(DecodeError::InComplete);
    }
    let flags = get_u16(buf);
    let ft = flags >> 10;
    proof {
        super::flags::lemma_flag_sets(flags, 0);
    }
    let frame_type = match FrameType::from_bits(flags) {
        Some(frame_type) => frame_type,
        None => return Err(DecodeError::UnrecognizedFrameType(ft)),
    };
    let flags = Flags::from_bits_truncate(flags);

    Ok((frame_type, flags))
}

/// Reads a protocol version.
pub fn eat_version(buf: &mut Bytes) -> (r: Result<Version, DecodeError>)
    ensures
        (r, contents(*final(buf))) == parse_version(contents(*old(buf))),
{
    if bytes_len(buf) < 4 {
        return Err(DecodeError::InComplete);
    }
    let major = get_u16(buf);
    let minor = get_u16(buf);
    assert(contents(*buf) =~= contents(*old(buf)).skip(4));
    Ok(Version::new(major, minor))
}

/// Reads one byte.
pub fn eat_u8(buf: &mut Bytes) -> (r: Result<u8, DecodeError>)
    ensures
        (r, contents(*final(buf))) == parse_u8(contents(*old(buf))),
{
    if bytes_len(buf) < 1 {
        return Err(DecodeError::InComplete);
    }
    Ok(get_u8(buf))
}

/// Reads a 16-bit integer.
pub fn eat_u16(buf: &mut Bytes) -> (r: Result<u16, DecodeError>)
    ensures
        (r, contents(*final(buf))) == parse_u16(contents(*old(buf))),
{
    if bytes_len(buf) < 2 {
        return Err(DecodeError::InComplete);
    }
    Ok(get_u16(buf))
}

/// Reads a 24-bit integer.
pub fn eat_u24(buf: &mut Bytes) -> (r: Result<U24, DecodeError>)
    ensures
        (r, contents(*final(buf))) == parse_u24(contents(*old(buf))),
{
    let high = match eat_u8(buf) {
        Ok(high) => high,
        Err(e) => return Err(e),
    };
    let low = match eat_u16(buf) {
        Ok(low) => low,
        Err(e) => return Err(e),
    };
    Ok(U24::new(high, low))
}

/// Reads a 32-bit integer and clears its highest bit.
pub fn eat_u31(buf: &mut Bytes) -> (r: Result<u32, DecodeError>)
    ensures
        (r, contents(*final(buf))) == parse_u31(contents(*old(buf))),
        r matches Ok(v) ==> v <= MAX_U31,
{
    if bytes_len(buf) < 4 {
        return Err(DecodeError::InComplete);
    }
    let v = get_u32(buf);
    Ok(mask_u31(v))
}

/// Reads a 32-bit integer.
pub fn eat_u32(buf: &mut Bytes) -> (r: Result<u32, DecodeError>)
    ensures
        (r, contents(*final(buf))) == parse_u32(contents(*old(buf))),
{
    if bytes_len(buf) < 4 {
        return Err(DecodeError::InComplete);
    }
    Ok(get_u32(buf))
}

/// Reads a 64-bit integer and clears its highest bit.
pub fn eat_u63(buf: &mut Bytes) -> (r: Result<u64, DecodeError>)
    ensures
        (r, contents(*final(buf))) == parse_u63(contents(*old(buf))),
        r matches Ok(v) ==> v <= MAX_U63,
{
    if bytes_len(buf) < 8 {
        return Err(DecodeError::InComplete);
    }
    let v = get_u64(buf);
    Ok(mask_u63(v))
}

/// Reads the next `len` bytes.
pub fn eat_bytes(buf: &mut Bytes, len: usize) -> (r: Result<Bytes, DecodeError>)
    ensures
        match r {
            Ok(b) => parse_bytes(contents(*old(buf)), len as nat) == (
                Ok::<Seq<u8>, DecodeError>(contents(b)),
                contents(*final(buf)),
            ),
            Err(e) => parse_bytes(contents(*old(buf)), len as nat) == (
                Err::<Seq<u8>, DecodeError>(e),
                contents(*final(buf)),
            ),
        },
{
    if bytes_len(buf) < len {
        return Err(DecodeError::InComplete);
    }
    Ok(copy_to_bytes(buf, len))
}

/// Reads all the bytes left; `None` where none is left.
pub fn eat_rest(buf: &mut Bytes) -> (r: Option<Bytes>)
    ensures
        parse_rest(contents(*old(buf))) == (
            Ok::<Option<Seq<u8>>, DecodeError>(opt_contents(r)),
            contents(*final(buf)),
        ),
{
    let len = bytes_len(buf);
    if len == 0 {
        None
    } else {
        let rest = copy_to_bytes(buf, len);
        assert(contents(*buf) =~= Seq::<u8>::empty());
        assert(contents(rest) =~= contents(*old(buf)));
        Some(rest)
    }
}

/// Reads a payload: see `parse_payload`.
pub fn eat_payload(buf: &mut Bytes, can_have_data: bool) -> (r: Result<Payload, DecodeError>)
    ensures
        match r {
            Ok(p) => parse_payload(contents(*old(buf)), can_have_data) == (
                Ok::<PayloadView, DecodeError>(p@),
                contents(*final(buf)),
            ),
            Err(e) => parse_payload(contents(*old(buf)), can_have_data) == (
                Err::<PayloadView, DecodeError>(e),
                contents(*final(buf)),
            ),
        },
{
    let metadata_len = if can_have_data {
        match eat_u24(buf) {
            Ok(len) => len.into_usize(),
            Err(e) => return Err(e),
        }
    } else {
        0
    };
    let metadata = if metadata_len > 0 {
        match eat_bytes(buf, metadata_len) {
            Ok(metadata) => Some(metadata),
            Err(e) => return Err(e),
        }
    } else {
        None
    };
    let data = eat_rest(buf);
    Ok(Payload::new(metadata, data))
}

/// Reads a resume token, if the flags announce one.
pub fn eat_resume_token(buf: &mut Bytes, flags: Flags) -> (r: Result<Option<Bytes>, DecodeError>)
    ensures
        match r {
            Ok(token) => parse_resume_token(contents(*old(buf)), flags@) == (
                Ok::<Option<Seq<u8>>, DecodeError>(opt_contents(token)),
                contents(*final(buf)),
            ),
            Err(e) => parse_resume_token(contents(*old(buf)), flags@) == (
                Err::<Option<Seq<u8>>, DecodeError>(e),
                contents(*final(buf)),
            ),
        },
{
    if flags.contains(Flags::resume()) {
        let token_len = match eat_u16(buf) {
            Ok(len) => len,
            Err(e) => return Err(e),
        };
        match eat_bytes(buf, token_len as usize) {
            Ok(token) => Ok(Some(token)),
            Err(e) => Err(e),
        }
    } else {
        Ok(None)
    }
}

/// A byte is read back as it was written.
pub proof fn lemma_parse_u8(v: u8, rest: Seq<u8>)
    ensures
        parse_u8(seq![v] + rest) == (Ok::<u8, DecodeError>(v), rest),
{
    assert((seq![v] + rest).skip(1) =~= rest);
}

/// A 16-bit integer is read back as it was written.
pub proof fn lemma_parse_u16(v: u16, rest: Seq<u8>)
    ensures
        parse_u16(u16_be(v) + rest) == (Ok::<u16, DecodeError>(v), rest),
{
    lemma_be_u16_of_u16_be(v, rest);
}

/// A 32-bit integer is read back as it was written.
pub proof fn lemma_parse_u32(v: u32, rest: Seq<u8>)
    ensures
        parse_u32(u32_be(v) + rest) == (Ok::<u32, DecodeError>(v), rest),
{
    lemma_be_u32_of_u32_be(v, rest);
}

/// A 31-bit integer is read back as it was written.
pub proof fn lemma_parse_u31(v: u32, rest: Seq<u8>)
    requires
        v <= MAX_U31,
    ensures
        parse_u31(u32_be(v) + rest) == (Ok::<u32, DecodeError>(v), rest),
{
    lemma_be_u32_of_u32_be(v, rest);
    lemma_mask_u31(v);
}

/// A 63-bit integer is read back as it was written.
pub proof fn lemma_parse_u63(v: u64, rest: Seq<u8>)
    requires
        v <= MAX_U63,
    ensures
        parse_u63(u64_be(v) + rest) == (Ok::<u64, DecodeError>(v), rest),
{
    lemma_be_u64_of_u64_be(v, rest);
    lemma_mask_u63(v);
}

/// A version is read back as it was written.
pub proof fn lemma_parse_version(v: Version, rest: Seq<u8>)
    ensures
        parse_version(u16_be(v.major) + u16_be(v.minor) + rest) == (
            Ok::<Version, DecodeError>(v),
            rest,
        ),
{
    let s = u16_be(v.major) + u16_be(v.minor) + rest;
    assert(s =~= u16_be(v.major) + (u16_be(v.minor) + rest));
    lemma_be_u16_of_u16_be(v.major, u16_be(v.minor) + rest);
    lemma_be_u16_of_u16_be(v.minor, rest);
    assert(s.skip(4) =~= s.skip(2).skip(2));
}

/// Bytes are read back as they were written.
pub proof fn lemma_parse_bytes(b: Seq<u8>, rest: Seq<u8>)
    ensures
        parse_bytes(b + rest, b.len()) == (Ok::<Seq<u8>, DecodeError>(b), rest),
{
    assert((b + rest).take(b.len() as int) =~= b);
    assert((b + rest).skip(b.len() as int) =~= rest);
}

/// The length prefix of metadata is read back as the length.
pub proof fn lemma_parse_metadata_len(n: nat, rest: Seq<u8>)
    requires
        n <= U24::MAX,
    ensures
        parse_u24(metadata_len_prefix(n) + rest).0 is Ok,
        parse_u24(metadata_len_prefix(n) + rest).0->Ok_0.spec_value() == n,
        parse_u24(metadata_len_prefix(n) + rest).1 == rest,
{
    let high = (n / 0x1_0000) as u8;
    let low = (n % 0x1_0000) as u16;
    let s = metadata_len_prefix(n) + rest;
    assert(s =~= seq![high] + (u16_be(low) + rest));
    lemma_parse_u8(high, u16_be(low) + rest);
    lemma_parse_u16(low, rest);
}

/// A resume token is read back as it was written, where the flags announce
/// one if and only if there is one.
pub proof fn lemma_parse_resume_token(token: Option<Seq<u8>>, flags: u16, rest: Seq<u8>)
    requires
        (flags & FOLLOWS_BIT == FOLLOWS_BIT) <==> token is Some,
        token matches Some(t) ==> t.len() <= 0xFFFF,
    ensures
        parse_resume_token(
            (match token {
                Some(t) => u16_be((t.len() % 0x1_0000) as u16) + t,
                None => Seq::<u8>::empty(),
            }) + rest,
            flags,
        ) == (Ok::<Option<Seq<u8>>, DecodeError>(token), rest),
{
    match token {
        Some(t) => {
            let len = t.len() as u16;
            assert(u16_be(len) + t + rest =~= u16_be(len) + (t + rest));
            lemma_parse_u16(len, t + rest);
            lemma_parse_bytes(t, rest);
        },
        None => {
            assert(Seq::<u8>::empty() + rest =~= rest);
        },
    }
}

/// Bytes behind their own length in one byte are read back as they were
/// written.
pub proof fn lemma_parse_short_bytes(b: Seq<u8>, rest: Seq<u8>)
    requires
        b.len() <= 0xFF,
    ensures
        parse_u8(seq![(b.len() % 0x100) as u8] + b + rest) == (
            Ok::<u8, DecodeError>(b.len() as u8),
            b + rest,
        ),
        parse_bytes(b + rest, b.len()) == (Ok::<Seq<u8>, DecodeError>(b), rest),
{
    let len = b.len() as u8;
    assert(seq![len] + b + rest =~= seq![len] + (b + rest));
    lemma_parse_u8(len, b + rest);
    lemma_parse_bytes(b, rest);
}

/// What is read as a payload is canonical.
pub proof fn lemma_parsed_payload_is_canonical(s: Seq<u8>)
    ensures
        parse_payload(s, true).0 matches Ok(p) ==> p.canonical(),
{
}

/// What is read without its highest bit fits the bits that are left, and
/// the flags read from a header word are flags.
pub proof fn lemma_parsed_numbers_fit(s: Seq<u8>)
    ensures
        parse_u31(s).0 matches Ok(v) ==> v <= MAX_U31,
        parse_u63(s).0 matches Ok(v) ==> v <= MAX_U63,
        parse_flags(s).0 matches Ok(header) ==> super::flags::only_flag_bits(header.1),
{
    lemma_mask_u31(be_u32(s));
    lemma_mask_u63(be_u64(s));
    super::flags::lemma_flag_sets(be_u16(s), 0);
}

/// A canonical payload is read back as it was written, and nothing is left.
pub proof fn lemma_parse_payload(p: PayloadView)
    requires
        p.canonical(),
    ensures
        parse_payload(p.prefixed(), true) == (
            Ok::<PayloadView, DecodeError>(p),
            Seq::<u8>::empty(),
        ),
{
    let n = super::buf::opt_len(p.metadata);
    lemma_parse_metadata_len(n, p.wire());
    let m = super::buf::opt_bytes(p.metadata);
    let d = super::buf::opt_bytes(p.data);
    lemma_parse_bytes(m, d);
    match p.metadata {
        Some(_) => {},
        None => {
            assert(p.wire() =~= d);
        },
    }
}

} // verus!
