//! The SETUP frame.
use bytes::{Bytes, BytesMut};
use crate::consts::{duration_millis, DEFAULT_KEEPALIVE_INTERVAL, DEFAULT_KEEPALIVE_TIMEOUT};
use crate::frame::buf::{
    bytes_from_string, bytes_len, bytes_utf8, contents, opt_bytes, opt_contents, opt_len,
    put_slice, put_u16, put_u32, put_u8, written,
};
use crate::frame::decode::{Decode, DecodeError};
use crate::frame::encode::{add_within, header, opt_bytes_len, put_header, Encode};
use crate::frame::flags::{
    only_flag_bits, Flags, FrameType, COMPLETE_BIT, FOLLOWS_BIT, METADATA_BIT,
};
use crate::frame::version::Version;
use crate::frame::visit::{
    eat_bytes, eat_payload, eat_resume_token, eat_u31, eat_u8, eat_version, lemma_parse_payload,
    lemma_parse_resume_token, lemma_parse_short_bytes, lemma_parse_u31, lemma_parse_version,
    mask_u31, parse_bytes, parse_payload, parse_resume_token, parse_u31, parse_u8, parse_version,
    MAX_U31,
};
use crate::frame::wire::{u16_be, u32_be};
use crate::mimetype::DEFAULT_MIMETYPE;
use crate::payload::{Payload, PayloadView};
use std::time::Duration;
use vstd::prelude::*;
use vstd::string::StringSliceAdditionalSpecFns;

verus! {

broadcast use crate::frame::wire::group_be_len;

/// The setup frame.
///
/// The SETUP frame is sent by the client to inform the server of the parameters under which it
/// desires to operate.
///
/// # Frame Contents
///
/// ```text
/// 0                   1                   2                   3
/// 0 1 2 3 4 5 6 7 8 9 0 1 2 3 4 5 6 7 8 9 0 1 2 3 4 5 6 7 8 9 0 1
/// +-+-+-+-+-+-+-+-+-+-+-+-+-+-+-+-+-+-+-+-+-+-+-+-+-+-+-+-+-+-+-+-+
/// |                         Stream ID = 0                         |
/// +-----------+-+-+-+-+-----------+-------------------------------+
/// |Frame Type |0|M|R|L|  Flags    |
/// +-----------+-+-+-+-+-----------+-------------------------------+
/// |         Major Version         |        Minor Version          |
/// +-------------------------------+-------------------------------+
/// |0|                 Time Between KEEPALIVE Frames               |
/// +---------------------------------------------------------------+
/// |0|                       Max Lifetime                          |
/// +---------------------------------------------------------------+
/// |         Token Length          | Resume Identification Token  ...
/// +---------------+-----------------------------------------------+
/// |  MIME Length  |   Metadata Encoding MIME Type                ...
/// +---------------+-----------------------------------------------+
/// |  MIME Length  |     Data Encoding MIME Type                  ...
/// +---------------+-----------------------------------------------+
///                     Metadata & Setup Payload
/// ```
#[derive(Debug, Clone, PartialEq, Eq)]
pub struct SetupFrame {
    flags: Flags,
    version: Version,
    keepalive_interval: u32,
    keepalive_timeout: u32,
    resume_token: Option<Bytes>,
    metadata_mimetype: Bytes,
    data_mimetype: Bytes,
    payload: Payload,
}

/// What a `SetupFrame`, or the builder of one, holds.
pub ghost struct SetupFrameView {
    pub flags: u16,
    pub version: Version,
    pub keepalive_interval: u32,
    pub keepalive_timeout: u32,
    pub resume_token: Option<Seq<u8>>,
    pub metadata_mimetype: Seq<u8>,
    pub data_mimetype: Seq<u8>,
    pub payload: PayloadView,
}

/// The resume token on the wire. Where the flags hold RESUME, it is the
/// length of the token in sixteen bits, then the token; a frame that holds
/// the flag and no token has a token of length zero. Where the flags do not
/// hold RESUME, nothing is written. The length of a token of more than
/// 65,535 bytes loses its higher bits.
pub open spec fn token_wire(flags: u16, token: Option<Seq<u8>>) -> Seq<u8> {
    if flags & FOLLOWS_BIT == FOLLOWS_BIT {
        u16_be((opt_len(token) % 0x1_0000) as u16) + opt_bytes(token)
    } else {
        Seq::empty()
    }
}

/// A MIME type on the wire: its length in one byte, then the type. The
/// length of a longer type loses its higher bits.
pub open spec fn mimetype_wire(mimetype: Seq<u8>) -> Seq<u8> {
    seq![(mimetype.len() % 0x100) as u8] + mimetype
}

/// Whether the bytes are the UTF-8 encoding of ASCII characters.
pub open spec fn is_ascii_text(bytes: Seq<u8>) -> bool {
    vstd::utf8::valid_utf8(bytes) && vstd::utf8::is_ascii_chars(vstd::utf8::decode_utf8(bytes))
}

impl SetupFrameView {
    /// The bytes that follow the header.
    pub open spec fn body(self) -> Seq<u8> {
        u16_be(self.version.major) + u16_be(self.version.minor) + u32_be(self.keepalive_interval)
            + u32_be(self.keepalive_timeout) + token_wire(self.flags, self.resume_token) + mimetype_wire(
            self.metadata_mimetype,
        ) + mimetype_wire(self.data_mimetype) + self.payload.prefixed()
    }

    /// The bytes of the frame.
    pub open spec fn wire(self) -> Seq<u8> {
        header(0, FrameType::SETUP, self.flags) + self.body()
    }

    /// Whether the frame is one that decoding gives: its flags are flags
    /// and hold RESUME if and only if there is a resume token, the token's
    /// length fits 16 bits, the two times fit 31 bits, the length of each
    /// MIME type fits one byte, and the payload is canonical.
    pub open spec fn wf(self) -> bool {
        &&& only_flag_bits(self.flags)
        &&& (self.flags & FOLLOWS_BIT == FOLLOWS_BIT) <==> self.resume_token is Some
        &&& self.resume_token matches Some(t) ==> t.len() <= 0xFFFF
        &&& self.keepalive_interval <= MAX_U31
        &&& self.keepalive_timeout <= MAX_U31
        &&& self.metadata_mimetype.len() <= 0xFF
        &&& self.data_mimetype.len() <= 0xFF
        &&& self.payload.canonical()
    }

    /// Decoding what follows the header of an encoded frame gives the frame
    /// back and leaves nothing.
    pub proof fn lemma_round_trip(self, stream_id: u32)
        requires
            self.wf(),
        ensures
            SetupFrame::parse(self.body(), stream_id, self.flags) == (
                Ok::<SetupFrameView, DecodeError>(self),
                Seq::<u8>::empty(),
            ),
    {
        let p = self.payload.prefixed();
        let dm = self.data_mimetype;
        let mm = self.metadata_mimetype;
        let s6 = p;
        let s5 = mimetype_wire(dm) + s6;
        let s4 = mimetype_wire(mm) + s5;
        let s3 = token_wire(self.flags, self.resume_token) + s4;
        let s2 = u32_be(self.keepalive_timeout) + s3;
        let s1 = u32_be(self.keepalive_interval) + s2;
        assert(self.body() =~= u16_be(self.version.major) + u16_be(self.version.minor) + s1);
        lemma_parse_version(self.version, s1);
        lemma_parse_u31(self.keepalive_interval, s2);
        lemma_parse_u31(self.keepalive_timeout, s3);
        lemma_parse_resume_token(self.resume_token, self.flags, s4);
        lemma_parse_short_bytes(mm, s5);
        assert(s4 =~= seq![(mm.len() % 0x100) as u8] + mm + s5);
        lemma_parse_short_bytes(dm, s6);
        assert(s5 =~= seq![(dm.len() % 0x100) as u8] + dm + s6);
        lemma_parse_payload(self.payload);
    }
}

impl SetupFrameView {
    /// A frame that holds the RESUME flag and no token is read back with an
    /// empty token: its bytes are those of the frame with the empty token.
    pub proof fn lemma_resume_flag_without_token(self, stream_id: u32)
        requires
            self.flags & FOLLOWS_BIT == FOLLOWS_BIT,
            self.resume_token is None,
            (SetupFrameView { resume_token: Some(Seq::<u8>::empty()), ..self }).wf(),
        ensures
            SetupFrame::parse(self.body(), stream_id, self.flags) == (
                Ok::<SetupFrameView, DecodeError>(
                    SetupFrameView { resume_token: Some(Seq::<u8>::empty()), ..self },
                ),
                Seq::<u8>::empty(),
            ),
    {
        let with_token = SetupFrameView { resume_token: Some(Seq::<u8>::empty()), ..self };
        assert(token_wire(self.flags, self.resume_token) =~= token_wire(
            with_token.flags,
            with_token.resume_token,
        ));
        assert(self.body() == with_token.body());
        with_token.lemma_round_trip(stream_id);
    }
}

impl View for SetupFrame {
    type V = SetupFrameView;

    closed spec fn view(&self) -> SetupFrameView {
        SetupFrameView {
            flags: self.flags@,
            version: self.version,
            keepalive_interval: self.keepalive_interval,
            keepalive_timeout: self.keepalive_timeout,
            resume_token: opt_contents(self.resume_token),
            metadata_mimetype: contents(self.metadata_mimetype),
            data_mimetype: contents(self.data_mimetype),
            payload: self.payload@,
        }
    }
}

/// The text of a MIME type, if it is ASCII.
fn ascii_text(bytes: &Bytes) -> (r: Option<&str>)
    ensures
        r is Some <==> is_ascii_text(contents(*bytes)),
        r matches Some(s) ==> s.spec_bytes() == contents(*bytes),
{
    broadcast use vstd::utf8::encode_utf8_decode_utf8;

    match bytes_utf8(bytes) {
        Some(x) => {
            if x.is_ascii() {
                Some(x)
            } else {
                None
            }
        },
        None => None,
    }
}

impl SetupFrame {
    /// Setup frames MUST always use Stream ID 0 as they pertain to the connection.
    pub const STREAM_ID: u32 = 0;

    /// Type of this frame.
    pub const TYPE: FrameType = FrameType::SETUP;

    /// Returns a `SetupFrameBuilder`.
    pub fn builder() -> (r: SetupFrameBuilder)
        ensures
            r@ == SetupFrameBuilder::initial(),
    {
        SetupFrameBuilder::default()
    }

    /// Returns true if the flags have the LEASE bit set.
    pub fn is_lease(&self) -> (r: bool)
        ensures
            r == (self@.flags & COMPLETE_BIT == COMPLETE_BIT),
    {
        self.flags.contains(Flags::lease())
    }

    /// Returns true if the flags have the RESUME bit set.
    pub fn is_resume(&self) -> (r: bool)
        ensures
            r == (self@.flags & FOLLOWS_BIT == FOLLOWS_BIT),
    {
        self.flags.contains(Flags::resume())
    }

    /// Returns the protocol version.
    pub fn version(&self) -> (r: Version)
        ensures
            r == self@.version,
    {
        self.version
    }

    /// Returns the time between KEEPALIVE frames that the client will send.
    pub fn keepalive_interval(&self) -> (r: Duration)
        ensures
            duration_millis(r) == self@.keepalive_interval,
    {
        Duration::from_millis(self.keepalive_interval as u64)
    }

    /// Returns the time that a client will allow a server to not respond to
    /// a KEEPALIVE before it is assumed to be dead.
    pub fn keepalive_timeout(&self) -> (r: Duration)
        ensures
            duration_millis(r) == self@.keepalive_timeout,
    {
        Duration::from_millis(self.keepalive_timeout as u64)
    }

    /// Returns the resume identification token (not present if the RESUME bit is not set).
    pub fn resume_token(&self) -> (r: Option<&Bytes>)
        ensures
            r matches Some(t) ==> self@.resume_token == Some(contents(*t)),
            r is None <==> self@.resume_token is None,
    {
        self.resume_token.as_ref()
    }

    /// Returns the MIME type for encoding the metadata.
    ///
    /// Note that this will always return `None` if metadata MIME type is not an ASCII string.
    pub fn metadata_mimetype(&self) -> (r: Option<&str>)
        ensures
            r is Some <==> is_ascii_text(self@.metadata_mimetype),
            r matches Some(s) ==> s.spec_bytes() == self@.metadata_mimetype,
    {
        ascii_text(&self.metadata_mimetype)
    }

    /// Returns the MIME type for encoding the data.
    ///
    /// Note that this will always return `None` if data MIME type is not an ASCII string.
    pub fn data_mimetype(&self) -> (r: Option<&str>)
        ensures
            r is Some <==> is_ascii_text(self@.data_mimetype),
            r matches Some(s) ==> s.spec_bytes() == self@.data_mimetype,
    {
        ascii_text(&self.data_mimetype)
    }

    /// Returns the metadata attached to this frame, if any.
    pub fn metadata(&self) -> (r: Option<&Bytes>)
        ensures
            r matches Some(m) ==> self@.payload.metadata == Some(contents(*m)),
            r is None <==> self@.payload.metadata is None,
    {
        self.payload.metadata()
    }

    /// Returns the data attached to this frame, if any.
    pub fn data(&self) -> (r: Option<&Bytes>)
        ensures
            r matches Some(d) ==> self@.payload.data == Some(contents(*d)),
            r is None <==> self@.payload.data is None,
    {
        self.payload.data()
    }

    /// Returns the payload of this setup frame.
    pub fn payload(self) -> (r: Payload)
        ensures
            r@ == self@.payload,
    {
        self.payload
    }
}

impl Encode for SetupFrame {
    open spec fn wire(&self) -> Seq<u8> {
        self@.wire()
    }

    open spec fn encodable(&self) -> bool {
        self@.payload.encodable()
    }

    fn encode(&self, buf: &mut BytesMut) {
        assert(self.wire() == self@.wire());
        assert(self@.wire().len() == 23 + token_wire(self@.flags, self@.resume_token).len()
            + self@.metadata_mimetype.len() + self@.data_mimetype.len() + self@.payload.len());
        put_header(buf, SetupFrame::STREAM_ID, FrameType::SETUP, self.flags.bits());
        self.version.encode(buf);
        put_u32(buf, self.keepalive_interval);
        put_u32(buf, self.keepalive_timeout);
        put_token(buf, self.flags, &self.resume_token);
        put_mimetype(buf, &self.metadata_mimetype);
        put_mimetype(buf, &self.data_mimetype);
        self.payload.encode_prefixed(buf);
        assert(written(*buf) =~= written(*old(buf)) + self@.wire());
    }

    fn encoded_len(&self) -> Option<usize> {
        assert(self.wire() == self@.wire());
        assert(self@.wire().len() == 20 + token_wire(self@.flags, self@.resume_token).len()
            + self@.metadata_mimetype.len() + self@.data_mimetype.len()
            + self@.payload.prefixed().len());
        let token_len = if self.flags.contains(Flags::resume()) {
            add_within(Some(2), opt_bytes_len(&self.resume_token))
        } else {
            Some(0)
        };
        let fixed = match token_len {
            Some(n) => add_within(Some(20), n),
            None => None,
        };
        let with_mimetypes = add_within(
            add_within(fixed, bytes_len(&self.metadata_mimetype)),
            bytes_len(&self.data_mimetype),
        );
        match self.payload.prefixed_len() {
            Some(n) => add_within(with_mimetypes, n),
            None => None,
        }
    }

    fn len(&self) -> usize {
        assert(self.wire() == self@.wire());
        assert(self@.wire().len() == 23 + token_wire(self@.flags, self@.resume_token).len()
            + self@.metadata_mimetype.len() + self@.data_mimetype.len() + self@.payload.len());
        // len(stream_id): 4
        // len(frame_type & flags): 2
        // len(version): 4
        // len(keepalive): 4
        // len(lifetime): 4
        let mut len: usize = 18;

        // len(token_length): 2
        // len(resume_token)
        if self.flags.contains(Flags::resume()) {
            len = len + 2 + opt_bytes_len(&self.resume_token);
        }
        // len(mime_metadata_length): 1
        // len(mime_metadata)
        // len(mime_data_length): 1
        // len(mime_data)

        len = len + 1 + bytes_len(&self.metadata_mimetype) + 1 + bytes_len(&self.data_mimetype);

        // len(metadata_length): 3
        // len(payload)
        len = len + 3 + self.payload.len();

        len
    }
}

impl Decode for SetupFrame {
    type Value = Self;

    /// The version; the two times, cut to 31 bits each; the resume token,
    /// where the flags hold RESUME; the two MIME types, each behind its
    /// length in one byte; and the payload. The stream ID plays no part.
    open spec fn parse(s: Seq<u8>, stream_id: u32, flags: u16) -> (
        Result<SetupFrameView, DecodeError>,
        Seq<u8>,
    ) {
        match parse_version(s) {
            (Err(e), rest) => (Err(e), rest),
            (Ok(version), s1) => match parse_u31(s1) {
                (Err(e), rest) => (Err(e), rest),
                (Ok(keepalive_interval), s2) => match parse_u31(s2) {
                    (Err(e), rest) => (Err(e), rest),
                    (Ok(keepalive_timeout), s3) => match parse_resume_token(s3, flags) {
                        (Err(e), rest) => (Err(e), rest),
                        (Ok(resume_token), s4) => match parse_mimetype(s4) {
                            (Err(e), rest) => (Err(e), rest),
                            (Ok(metadata_mimetype), s5) => match parse_mimetype(s5) {
                                (Err(e), rest) => (Err(e), rest),
                                (Ok(data_mimetype), s6) => match parse_payload(s6, true) {
                                    (Err(e), rest) => (Err(e), rest),
                                    (Ok(payload), s7) => (
                                        Ok(
                                            SetupFrameView {
                                                flags,
                                                version,
                                                keepalive_interval,
                                                keepalive_timeout,
                                                resume_token,
                                                metadata_mimetype,
                                                data_mimetype,
                                                payload,
                                            },
                                        ),
                                        s7,
                                    ),
                                },
                            },
                        },
                    },
                },
            },
        }
    }

    fn decode(buf: &mut Bytes, _stream_id: u32, flags: Flags) -> (r: Result<
        Self::Value,
        DecodeError,
    >) {
        let version = match eat_version(buf) {
            Ok(version) => version,
            Err(e) => return Err(e),
        };
        let keepalive = match eat_u31(buf) {
            Ok(keepalive) => keepalive,
            Err(e) => return Err(e),
        };
        let lifetime = match eat_u31(buf) {
            Ok(lifetime) => lifetime,
            Err(e) => return Err(e),
        };
        let resume_token = match eat_resume_token(buf, flags) {
            Ok(token) => token,
            Err(e) => return Err(e),
        };
        let metadata_mimetype = match eat_mimetype(buf) {
            Ok(mimetype) => mimetype,
            Err(e) => return Err(e),
        };
        let data_mimetype = match eat_mimetype(buf) {
            Ok(mimetype) => mimetype,
            Err(e) => return Err(e),
        };
        let payload = match eat_payload(buf, true) {
            Ok(payload) => payload,
            Err(e) => return Err(e),
        };
        Ok(
            SetupFrame {
                flags,
                version,
                keepalive_interval: keepalive,
                keepalive_timeout: lifetime,
                resume_token,
                metadata_mimetype,
                data_mimetype,
                payload,
            },
        )
    }
}

/// Writes the resume token behind its length, where the flags hold RESUME:
/// see `token_wire`.
fn put_token(buf: &mut BytesMut, flags: Flags, token: &Option<Bytes>)
    requires
        written(*old(buf)).len() + token_wire(flags@, opt_contents(*token)).len() <= isize::MAX,
    ensures
        written(*final(buf)) == written(*old(buf)) + token_wire(flags@, opt_contents(*token)),
{
    if flags.contains(Flags::resume()) {
        put_u16(buf, (opt_bytes_len(token) % 0x1_0000) as u16);
        if let Some(token) = token {
            put_slice(buf, token);
        }
    }
    assert(written(*buf) =~= written(*old(buf)) + token_wire(flags@, opt_contents(*token)));
}

/// Writes a MIME type behind its length.
fn put_mimetype(buf: &mut BytesMut, mimetype: &Bytes)
    requires
        written(*old(buf)).len() + 1 + contents(*mimetype).len() <= isize::MAX,
    ensures
        written(*final(buf)) == written(*old(buf)) + mimetype_wire(contents(*mimetype)),
{
    put_u8(buf, (bytes_len(mimetype) % 0x100) as u8);
    put_slice(buf, mimetype);
    assert(written(*buf) =~= written(*old(buf)) + mimetype_wire(contents(*mimetype)));
}

/// A MIME type: its length in one byte, then that many bytes.
pub open spec fn parse_mimetype(s: Seq<u8>) -> (Result<Seq<u8>, DecodeError>, Seq<u8>) {
    match parse_u8(s) {
        (Err(e), rest) => (Err(e), rest),
        (Ok(len), s1) => parse_bytes(s1, len as nat),
    }
}

/// Reads a MIME type.
fn eat_mimetype(buf: &mut Bytes) -> (r: Result<Bytes, DecodeError>)
    ensures
        match r {
            Ok(b) => parse_mimetype(contents(*old(buf))) == (
                Ok::<Seq<u8>, DecodeError>(contents(b)),
                contents(*final(buf)),
            ),
            Err(e) => parse_mimetype(contents(*old(buf))) == (
                Err::<Seq<u8>, DecodeError>(e),
                contents(*final(buf)),
            ),
        },
{
    let len = match eat_u8(buf) {
        Ok(len) => len,
        Err(e) => return Err(e),
    };
    eat_bytes(buf, len as usize)
}

/// A builder for configuring the setup frame.
#[derive(Debug)]
pub struct SetupFrameBuilder {
    flags: Flags,
    version: Version,
    keepalive_interval: u32,
    keepalive_timeout: u32,
    resume_token: Option<Bytes>,
    metadata_mimetype: Bytes,
    data_mimetype: Bytes,
    payload: Payload,
}

impl View for SetupFrameBuilder {
    type V = SetupFrameView;

    /// The frame that `build` would give.
    closed spec fn view(&self) -> SetupFrameView {
        SetupFrameView {
            flags: self.flags@,
            version: self.version,
            keepalive_interval: self.keepalive_interval,
            keepalive_timeout: self.keepalive_timeout,
            resume_token: opt_contents(self.resume_token),
            metadata_mimetype: contents(self.metadata_mimetype),
            data_mimetype: contents(self.data_mimetype),
            payload: self.payload@,
        }
    }
}

impl Default for SetupFrameBuilder {
    /// A builder set to the defaults: see `SetupFrameBuilder::initial`.
    fn default() -> (r: SetupFrameBuilder)
        ensures
            r@ == SetupFrameBuilder::initial(),
    {
        SetupFrameBuilder {
            flags: Flags::empty(),
            version: Version::default(),
            keepalive_interval: DEFAULT_KEEPALIVE_INTERVAL,
            keepalive_timeout: DEFAULT_KEEPALIVE_TIMEOUT,
            resume_token: None,
            metadata_mimetype: bytes_from_string(DEFAULT_MIMETYPE.to_owned()),
            data_mimetype: bytes_from_string(DEFAULT_MIMETYPE.to_owned()),
            payload: Payload::new(None, None),
        }
    }
}

impl SetupFrameBuilder {
    /// The frame of a builder on which nothing was set: no flag, version
    /// 1.0, the default keepalive times, no resume token, the default MIME
    /// type for metadata and for data, and an empty payload.
    pub open spec fn initial() -> SetupFrameView {
        SetupFrameView {
            flags: 0,
            version: Version { major: 1, minor: 0 },
            keepalive_interval: DEFAULT_KEEPALIVE_INTERVAL,
            keepalive_timeout: DEFAULT_KEEPALIVE_TIMEOUT,
            resume_token: None,
            metadata_mimetype: DEFAULT_MIMETYPE.spec_bytes(),
            data_mimetype: DEFAULT_MIMETYPE.spec_bytes(),
            payload: PayloadView { metadata: None, data: None },
        }
    }

    /// Sets the `Resume` flag. A frame that holds the flag and no token is
    /// written with a token of length zero.
    pub fn set_resume_flag(self) -> (r: SetupFrameBuilder)
        ensures
            r@ == (SetupFrameView { flags: self@.flags | FOLLOWS_BIT, ..self@ }),
            only_flag_bits(r@.flags),
    {
        let mut builder = self;
        builder.flags = builder.flags | Flags::resume();
        builder
    }

    /// Sets the `Lease` flag.
    pub fn set_lease_flag(self) -> (r: SetupFrameBuilder)
        ensures
            r@ == (SetupFrameView { flags: self@.flags | COMPLETE_BIT, ..self@ }),
            only_flag_bits(r@.flags),
    {
        let mut builder = self;
        builder.flags = builder.flags | Flags::lease();
        builder
    }

    /// Sets the RSocket protocol version.
    pub fn set_version(self, major: u16, minor: u16) -> (r: SetupFrameBuilder)
        ensures
            r@ == (SetupFrameView { version: Version { major, minor }, ..self@ }),
    {
        let mut builder = self;
        builder.version = Version::new(major, minor);
        builder
    }

    /// Sets the interval (in milliseconds) between two KEEPALIVE frames that the client will send.
    /// This value SHOULD be > `0` and <= `MAX_U31`; it is cut to 31 bits.
    ///
    /// - For server-to-server connections, a reasonable time interval between client KEEPALIVE
    /// frames is 500ms.
    ///
    /// - For mobile-to-server connections, the time interval between client KEEPALIVE frames is
    /// often > 30,000ms.
    pub fn set_keepalive_interval(self, interval: u32) -> (r: SetupFrameBuilder)
        ensures
            r@ == (SetupFrameView { keepalive_interval: interval & MAX_U31, ..self@ }),
            r@.keepalive_interval <= MAX_U31,
    {
        let mut builder = self;
        builder.keepalive_interval = mask_u31(interval);
        builder
    }

    /// Sets the time (in milliseconds) that a client will allow a server to not respond to a
    /// KEEPALIVE before it is assumed to be dead. This value SHOULD be > 0 and <= `MAX_U31`; it
    /// is cut to 31 bits.
    pub fn set_keepalive_timeout(self, timeout: u32) -> (r: SetupFrameBuilder)
        ensures
            r@ == (SetupFrameView { keepalive_timeout: timeout & MAX_U31, ..self@ }),
            r@.keepalive_timeout <= MAX_U31,
    {
        let mut builder = self;
        builder.keepalive_timeout = mask_u31(timeout);
        builder
    }

    /// Sets the resume identification token, which may not be longer than
    /// 65,535 bytes, and the `Resume` flag with it.
    pub fn set_resume_token(self, token: Bytes) -> (r: SetupFrameBuilder)
        requires
            contents(token).len() <= 65_535,
        ensures
            r@ == (SetupFrameView {
                resume_token: Some(contents(token)),
                flags: self@.flags | FOLLOWS_BIT,
                ..self@
            }),
            only_flag_bits(r@.flags),
    {
        let mut builder = self;
        builder.resume_token = Some(token);
        builder.flags = builder.flags | Flags::resume();
        builder
    }

    /// Sets the resume identification token, and the `Resume` flag with it,
    /// if the token is not longer than 65,535 bytes; else hands the builder
    /// back as it was, as an error.
    pub fn try_set_resume_token(self, token: Bytes) -> (r: Result<
        SetupFrameBuilder,
        SetupFrameBuilder,
    >)
        ensures
            r is Ok <==> contents(token).len() <= 65_535,
            r matches Ok(builder) ==> builder@ == (SetupFrameView {
                resume_token: Some(contents(token)),
                flags: self@.flags | FOLLOWS_BIT,
                ..self@
            }) && only_flag_bits(builder@.flags),
            r matches Err(builder) ==> builder@ == self@,
    {
        if bytes_len(&token) <= 65_535 {
            Ok(self.set_resume_token(token))
        } else {
            Err(self)
        }
    }

    /// Sets the metadata mimetype.
    ///
    /// The given mimetype should be an ASCII string that includes the Internet media type
    /// specified in RFC 2045. It may not be longer than 256 bytes.
    pub fn set_metadata_mimetype(self, mimetype: &str) -> (r: SetupFrameBuilder)
        requires
            mimetype.spec_bytes().len() <= 256,
        ensures
            r@ == (SetupFrameView { metadata_mimetype: mimetype.spec_bytes(), ..self@ }),
    {
        let mut builder = self;
        builder.metadata_mimetype = bytes_from_string(mimetype.to_owned());
        builder
    }

    /// Sets the data mimetype.
    ///
    /// The given mimetype should be an ASCII string that includes the Internet media type
    /// specified in RFC 2045. It may not be longer than 256 bytes.
    pub fn set_data_mimetype(self, mimetype: &str) -> (r: SetupFrameBuilder)
        requires
            mimetype.spec_bytes().len() <= 256,
        ensures
            r@ == (SetupFrameView { data_mimetype: mimetype.spec_bytes(), ..self@ }),
    {
        let mut builder = self;
        builder.data_mimetype = bytes_from_string(mimetype.to_owned());
        builder
    }

    /// Sets the metadata payload of this setup frame, and the `Metadata`
    /// flag with it.
    pub fn set_metadata(self, metadata: Bytes) -> (r: SetupFrameBuilder)
        ensures
            r@ == (SetupFrameView {
                flags: self@.flags | METADATA_BIT,
                payload: PayloadView {
                    metadata: Some(contents(metadata)),
                    data: self@.payload.data,
                },
                ..self@
            }),
            only_flag_bits(r@.flags),
    {
        let mut builder = self;
        builder.flags = builder.flags | Flags::metadata();
        let (_, data) = builder.payload.split();
        builder.payload = Payload::new(Some(metadata), data);
        builder
    }

    /// Sets the data payload of this setup frame.
    pub fn set_data(self, data: Bytes) -> (r: SetupFrameBuilder)
        ensures
            r@ == (SetupFrameView {
                payload: PayloadView {
                    metadata: self@.payload.metadata,
                    data: Some(contents(data)),
                },
                ..self@
            }),
    {
        let mut builder = self;
        let (metadata, _) = builder.payload.split();
        builder.payload = Payload::new(metadata, Some(data));
        builder
    }

    /// Builds a `SetupFrame` from this builder.
    pub fn build(self) -> (r: SetupFrame)
        ensures
            r@ == self@,
    {
        SetupFrame {
            flags: self.flags,
            version: self.version,
            keepalive_interval: self.keepalive_interval,
            keepalive_timeout: self.keepalive_timeout,
            resume_token: self.resume_token,
            metadata_mimetype: self.metadata_mimetype,
            data_mimetype: self.data_mimetype,
            payload: self.payload,
        }
    }
}

} // verus!
