//! The RESUME frame.
use bytes::{Bytes, BytesMut};
use crate::frame::buf::{bytes_len, contents, put_slice, put_u16, put_u64, written};
use crate::frame::decode::{Decode, DecodeError};
use crate::frame::encode::{add_within, header, put_header, Encode};
use crate::frame::flags::{Flags, FrameType};
use crate::frame::version::Version;
use crate::frame::visit::{
    eat_bytes, eat_u16, eat_u63, eat_version, lemma_parse_bytes, lemma_parse_u16, lemma_parse_u63,
    lemma_parse_version, mask_u63, parse_bytes, parse_u16, parse_u63, parse_version, MAX_U63,
};
use crate::frame::wire::{u16_be, u64_be};
use vstd::prelude::*;

verus! {

broadcast use crate::frame::wire::group_be_len;

/// The resume frame.
///
/// The RESUME frame is sent by the client to resume the connection. It replaces the SETUP frame.
///
/// # Frame Contents
///
/// ```text
/// 0                   1                   2                   3
/// 0 1 2 3 4 5 6 7 8 9 0 1 2 3 4 5 6 7 8 9 0 1 2 3 4 5 6 7 8 9 0 1
/// +-+-+-+-+-+-+-+-+-+-+-+-+-+-+-+-+-+-+-+-+-+-+-+-+-+-+-+-+-+-+-+-+
/// |                         Stream ID = 0                         |
/// +-----------+-+-+---------------+-------------------------------+
/// |Frame Type |0|0|    Flags      |
/// +-------------------------------+-------------------------------+
/// |        Major Version          |         Minor Version         |
/// +-------------------------------+-------------------------------+
/// |         Token Length          | Resume Identification Token  ...
/// +---------------------------------------------------------------+
/// |0|                                                             |
/// +                 Last Received Server Position                 +
/// |                                                               |
/// +---------------------------------------------------------------+
/// |0|                                                             |
/// +                First Available Client Position                +
/// |                                                               |
/// +---------------------------------------------------------------+
/// ```
#[derive(Debug, Clone, PartialEq, Eq)]
pub struct ResumeFrame {
    version: Version,
    resume_token: Bytes,
    last_received_server_position: u64,
    first_available_client_position: u64,
}

/// What a `ResumeFrame` holds.
pub ghost struct ResumeFrameView {
    pub version: Version,
    pub resume_token: Seq<u8>,
    pub last_received_server_position: u64,
    pub first_available_client_position: u64,
}

impl ResumeFrameView {
    /// The bytes that follow the header. The length of the token is written
    /// into sixteen bits, so that of a longer token loses its higher bits.
    pub open spec fn body(self) -> Seq<u8> {
        u16_be(self.version.major) + u16_be(self.version.minor) + u16_be(
            (self.resume_token.len() % 0x1_0000) as u16,
        ) + self.resume_token + u64_be(self.last_received_server_position) + u64_be(
            self.first_available_client_position,
        )
    }

    /// The bytes of the frame.
    pub open spec fn wire(self) -> Seq<u8> {
        header(0, FrameType::RESUME, 0) + self.body()
    }

    /// Whether the frame is one that decoding gives: the length of its token
    /// fits 16 bits, and its positions fit 63 bits.
    pub open spec fn wf(self) -> bool {
        &&& self.resume_token.len() <= 0xFFFF
        &&& self.last_received_server_position <= MAX_U63
        &&& self.first_available_client_position <= MAX_U63
    }

    /// Decoding what follows the header of an encoded frame gives the frame
    /// back and leaves nothing.
    pub proof fn lemma_round_trip(self, stream_id: u32, flags: u16)
        requires
            self.wf(),
        ensures
            ResumeFrame::parse(self.body(), stream_id, flags) == (
                Ok::<ResumeFrameView, DecodeError>(self),
                Seq::<u8>::empty(),
            ),
    {
        let len = self.resume_token.len() as u16;
        let p1 = u64_be(self.last_received_server_position);
        let p2 = u64_be(self.first_available_client_position);
        let s1 = u16_be(len) + (self.resume_token + (p1 + p2));
        let s2 = self.resume_token + (p1 + p2);
        assert(self.body() =~= u16_be(self.version.major) + u16_be(self.version.minor) + s1);
        lemma_parse_version(self.version, s1);
        lemma_parse_u16(len, s2);
        lemma_parse_bytes(self.resume_token, p1 + p2);
        lemma_parse_u63(self.last_received_server_position, p2);
        lemma_parse_u63(self.first_available_client_position, Seq::empty());
        assert(p2 =~= p2 + Seq::<u8>::empty());
    }
}

impl View for ResumeFrame {
    type V = ResumeFrameView;

    closed spec fn view(&self) -> ResumeFrameView {
        ResumeFrameView {
            version: self.version,
            resume_token: contents(self.resume_token),
            last_received_server_position: self.last_received_server_position,
            first_available_client_position: self.first_available_client_position,
        }
    }
}

impl ResumeFrame {
    /// RESUME frames MUST always use Stream ID 0 as they pertain to the connection.
    pub const STREAM_ID: u32 = 0;

    /// Type of this frame.
    pub const TYPE: FrameType = FrameType::RESUME;

    /// Create a new `Resume` frame. The positions are cut to 63 bits.
    ///
    /// `resume_token` SHOULD be at most 65,535 bytes long.
    pub fn new(
        version: Version,
        resume_token: Bytes,
        last_received_server_position: u64,
        first_available_client_position: u64,
    ) -> (r: ResumeFrame)
        ensures
            r@ == (ResumeFrameView {
                version,
                resume_token: contents(resume_token),
                last_received_server_position: last_received_server_position & MAX_U63,
                first_available_client_position: first_available_client_position & MAX_U63,
            }),
            r@.last_received_server_position <= MAX_U63,
            r@.first_available_client_position <= MAX_U63,
    {
        let last_received_server_position = mask_u63(last_received_server_position);
        let first_available_client_position = mask_u63(first_available_client_position);

        ResumeFrame {
            version,
            resume_token,
            last_received_server_position,
            first_available_client_position,
        }
    }

    /// Returns the version of the protocol.
    pub fn version(&self) -> (r: Version)
        ensures
            r == self@.version,
    {
        self.version
    }

    /// Returns the resume identification token.
    pub fn resume_token(&self) -> (r: &Bytes)
        ensures
            contents(*r) == self@.resume_token,
    {
        &self.resume_token
    }

    /// Returns the last implied position the client received from the server.
    pub fn last_received_server_position(&self) -> (r: u64)
        ensures
            r == self@.last_received_server_position,
    {
        self.last_received_server_position
    }

    /// Returns the earliest position that the client can rewind back to prior to resending frames.
    pub fn first_available_client_position(&self) -> (r: u64)
        ensures
            r == self@.first_available_client_position,
    {
        self.first_available_client_position
    }
}

impl Encode for ResumeFrame {
    open spec fn wire(&self) -> Seq<u8> {
        self@.wire()
    }

    open spec fn encodable(&self) -> bool {
        true
    }

    fn encode(&self, buf: &mut BytesMut) {
        assert(self.wire() == self@.wire());
        assert(self@.wire().len() == 28 + self@.resume_token.len());
        put_header(buf, 0, FrameType::RESUME, 0);
        self.version.encode(buf);
        put_u16(buf, (bytes_len(&self.resume_token) % 0x1_0000) as u16);
        put_slice(buf, &self.resume_token);
        put_u64(buf, self.last_received_server_position);
        put_u64(buf, self.first_available_client_position);
        assert(written(*buf) =~= written(*old(buf)) + self@.wire());
    }

    fn encoded_len(&self) -> Option<usize> {
        assert(self.wire() == self@.wire());
        assert(self@.wire().len() == 28 + self@.resume_token.len());
        add_within(Some(28), bytes_len(&self.resume_token))
    }

    fn len(&self) -> usize {
        assert(self.wire() == self@.wire());
        assert(self@.wire().len() == 28 + self@.resume_token.len());
        // len(stream_id): 4
        // len(flags): 2
        // len(version): 4
        // len(token_length): 2
        // len(resume_token)
        // len(last_received_server_position): 8
        // len(first_available_client_position): 8
        12 + bytes_len(&self.resume_token) + 16
    }
}

impl Decode for ResumeFrame {
    type Value = Self;

    /// The version, the 16-bit length of the token, the token, and the two
    /// positions, cut to 63 bits each. Stream ID and flags play no part.
    open spec fn parse(s: Seq<u8>, stream_id: u32, flags: u16) -> (
        Result<ResumeFrameView, DecodeError>,
        Seq<u8>,
    ) {
        match parse_version(s) {
            (Err(e), rest) => (Err(e), rest),
            (Ok(version), s1) => match parse_u16(s1) {
                (Err(e), rest) => (Err(e), rest),
                (Ok(token_len), s2) => match parse_bytes(s2, token_len as nat) {
                    (Err(e), rest) => (Err(e), rest),
                    (Ok(resume_token), s3) => match parse_u63(s3) {
                        (Err(e), rest) => (Err(e), rest),
                        (Ok(last_received_server_position), s4) => match parse_u63(s4) {
                            (Err(e), rest) => (Err(e), rest),
                            (Ok(first_available_client_position), s5) => (
                                Ok(
                                    ResumeFrameView {
                                        version,
                                        resume_token,
                                        last_received_server_position,
                                        first_available_client_position,
                                    },
                                ),
                                s5,
                            ),
                        },
                    },
                },
            },
        }
    }

    fn decode(buf: &mut Bytes, _stream_id: u32, _flags: Flags) -> (r: Result<
        Self::Value,
        DecodeError,
    >) {
        let version = match eat_version(buf) {
            Ok(version) => version,
            Err(e) => return Err(e),
        };
        let token_len = match eat_u16(buf) {
            Ok(len) => len,
            Err(e) => return Err(e),
        };
        let resume_token = match eat_bytes(buf, token_len as usize) {
            Ok(token) => token,
            Err(e) => return Err(e),
        };
        let last_received_server_position = match eat_u63(buf) {
            Ok(position) => position,
            Err(e) => return Err(e),
        };
        let first_available_client_position = match eat_u63(buf) {
            Ok(position) => position,
            Err(e) => return Err(e),
        };
        Ok(
            ResumeFrame {
                version,
                resume_token,
                last_received_server_position,
                first_available_client_position,
            },
        )
    }
}

} // verus!
