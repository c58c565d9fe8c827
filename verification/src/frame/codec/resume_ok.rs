//! The RESUME_OK frame.
use bytes::{Bytes, BytesMut};
use crate::frame::buf::{put_u64, written};
use crate::frame::decode::{Decode, DecodeError};
use crate::frame::encode::{header, put_header, Encode};
use crate::frame::flags::{Flags, FrameType};
use crate::frame::visit::{eat_u63, lemma_parse_u63, mask_u63, parse_u63, MAX_U63};
use crate::frame::wire::u64_be;
use vstd::prelude::*;

verus! {

broadcast use crate::frame::wire::group_be_len;

/// The resume_ok frame.
///
/// # Frame Contents
///
/// ```text
///  0                   1                   2                   3
///  0 1 2 3 4 5 6 7 8 9 0 1 2 3 4 5 6 7 8 9 0 1 2 3 4 5 6 7 8 9 0 1
/// +-+-+-+-+-+-+-+-+-+-+-+-+-+-+-+-+-+-+-+-+-+-+-+-+-+-+-+-+-+-+-+-+
/// |                         Stream ID = 0                         |
/// +-----------+-+-+---------------+-------------------------------+
/// |Frame Type |0|0|    Flags      |
/// +-------------------------------+-------------------------------+
/// |0|                                                             |
/// +               Last Received Client Position                   +
/// |                                                               |
/// +---------------------------------------------------------------+
/// ```
#[derive(Debug, Clone, PartialEq, Eq)]
pub struct ResumeOkFrame {
    last_received_client_position: u64,
}

/// What a `ResumeOkFrame` holds.
pub ghost struct ResumeOkFrameView {
    pub last_received_client_position: u64,
}

impl ResumeOkFrameView {
    /// The bytes that follow the header.
    pub open spec fn body(self) -> Seq<u8> {
        u64_be(self.last_received_client_position)
    }

    /// The bytes of the frame.
    pub open spec fn wire(self) -> Seq<u8> {
        header(0, FrameType::RESUME_OK, 0) + self.body()
    }

    /// Whether the frame is one that decoding gives: its position fits 63 bits.
    pub open spec fn wf(self) -> bool {
        self.last_received_client_position <= MAX_U63
    }

    /// Decoding what follows the header of an encoded frame gives the frame
    /// back and leaves nothing.
    pub proof fn lemma_round_trip(self, stream_id: u32, flags: u16)
        requires
            self.wf(),
        ensures
            ResumeOkFrame::parse(self.body(), stream_id, flags) == (
                Ok::<ResumeOkFrameView, DecodeError>(self),
                Seq::<u8>::empty(),
            ),
    {
        lemma_parse_u63(self.last_received_client_position, Seq::empty());
        assert(self.body() =~= self.body() + Seq::<u8>::empty());
    }
}

impl View for ResumeOkFrame {
    type V = ResumeOkFrameView;

    closed spec fn view(&self) -> ResumeOkFrameView {
        ResumeOkFrameView { last_received_client_position: self.last_received_client_position }
    }
}

impl ResumeOkFrame {
    /// RESUME OK frames MUST always use Stream ID 0 as they pertain to the connection.
    pub const STREAM_ID: u32 = 0;

    /// Type of this frame.
    pub const TYPE: FrameType = FrameType::RESUME_OK;

    /// Create a new `ResumeOk` frame. The position is cut to 63 bits.
    pub fn new(last_received_client_position: u64) -> (r: ResumeOkFrame)
        ensures
            r@.last_received_client_position == last_received_client_position & MAX_U63,
            r@.wf(),
    {
        ResumeOkFrame {
            last_received_client_position: mask_u63(last_received_client_position),
        }
    }

    /// Returns the last implied position the server received from the client.
    pub fn last_received_server_position(&self) -> (r: u64)
        ensures
            r == self@.last_received_client_position,
    {
        self.last_received_client_position
    }
}

impl Encode for ResumeOkFrame {
    open spec fn wire(&self) -> Seq<u8> {
        self@.wire()
    }

    open spec fn encodable(&self) -> bool {
        true
    }

    fn encode(&self, buf: &mut BytesMut) {
        put_header(buf, 0, FrameType::RESUME_OK, 0);
        put_u64(buf, self.last_received_client_position);
        assert(written(*buf) =~= written(*old(buf)) + self@.wire());
    }

    fn encoded_len(&self) -> Option<usize> {
        Some(14)
    }

    fn len(&self) -> usize {
        // len(stream_id): 4
        // len(flags): 2
        // len(last_received_client_position): 8
        14
    }
}

impl Decode for ResumeOkFrame {
    type Value = Self;

    /// The position, cut to 63 bits; stream ID and flags play no part.
    open spec fn parse(s: Seq<u8>, stream_id: u32, flags: u16) -> (
        Result<ResumeOkFrameView, DecodeError>,
        Seq<u8>,
    ) {
        match parse_u63(s) {
            (Err(e), rest) => (Err(e), rest),
            (Ok(position), rest) => (
                Ok(ResumeOkFrameView { last_received_client_position: position }),
                rest,
            ),
        }
    }

    fn decode(buf: &mut Bytes, _stream_id: u32, _flags: Flags) -> (r: Result<
        Self::Value,
        DecodeError,
    >) {
        let last_received_client_position = match eat_u63(buf) {
            Ok(position) => position,
            Err(e) => return Err(e),
        };
        Ok(ResumeOkFrame { last_received_client_position })
    }
}

} // verus!
