//! The REQUEST_CHANNEL frame.
use bytes::{Bytes, BytesMut};
use crate::frame::buf::{contents, put_u32, written};
use crate::frame::decode::{Decode, DecodeError};
use crate::frame::encode::{add_within, header, put_header, Encode};
use crate::frame::flags::{
    lemma_flag_sets, lemma_request_flags, only_flag_bits, request_flags, Flags, FrameType,
    COMPLETE_BIT, FOLLOWS_BIT,
};
use crate::frame::visit::{
    eat_payload, eat_u31, lemma_parse_payload, lemma_parse_u31, mask_u31, parse_payload, parse_u31,
    MAX_U31,
};
use crate::frame::wire::u32_be;
use crate::payload::{Payload, PayloadView};
use vstd::prelude::*;

verus! {

broadcast use crate::frame::wire::group_be_len;

/// The request_channel frame.
///
/// # Frame Contents
///
/// ```text
///  0                   1                   2                   3
///  0 1 2 3 4 5 6 7 8 9 0 1 2 3 4 5 6 7 8 9 0 1 2 3 4 5 6 7 8 9 0 1
/// +-+-+-+-+-+-+-+-+-+-+-+-+-+-+-+-+-+-+-+-+-+-+-+-+-+-+-+-+-+-+-+-+
/// |                           Stream ID                           |
/// +-----------+-+-+-+-------------+-------------------------------+
/// |Frame Type |0|M|F|C|  Flags    |
/// +-------------------------------+-------------------------------+
/// |0|                    Initial Request N                        |
/// +---------------------------------------------------------------+
///                      Metadata & Data
/// ```
#[derive(Debug, Clone, PartialEq, Eq)]
pub struct RequestChannelFrame {
    stream_id: u32,
    flags: Flags,
    initial_request_n: u32,
    payload: Payload,
}

/// What a `RequestChannelFrame` holds.
pub ghost struct RequestChannelFrameView {
    pub stream_id: u32,
    pub flags: u16,
    pub initial_request_n: u32,
    pub payload: PayloadView,
}

impl RequestChannelFrameView {
    /// The bytes that follow the header.
    pub open spec fn body(self) -> Seq<u8> {
        u32_be(self.initial_request_n) + self.payload.prefixed()
    }

    /// The bytes of the frame.
    pub open spec fn wire(self) -> Seq<u8> {
        header(self.stream_id, FrameType::REQUEST_CHANNEL, self.flags) + self.body()
    }

    /// Whether the frame is one that decoding gives: its stream ID is a
    /// non-zero 31-bit number, its flags are flags, its first request count
    /// fits 31 bits, and its payload is canonical.
    pub open spec fn wf(self) -> bool {
        &&& 0 < self.stream_id <= MAX_U31
        &&& only_flag_bits(self.flags)
        &&& self.initial_request_n <= MAX_U31
        &&& self.payload.canonical()
    }
}

impl RequestChannelFrameView {
    /// Decoding what follows the header of an encoded frame gives the frame
    /// back and leaves nothing.
    pub proof fn lemma_round_trip(self)
        requires
            self.wf(),
        ensures
            RequestChannelFrame::parse(self.body(), self.stream_id, self.flags) == (
                Ok::<RequestChannelFrameView, DecodeError>(self),
                Seq::<u8>::empty(),
            ),
    {
        lemma_parse_u31(self.initial_request_n, self.payload.prefixed());
        lemma_parse_payload(self.payload);
    }
}

impl View for RequestChannelFrame {
    type V = RequestChannelFrameView;

    closed spec fn view(&self) -> RequestChannelFrameView {
        RequestChannelFrameView {
            stream_id: self.stream_id,
            flags: self.flags@,
            initial_request_n: self.initial_request_n,
            payload: self.payload@,
        }
    }
}

impl RequestChannelFrame {
    /// Type of this frame.
    pub const TYPE: FrameType = FrameType::REQUEST_CHANNEL;

    /// Create a new `RequestChannel` frame. The stream ID and the first
    /// request count are cut to 31 bits. FOLLOWS is set where `follows`
    /// holds, COMPLETE where `complete` holds, METADATA where the payload
    /// has metadata, and no other flag.
    ///
    /// `initial_request_n` SHOULD be above 0.
    pub fn new(
        stream_id: u32,
        follows: bool,
        complete: bool,
        initial_request_n: u32,
        payload: Payload,
    ) -> (r: RequestChannelFrame)
        ensures
            r@.stream_id == stream_id & MAX_U31,
            r@.stream_id <= MAX_U31,
            r@.flags == request_flags(follows, payload@.metadata is Some) | (if complete {
                COMPLETE_BIT
            } else {
                0
            }),
            r@.initial_request_n == initial_request_n & MAX_U31,
            r@.initial_request_n <= MAX_U31,
            r@.payload == payload@,
            only_flag_bits(r@.flags),
    {
        let stream_id = mask_u31(stream_id);
        let mut flags = Flags::empty();
        if follows {
            flags = flags | Flags::follows();
        }
        if payload.has_metadata() {
            flags = flags | Flags::metadata();
        }
        proof {
            lemma_request_flags(follows, payload@.metadata is Some);
            lemma_flag_sets(flags@, 0);
        }
        if complete {
            flags = flags | Flags::complete();
        }
        let initial_request_n = mask_u31(initial_request_n);
        RequestChannelFrame { stream_id, flags, initial_request_n, payload }
    }

    /// Returns the stream ID of this frame.
    pub fn stream_id(&self) -> (r: u32)
        ensures
            r == self@.stream_id,
    {
        self.stream_id
    }

    /// Returns true if this frame has the FOLLOWS flag set.
    pub fn is_follows(&self) -> (r: bool)
        ensures
            r == (self@.flags & FOLLOWS_BIT == FOLLOWS_BIT),
    {
        self.flags.contains(Flags::follows())
    }

    /// Returns true if this frame has the COMPLETE flag set.
    pub fn is_complete(&self) -> (r: bool)
        ensures
            r == (self@.flags & COMPLETE_BIT == COMPLETE_BIT),
    {
        self.flags.contains(Flags::complete())
    }

    /// Returns the number of items that the requester asks for at first.
    pub fn initial_request_n(&self) -> (r: u32)
        ensures
            r == self@.initial_request_n,
    {
        self.initial_request_n
    }

    /// Returns the metadata attached to this frame, if any.
    pub fn metadata(&self) -> (r: Option<&Bytes>)
        ensures
            r matches Some(m) ==> self@.payload.metadata == Some(contents(*m)),
            r is None <==> self@.payload.metadata is None,
    {
        self.payload.metadata()
    }

    /// Returns the data attached to this frame, if any.
    pub fn data(&self) -> (r: Option<&Bytes>)
        ensures
            r matches Some(d) ==> self@.payload.data == Some(contents(*d)),
            r is None <==> self@.payload.data is None,
    {
        self.payload.data()
    }

    /// Returns the payload attached to this frame.
    pub fn payload(self) -> (r: Payload)
        ensures
            r@ == self@.payload,
    {
        self.payload
    }
}

impl Encode for RequestChannelFrame {
    open spec fn wire(&self) -> Seq<u8> {
        self@.wire()
    }

    open spec fn encodable(&self) -> bool {
        self@.payload.encodable()
    }

    fn encode(&self, buf: &mut BytesMut) {
        put_header(buf, self.stream_id, FrameType::REQUEST_CHANNEL, self.flags.bits());
        put_u32(buf, self.initial_request_n);
        self.payload.encode_prefixed(buf);
        assert(written(*buf) =~= written(*old(buf)) + self@.wire());
    }

    fn encoded_len(&self) -> Option<usize> {
        assert(self.wire() == self@.wire());
        assert(self@.wire().len() == 10 + self@.payload.prefixed().len());
        match self.payload.prefixed_len() {
            Some(n) => add_within(Some(10), n),
            None => None,
        }
    }

    fn len(&self) -> usize {
        // len(stream_id): 4
        // len(flags): 2
        // len(initial_request_n): 4
        // len(metadata_len): 3
        // len(payload)
        13 + self.payload.len()
    }
}

impl Decode for RequestChannelFrame {
    type Value = Self;

    /// The first request count, cut to 31 bits, then the payload; stream ID
    /// and flags are taken as they are.
    open spec fn parse(s: Seq<u8>, stream_id: u32, flags: u16) -> (
        Result<RequestChannelFrameView, DecodeError>,
        Seq<u8>,
    ) {
        match parse_u31(s) {
            (Err(e), rest) => (Err(e), rest),
            (Ok(initial_request_n), s1) => match parse_payload(s1, true) {
                (Err(e), rest) => (Err(e), rest),
                (Ok(payload), rest) => (
                    Ok(RequestChannelFrameView { stream_id, flags, initial_request_n, payload }),
                    rest,
                ),
            },
        }
    }

    fn decode(buf: &mut Bytes, stream_id: u32, flags: Flags) -> (r: Result<
        Self::Value,
        DecodeError,
    >) {
        let initial_request_n = match eat_u31(buf) {
            Ok(n) => n,
            Err(e) => return Err(e),
        };
        let payload = match eat_payload(buf, true) {
            Ok(payload) => payload,
            Err(e) => return Err(e),
        };
        Ok(RequestChannelFrame { stream_id, flags, initial_request_n, payload })
    }
}

} // verus!
