//! The REQUEST_N frame.
use bytes::{Bytes, BytesMut};
use crate::frame::buf::{put_u32, written};
use crate::frame::decode::{Decode, DecodeError};
use crate::frame::encode::{header, put_header, Encode};
use crate::frame::flags::{Flags, FrameType};
use crate::frame::visit::{eat_u31, lemma_parse_u31, mask_u31, parse_u31, MAX_U31};
use crate::frame::wire::u32_be;
use vstd::prelude::*;

verus! {

broadcast use crate::frame::wire::group_be_len;

/// The request_n frame.
///
/// # Frame Contents
///
/// ```text
///  0                   1                   2                   3
///  0 1 2 3 4 5 6 7 8 9 0 1 2 3 4 5 6 7 8 9 0 1 2 3 4 5 6 7 8 9 0 1
/// +-+-+-+-+-+-+-+-+-+-+-+-+-+-+-+-+-+-+-+-+-+-+-+-+-+-+-+-+-+-+-+-+
/// |                           Stream ID                           |
/// +-----------+-+-+---------------+-------------------------------+
/// |Frame Type |0|0|     Flags     |
/// +-------------------------------+-------------------------------+
/// |0|                         Request N                           |
/// +---------------------------------------------------------------+
/// ```
#[derive(Debug, Clone, PartialEq, Eq)]
pub struct RequestNFrame {
    stream_id: u32,
    request_n: u32,
}

/// What a `RequestNFrame` holds.
pub ghost struct RequestNFrameView {
    pub stream_id: u32,
    pub request_n: u32,
}

impl RequestNFrameView {
    /// The bytes that follow the header.
    pub open spec fn body(self) -> Seq<u8> {
        u32_be(self.request_n)
    }

    /// The bytes of the frame.
    pub open spec fn wire(self) -> Seq<u8> {
        header(self.stream_id, FrameType::REQUEST_N, 0) + self.body()
    }

    /// Whether the frame is one that decoding accepts: its stream ID is a
    /// non-zero 31-bit number and its request count fits 31 bits.
    pub open spec fn wf(self) -> bool {
        &&& 0 < self.stream_id <= MAX_U31
        &&& self.request_n <= MAX_U31
    }
}

impl RequestNFrameView {
    /// Decoding what follows the header of an encoded frame gives the frame
    /// back and leaves nothing.
    pub proof fn lemma_round_trip(self, flags: u16)
        requires
            self.wf(),
        ensures
            RequestNFrame::parse(self.body(), self.stream_id, flags) == (
                Ok::<RequestNFrameView, DecodeError>(self),
                Seq::<u8>::empty(),
            ),
    {
        lemma_parse_u31(self.request_n, Seq::empty());
        assert(self.body() =~= self.body() + Seq::<u8>::empty());
    }
}

impl View for RequestNFrame {
    type V = RequestNFrameView;

    closed spec fn view(&self) -> RequestNFrameView {
        RequestNFrameView { stream_id: self.stream_id, request_n: self.request_n }
    }
}

impl RequestNFrame {
    /// Type of this frame.
    pub const TYPE: FrameType = FrameType::REQUEST_N;

    /// Create a new `RequestN` frame. The stream ID and the number of items
    /// to request are cut to 31 bits.
    pub fn new(stream_id: u32, request_n: u32) -> (r: RequestNFrame)
        ensures
            r@ == (RequestNFrameView {
                stream_id: stream_id & MAX_U31,
                request_n: request_n & MAX_U31,
            }),
            r@.stream_id <= MAX_U31,
            r@.request_n <= MAX_U31,
    {
        let stream_id = mask_u31(stream_id);
        let request_n = mask_u31(request_n);
        RequestNFrame { stream_id, request_n }
    }

    /// Returns the stream ID of this frame.
    pub fn stream_id(&self) -> (r: u32)
        ensures
            r == self@.stream_id,
    {
        self.stream_id
    }

    /// Returns the number of items to request.
    pub fn request_n(&self) -> (r: u32)
        ensures
            r == self@.request_n,
    {
        self.request_n
    }
}

impl Encode for RequestNFrame {
    open spec fn wire(&self) -> Seq<u8> {
        self@.wire()
    }

    open spec fn encodable(&self) -> bool {
        true
    }

    fn encode(&self, buf: &mut BytesMut) {
        put_header(buf, self.stream_id, FrameType::REQUEST_N, 0);
        put_u32(buf, self.request_n);
        assert(written(*buf) =~= written(*old(buf)) + self@.wire());
    }

    fn encoded_len(&self) -> Option<usize> {
        Some(10)
    }

    fn len(&self) -> usize {
        // len(stream_id): 4
        // len(flags): 2
        // len(request_n): 4
        10
    }
}

impl Decode for RequestNFrame {
    type Value = Self;

    /// The count of items requested, cut to 31 bits; the flags play no part.
    open spec fn parse(s: Seq<u8>, stream_id: u32, flags: u16) -> (
        Result<RequestNFrameView, DecodeError>,
        Seq<u8>,
    ) {
        match parse_u31(s) {
            (Err(e), rest) => (Err(e), rest),
            (Ok(request_n), rest) => (Ok(RequestNFrameView { stream_id, request_n }), rest),
        }
    }

    fn decode(buf: &mut Bytes, stream_id: u32, _flags: Flags) -> (r: Result<
        Self::Value,
        DecodeError,
    >) {
        let request_n = match eat_u31(buf) {
            Ok(n) => n,
            Err(e) => return Err(e),
        };
        Ok(RequestNFrame { stream_id, request_n })
    }
}

} // verus!
