//! The CANCEL frame.
use bytes::{Bytes, BytesMut};
use crate::frame::decode::{Decode, DecodeError};
use crate::frame::encode::{header, put_header, Encode};
use crate::frame::flags::{Flags, FrameType};
use crate::frame::visit::{mask_u31, MAX_U31};
use vstd::prelude::*;

verus! {

broadcast use crate::frame::wire::group_be_len;

/// The cancel frame.
///
/// # Frame Contents
///
/// ```text
///  0                   1                   2                   3
///  0 1 2 3 4 5 6 7 8 9 0 1 2 3 4 5 6 7 8 9 0 1 2 3 4 5 6 7 8 9 0 1
/// +-+-+-+-+-+-+-+-+-+-+-+-+-+-+-+-+-+-+-+-+-+-+-+-+-+-+-+-+-+-+-+-+
/// |                           Stream ID                           |
/// +-----------+-+-+---------------+-------------------------------+
/// |Frame Type |0|0|    Flags      |
/// +-------------------------------+-------------------------------+
/// ```
#[derive(Debug, Clone, PartialEq, Eq)]
pub struct CancelFrame {
    stream_id: u32,
}

/// What a `CancelFrame` holds.
pub ghost struct CancelFrameView {
    pub stream_id: u32,
}

impl CancelFrameView {
    /// The bytes of the frame.
    pub open spec fn wire(self) -> Seq<u8> {
        header(self.stream_id, FrameType::CANCEL, 0)
    }

    /// Whether the frame is one that decoding accepts: its stream ID is a
    /// non-zero 31-bit number.
    pub open spec fn wf(self) -> bool {
        0 < self.stream_id <= MAX_U31
    }

    /// Decoding what follows the header of an encoded frame, which is
    /// nothing, gives the frame back.
    pub proof fn lemma_round_trip(self, flags: u16)
        ensures
            CancelFrame::parse(Seq::<u8>::empty(), self.stream_id, flags) == (
                Ok::<CancelFrameView, DecodeError>(self),
                Seq::<u8>::empty(),
            ),
    {
    }
}

impl View for CancelFrame {
    type V = CancelFrameView;

    closed spec fn view(&self) -> CancelFrameView {
        CancelFrameView { stream_id: self.stream_id }
    }
}

impl CancelFrame {
    /// Type of this frame.
    pub const TYPE: FrameType = FrameType::CANCEL;

    /// Create a new `Cancel` frame. The stream ID is cut to 31 bits.
    pub fn new(stream_id: u32) -> (r: CancelFrame)
        ensures
            r@.stream_id == stream_id & MAX_U31,
            r@.stream_id <= MAX_U31,
    {
        let stream_id = mask_u31(stream_id);
        CancelFrame { stream_id }
    }

    /// Returns the stream ID of this frame.
    pub fn stream_id(&self) -> (r: u32)
        ensures
            r == self@.stream_id,
    {
        self.stream_id
    }
}

impl Encode for CancelFrame {
    open spec fn wire(&self) -> Seq<u8> {
        self@.wire()
    }

    open spec fn encodable(&self) -> bool {
        true
    }

    fn encode(&self, buf: &mut BytesMut) {
        put_header(buf, self.stream_id, FrameType::CANCEL, 0);
    }

    fn encoded_len(&self) -> Option<usize> {
        Some(6)
    }

    fn len(&self) -> usize {
        // len(stream_id): 4
        // len(flags): 2
        6
    }
}

impl Decode for CancelFrame {
    type Value = Self;

    /// Nothing follows the header; the flags play no part.
    open spec fn parse(s: Seq<u8>, stream_id: u32, flags: u16) -> (
        Result<CancelFrameView, DecodeError>,
        Seq<u8>,
    ) {
        (Ok(CancelFrameView { stream_id }), s)
    }

    fn decode(_buf: &mut Bytes, stream_id: u32, _flags: Flags) -> (r: Result<
        Self::Value,
        DecodeError,
    >) {
        Ok(CancelFrame { stream_id })
    }
}

} // verus!
