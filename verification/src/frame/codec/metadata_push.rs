//! The METADATA_PUSH frame.
use bytes::{Bytes, BytesMut};
use crate::frame::buf::{bytes_len, contents, copy_to_bytes, put_slice, written};
use crate::frame::decode::{Decode, DecodeError};
use crate::frame::encode::{add_within, header, put_header, Encode};
use crate::frame::flags::{Flags, FrameType, METADATA_BIT};
use vstd::prelude::*;

verus! {

broadcast use crate::frame::wire::group_be_len;

/// The metadata_push frame.
///
/// A Metadata Push frame can be used to send asynchronous metadata notifications from a Requester
/// or Responder to its peer.
///
/// # Frame Contents
///
/// ```text
///  0                   1                   2                   3
///  0 1 2 3 4 5 6 7 8 9 0 1 2 3 4 5 6 7 8 9 0 1 2 3 4 5 6 7 8 9 0 1
/// +-+-+-+-+-+-+-+-+-+-+-+-+-+-+-+-+-+-+-+-+-+-+-+-+-+-+-+-+-+-+-+-+
/// |                         Stream ID = 0                         |
/// +-----------+-+-+---------------+-------------------------------+
/// |Frame Type |0|1|     Flags     |
/// +-------------------------------+-------------------------------+
///                             Metadata
/// ```
#[derive(Debug, Clone, PartialEq, Eq)]
pub struct MetadataPushFrame {
    metadata: Bytes,
}

/// What a `MetadataPushFrame` holds.
pub ghost struct MetadataPushFrameView {
    pub metadata: Seq<u8>,
}

impl MetadataPushFrameView {
    /// The bytes that follow the header.
    pub open spec fn body(self) -> Seq<u8> {
        self.metadata
    }

    /// The bytes of the frame.
    pub open spec fn wire(self) -> Seq<u8> {
        header(0, FrameType::METADATA_PUSH, METADATA_BIT) + self.body()
    }

    /// Every frame of this type is one that decoding gives.
    pub open spec fn wf(self) -> bool {
        true
    }

    /// Decoding what follows the header of an encoded frame gives the frame
    /// back and leaves nothing.
    pub proof fn lemma_round_trip(self, stream_id: u32, flags: u16)
        ensures
            MetadataPushFrame::parse(self.body(), stream_id, flags) == (
                Ok::<MetadataPushFrameView, DecodeError>(self),
                Seq::<u8>::empty(),
            ),
    {
    }
}

impl View for MetadataPushFrame {
    type V = MetadataPushFrameView;

    closed spec fn view(&self) -> MetadataPushFrameView {
        MetadataPushFrameView { metadata: contents(self.metadata) }
    }
}

impl MetadataPushFrame {
    /// METADATA_PUSH frames MUST always use Stream ID 0 as they pertain to the Connection.
    pub const STREAM_ID: u32 = 0;

    /// Type of this frame.
    pub const TYPE: FrameType = FrameType::METADATA_PUSH;

    /// Create a `MetadataPush` frame.
    pub fn new(metadata: Bytes) -> (r: MetadataPushFrame)
        ensures
            r@ == (MetadataPushFrameView { metadata: contents(metadata) }),
    {
        MetadataPushFrame { metadata }
    }

    /// Returns the metadata attached to this frame.
    pub fn metadata(&self) -> (r: &Bytes)
        ensures
            contents(*r) == self@.metadata,
    {
        &self.metadata
    }
}

impl Encode for MetadataPushFrame {
    open spec fn wire(&self) -> Seq<u8> {
        self@.wire()
    }

    open spec fn encodable(&self) -> bool {
        true
    }

    fn encode(&self, buf: &mut BytesMut) {
        assert(self.wire() == self@.wire());
        assert(self@.wire().len() == 6 + self@.metadata.len());
        put_header(buf, 0, FrameType::METADATA_PUSH, Flags::metadata().bits());
        put_slice(buf, &self.metadata);
        assert(written(*buf) =~= written(*old(buf)) + self@.wire());
    }

    fn encoded_len(&self) -> Option<usize> {
        assert(self.wire() == self@.wire());
        assert(self@.wire().len() == 6 + self@.metadata.len());
        add_within(Some(6), bytes_len(&self.metadata))
    }

    fn len(&self) -> usize {
        assert(self.wire() == self@.wire());
        assert(self@.wire().len() == 6 + self@.metadata.len());
        // len(stream_id): 4
        // len(flags): 2
        // len(metadata)
        6 + bytes_len(&self.metadata)
    }
}

impl Decode for MetadataPushFrame {
    type Value = Self;

    /// All the bytes are metadata; stream ID and flags play no part.
    open spec fn parse(s: Seq<u8>, stream_id: u32, flags: u16) -> (
        Result<MetadataPushFrameView, DecodeError>,
        Seq<u8>,
    ) {
        (Ok(MetadataPushFrameView { metadata: s }), Seq::empty())
    }

    fn decode(buf: &mut Bytes, _stream_id: u32, _flags: Flags) -> (r: Result<
        Self::Value,
        DecodeError,
    >) {
        let len = bytes_len(buf);
        let metadata = copy_to_bytes(buf, len);
        assert(contents(metadata) =~= contents(*old(buf)));
        assert(contents(*buf) =~= Seq::<u8>::empty());
        Ok(MetadataPushFrame { metadata })
    }
}

} // verus!
