//! The REQUEST_FNF frame.
use bytes::{Bytes, BytesMut};
use crate::frame::buf::{contents, written};
use crate::frame::decode::{Decode, DecodeError};
use crate::frame::encode::{add_within, header, put_header, Encode};
use crate::frame::flags::{
    lemma_request_flags, only_flag_bits, request_flags, Flags, FrameType, FOLLOWS_BIT,
};
use crate::frame::visit::{eat_payload, lemma_parse_payload, mask_u31, parse_payload, MAX_U31};
use crate::payload::{Payload, PayloadView};
use vstd::prelude::*;

verus! {

broadcast use crate::frame::wire::group_be_len;

/// The request_fnf frame.
///
/// # Frame Contents
///
/// ```text
///  0                   1                   2                   3
///  0 1 2 3 4 5 6 7 8 9 0 1 2 3 4 5 6 7 8 9 0 1 2 3 4 5 6 7 8 9 0 1
/// +-+-+-+-+-+-+-+-+-+-+-+-+-+-+-+-+-+-+-+-+-+-+-+-+-+-+-+-+-+-+-+-+
/// |                           Stream ID                           |
/// +-----------+-+-+-+-------------+-------------------------------+
/// |Frame Type |0|M|F|    Flags    |
/// +-------------------------------+-------------------------------+
///                      Metadata & Data
/// ```
#[derive(Debug, Clone, PartialEq, Eq)]
pub struct RequestFnfFrame {
    stream_id: u32,
    flags: Flags,
    payload: Payload,
}

/// What a `RequestFnfFrame` holds.
pub ghost struct RequestFnfFrameView {
    pub stream_id: u32,
    pub flags: u16,
    pub payload: PayloadView,
}

impl RequestFnfFrameView {
    /// The bytes that follow the header.
    pub open spec fn body(self) -> Seq<u8> {
        self.payload.prefixed()
    }

    /// The bytes of the frame.
    pub open spec fn wire(self) -> Seq<u8> {
        header(self.stream_id, FrameType::REQUEST_FNF, self.flags) + self.body()
    }

    /// Whether the frame is one that decoding gives: its stream ID is a
    /// non-zero 31-bit number, its flags are flags, and its payload is
    /// canonical.
    pub open spec fn wf(self) -> bool {
        &&& 0 < self.stream_id <= MAX_U31
        &&& only_flag_bits(self.flags)
        &&& self.payload.canonical()
    }
}

impl RequestFnfFrameView {
    /// Decoding what follows the header of an encoded frame gives the frame
    /// back and leaves nothing.
    pub proof fn lemma_round_trip(self)
        requires
            self.wf(),
        ensures
            RequestFnfFrame::parse(self.body(), self.stream_id, self.flags) == (
                Ok::<RequestFnfFrameView, DecodeError>(self),
                Seq::<u8>::empty(),
            ),
    {
        lemma_parse_payload(self.payload);
    }
}

impl View for RequestFnfFrame {
    type V = RequestFnfFrameView;

    closed spec fn view(&self) -> RequestFnfFrameView {
        RequestFnfFrameView { stream_id: self.stream_id, flags: self.flags@, payload: self.payload@ }
    }
}

impl RequestFnfFrame {
    /// Type of this frame.
    pub const TYPE: FrameType = FrameType::REQUEST_FNF;

    /// Create a new `RequestFnf` frame. The stream ID is cut to 31 bits. FOLLOWS
    /// is set where `follows` holds, METADATA where the payload has
    /// metadata, and no other flag.
    pub fn new(stream_id: u32, follows: bool, payload: Payload) -> (r: RequestFnfFrame)
        ensures
            r@.stream_id == stream_id & MAX_U31,
            r@.stream_id <= MAX_U31,
            r@.flags == request_flags(follows, payload@.metadata is Some),
            r@.payload == payload@,
            only_flag_bits(r@.flags),
    {
        let stream_id = mask_u31(stream_id);
        let mut flags = Flags::empty();
        if follows {
            flags = flags | Flags::follows();
        }
        if payload.has_metadata() {
            flags = flags | Flags::metadata();
        }
        proof {
            lemma_request_flags(follows, payload@.metadata is Some);
        }
        RequestFnfFrame { stream_id, flags, payload }
    }

    /// Returns the stream ID of this frame.
    pub fn stream_id(&self) -> (r: u32)
        ensures
            r == self@.stream_id,
    {
        self.stream_id
    }

    /// Returns true if this frame has the FOLLOWS flag set.
    pub fn is_follows(&self) -> (r: bool)
        ensures
            r == (self@.flags & FOLLOWS_BIT == FOLLOWS_BIT),
    {
        self.flags.contains(Flags::follows())
    }

    /// Returns the metadata attached to this frame, if any.
    pub fn metadata(&self) -> (r: Option<&Bytes>)
        ensures
            r matches Some(m) ==> self@.payload.metadata == Some(contents(*m)),
            r is None <==> self@.payload.metadata is None,
    {
        self.payload.metadata()
    }

    /// Returns the data attached to this frame, if any.
    pub fn request_data(&self) -> (r: Option<&Bytes>)
        ensures
            r matches Some(d) ==> self@.payload.data == Some(contents(*d)),
            r is None <==> self@.payload.data is None,
    {
        self.payload.data()
    }

    /// Returns the payload attached to this frame.
    pub fn payload(self) -> (r: Payload)
        ensures
            r@ == self@.payload,
    {
        self.payload
    }
}

impl Encode for RequestFnfFrame {
    open spec fn wire(&self) -> Seq<u8> {
        self@.wire()
    }

    open spec fn encodable(&self) -> bool {
        self@.payload.encodable()
    }

    fn encode(&self, buf: &mut BytesMut) {
        put_header(buf, self.stream_id, FrameType::REQUEST_FNF, self.flags.bits());
        self.payload.encode_prefixed(buf);
        assert(written(*buf) =~= written(*old(buf)) + self@.wire());
    }

    fn encoded_len(&self) -> Option<usize> {
        assert(self.wire() == self@.wire());
        assert(self@.wire().len() == 6 + self@.payload.prefixed().len());
        match self.payload.prefixed_len() {
            Some(n) => add_within(Some(6), n),
            None => None,
        }
    }

    fn len(&self) -> usize {
        // len(stream_id): 4
        // len(flags): 2
        // len(metadata_len): 3
        // len(payload)
        9 + self.payload.len()
    }
}

impl Decode for RequestFnfFrame {
    type Value = Self;

    /// The payload; stream ID and flags are taken as they are.
    open spec fn parse(s: Seq<u8>, stream_id: u32, flags: u16) -> (
        Result<RequestFnfFrameView, DecodeError>,
        Seq<u8>,
    ) {
        match parse_payload(s, true) {
            (Err(e), rest) => (Err(e), rest),
            (Ok(payload), rest) => (Ok(RequestFnfFrameView { stream_id, flags, payload }), rest),
        }
    }

    fn decode(buf: &mut Bytes, stream_id: u32, flags: Flags) -> (r: Result<
        Self::Value,
        DecodeError,
    >) {
        let payload = match eat_payload(buf, true) {
            Ok(payload) => payload,
            Err(e) => return Err(e),
        };
        Ok(RequestFnfFrame { stream_id, flags, payload })
    }
}

} // verus!
