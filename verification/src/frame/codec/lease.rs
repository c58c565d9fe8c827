//! The LEASE frame.
use bytes::{Bytes, BytesMut};
use crate::consts::duration_millis;
use crate::frame::buf::{bytes_len, contents, opt_bytes, opt_contents, put_slice, put_u32, written};
use crate::frame::decode::{Decode, DecodeError};
use crate::frame::encode::{add_within, header, opt_bytes_len, put_header, Encode};
use crate::frame::flags::{Flags, FrameType, METADATA_BIT};
use crate::frame::visit::{eat_rest, eat_u31, lemma_parse_u31, parse_rest, parse_u31, MAX_U31};
use crate::frame::wire::u32_be;
use std::time::Duration;
use vstd::prelude::*;

verus! {

broadcast use crate::frame::wire::group_be_len;

/// The lease frame.
///
/// Lease frames MAY be sent by the client-side or server-side Responders and inform the Requester
/// that it may send Requests for a period of time and how many it may send during that duration.
///
/// # Frame Contents
///
/// ```text
/// 0                   1                   2                   3
/// 0 1 2 3 4 5 6 7 8 9 0 1 2 3 4 5 6 7 8 9 0 1 2 3 4 5 6 7 8 9 0 1
/// +-+-+-+-+-+-+-+-+-+-+-+-+-+-+-+-+-+-+-+-+-+-+-+-+-+-+-+-+-+-+-+-+
/// |                         Stream ID = 0                         |
/// +-----------+-+-+---------------+-------------------------------+
/// |Frame Type |0|M|     Flags     |
/// +-----------+-+-+---------------+-------------------------------+
/// |0|                       Time-To-Live                          |
/// +---------------------------------------------------------------+
/// |0|                     Number of Requests                      |
/// +---------------------------------------------------------------+
///                             Metadata
/// ```
#[derive(Debug, Clone, PartialEq, Eq)]
pub struct LeaseFrame {
    ttl: u32,
    number_of_requests: u32,
    metadata: Option<Bytes>,
}

/// What a `LeaseFrame` holds.
pub ghost struct LeaseFrameView {
    pub ttl: u32,
    pub number_of_requests: u32,
    pub metadata: Option<Seq<u8>>,
}

impl LeaseFrameView {
    /// The flags of the header: METADATA where there is metadata.
    pub open spec fn flags(self) -> u16 {
        if self.metadata is Some {
            METADATA_BIT
        } else {
            0
        }
    }

    /// The bytes that follow the header.
    pub open spec fn body(self) -> Seq<u8> {
        u32_be(self.ttl) + u32_be(self.number_of_requests) + opt_bytes(self.metadata)
    }

    /// The bytes of the frame.
    pub open spec fn wire(self) -> Seq<u8> {
        header(0, FrameType::LEASE, self.flags()) + self.body()
    }

    /// Whether the frame is one that decoding gives: both numbers fit 31
    /// bits, and metadata that is present is not empty.
    pub open spec fn wf(self) -> bool {
        &&& self.ttl <= MAX_U31
        &&& self.number_of_requests <= MAX_U31
        &&& self.metadata matches Some(m) ==> m.len() > 0
    }

    /// Decoding what follows the header of an encoded frame gives the frame
    /// back and leaves nothing.
    pub proof fn lemma_round_trip(self, flags: u16)
        requires
            self.wf(),
        ensures
            LeaseFrame::parse(self.body(), 0, flags) == (
                Ok::<LeaseFrameView, DecodeError>(self),
                Seq::<u8>::empty(),
            ),
    {
        let m = opt_bytes(self.metadata);
        assert(self.body() =~= u32_be(self.ttl) + (u32_be(self.number_of_requests) + m));
        lemma_parse_u31(self.ttl, u32_be(self.number_of_requests) + m);
        lemma_parse_u31(self.number_of_requests, m);
    }
}

impl View for LeaseFrame {
    type V = LeaseFrameView;

    closed spec fn view(&self) -> LeaseFrameView {
        LeaseFrameView {
            ttl: self.ttl,
            number_of_requests: self.number_of_requests,
            metadata: opt_contents(self.metadata),
        }
    }
}

impl LeaseFrame {
    /// Lease frames MUST always use Stream ID 0 as they pertain to the connection.
    pub const STREAM_ID: u32 = 0;

    /// Type of this frame.
    pub const TYPE: FrameType = FrameType::LEASE;

    /// Create a new `Lease` frame.
    ///
    /// - `ttl`: time (in milliseconds) for validity of lease from time of reception.
    /// - `number_of_requests`: number of requests that may be sent until next lease.
    ///
    /// Both SHOULD be <= `MAX_U31`; they are kept as given.
    pub fn new(ttl: u32, number_of_requests: u32, metadata: Option<Bytes>) -> (r: LeaseFrame)
        ensures
            r@ == (LeaseFrameView { ttl, number_of_requests, metadata: opt_contents(metadata) }),
    {
        LeaseFrame { ttl, number_of_requests, metadata }
    }

    /// Returns the time for validity of lease from time of reception.
    pub fn ttl(&self) -> (r: Duration)
        ensures
            duration_millis(r) == self@.ttl,
    {
        Duration::from_millis(self.ttl as u64)
    }

    /// Returns the time for validity of lease from time of reception, in
    /// milliseconds.
    pub fn ttl_millis(&self) -> (r: u32)
        ensures
            r == self@.ttl,
    {
        self.ttl
    }

    /// Returns the number of requests that may be sent until next lease.
    pub fn number_of_requests(&self) -> (r: u32)
        ensures
            r == self@.number_of_requests,
    {
        self.number_of_requests
    }

    /// Returns the metadata attached to this frame, if any.
    pub fn metadata(&self) -> (r: Option<&Bytes>)
        ensures
            r matches Some(m) ==> self@.metadata == Some(contents(*m)),
            r is None <==> self@.metadata is None,
    {
        self.metadata.as_ref()
    }
}

impl Encode for LeaseFrame {
    open spec fn wire(&self) -> Seq<u8> {
        self@.wire()
    }

    open spec fn encodable(&self) -> bool {
        true
    }

    fn encode(&self, buf: &mut BytesMut) {
        assert(self.wire() == self@.wire());
        assert(self@.wire().len() == 14 + opt_bytes(self@.metadata).len());
        if self.metadata.is_some() {
            put_header(buf, 0, FrameType::LEASE, METADATA_BIT);
        } else {
            put_header(buf, 0, FrameType::LEASE, 0);
        }
        put_u32(buf, self.ttl);
        put_u32(buf, self.number_of_requests);
        if let Some(metadata) = &self.metadata {
            put_slice(buf, metadata);
        }
        assert(written(*buf) =~= written(*old(buf)) + self@.wire());
    }

    fn encoded_len(&self) -> Option<usize> {
        assert(self.wire() == self@.wire());
        assert(self@.wire().len() == 14 + opt_bytes(self@.metadata).len());
        add_within(Some(14), opt_bytes_len(&self.metadata))
    }

    fn len(&self) -> usize {
        assert(self.wire() == self@.wire());
        assert(self@.wire().len() == 14 + opt_bytes(self@.metadata).len());
        // len(stream_id): 4
        // len(flags): 2
        // len(ttl): 4
        // len(number_of_requests): 4
        let mut len: usize = 14;

        // len(metadata)
        if let Some(metadata) = &self.metadata {
            len = len + bytes_len(metadata);
        }
        len
    }
}

impl Decode for LeaseFrame {
    type Value = Self;

    /// The frame belongs to stream 0. Then come the time to live and the
    /// number of requests, cut to 31 bits each, and all that is left is
    /// metadata. The flags play no part.
    open spec fn parse(s: Seq<u8>, stream_id: u32, flags: u16) -> (
        Result<LeaseFrameView, DecodeError>,
        Seq<u8>,
    ) {
        if stream_id != 0 {
            (Err(DecodeError::InvalidStreamId { expected: "0", found: stream_id }), s)
        } else {
            match parse_u31(s) {
                (Err(e), rest) => (Err(e), rest),
                (Ok(ttl), s1) => match parse_u31(s1) {
                    (Err(e), rest) => (Err(e), rest),
                    (Ok(number_of_requests), s2) => (
                        Ok(
                            LeaseFrameView {
                                ttl,
                                number_of_requests,
                                metadata: parse_rest(s2).0->Ok_0,
                            },
                        ),
                        parse_rest(s2).1,
                    ),
                },
            }
        }
    }

    fn decode(buf: &mut Bytes, stream_id: u32, _flags: Flags) -> (r: Result<
        Self::Value,
        DecodeError,
    >) {
        if stream_id != 0 {
            return Err(DecodeError::InvalidStreamId { expected: "0", found: stream_id });
        }
        let ttl = match eat_u31(buf) {
            Ok(ttl) => ttl,
            Err(e) => return Err(e),
        };
        let number_of_requests = match eat_u31(buf) {
            Ok(n) => n,
            Err(e) => return Err(e),
        };
        let metadata = eat_rest(buf);
        Ok(LeaseFrame { ttl, number_of_requests, metadata })
    }
}

} // verus!
