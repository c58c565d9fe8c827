//! The KEEPALIVE frame.
use bytes::{Bytes, BytesMut};
use crate::frame::buf::{bytes_len, contents, opt_bytes, opt_contents, put_slice, put_u64, written};
use crate::frame::decode::{Decode, DecodeError};
use crate::frame::encode::{add_within, header, opt_bytes_len, put_header, Encode};
use crate::frame::flags::{Flags, FrameType, FOLLOWS_BIT};
use crate::frame::visit::{
    eat_rest, eat_u63, lemma_parse_u63, mask_u63, parse_rest, parse_u63, MAX_U63,
};
use crate::frame::wire::u64_be;
use vstd::prelude::*;

verus! {

broadcast use crate::frame::wire::group_be_len;

/// The keepalive frame.
///
/// # Frame Contents
///
/// ```text
/// 0                   1                   2                   3
/// 0 1 2 3 4 5 6 7 8 9 0 1 2 3 4 5 6 7 8 9 0 1 2 3 4 5 6 7 8 9 0 1
/// +-+-+-+-+-+-+-+-+-+-+-+-+-+-+-+-+-+-+-+-+-+-+-+-+-+-+-+-+-+-+-+-+
/// |                         Stream ID = 0                         |
/// +-----------+-+-+-+-------------+-------------------------------+
/// |Frame Type |0|0|R|    Flags    |
/// +-----------+-+-+-+-------------+-------------------------------+
/// |0|                  Last Received Position                     |
/// +                                                               +
/// |                                                               |
/// +---------------------------------------------------------------+
///                              Data
/// ```
#[derive(Debug, Clone, PartialEq, Eq)]
pub struct KeepaliveFrame {
    respond: bool,
    last_received_position: u64,
    data: Option<Bytes>,
}

/// What a `KeepaliveFrame` holds.
pub ghost struct KeepaliveFrameView {
    pub respond: bool,
    pub last_received_position: u64,
    pub data: Option<Seq<u8>>,
}

impl KeepaliveFrameView {
    /// The flags of the header: RESPOND where an answer is asked for.
    pub open spec fn flags(self) -> u16 {
        if self.respond {
            FOLLOWS_BIT
        } else {
            0
        }
    }

    /// The bytes that follow the header.
    pub open spec fn body(self) -> Seq<u8> {
        u64_be(self.last_received_position) + opt_bytes(self.data)
    }

    /// The bytes of the frame.
    pub open spec fn wire(self) -> Seq<u8> {
        header(0, FrameType::KEEPALIVE, self.flags()) + self.body()
    }

    /// Whether the frame is one that decoding gives: its position fits 63
    /// bits, and data that is present is not empty.
    pub open spec fn wf(self) -> bool {
        &&& self.last_received_position <= MAX_U63
        &&& self.data matches Some(d) ==> d.len() > 0
    }

    /// Decoding what follows the header of an encoded frame gives the frame
    /// back and leaves nothing.
    pub proof fn lemma_round_trip(self)
        requires
            self.wf(),
        ensures
            KeepaliveFrame::parse(self.body(), 0, self.flags()) == (
                Ok::<KeepaliveFrameView, DecodeError>(self),
                Seq::<u8>::empty(),
            ),
    {
        lemma_parse_u63(self.last_received_position, opt_bytes(self.data));
        crate::frame::flags::lemma_flag_constants();
    }
}

impl View for KeepaliveFrame {
    type V = KeepaliveFrameView;

    closed spec fn view(&self) -> KeepaliveFrameView {
        KeepaliveFrameView {
            respond: self.respond,
            last_received_position: self.last_received_position,
            data: opt_contents(self.data),
        }
    }
}

impl KeepaliveFrame {
    /// KEEPALIVE frames MUST always use Stream ID 0 as they pertain to the connection.
    pub const STREAM_ID: u32 = 0;

    /// Type of this frame.
    pub const TYPE: FrameType = FrameType::KEEPALIVE;

    /// Create a new `Keepalive` frame. The position is cut to 63 bits.
    ///
    /// - `last_received_position` is the resume position of the sender.
    /// - `data` is data attached to the keepalive.
    /// - `respond` asks the receiver to answer with a KEEPALIVE of its own.
    pub fn new(last_received_position: u64, data: Option<Bytes>, respond: bool) -> (r:
        KeepaliveFrame)
        ensures
            r@ == (KeepaliveFrameView {
                respond,
                last_received_position: last_received_position & MAX_U63,
                data: opt_contents(data),
            }),
            r@.last_received_position <= MAX_U63,
    {
        KeepaliveFrame {
            respond,
            last_received_position: mask_u63(last_received_position),
            data,
        }
    }

    /// Returns the resume last received position.
    pub fn last_received_position(&self) -> (r: u64)
        ensures
            r == self@.last_received_position,
    {
        self.last_received_position
    }

    /// Returns the data attached to this frame, if any.
    pub fn data(&self) -> (r: Option<&Bytes>)
        ensures
            r matches Some(d) ==> self@.data == Some(contents(*d)),
            r is None <==> self@.data is None,
    {
        self.data.as_ref()
    }

    /// Returns true if this frame asks for a KEEPALIVE in answer.
    pub fn is_respond(&self) -> (r: bool)
        ensures
            r == self@.respond,
    {
        self.respond
    }
}

impl Encode for KeepaliveFrame {
    open spec fn wire(&self) -> Seq<u8> {
        self@.wire()
    }

    open spec fn encodable(&self) -> bool {
        true
    }

    fn encode(&self, buf: &mut BytesMut) {
        assert(self.wire() == self@.wire());
        assert(self@.wire().len() == 14 + opt_bytes(self@.data).len());
        if self.respond {
            put_header(buf, 0, FrameType::KEEPALIVE, Flags::respond().bits());
        } else {
            put_header(buf, 0, FrameType::KEEPALIVE, 0);
        }
        put_u64(buf, self.last_received_position);
        if let Some(data) = &self.data {
            put_slice(buf, data);
        }
        assert(written(*buf) =~= written(*old(buf)) + self@.wire());
    }

    fn encoded_len(&self) -> Option<usize> {
        assert(self.wire() == self@.wire());
        assert(self@.wire().len() == 14 + opt_bytes(self@.data).len());
        add_within(Some(14), opt_bytes_len(&self.data))
    }

    fn len(&self) -> usize {
        assert(self.wire() == self@.wire());
        assert(self@.wire().len() == 14 + opt_bytes(self@.data).len());
        // len(stream_id): 4
        // len(flags): 2
        // len(last_received_position): 8
        let mut len: usize = 14;

        // len(data)
        if let Some(data) = &self.data {
            len = len + bytes_len(data);
        }
        len
    }
}

impl Decode for KeepaliveFrame {
    type Value = Self;

    /// The frame belongs to stream 0. An answer is asked for where the
    /// flags hold RESPOND. Then comes the position, cut to 63 bits, and all
    /// that is left is data.
    open spec fn parse(s: Seq<u8>, stream_id: u32, flags: u16) -> (
        Result<KeepaliveFrameView, DecodeError>,
        Seq<u8>,
    ) {
        if stream_id != 0 {
            (Err(DecodeError::InvalidStreamId { expected: "0", found: stream_id }), s)
        } else {
            match parse_u63(s) {
                (Err(e), rest) => (Err(e), rest),
                (Ok(position), s1) => (
                    Ok(
                        KeepaliveFrameView {
                            respond: flags & FOLLOWS_BIT == FOLLOWS_BIT,
                            last_received_position: position,
                            data: parse_rest(s1).0->Ok_0,
                        },
                    ),
                    parse_rest(s1).1,
                ),
            }
        }
    }

    fn decode(buf: &mut Bytes, stream_id: u32, flags: Flags) -> (r: Result<
        Self::Value,
        DecodeError,
    >) {
        if stream_id != 0 {
            return Err(DecodeError::InvalidStreamId { expected: "0", found: stream_id });
        }
        let respond = flags.contains(Flags::respond());
        let last_received_position = match eat_u63(buf) {
            Ok(position) => position,
            Err(e) => return Err(e),
        };
        let data = eat_rest(buf);
        Ok(KeepaliveFrame { respond, last_received_position, data })
    }
}

} // verus!
