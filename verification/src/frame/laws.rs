//! What holds of the codec as a whole.
use super::{stream_id_for_type, Frame, FrameView};
use super::codec::{ResumeFrame, SetupFrame};
use super::codec::error::{is_connection_code, is_stream_code};
use super::codec::setup::parse_mimetype;
use super::decode::{Decode, DecodeError};
use super::encode::{header, lemma_header_word};
use super::flags::{lemma_flag_constants, only_flag_bits, FrameType, FLAG_BITS, METADATA_BIT};
use super::visit::{
    lemma_parse_u31, lemma_parsed_numbers_fit, lemma_parsed_payload_is_canonical, parse_bytes,
    parse_flags, parse_resume_token, parse_u16, parse_u31, parse_u63, parse_version, MAX_U31,
};
use super::wire::{be_u16, be_u32, lemma_be_u16_of_u16_be, lemma_u32_be_high_bit, u16_be, u32_be};
use vstd::prelude::*;

verus! {

broadcast use crate::frame::wire::group_be_len;

impl FrameView {
    /// The flags that the header of the frame holds.
    pub open spec fn header_flags(self) -> u16 {
        match self {
            FrameView::Setup(v) => v.flags,
            FrameView::Error(_) => 0,
            FrameView::Lease(v) => v.flags(),
            FrameView::Keepalive(v) => v.flags(),
            FrameView::RequestResponse(v) => v.flags,
            FrameView::RequestFnf(v) => v.flags,
            FrameView::RequestStream(v) => v.flags,
            FrameView::RequestChannel(v) => v.flags,
            FrameView::RequestN(_) => 0,
            FrameView::Cancel(_) => 0,
            FrameView::Payload(v) => v.flags,
            FrameView::MetadataPush(_) => METADATA_BIT,
            FrameView::Resume(_) => 0,
            FrameView::ResumeOk(_) => 0,
        }
    }

    /// The bytes that follow the header of the frame.
    pub open spec fn body(self) -> Seq<u8> {
        match self {
            FrameView::Setup(v) => v.body(),
            FrameView::Error(v) => v.body(),
            FrameView::Lease(v) => v.body(),
            FrameView::Keepalive(v) => v.body(),
            FrameView::RequestResponse(v) => v.body(),
            FrameView::RequestFnf(v) => v.body(),
            FrameView::RequestStream(v) => v.body(),
            FrameView::RequestChannel(v) => v.body(),
            FrameView::RequestN(v) => v.body(),
            FrameView::Cancel(_) => Seq::empty(),
            FrameView::Payload(v) => v.body(),
            FrameView::MetadataPush(v) => v.body(),
            FrameView::Resume(v) => v.body(),
            FrameView::ResumeOk(v) => v.body(),
        }
    }

    /// Every frame is its header, made of its stream ID, its type and its
    /// flags, and then its body.
    pub proof fn lemma_wire_is_header_and_body(self)
        ensures
            self.wire() == header(self.stream_id(), self.frame_type(), self.header_flags())
                + self.body(),
            header(self.stream_id(), self.frame_type(), self.header_flags()).len() == 6,
    {
        assert(self.wire() =~= header(self.stream_id(), self.frame_type(), self.header_flags())
            + self.body());
    }

    /// The flags in the header of a frame that decoding gives are flags.
    pub proof fn lemma_header_flags(self)
        requires
            self.wf(),
        ensures
            only_flag_bits(self.header_flags()),
    {
        lemma_flag_constants();
    }

    /// In the bytes of every frame whose stream ID fits 31 bits, the highest
    /// bit of the stream ID word is 0, the six high bits of the word behind
    /// it hold the raw value of the frame's type, and its flag bits are the
    /// flags of the frame: so METADATA is set in the bytes if and only if it
    /// is among the flags.
    pub proof fn lemma_header(self)
        requires
            self.stream_id() <= MAX_U31,
            only_flag_bits(self.header_flags()),
        ensures
            self.wire().len() >= 6,
            self.wire()[0] < 0x80,
            be_u32(self.wire()) == self.stream_id(),
            be_u16(self.wire().skip(4)) / 0x400 == self.frame_type().spec_value(),
            be_u16(self.wire().skip(4)) & FLAG_BITS == self.header_flags(),
    {
        self.lemma_wire_is_header_and_body();
        let word = (self.frame_type().spec_bits() | self.header_flags());
        let tail = u16_be(word) + self.body();
        assert(self.wire() =~= u32_be(self.stream_id()) + tail);
        lemma_u32_be_high_bit(self.stream_id());
        assert(self.wire()[0] == u32_be(self.stream_id())[0]);
        super::wire::lemma_be_u32_of_u32_be(self.stream_id(), tail);
        lemma_be_u16_of_u16_be(word, self.body());
        lemma_header_word(self.frame_type(), self.header_flags());
    }

    /// Decoding the bytes of a frame reads its stream ID, its type and its
    /// flags from the header, and leaves its body.
    pub proof fn lemma_parse_header(self)
        requires
            self.stream_id() <= MAX_U31,
            only_flag_bits(self.header_flags()),
        ensures
            self.wire().len() >= 6,
            parse_u31(self.wire()).0 == Ok::<u32, DecodeError>(self.stream_id()),
            parse_flags(parse_u31(self.wire()).1) == (
                Ok::<(FrameType, u16), DecodeError>((self.frame_type(), self.header_flags())),
                self.body(),
            ),
    {
        self.lemma_wire_is_header_and_body();
        let word = (self.frame_type().spec_bits() | self.header_flags());
        let tail = u16_be(word) + self.body();
        assert(self.wire() =~= u32_be(self.stream_id()) + tail);
        lemma_parse_u31(self.stream_id(), tail);
        lemma_be_u16_of_u16_be(word, self.body());
        lemma_header_word(self.frame_type(), self.header_flags());
        self.frame_type().lemma_value_round_trip();
    }

    /// Decoding the body of a frame that decoding accepts, under the stream
    /// ID, type and flags of its header, gives that frame back and leaves
    /// nothing.
    pub proof fn lemma_parse_body(self)
        requires
            self.wf(),
        ensures
            Frame::parse_body(
                self.body(),
                self.stream_id(),
                self.frame_type(),
                self.header_flags(),
            ) == (Ok::<FrameView, DecodeError>(self), Seq::<u8>::empty()),
    {
        let flags = self.header_flags();
        match self {
            FrameView::Setup(v) => v.lemma_round_trip(0),
            FrameView::Error(v) => v.lemma_round_trip(flags),
            FrameView::Lease(v) => v.lemma_round_trip(flags),
            FrameView::Keepalive(v) => v.lemma_round_trip(),
            FrameView::RequestResponse(v) => v.lemma_round_trip(),
            FrameView::RequestFnf(v) => v.lemma_round_trip(),
            FrameView::RequestStream(v) => v.lemma_round_trip(),
            FrameView::RequestChannel(v) => v.lemma_round_trip(),
            FrameView::RequestN(v) => v.lemma_round_trip(flags),
            FrameView::Cancel(v) => v.lemma_round_trip(flags),
            FrameView::Payload(v) => v.lemma_round_trip(),
            FrameView::MetadataPush(v) => v.lemma_round_trip(0, flags),
            FrameView::Resume(v) => v.lemma_round_trip(0, flags),
            FrameView::ResumeOk(v) => v.lemma_round_trip(0, flags),
        }
    }

    /// The stream ID of a frame that decoding accepts fits 31 bits and suits
    /// the type of the frame.
    pub proof fn lemma_stream_id(self)
        requires
            self.wf(),
        ensures
            self.stream_id() <= MAX_U31,
            stream_id_for_type(self.frame_type(), self.stream_id()) is Ok,
    {
    }

    /// Round trip: decoding the bytes of a frame that decoding accepts gives
    /// that frame back, and leaves nothing.
    pub proof fn lemma_round_trip(self)
        requires
            self.wf(),
        ensures
            Frame::parse(self.wire()) == (Ok::<FrameView, DecodeError>(self), Seq::<u8>::empty()),
    {
        self.lemma_header_flags();
        self.lemma_stream_id();
        self.lemma_parse_header();
        self.lemma_parse_body();
        let s = self.wire();
        let s1 = parse_u31(s).1;
        assert(parse_u31(s) == (Ok::<u32, DecodeError>(self.stream_id()), s1));
    }
}

/// What decoding gives is a frame that decoding accepts: a frame that
/// comes out of `Frame::parse` is well formed.
pub proof fn lemma_decoded_is_wf(s: Seq<u8>)
    ensures
        Frame::parse(s).0 matches Ok(frame) ==> frame.wf(),
{
    if s.len() >= 6 {
        lemma_parsed_numbers_fit(s);
        let (stream_id, s1) = parse_u31(s);
        lemma_parsed_numbers_fit(s1);
        if let (Ok(header), s2) = parse_flags(s1) {
            if stream_id_for_type(header.0, stream_id->Ok_0) is Ok {
                lemma_body_is_wf(s2, stream_id->Ok_0, header.0, header.1);
            }
        }
    }
}

/// What decoding gives for the body of a frame is well formed, where the
/// stream ID and the flags of its header are.
pub proof fn lemma_body_is_wf(s: Seq<u8>, stream_id: u32, frame_type: FrameType, flags: u16)
    requires
        stream_id <= MAX_U31,
        only_flag_bits(flags),
        stream_id_for_type(frame_type, stream_id) is Ok,
    ensures
        Frame::parse_body(s, stream_id, frame_type, flags).0 matches Ok(frame) ==> frame.wf(),
{
    match frame_type {
        FrameType::SETUP => lemma_setup_is_wf(s, stream_id, flags),
        FrameType::ERROR => {},
        FrameType::LEASE => {
            lemma_parsed_numbers_fit(s);
            lemma_parsed_numbers_fit(s.skip(4));
        },
        FrameType::KEEPALIVE => {
            lemma_parsed_numbers_fit(s);
        },
        FrameType::REQUEST_RESPONSE => {
            lemma_parsed_payload_is_canonical(s);
        },
        FrameType::REQUEST_FNF => {
            lemma_parsed_payload_is_canonical(s);
        },
        FrameType::REQUEST_STREAM => {
            lemma_parsed_numbers_fit(s);
            lemma_parsed_payload_is_canonical(s.skip(4));
        },
        FrameType::REQUEST_CHANNEL => {
            lemma_parsed_numbers_fit(s);
            lemma_parsed_payload_is_canonical(s.skip(4));
        },
        FrameType::REQUEST_N => {
            lemma_parsed_numbers_fit(s);
        },
        FrameType::CANCEL => {},
        FrameType::PAYLOAD => {
            lemma_parsed_payload_is_canonical(s);
        },
        FrameType::METADATA_PUSH => {},
        FrameType::RESUME => lemma_resume_is_wf(s, stream_id, flags),
        FrameType::RESUME_OK => {
            lemma_parsed_numbers_fit(s);
        },
        FrameType::EXT => {},
    }
}

/// A SETUP frame that decoding gives is well formed.
proof fn lemma_setup_is_wf(s: Seq<u8>, stream_id: u32, flags: u16)
    requires
        only_flag_bits(flags),
    ensures
        SetupFrame::parse(s, stream_id, flags).0 matches Ok(frame) ==> frame.wf(),
{
    let (version, s1) = parse_version(s);
    lemma_parsed_numbers_fit(s1);
    let (interval, s2) = parse_u31(s1);
    lemma_parsed_numbers_fit(s2);
    let (timeout, s3) = parse_u31(s2);
    let (token, s4) = parse_resume_token(s3, flags);
    let (metadata_mimetype, s5) = parse_mimetype(s4);
    let (data_mimetype, s6) = parse_mimetype(s5);
    lemma_parsed_payload_is_canonical(s6);
}

/// A RESUME frame that decoding gives is well formed.
proof fn lemma_resume_is_wf(s: Seq<u8>, stream_id: u32, flags: u16)
    ensures
        ResumeFrame::parse(s, stream_id, flags).0 matches Ok(frame) ==> frame.wf(),
{
    let (version, s1) = parse_version(s);
    let (len, s2) = parse_u16(s1);
    if len is Ok {
        let (token, s3) = parse_bytes(s2, len->Ok_0 as nat);
        lemma_parsed_numbers_fit(s3);
        let (p1, s4) = parse_u63(s3);
        lemma_parsed_numbers_fit(s4);
    }
}

/// What decoding gives, encoding and decoding gives again: a frame that
/// comes out of `Frame::parse` is found again from its own bytes.
pub proof fn lemma_decoded_round_trips(s: Seq<u8>)
    ensures
        Frame::parse(s).0 matches Ok(frame) ==> Frame::parse(frame.wire()) == (
            Ok::<FrameView, DecodeError>(frame),
            Seq::<u8>::empty(),
        ),
{
    lemma_decoded_is_wf(s);
    if let Ok(frame) = Frame::parse(s).0 {
        frame.lemma_round_trip();
    }
}

/// Whether a frame of this type belongs to the connection, and so to stream 0.
pub open spec fn is_connection_type(frame_type: FrameType) -> bool {
    ||| frame_type == FrameType::SETUP
    ||| frame_type == FrameType::LEASE
    ||| frame_type == FrameType::KEEPALIVE
    ||| frame_type == FrameType::METADATA_PUSH
    ||| frame_type == FrameType::RESUME
    ||| frame_type == FrameType::RESUME_OK
}

/// Decoding a frame of the connection that names a stream other than 0
/// fails with `InvalidStreamId`.
pub proof fn lemma_connection_frame_off_stream_zero(s: Seq<u8>, frame_type: FrameType, flags: u16)
    requires
        s.len() >= 6,
        be_u32(s) & MAX_U31 != 0,
        parse_flags(s.skip(4)).0 == Ok::<(FrameType, u16), DecodeError>((frame_type, flags)),
        is_connection_type(frame_type),
    ensures
        Frame::parse(s).0 == Err::<FrameView, DecodeError>(
            DecodeError::InvalidStreamId { expected: "0", found: be_u32(s) & MAX_U31 },
        ),
{
}

/// Decoding an ERROR frame whose code is one of the connection and whose
/// stream ID is not 0, or whose code is one of a stream and whose stream ID
/// is 0, fails with `InvalidStreamId`.
pub proof fn lemma_error_frame_on_wrong_stream(s: Seq<u8>, flags: u16)
    requires
        s.len() >= 10,
        parse_flags(s.skip(4)).0 == Ok::<(FrameType, u16), DecodeError>((FrameType::ERROR, flags)),
    ensures
        is_connection_code(be_u32(s.skip(6))) && be_u32(s) & MAX_U31 != 0 ==> Frame::parse(s).0
            == Err::<FrameView, DecodeError>(
            DecodeError::InvalidStreamId { expected: "0", found: be_u32(s) & MAX_U31 },
        ),
        is_stream_code(be_u32(s.skip(6))) && be_u32(s) & MAX_U31 == 0 ==> Frame::parse(s).0
            == Err::<FrameView, DecodeError>(
            DecodeError::InvalidStreamId { expected: "> 0", found: 0 },
        ),
{
    assert(s.skip(4).skip(2) =~= s.skip(6));
}

} // verus!
