//! The frames of the protocol and their encoding into, and decoding from, bytes.
pub mod buf;
pub mod codec;
pub mod decode;
pub mod encode;
pub mod flags;
pub mod laws;
pub mod u24;
pub mod version;
pub mod visit;
pub mod wire;

pub use self::decode::{Decode, DecodeError};
pub use self::encode::Encode;
pub use self::flags::{Flags, FrameType};
pub use self::u24::U24;
pub use self::version::Version;
pub use self::visit::{MAX_U31, MAX_U63};
pub use crate::payload::{Data, Metadata, Payload, PayloadBuilder, PayloadChunks};

use bytes::{Bytes, BytesMut};
use self::buf::{bytes_len, contents};
use self::codec::{
    CancelFrame, ErrorFrame, KeepaliveFrame, LeaseFrame, MetadataPushFrame, PayloadFrame,
    RequestChannelFrame, RequestFnfFrame, RequestNFrame, RequestResponseFrame, RequestStreamFrame,
    ResumeFrame, ResumeOkFrame, SetupFrame,
};
use self::codec::cancel::CancelFrameView;
use self::codec::error::ErrorFrameView;
use self::codec::keepalive::KeepaliveFrameView;
use self::codec::lease::LeaseFrameView;
use self::codec::metadata_push::MetadataPushFrameView;
use self::codec::payload::PayloadFrameView;
use self::codec::request_channel::RequestChannelFrameView;
use self::codec::request_fnf::RequestFnfFrameView;
use self::codec::request_n::RequestNFrameView;
use self::codec::request_response::RequestResponseFrameView;
use self::codec::request_stream::RequestStreamFrameView;
use self::codec::resume::ResumeFrameView;
use self::codec::resume_ok::ResumeOkFrameView;
use self::codec::setup::SetupFrameView;
use self::visit::{eat_flags, eat_stream_id, parse_flags, parse_u31};
use vstd::prelude::*;

verus! {

broadcast use crate::frame::wire::group_be_len;

/// A frame in the RSocket protocol.
///
/// A frame is a single message in the RSocket protocol, which can be a request, response or
/// protocol processing.
#[derive(Debug, Clone, PartialEq, Eq)]
pub enum Frame {
    /// The SETUP frame.
    Setup(SetupFrame),
    /// The ERROR frame.
    Error(ErrorFrame),
    /// The LEASE frame.
    Lease(LeaseFrame),
    /// The KEEPALIVE frame.
    Keepalive(KeepaliveFrame),
    /// The REQUEST_RESPONSE frame.
    RequestResponse(RequestResponseFrame),
    /// The REQUEST_FNF frame.
    RequestFnf(RequestFnfFrame),
    /// The REQUEST_STREAM frame.
    RequestStream(RequestStreamFrame),
    /// The REQUEST_CHANNEL frame.
    RequestChannel(RequestChannelFrame),
    /// The REQUEST_N frame.
    RequestN(RequestNFrame),
    /// The CANCEL frame.
    Cancel(CancelFrame),
    /// The PAYLOAD frame.
    Payload(PayloadFrame),
    /// The METADATA_PUSH frame.
    MetadataPush(MetadataPushFrame),
    /// The RESUME frame.
    Resume(ResumeFrame),
    /// The RESUME_OK frame.
    ResumeOk(ResumeOkFrame),
}

/// What a `Frame` holds.
pub ghost enum FrameView {
    /// The SETUP frame.
    Setup(SetupFrameView),
    /// The ERROR frame.
    Error(ErrorFrameView),
    /// The LEASE frame.
    Lease(LeaseFrameView),
    /// The KEEPALIVE frame.
    Keepalive(KeepaliveFrameView),
    /// The REQUEST_RESPONSE frame.
    RequestResponse(RequestResponseFrameView),
    /// The REQUEST_FNF frame.
    RequestFnf(RequestFnfFrameView),
    /// The REQUEST_STREAM frame.
    RequestStream(RequestStreamFrameView),
    /// The REQUEST_CHANNEL frame.
    RequestChannel(RequestChannelFrameView),
    /// The REQUEST_N frame.
    RequestN(RequestNFrameView),
    /// The CANCEL frame.
    Cancel(CancelFrameView),
    /// The PAYLOAD frame.
    Payload(PayloadFrameView),
    /// The METADATA_PUSH frame.
    MetadataPush(MetadataPushFrameView),
    /// The RESUME frame.
    Resume(ResumeFrameView),
    /// The RESUME_OK frame.
    ResumeOk(ResumeOkFrameView),
}

/// Whether a frame of type `frame_type` may stand on stream `stream_id`,
/// and the error that says so where it may not. The frames of the connection
/// stand on stream 0, those of a stream on a stream above 0; an ERROR frame
/// goes by its code, which is looked at later.
pub open spec fn stream_id_for_type(frame_type: FrameType, stream_id: u32) -> Result<
    (),
    DecodeError,
> {
    match frame_type {
        FrameType::SETUP
        | FrameType::LEASE
        | FrameType::KEEPALIVE
        | FrameType::METADATA_PUSH
        | FrameType::RESUME
        | FrameType::RESUME_OK => if stream_id != 0 {
            Err(DecodeError::InvalidStreamId { expected: "0", found: stream_id })
        } else {
            Ok(())
        },
        FrameType::REQUEST_RESPONSE
        | FrameType::REQUEST_FNF
        | FrameType::REQUEST_STREAM
        | FrameType::REQUEST_CHANNEL
        | FrameType::REQUEST_N
        | FrameType::CANCEL
        | FrameType::PAYLOAD => if stream_id == 0 {
            Err(DecodeError::InvalidStreamId { expected: "> 0", found: stream_id })
        } else {
            Ok(())
        },
        FrameType::ERROR | FrameType::EXT => Ok(()),
    }
}

impl FrameView {
    /// The type of the frame.
    pub open spec fn frame_type(self) -> FrameType {
        match self {
            FrameView::Setup(_) => FrameType::SETUP,
            FrameView::Error(_) => FrameType::ERROR,
            FrameView::Lease(_) => FrameType::LEASE,
            FrameView::Keepalive(_) => FrameType::KEEPALIVE,
            FrameView::RequestResponse(_) => FrameType::REQUEST_RESPONSE,
            FrameView::RequestFnf(_) => FrameType::REQUEST_FNF,
            FrameView::RequestStream(_) => FrameType::REQUEST_STREAM,
            FrameView::RequestChannel(_) => FrameType::REQUEST_CHANNEL,
            FrameView::RequestN(_) => FrameType::REQUEST_N,
            FrameView::Cancel(_) => FrameType::CANCEL,
            FrameView::Payload(_) => FrameType::PAYLOAD,
            FrameView::MetadataPush(_) => FrameType::METADATA_PUSH,
            FrameView::Resume(_) => FrameType::RESUME,
            FrameView::ResumeOk(_) => FrameType::RESUME_OK,
        }
    }

    /// The ID of the stream that the frame belongs to; 0 for a frame of the
    /// connection.
    pub open spec fn stream_id(self) -> u32 {
        match self {
            FrameView::Setup(_) => 0,
            FrameView::Error(v) => v.stream_id,
            FrameView::Lease(_) => 0,
            FrameView::Keepalive(_) => 0,
            FrameView::RequestResponse(v) => v.stream_id,
            FrameView::RequestFnf(v) => v.stream_id,
            FrameView::RequestStream(v) => v.stream_id,
            FrameView::RequestChannel(v) => v.stream_id,
            FrameView::RequestN(v) => v.stream_id,
            FrameView::Cancel(v) => v.stream_id,
            FrameView::Payload(v) => v.stream_id,
            FrameView::MetadataPush(_) => 0,
            FrameView::Resume(_) => 0,
            FrameView::ResumeOk(_) => 0,
        }
    }

    /// The bytes of the frame.
    pub open spec fn wire(self) -> Seq<u8> {
        match self {
            FrameView::Setup(v) => v.wire(),
            FrameView::Error(v) => v.wire(),
            FrameView::Lease(v) => v.wire(),
            FrameView::Keepalive(v) => v.wire(),
            FrameView::RequestResponse(v) => v.wire(),
            FrameView::RequestFnf(v) => v.wire(),
            FrameView::RequestStream(v) => v.wire(),
            FrameView::RequestChannel(v) => v.wire(),
            FrameView::RequestN(v) => v.wire(),
            FrameView::Cancel(v) => v.wire(),
            FrameView::Payload(v) => v.wire(),
            FrameView::MetadataPush(v) => v.wire(),
            FrameView::Resume(v) => v.wire(),
            FrameView::ResumeOk(v) => v.wire(),
        }
    }

    /// Whether the frame is one that decoding gives.
    pub open spec fn wf(self) -> bool {
        match self {
            FrameView::Setup(v) => v.wf(),
            FrameView::Error(v) => v.wf(),
            FrameView::Lease(v) => v.wf(),
            FrameView::Keepalive(v) => v.wf(),
            FrameView::RequestResponse(v) => v.wf(),
            FrameView::RequestFnf(v) => v.wf(),
            FrameView::RequestStream(v) => v.wf(),
            FrameView::RequestChannel(v) => v.wf(),
            FrameView::RequestN(v) => v.wf(),
            FrameView::Cancel(v) => v.wf(),
            FrameView::Payload(v) => v.wf(),
            FrameView::MetadataPush(v) => v.wf(),
            FrameView::Resume(v) => v.wf(),
            FrameView::ResumeOk(v) => v.wf(),
        }
    }

    /// Whether the lengths inside the frame fit the fields that the wire
    /// format has for them.
    pub open spec fn encodable(self) -> bool {
        match self {
            FrameView::Setup(v) => v.payload.encodable(),
            FrameView::RequestResponse(v) => v.payload.encodable(),
            FrameView::RequestFnf(v) => v.payload.encodable(),
            FrameView::RequestStream(v) => v.payload.encodable(),
            FrameView::RequestChannel(v) => v.payload.encodable(),
            FrameView::Payload(v) => v.payload.encodable(),
            _ => true,
        }
    }
}

impl View for Frame {
    type V = FrameView;

    open spec fn view(&self) -> FrameView {
        match self {
            Frame::Setup(v) => FrameView::Setup(v@),
            Frame::Error(v) => FrameView::Error(v@),
            Frame::Lease(v) => FrameView::Lease(v@),
            Frame::Keepalive(v) => FrameView::Keepalive(v@),
            Frame::RequestResponse(v) => FrameView::RequestResponse(v@),
            Frame::RequestFnf(v) => FrameView::RequestFnf(v@),
            Frame::RequestStream(v) => FrameView::RequestStream(v@),
            Frame::RequestChannel(v) => FrameView::RequestChannel(v@),
            Frame::RequestN(v) => FrameView::RequestN(v@),
            Frame::Cancel(v) => FrameView::Cancel(v@),
            Frame::Payload(v) => FrameView::Payload(v@),
            Frame::MetadataPush(v) => FrameView::MetadataPush(v@),
            Frame::Resume(v) => FrameView::Resume(v@),
            Frame::ResumeOk(v) => FrameView::ResumeOk(v@),
        }
    }
}

impl Encode for Frame {
    open spec fn wire(&self) -> Seq<u8> {
        self@.wire()
    }

    open spec fn encodable(&self) -> bool {
        self@.encodable()
    }

    fn encode(&self, buf: &mut BytesMut) {
        match self {
            Frame::Setup(v) => v.encode(buf),
            Frame::Error(v) => v.encode(buf),
            Frame::Lease(v) => v.encode(buf),
            Frame::Keepalive(v) => v.encode(buf),
            Frame::RequestResponse(v) => v.encode(buf),
            Frame::RequestFnf(v) => v.encode(buf),
            Frame::RequestStream(v) => v.encode(buf),
            Frame::RequestChannel(v) => v.encode(buf),
            Frame::RequestN(v) => v.encode(buf),
            Frame::Cancel(v) => v.encode(buf),
            Frame::Payload(v) => v.encode(buf),
            Frame::MetadataPush(v) => v.encode(buf),
            Frame::Resume(v) => v.encode(buf),
            Frame::ResumeOk(v) => v.encode(buf),
        }
    }

    fn encoded_len(&self) -> Option<usize> {
        match self {
            Frame::Setup(v) => v.encoded_len(),
            Frame::Error(v) => v.encoded_len(),
            Frame::Lease(v) => v.encoded_len(),
            Frame::Keepalive(v) => v.encoded_len(),
            Frame::RequestResponse(v) => v.encoded_len(),
            Frame::RequestFnf(v) => v.encoded_len(),
            Frame::RequestStream(v) => v.encoded_len(),
            Frame::RequestChannel(v) => v.encoded_len(),
            Frame::RequestN(v) => v.encoded_len(),
            Frame::Cancel(v) => v.encoded_len(),
            Frame::Payload(v) => v.encoded_len(),
            Frame::MetadataPush(v) => v.encoded_len(),
            Frame::Resume(v) => v.encoded_len(),
            Frame::ResumeOk(v) => v.encoded_len(),
        }
    }

    fn len(&self) -> usize {
        match self {
            Frame::Setup(v) => v.len(),
            Frame::Error(v) => v.len(),
            Frame::Lease(v) => v.len(),
            Frame::Keepalive(v) => v.len(),
            Frame::RequestResponse(v) => v.len(),
            Frame::RequestFnf(v) => v.len(),
            Frame::RequestStream(v) => v.len(),
            Frame::RequestChannel(v) => v.len(),
            Frame::RequestN(v) => v.len(),
            Frame::Cancel(v) => v.len(),
            Frame::Payload(v) => v.len(),
            Frame::MetadataPush(v) => v.len(),
            Frame::Resume(v) => v.len(),
            Frame::ResumeOk(v) => v.len(),
        }
    }
}

impl Frame {
    /// What decoding gives for the bytes `s`, and the bytes it leaves: the
    /// frame that the bytes open with, or the error.
    ///
    /// Fewer than six bytes are incomplete. The first four bytes hold the
    /// stream ID, without their highest bit; the next two hold the frame
    /// type and the flags. The stream ID has to suit the frame type. What
    /// follows is decoded as the frame type says; the EXT type is recognized
    /// but has no frame, so it is refused as unrecognized.
    pub open spec fn parse(s: Seq<u8>) -> (Result<FrameView, DecodeError>, Seq<u8>) {
        if s.len() < 6 {
            (Err(DecodeError::InComplete), s)
        } else {
            match parse_u31(s) {
                (Err(e), rest) => (Err(e), rest),
                (Ok(stream_id), s1) => match parse_flags(s1) {
                    (Err(e), rest) => (Err(e), rest),
                    (Ok((frame_type, flags)), s2) => match stream_id_for_type(
                        frame_type,
                        stream_id,
                    ) {
                        Err(e) => (Err(e), s2),
                        Ok(_) => Frame::parse_body(s2, stream_id, frame_type, flags),
                    },
                },
            }
        }
    }

    /// What decoding gives for the bytes `s` that follow a header with the
    /// given stream ID, frame type and flags.
    pub open spec fn parse_body(s: Seq<u8>, stream_id: u32, frame_type: FrameType, flags: u16) -> (
        Result<FrameView, DecodeError>,
        Seq<u8>,
    ) {
        match frame_type {
            FrameType::SETUP => match SetupFrame::parse(s, stream_id, flags) {
                (Err(e), rest) => (Err(e), rest),
                (Ok(v), rest) => (Ok(FrameView::Setup(v)), rest),
            },
            FrameType::ERROR => match ErrorFrame::parse(s, stream_id, flags) {
                (Err(e), rest) => (Err(e), rest),
                (Ok(v), rest) => (Ok(FrameView::Error(v)), rest),
            },
            FrameType::LEASE => match LeaseFrame::parse(s, stream_id, flags) {
                (Err(e), rest) => (Err(e), rest),
                (Ok(v), rest) => (Ok(FrameView::Lease(v)), rest),
            },
            FrameType::KEEPALIVE => match KeepaliveFrame::parse(s, stream_id, flags) {
                (Err(e), rest) => (Err(e), rest),
                (Ok(v), rest) => (Ok(FrameView::Keepalive(v)), rest),
            },
            FrameType::REQUEST_RESPONSE => match RequestResponseFrame::parse(s, stream_id, flags) {
                (Err(e), rest) => (Err(e), rest),
                (Ok(v), rest) => (Ok(FrameView::RequestResponse(v)), rest),
            },
            FrameType::REQUEST_FNF => match RequestFnfFrame::parse(s, stream_id, flags) {
                (Err(e), rest) => (Err(e), rest),
                (Ok(v), rest) => (Ok(FrameView::RequestFnf(v)), rest),
            },
            FrameType::REQUEST_STREAM => match RequestStreamFrame::parse(s, stream_id, flags) {
                (Err(e), rest) => (Err(e), rest),
                (Ok(v), rest) => (Ok(FrameView::RequestStream(v)), rest),
            },
            FrameType::REQUEST_CHANNEL => match RequestChannelFrame::parse(s, stream_id, flags) {
                (Err(e), rest) => (Err(e), rest),
                (Ok(v), rest) => (Ok(FrameView::RequestChannel(v)), rest),
            },
            FrameType::REQUEST_N => match RequestNFrame::parse(s, stream_id, flags) {
                (Err(e), rest) => (Err(e), rest),
                (Ok(v), rest) => (Ok(FrameView::RequestN(v)), rest),
            },
            FrameType::CANCEL => match CancelFrame::parse(s, stream_id, flags) {
                (Err(e), rest) => (Err(e), rest),
                (Ok(v), rest) => (Ok(FrameView::Cancel(v)), rest),
            },
            FrameType::PAYLOAD => match PayloadFrame::parse(s, stream_id, flags) {
                (Err(e), rest) => (Err(e), rest),
                (Ok(v), rest) => (Ok(FrameView::Payload(v)), rest),
            },
            FrameType::METADATA_PUSH => match MetadataPushFrame::parse(s, stream_id, flags) {
                (Err(e), rest) => (Err(e), rest),
                (Ok(v), rest) => (Ok(FrameView::MetadataPush(v)), rest),
            },
            FrameType::RESUME => match ResumeFrame::parse(s, stream_id, flags) {
                (Err(e), rest) => (Err(e), rest),
                (Ok(v), rest) => (Ok(FrameView::Resume(v)), rest),
            },
            FrameType::RESUME_OK => match ResumeOkFrame::parse(s, stream_id, flags) {
                (Err(e), rest) => (Err(e), rest),
                (Ok(v), rest) => (Ok(FrameView::ResumeOk(v)), rest),
            },
            FrameType::EXT => (Err(DecodeError::UnrecognizedFrameType(0x3F)), s),
        }
    }

    /// Returns the type of the frame.
    pub fn frame_type(&self) -> (r: FrameType)
        ensures
            r == self@.frame_type(),
    {
        match self {
            Frame::Setup(_) => FrameType::SETUP,
            Frame::Error(_) => FrameType::ERROR,
            Frame::Lease(_) => FrameType::LEASE,
            Frame::Keepalive(_) => FrameType::KEEPALIVE,
            Frame::RequestResponse(_) => FrameType::REQUEST_RESPONSE,
            Frame::RequestFnf(_) => FrameType::REQUEST_FNF,
            Frame::RequestStream(_) => FrameType::REQUEST_STREAM,
            Frame::RequestChannel(_) => FrameType::REQUEST_CHANNEL,
            Frame::RequestN(_) => FrameType::REQUEST_N,
            Frame::Cancel(_) => FrameType::CANCEL,
            Frame::Payload(_) => FrameType::PAYLOAD,
            Frame::MetadataPush(_) => FrameType::METADATA_PUSH,
            Frame::Resume(_) => FrameType::RESUME,
            Frame::ResumeOk(_) => FrameType::RESUME_OK,
        }
    }

    /// Returns the ID of the stream that the frame belongs to; 0 for a
    /// frame of the connection.
    pub fn stream_id(&self) -> (r: u32)
        ensures
            r == self@.stream_id(),
    {
        match self {
            Frame::Error(v) => v.stream_id(),
            Frame::RequestResponse(v) => v.stream_id(),
            Frame::RequestFnf(v) => v.stream_id(),
            Frame::RequestStream(v) => v.stream_id(),
            Frame::RequestChannel(v) => v.stream_id(),
            Frame::RequestN(v) => v.stream_id(),
            Frame::Cancel(v) => v.stream_id(),
            Frame::Payload(v) => v.stream_id(),
            _ => 0,
        }
    }

    /// Decode the given bytes into a frame: see `Frame::parse`.
    pub fn decode(buf: &mut Bytes) -> (r: Result<Frame, DecodeError>)
        ensures
            match r {
                Ok(frame) => Frame::parse(contents(*old(buf))) == (
                    Ok::<FrameView, DecodeError>(frame@),
                    contents(*final(buf)),
                ),
                Err(e) => Frame::parse(contents(*old(buf))) == (
                    Err::<FrameView, DecodeError>(e),
                    contents(*final(buf)),
                ),
            },
    {
        if bytes_len(buf) < 6 {
            return Err(DecodeError::InComplete);
        }
        let stream_id = match eat_stream_id(buf) {
            Ok(stream_id) => stream_id,
            Err(e) => return Err(e),
        };
        let (frame_type, flags) = match eat_flags(buf) {
            Ok(header) => header,
            Err(e) => return Err(e),
        };
        match check_stream_id(frame_type, stream_id) {
            Ok(_) => {},
            Err(e) => return Err(e),
        }

        match frame_type {
            FrameType::SETUP => match SetupFrame::decode(buf, stream_id, flags) {
                Ok(v) => Ok(Frame::Setup(v)),
                Err(e) => Err(e),
            },
            FrameType::ERROR => match ErrorFrame::decode(buf, stream_id, flags) {
                Ok(v) => Ok(Frame::Error(v)),
                Err(e) => Err(e),
            },
            FrameType::LEASE => match LeaseFrame::decode(buf, stream_id, flags) {
                Ok(v) => Ok(Frame::Lease(v)),
                Err(e) => Err(e),
            },
            FrameType::KEEPALIVE => match KeepaliveFrame::decode(buf, stream_id, flags) {
                Ok(v) => Ok(Frame::Keepalive(v)),
                Err(e) => Err(e),
            },
            FrameType::REQUEST_RESPONSE => match RequestResponseFrame::decode(buf, stream_id, flags) {
                Ok(v) => Ok(Frame::RequestResponse(v)),
                Err(e) => Err(e),
            },
            FrameType::REQUEST_FNF => match RequestFnfFrame::decode(buf, stream_id, flags) {
                Ok(v) => Ok(Frame::RequestFnf(v)),
                Err(e) => Err(e),
            },
            FrameType::REQUEST_STREAM => match RequestStreamFrame::decode(buf, stream_id, flags) {
                Ok(v) => Ok(Frame::RequestStream(v)),
                Err(e) => Err(e),
            },
            FrameType::REQUEST_CHANNEL => match RequestChannelFrame::decode(buf, stream_id, flags) {
                Ok(v) => Ok(Frame::RequestChannel(v)),
                Err(e) => Err(e),
            },
            FrameType::REQUEST_N => match RequestNFrame::decode(buf, stream_id, flags) {
                Ok(v) => Ok(Frame::RequestN(v)),
                Err(e) => Err(e),
            },
            FrameType::CANCEL => match CancelFrame::decode(buf, stream_id, flags) {
                Ok(v) => Ok(Frame::Cancel(v)),
                Err(e) => Err(e),
            },
            FrameType::PAYLOAD => match PayloadFrame::decode(buf, stream_id, flags) {
                Ok(v) => Ok(Frame::Payload(v)),
                Err(e) => Err(e),
            },
            FrameType::METADATA_PUSH => match MetadataPushFrame::decode(buf, stream_id, flags) {
                Ok(v) => Ok(Frame::MetadataPush(v)),
                Err(e) => Err(e),
            },
            FrameType::RESUME => match ResumeFrame::decode(buf, stream_id, flags) {
                Ok(v) => Ok(Frame::Resume(v)),
                Err(e) => Err(e),
            },
            FrameType::RESUME_OK => match ResumeOkFrame::decode(buf, stream_id, flags) {
                Ok(v) => Ok(Frame::ResumeOk(v)),
                Err(e) => Err(e),
            },
            FrameType::EXT => Err(DecodeError::UnrecognizedFrameType(0x3F)),
        }
    }
}

/// Checks that a frame of type `frame_type` may stand on stream `stream_id`.
pub fn check_stream_id(frame_type: FrameType, stream_id: u32) -> (r: Result<(), DecodeError>)
    ensures
        r == stream_id_for_type(frame_type, stream_id),
{
    match frame_type {
        FrameType::SETUP
        | FrameType::LEASE
        | FrameType::KEEPALIVE
        | FrameType::METADATA_PUSH
        | FrameType::RESUME
        | FrameType::RESUME_OK => {
            if stream_id != 0 {
                return Err(DecodeError::InvalidStreamId { expected: "0", found: stream_id });
            }
        },
        FrameType::REQUEST_RESPONSE
        | FrameType::REQUEST_FNF
        | FrameType::REQUEST_STREAM
        | FrameType::REQUEST_CHANNEL
        | FrameType::REQUEST_N
        | FrameType::CANCEL
        | FrameType::PAYLOAD => {
            if stream_id == 0 {
                return Err(DecodeError::InvalidStreamId { expected: "> 0", found: stream_id });
            }
        },
        _ => (),
    }
    Ok(())
}

} // verus!
