//! The ERROR frame.
use bytes::{Bytes, BytesMut};
use crate::frame::buf::{
    bytes_len, bytes_utf8, contents, opt_bytes, opt_contents, put_slice, put_u32, written,
};
use crate::frame::decode::{Decode, DecodeError};
use crate::frame::encode::{add_within, header, opt_bytes_len, put_header, Encode};
use crate::frame::flags::{Flags, FrameType};
use crate::frame::visit::{
    eat_rest, eat_u32, lemma_parse_u32, mask_u31, parse_rest, parse_u32, MAX_U31,
};
use crate::frame::wire::u32_be;
use vstd::prelude::*;
use vstd::string::StringSliceAdditionalSpecFns;

verus! {

broadcast use crate::frame::wire::group_be_len;

/// The error frame.
///
/// Error frames are used for errors on individual requests/streams as well as connection errors
/// and in response to SETUP frames.
///
/// # Frame Contents
///
/// ```text
/// 0                   1                   2                   3
/// 0 1 2 3 4 5 6 7 8 9 0 1 2 3 4 5 6 7 8 9 0 1 2 3 4 5 6 7 8 9 0 1
/// +-+-+-+-+-+-+-+-+-+-+-+-+-+-+-+-+-+-+-+-+-+-+-+-+-+-+-+-+-+-+-+-+
/// |                           Stream ID                           |
/// +-----------+-+-+---------------+-------------------------------+
/// |Frame Type |0|0|      Flags    |
/// +-----------+-+-+---------------+-------------------------------+
/// |                          Error Code                           |
/// +---------------------------------------------------------------+
///                            Error Data
/// ```
///
/// A Stream ID of 0 means the error pertains to the connection, including connection
/// establishment. A Stream ID > 0 means the error pertains to a given stream.
///
/// The Error Data is typically an Exception message, but could include stringified stacktrace
/// information if appropriate.
#[derive(Clone, Debug, PartialEq, Eq)]
pub struct ErrorFrame {
    stream_id: u32,
    code: u32,
    data: Option<Bytes>,
}

/// What an `ErrorFrame` holds.
pub ghost struct ErrorFrameView {
    pub stream_id: u32,
    pub code: u32,
    pub data: Option<Seq<u8>>,
}

/// Whether `code` is an error code of the connection, which goes with stream ID 0.
pub open spec fn is_connection_code(code: u32) -> bool {
    ||| code == ErrorFrame::INVALID_SETUP
    ||| code == ErrorFrame::UNSUPPORTED_SETUP
    ||| code == ErrorFrame::REJECTED_SETUP
    ||| code == ErrorFrame::REJECTED_RESUME
    ||| code == ErrorFrame::CONNECTION_ERROR
    ||| code == ErrorFrame::CONNECTION_CLOSE
}

/// Whether `code` is an error code of a stream, which goes with a stream ID above 0.
pub open spec fn is_stream_code(code: u32) -> bool {
    ||| code == ErrorFrame::APPLICATION_ERROR
    ||| code == ErrorFrame::REJECTED
    ||| code == ErrorFrame::CANCELED
    ||| code == ErrorFrame::INVALID
}

/// Whether an error frame with this code may stand on this stream, and the
/// error that says so where it may not.
pub open spec fn stream_id_for_code(stream_id: u32, code: u32) -> Result<(), DecodeError> {
    if is_connection_code(code) && stream_id != 0 {
        Err(DecodeError::InvalidStreamId { expected: "0", found: stream_id })
    } else if is_stream_code(code) && stream_id == 0 {
        Err(DecodeError::InvalidStreamId { expected: "> 0", found: stream_id })
    } else {
        Ok(())
    }
}

impl ErrorFrameView {
    /// The bytes that follow the header.
    pub open spec fn body(self) -> Seq<u8> {
        u32_be(self.code) + opt_bytes(self.data)
    }

    /// The bytes of the frame.
    pub open spec fn wire(self) -> Seq<u8> {
        header(self.stream_id, FrameType::ERROR, 0) + self.body()
    }

    /// Whether the frame is one that decoding gives: its stream ID fits 31
    /// bits and suits its code, and data that is present is not empty.
    pub open spec fn wf(self) -> bool {
        &&& self.stream_id <= MAX_U31
        &&& stream_id_for_code(self.stream_id, self.code) is Ok
        &&& self.data matches Some(d) ==> d.len() > 0
    }

    /// Decoding what follows the header of an encoded frame gives the frame
    /// back and leaves nothing.
    pub proof fn lemma_round_trip(self, flags: u16)
        requires
            self.wf(),
        ensures
            ErrorFrame::parse(self.body(), self.stream_id, flags) == (
                Ok::<ErrorFrameView, DecodeError>(self),
                Seq::<u8>::empty(),
            ),
    {
        lemma_parse_u32(self.code, opt_bytes(self.data));
    }
}

impl View for ErrorFrame {
    type V = ErrorFrameView;

    closed spec fn view(&self) -> ErrorFrameView {
        ErrorFrameView {
            stream_id: self.stream_id,
            code: self.code,
            data: opt_contents(self.data),
        }
    }
}

impl ErrorFrame {
    /// The Setup frame is invalid for the server (it could be that the client is too recent for
    /// the old server).
    ///
    /// Stream ID MUST be 0.
    pub const INVALID_SETUP: u32 = 0x00000001;

    /// Some (or all) of the parameters specified by the client are unsupported by the server.
    ///
    /// Stream ID MUST be 0.
    pub const UNSUPPORTED_SETUP: u32 = 0x00000002;

    /// The server rejected the setup, it can specify the reason in the payload.
    ///
    /// Stream ID MUST be 0.
    pub const REJECTED_SETUP: u32 = 0x00000003;

    /// The server rejected the resume, it can specify the reason in the payload.
    ///
    /// Stream ID MUST be 0.
    pub const REJECTED_RESUME: u32 = 0x00000004;

    /// The connection is being terminated.
    ///
    /// Sender or Receiver of this frame MAY close the connection immediately without waiting
    /// for outstanding streams to terminate. Stream ID MUST be 0.
    pub const CONNECTION_ERROR: u32 = 0x00000101;

    /// The connection is being terminated.
    ///
    /// Sender or Receiver of this frame MUST wait for outstanding streams to terminate before
    /// closing the connection. New requests MAY not be accepted. Stream ID MUST be 0.
    pub const CONNECTION_CLOSE: u32 = 0x00000102;

    /// Application layer logic generating a Reactive Streams onError event.
    ///
    /// Stream ID MUST be > 0.
    pub const APPLICATION_ERROR: u32 = 0x00000201;

    /// Despite being a valid request, the Responder decided to reject it.
    ///
    /// The Responder guarantees that it didn't process the request. The reason for the rejection
    /// is explained in the Error Data section. Stream ID MUST be > 0.
    pub const REJECTED: u32 = 0x00000202;

    /// The Responder canceled the request but may have started processing it
    /// (similar to REJECTED but doesn't guarantee lack of side-effects).
    ///
    /// Stream ID MUST be > 0.
    pub const CANCELED: u32 = 0x00000203;

    /// The request is invalid. Stream ID MUST be > 0.
    pub const INVALID: u32 = 0x00000204;

    /// The minimum error code that can used as application layer error.
    pub const MIN_APPLICATION_ERROR_CODE: u32 = 0x00000301;

    /// The maximum error code that can used as application layer error.
    pub const MAX_APPLICATION_ERROR_CODE: u32 = 0xFFFFFFFE;

    /// Type of this frame.
    pub const TYPE: FrameType = FrameType::ERROR;

    /// Create a new `ErrorFrame`. The stream ID is cut to 31 bits. The error
    /// code is kept as it is: a code of the application may use all 32
    /// bits, up to `MAX_APPLICATION_ERROR_CODE`.
    ///
    /// `data` SHOULD be a UTF-8 encoded string.
    pub fn new(stream_id: u32, error_code: u32, data: Option<Bytes>) -> (r: ErrorFrame)
        ensures
            r@ == (ErrorFrameView {
                stream_id: stream_id & MAX_U31,
                code: error_code,
                data: opt_contents(data),
            }),
            r@.stream_id <= MAX_U31,
    {
        ErrorFrame { stream_id: mask_u31(stream_id), code: error_code, data }
    }

    /// Returns the stream ID of this frame.
    pub fn stream_id(&self) -> (r: u32)
        ensures
            r == self@.stream_id,
    {
        self.stream_id
    }

    /// Returns the error code in this error frame.
    pub fn error_code(&self) -> (r: u32)
        ensures
            r == self@.code,
    {
        self.code
    }

    /// Returns the error data attached to this frame, if any.
    pub fn data(&self) -> (r: Option<&Bytes>)
        ensures
            r matches Some(d) ==> self@.data == Some(contents(*d)),
            r is None <==> self@.data is None,
    {
        self.data.as_ref()
    }

    /// Returns the error data in this error frame in UTF-8 format. If there
    /// is no error data, or if it is not valid UTF-8, this will return `None`.
    pub fn data_utf8(&self) -> (r: Option<&str>)
        ensures
            r is Some <==> (self@.data matches Some(d) && vstd::utf8::valid_utf8(d)),
            r matches Some(s) ==> self@.data == Some(s.spec_bytes()),
    {
        match &self.data {
            Some(data) => bytes_utf8(data),
            None => None,
        }
    }
}

impl Encode for ErrorFrame {
    open spec fn wire(&self) -> Seq<u8> {
        self@.wire()
    }

    open spec fn encodable(&self) -> bool {
        true
    }

    fn encode(&self, buf: &mut BytesMut) {
        assert(self.wire() == self@.wire());
        assert(self@.wire().len() == 10 + opt_bytes(self@.data).len());
        put_header(buf, self.stream_id, FrameType::ERROR, 0);
        put_u32(buf, self.code);
        if let Some(bytes) = &self.data {
            put_slice(buf, bytes);
        }
        assert(written(*buf) =~= written(*old(buf)) + self@.wire());
    }

    fn encoded_len(&self) -> Option<usize> {
        assert(self.wire() == self@.wire());
        assert(self@.wire().len() == 10 + opt_bytes(self@.data).len());
        add_within(Some(10), opt_bytes_len(&self.data))
    }

    fn len(&self) -> usize {
        assert(self.wire() == self@.wire());
        assert(self@.wire().len() == 10 + opt_bytes(self@.data).len());
        // len(stream_id): 4
        // len(frame_type & flags): 2
        // len(error_code): 4
        let mut len: usize = 10;

        // len(error_data)
        if let Some(bytes) = &self.data {
            len = len + bytes_len(bytes);
        }
        len
    }
}

impl Decode for ErrorFrame {
    type Value = Self;

    /// The error code, which has to suit the stream ID; all that is left is
    /// error data. The flags play no part.
    open spec fn parse(s: Seq<u8>, stream_id: u32, flags: u16) -> (
        Result<ErrorFrameView, DecodeError>,
        Seq<u8>,
    ) {
        match parse_u32(s) {
            (Err(e), rest) => (Err(e), rest),
            (Ok(code), s1) => match stream_id_for_code(stream_id, code) {
                Err(e) => (Err(e), s1),
                Ok(_) => (
                    Ok(ErrorFrameView { stream_id, code, data: parse_rest(s1).0->Ok_0 }),
                    parse_rest(s1).1,
                ),
            },
        }
    }

    fn decode(buf: &mut Bytes, stream_id: u32, _flags: Flags) -> (r: Result<
        Self::Value,
        DecodeError,
    >) {
        let code = match eat_u32(buf) {
            Ok(code) => code,
            Err(e) => return Err(e),
        };
        match validate_stream_id(stream_id, code) {
            Ok(_) => {},
            Err(e) => return Err(e),
        }
        let data = eat_rest(buf);
        Ok(ErrorFrame { stream_id, code, data })
    }
}

/// Checks that an error frame with this code may stand on this stream: a
/// code of the connection asks for stream ID 0, a code of a stream for a
/// stream ID above 0, and any other code goes with every stream ID.
pub fn validate_stream_id(stream_id: u32, code: u32) -> (r: Result<(), DecodeError>)
    ensures
        r == stream_id_for_code(stream_id, code),
{
    let of_connection = code == ErrorFrame::INVALID_SETUP || code == ErrorFrame::UNSUPPORTED_SETUP
        || code == ErrorFrame::REJECTED_SETUP || code == ErrorFrame::REJECTED_RESUME || code
        == ErrorFrame::CONNECTION_ERROR || code == ErrorFrame::CONNECTION_CLOSE;
    let of_stream = code == ErrorFrame::APPLICATION_ERROR || code == ErrorFrame::REJECTED || code
        == ErrorFrame::CANCELED || code == ErrorFrame::INVALID;
    if of_connection && stream_id != 0 {
        return Err(DecodeError::InvalidStreamId { expected: "0", found: stream_id });
    }
    if of_stream && stream_id == 0 {
        return Err(DecodeError::InvalidStreamId { expected: "> 0", found: stream_id });
    }

    Ok(())
}

} // verus!
