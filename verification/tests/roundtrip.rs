use binate::frame::codec::error::validate_stream_id;
use binate::frame::codec::{
    CancelFrame, ErrorFrame, KeepaliveFrame, LeaseFrame, MetadataPushFrame, PayloadFrame,
    RequestChannelFrame, RequestFnfFrame, RequestNFrame, RequestResponseFrame, RequestStreamFrame,
    ResumeFrame, ResumeOkFrame, SetupFrame,
};
use binate::frame::{
    check_stream_id, Decode, DecodeError, Encode, Flags, Frame, FrameType, Payload, Version,
};
use bytes::{BufMut, Bytes, BytesMut};
use std::time::Duration;

fn payload(metadata: Option<&'static str>, data: Option<&'static str>) -> Payload {
    Payload::new(metadata.map(Bytes::from), data.map(Bytes::from))
}

fn every_kind_of_frame() -> Vec<Frame> {
    vec![
        Frame::Setup(SetupFrame::builder().build()),
        Frame::Setup(
            SetupFrame::builder()
                .set_version(1, 2)
                .set_keepalive_interval(5)
                .set_keepalive_timeout(0x7FFF_FFFF)
                .set_lease_flag()
                .set_resume_token(Bytes::from("token"))
                .set_metadata_mimetype("text/plain")
                .set_data_mimetype("")
                .set_metadata(Bytes::from("m"))
                .set_data(Bytes::from("d"))
                .build(),
        ),
        Frame::Error(ErrorFrame::new(0, ErrorFrame::CONNECTION_CLOSE, None)),
        Frame::Error(ErrorFrame::new(3, ErrorFrame::REJECTED, Some(Bytes::from("no")))),
        Frame::Error(ErrorFrame::new(0, 0x301, Some(Bytes::from("of the application")))),
        Frame::Error(ErrorFrame::new(9, 0x7FFF_FFFF, None)),
        Frame::Error(ErrorFrame::new(9, ErrorFrame::MAX_APPLICATION_ERROR_CODE, None)),
        Frame::Error(ErrorFrame::new(0, 0xFFFF_FFFF, Some(Bytes::from("x")))),
        Frame::Lease(LeaseFrame::new(10, 20, None)),
        Frame::Lease(LeaseFrame::new(0x7FFF_FFFF, 0, Some(Bytes::from("metadata")))),
        Frame::Keepalive(KeepaliveFrame::new(0, None, false)),
        Frame::Keepalive(KeepaliveFrame::new(u64::MAX >> 1, Some(Bytes::from("d")), true)),
        Frame::RequestResponse(RequestResponseFrame::new(1, false, payload(None, None))),
        Frame::RequestResponse(RequestResponseFrame::new(1, true, payload(Some("m"), Some("d")))),
        Frame::RequestFnf(RequestFnfFrame::new(0x7FFF_FFFF, false, payload(Some("m"), None))),
        Frame::RequestStream(RequestStreamFrame::new(5, false, 1, payload(None, Some("d")))),
        Frame::RequestStream(RequestStreamFrame::new(5, true, 0x7FFF_FFFF, payload(None, None))),
        Frame::RequestChannel(RequestChannelFrame::new(7, true, true, 3, payload(Some("m"), None))),
        Frame::RequestChannel(RequestChannelFrame::new(7, false, false, 3, payload(None, None))),
        Frame::RequestN(RequestNFrame::new(1, 1)),
        Frame::RequestN(RequestNFrame::new(2, 0x7FFF_FFFF)),
        Frame::Cancel(CancelFrame::new(1)),
        Frame::Payload(PayloadFrame::new(1, Flags::next(), payload(None, Some("d")))),
        Frame::Payload(PayloadFrame::new(1, Flags::complete(), payload(None, None))),
        Frame::Payload(PayloadFrame::new(1, Flags::all(), payload(Some("m"), Some("d")))),
        Frame::MetadataPush(MetadataPushFrame::new(Bytes::from("metadata"))),
        Frame::MetadataPush(MetadataPushFrame::new(Bytes::new())),
        Frame::Resume(ResumeFrame::new(Version::new(1, 0), Bytes::from("token"), 1, 2)),
        Frame::Resume(ResumeFrame::new(Version::new(0, 9), Bytes::new(), 0, u64::MAX >> 1)),
        Frame::ResumeOk(ResumeOkFrame::new(0)),
        Frame::ResumeOk(ResumeOkFrame::new(u64::MAX >> 1)),
    ]
}

#[test]
fn every_frame_is_decoded_as_it_was_encoded() {
    for frame in every_kind_of_frame() {
        let mut buf = BytesMut::new();
        frame.encode(&mut buf);
        assert_eq!(buf.len(), frame.len(), "{:?}", frame);
        let mut bytes = buf.freeze();
        let decoded = Frame::decode(&mut bytes);
        assert_eq!(decoded, Ok(frame.clone()));
        assert_eq!(bytes.len(), 0);
        assert_eq!(frame.to_bytes().len(), frame.len());
        assert!(!frame.is_empty());
    }
}

#[test]
fn encoding_appends_to_what_the_buffer_holds() {
    let mut buf = BytesMut::new();
    buf.put_u8(0xEE);
    Frame::Cancel(CancelFrame::new(1)).encode(&mut buf);
    Frame::RequestN(RequestNFrame::new(2, 3)).encode(&mut buf);
    assert_eq!(
        &buf[..],
        &[0xEE, 0, 0, 0, 1, 0x24, 0, 0, 0, 0, 2, 0x20, 0, 0, 0, 0, 3][..]
    );
}

#[test]
fn headers_hold_the_stream_id_and_the_type() {
    for frame in every_kind_of_frame() {
        let bytes = frame.to_bytes();
        assert_eq!(bytes[0] & 0x80, 0);
        let stream_id = u32::from_be_bytes([bytes[0], bytes[1], bytes[2], bytes[3]]);
        assert_eq!(stream_id, frame.stream_id());
        let word = u16::from_be_bytes([bytes[4], bytes[5]]);
        assert_eq!(word >> 10, frame.frame_type().value());
        assert_eq!(FrameType::from_bits(word), Some(frame.frame_type()));
    }
}

#[test]
fn frames_byte_by_byte() {
    let frame = PayloadFrame::new(
        1,
        Flags::next() | Flags::complete(),
        payload(Some("m2"), Some("d2")),
    );
    assert_eq!(
        &frame.to_bytes()[..],
        &[0, 0, 0, 1, 0x28, 0xB0, 0, 0, 2, b'm', b'2', b'd', b'2'][..]
    );
    let frame = RequestStreamFrame::new(1, false, 2, payload(None, Some("q")));
    assert_eq!(&frame.to_bytes()[..], &[0, 0, 0, 1, 0x18, 0x00, 0, 0, 0, 2, 0, 0, 0, b'q'][..]);
    let frame = KeepaliveFrame::new(0x0102_0304_0506_0708, None, true);
    assert_eq!(&frame.to_bytes()[..], &[0, 0, 0, 0, 0x0C, 0x40, 1, 2, 3, 4, 5, 6, 7, 8][..]);
    let frame = ErrorFrame::new(0, ErrorFrame::CONNECTION_ERROR, Some(Bytes::from("x")));
    assert_eq!(&frame.to_bytes()[..], &[0, 0, 0, 0, 0x2C, 0x00, 0, 0, 1, 1, b'x'][..]);
    let frame = LeaseFrame::new(1, 2, Some(Bytes::from("m")));
    assert_eq!(
        &frame.to_bytes()[..],
        &[0, 0, 0, 0, 0x08, 0x80, 0, 0, 0, 1, 0, 0, 0, 2, b'm'][..]
    );
    let frame = ResumeFrame::new(Version::new(1, 0), Bytes::from("t"), 3, 4);
    assert_eq!(
        &frame.to_bytes()[..],
        &[
            0, 0, 0, 0, 0x34, 0x00, 0, 1, 0, 0, 0, 1, b't', 0, 0, 0, 0, 0, 0, 0, 3, 0, 0, 0, 0, 0,
            0, 0, 4
        ][..]
    );
    let frame = SetupFrame::builder()
        .set_metadata_mimetype("a")
        .set_data_mimetype("b")
        .set_keepalive_interval(1)
        .set_keepalive_timeout(2)
        .build();
    assert_eq!(
        &frame.to_bytes()[..],
        &[0, 0, 0, 0, 0x04, 0x00, 0, 1, 0, 0, 0, 0, 0, 1, 0, 0, 0, 2, 1, b'a', 1, b'b', 0, 0, 0][..]
    );
    let frame = MetadataPushFrame::new(Bytes::from("m"));
    assert_eq!(&frame.to_bytes()[..], &[0, 0, 0, 0, 0x30, 0x80, b'm'][..]);
    let frame = ResumeOkFrame::new(1);
    assert_eq!(&frame.to_bytes()[..], &[0, 0, 0, 0, 0x38, 0, 0, 0, 0, 0, 0, 0, 0, 1][..]);
}

#[test]
fn constructors_cut_what_does_not_fit() {
    assert_eq!(CancelFrame::new(0x8000_0001).stream_id(), 1);
    assert_eq!(RequestNFrame::new(0xFFFF_FFFF, 0x8000_0002).stream_id(), 0x7FFF_FFFF);
    assert_eq!(RequestNFrame::new(1, 0x8000_0002).request_n(), 2);
    // An error code keeps all its 32 bits.
    let error = ErrorFrame::new(0x8000_0003, 0x8000_0201, None);
    assert_eq!(error.stream_id(), 3);
    assert_eq!(error.error_code(), 0x8000_0201);
    assert_eq!(KeepaliveFrame::new(u64::MAX, None, false).last_received_position(), u64::MAX >> 1);
    assert_eq!(ResumeOkFrame::new(u64::MAX).last_received_server_position(), u64::MAX >> 1);
    let resume = ResumeFrame::new(Version::new(1, 0), Bytes::new(), u64::MAX, 1 << 63);
    assert_eq!(resume.last_received_server_position(), u64::MAX >> 1);
    assert_eq!(resume.first_available_client_position(), 0);
    let stream = RequestStreamFrame::new(0x8000_0005, false, 0x8000_0007, payload(None, None));
    assert_eq!(stream.stream_id(), 5);
    assert_eq!(stream.initial_request_n(), 7);
    let setup = SetupFrame::builder()
        .set_keepalive_interval(0x8000_0001)
        .set_keepalive_timeout(0xFFFF_FFFF)
        .build();
    assert_eq!(setup.keepalive_interval(), Duration::from_millis(1));
    assert_eq!(setup.keepalive_timeout(), Duration::from_millis(0x7FFF_FFFF));
    // A PAYLOAD frame keeps FOLLOWS, COMPLETE and NEXT, and has METADATA from its payload.
    let frame = PayloadFrame::new(1, Flags::all(), payload(None, Some("d")));
    assert!(frame.is_follows() && frame.is_complete() && frame.is_next());
    let mut bytes = frame.to_bytes();
    assert_eq!(bytes[5], 0x70);
    assert_eq!(Frame::decode(&mut bytes), Ok(Frame::Payload(frame)));
    let frame = PayloadFrame::new(1, Flags::ignore(), payload(Some("m"), None));
    assert_eq!(frame.to_bytes()[5], 0x80);
    assert_eq!(frame.to_bytes()[4], 0x28);
}

#[test]
fn getters_give_what_the_frames_hold() {
    let setup = SetupFrame::builder()
        .set_version(2, 1)
        .set_lease_flag()
        .set_resume_token(Bytes::from("token"))
        .set_metadata_mimetype("application/json")
        .set_metadata(Bytes::from("m"))
        .set_data(Bytes::from("d"))
        .build();
    assert!(setup.is_lease());
    assert!(setup.is_resume());
    assert_eq!(setup.version(), Version::new(2, 1));
    assert_eq!(setup.version().major(), 2);
    assert_eq!(setup.version().minor(), 1);
    assert_eq!(setup.keepalive_interval(), Duration::from_secs(30));
    assert_eq!(setup.keepalive_timeout(), Duration::from_secs(60));
    assert_eq!(setup.resume_token(), Some(&Bytes::from("token")));
    assert_eq!(setup.metadata_mimetype(), Some("application/json"));
    assert_eq!(setup.data_mimetype(), Some("application/binary"));
    assert_eq!(setup.metadata(), Some(&Bytes::from("m")));
    assert_eq!(setup.data(), Some(&Bytes::from("d")));
    assert_eq!(setup.payload(), payload(Some("m"), Some("d")));

    let plain = SetupFrame::builder().set_resume_flag().build();
    assert!(plain.is_resume());
    assert!(!plain.is_lease());
    assert_eq!(plain.resume_token(), None);
    assert_eq!(plain.version(), Version::default());
    let odd = SetupFrame::builder().set_metadata_mimetype("caf\u{e9}").build();
    assert_eq!(odd.metadata_mimetype(), None);
    assert_eq!(odd.data_mimetype(), Some("application/binary"));

    let lease = LeaseFrame::new(1500, 7, Some(Bytes::from("m")));
    assert_eq!(lease.ttl(), Duration::from_millis(1500));
    assert_eq!(lease.ttl_millis(), 1500);
    assert_eq!(lease.number_of_requests(), 7);
    assert_eq!(lease.metadata(), Some(&Bytes::from("m")));

    let error = ErrorFrame::new(1, ErrorFrame::INVALID, Some(Bytes::from("bad")));
    assert_eq!(error.data(), Some(&Bytes::from("bad")));
    assert_eq!(error.data_utf8(), Some("bad"));
    assert_eq!(ErrorFrame::new(1, 1, None).data_utf8(), None);
    assert_eq!(ErrorFrame::new(1, 1, Some(Bytes::from_static(&[0xFF]))).data_utf8(), None);

    let keepalive = KeepaliveFrame::new(9, Some(Bytes::from("d")), true);
    assert!(keepalive.is_respond());
    assert_eq!(keepalive.last_received_position(), 9);
    assert_eq!(keepalive.data(), Some(&Bytes::from("d")));

    let resume = ResumeFrame::new(Version::new(1, 0), Bytes::from("t"), 1, 2);
    assert_eq!(resume.version(), Version::new(1, 0));
    assert_eq!(resume.resume_token(), &Bytes::from("t"));

    let push = MetadataPushFrame::new(Bytes::from("m"));
    assert_eq!(push.metadata(), &Bytes::from("m"));

    let fnf = RequestFnfFrame::new(1, true, payload(Some("m"), Some("d")));
    assert!(fnf.is_follows());
    assert_eq!(fnf.metadata(), Some(&Bytes::from("m")));
    assert_eq!(fnf.request_data(), Some(&Bytes::from("d")));
    let response = RequestResponseFrame::new(1, false, payload(None, Some("d")));
    assert!(!response.is_follows());
    assert_eq!(response.metadata(), None);
    assert_eq!(response.data(), Some(&Bytes::from("d")));
    assert_eq!(response.payload(), payload(None, Some("d")));
    let channel = RequestChannelFrame::new(1, false, true, 4, payload(None, None));
    assert!(channel.is_complete());
    assert!(!channel.is_follows());
    assert_eq!(channel.initial_request_n(), 4);
    let item = PayloadFrame::new(1, Flags::next(), payload(Some("m"), Some("d")));
    assert_eq!(item.metadata(), Some(&Bytes::from("m")));
    assert_eq!(item.data(), Some(&Bytes::from("d")));

    assert_eq!(SetupFrame::TYPE, FrameType::SETUP);
    assert_eq!(ErrorFrame::TYPE, FrameType::ERROR);
    assert_eq!(PayloadFrame::TYPE, FrameType::PAYLOAD);
    assert_eq!(ResumeFrame::STREAM_ID, 0);
    assert_eq!(ResumeOkFrame::STREAM_ID, 0);
    assert_eq!(MetadataPushFrame::STREAM_ID, 0);
}

fn header(stream_id: u32, frame_type: u16, flags: u16) -> BytesMut {
    let mut buf = BytesMut::new();
    buf.put_u32(stream_id);
    buf.put_u16((frame_type << 10) | flags);
    buf
}

#[test]
fn short_input_is_incomplete() {
    for len in 0..6 {
        let mut bytes = Bytes::from(vec![0u8; len]);
        assert_eq!(Frame::decode(&mut bytes), Err(DecodeError::InComplete));
        assert_eq!(bytes.len(), len);
    }
    for frame in every_kind_of_frame() {
        let whole = frame.to_bytes();
        let fixed = match frame {
            Frame::Cancel(_) | Frame::MetadataPush(_) => continue,
            Frame::Error(_) | Frame::RequestN(_) => 10,
            Frame::Lease(_) | Frame::Keepalive(_) | Frame::ResumeOk(_) => 14,
            Frame::RequestStream(_) | Frame::RequestChannel(_) => 13,
            Frame::Resume(_) => whole.len(),
            Frame::Setup(_) => whole.len() - frame_payload_len(&frame),
            _ => 9,
        };
        for len in 6..fixed {
            let mut cut = whole.slice(0..len);
            assert_eq!(Frame::decode(&mut cut), Err(DecodeError::InComplete), "{:?}", frame);
        }
    }
}

fn frame_payload_len(frame: &Frame) -> usize {
    match frame {
        Frame::Setup(setup) => {
            setup.metadata().map(|m| m.len()).unwrap_or(0)
                + setup.data().map(|d| d.len()).unwrap_or(0)
        }
        _ => 0,
    }
}

#[test]
fn unknown_frame_types_are_refused() {
    for frame_type in [0x00u16, 0x0F, 0x10, 0x2F, 0x3E] {
        let mut bytes = header(1, frame_type, 0x3FF).freeze();
        assert_eq!(
            Frame::decode(&mut bytes),
            Err(DecodeError::UnrecognizedFrameType(frame_type))
        );
    }
    // The extension type is known, and has no frame.
    let mut bytes = header(1, 0x3F, 0).freeze();
    assert_eq!(Frame::decode(&mut bytes), Err(DecodeError::UnrecognizedFrameType(0x3F)));
}

#[test]
fn frames_of_the_connection_stand_on_stream_zero() {
    for frame_type in [0x01u16, 0x02, 0x03, 0x0C, 0x0D, 0x0E] {
        let mut buf = header(7, frame_type, 0);
        buf.put_slice(&[0u8; 64]);
        let mut bytes = buf.freeze();
        assert_eq!(
            Frame::decode(&mut bytes),
            Err(DecodeError::InvalidStreamId { expected: "0", found: 7 })
        );
        let mut buf = header(0, frame_type, 0);
        buf.put_slice(&[0u8; 64]);
        let mut bytes = buf.freeze();
        assert!(Frame::decode(&mut bytes).is_ok());
        assert_eq!(
            check_stream_id(FrameType::from_value(frame_type).unwrap(), 7),
            Err(DecodeError::InvalidStreamId { expected: "0", found: 7 })
        );
    }
    let mut body = Bytes::from(vec![0u8; 64]);
    assert_eq!(
        KeepaliveFrame::decode(&mut body, 3, Flags::empty()),
        Err(DecodeError::InvalidStreamId { expected: "0", found: 3 })
    );
    assert_eq!(
        LeaseFrame::decode(&mut body, 5, Flags::empty()),
        Err(DecodeError::InvalidStreamId { expected: "0", found: 5 })
    );
    assert_eq!(body.len(), 64);
}

#[test]
fn frames_of_a_stream_stand_on_a_stream() {
    for frame_type in [0x04u16, 0x05, 0x06, 0x07, 0x08, 0x09, 0x0A] {
        let mut buf = header(0, frame_type, 0x30);
        buf.put_slice(&[0u8; 16]);
        let mut bytes = buf.freeze();
        assert_eq!(
            Frame::decode(&mut bytes),
            Err(DecodeError::InvalidStreamId { expected: "> 0", found: 0 })
        );
        // The highest bit of the stream ID does not count.
        let mut buf = header(0x8000_0000, frame_type, 0x30);
        buf.put_slice(&[0u8; 16]);
        let mut bytes = buf.freeze();
        assert_eq!(
            Frame::decode(&mut bytes),
            Err(DecodeError::InvalidStreamId { expected: "> 0", found: 0 })
        );
        let mut buf = header(0x8000_0001, frame_type, 0x30);
        buf.put_slice(&[0u8; 16]);
        let mut bytes = buf.freeze();
        let frame = Frame::decode(&mut bytes).unwrap();
        assert_eq!(frame.stream_id(), 1);
        assert_eq!(check_stream_id(frame.frame_type(), 1), Ok(()));
    }
    assert_eq!(check_stream_id(FrameType::ERROR, 0), Ok(()));
    assert_eq!(check_stream_id(FrameType::ERROR, 1), Ok(()));
    assert_eq!(check_stream_id(FrameType::EXT, 1), Ok(()));
}

#[test]
fn error_codes_go_with_their_streams() {
    let of_the_connection = [
        ErrorFrame::INVALID_SETUP,
        ErrorFrame::UNSUPPORTED_SETUP,
        ErrorFrame::REJECTED_SETUP,
        ErrorFrame::REJECTED_RESUME,
        ErrorFrame::CONNECTION_ERROR,
        ErrorFrame::CONNECTION_CLOSE,
    ];
    let of_a_stream = [
        ErrorFrame::APPLICATION_ERROR,
        ErrorFrame::REJECTED,
        ErrorFrame::CANCELED,
        ErrorFrame::INVALID,
    ];
    for code in of_the_connection {
        let wrong = DecodeError::InvalidStreamId { expected: "0", found: 1 };
        assert_eq!(validate_stream_id(1, code), Err(wrong.clone()));
        assert_eq!(validate_stream_id(0, code), Ok(()));
        let mut bytes = ErrorFrame::new(1, code, Some(Bytes::from("x"))).to_bytes();
        assert_eq!(Frame::decode(&mut bytes), Err(wrong));
        let mut bytes = ErrorFrame::new(0, code, Some(Bytes::from("x"))).to_bytes();
        assert!(Frame::decode(&mut bytes).is_ok());
    }
    for code in of_a_stream {
        let wrong = DecodeError::InvalidStreamId { expected: "> 0", found: 0 };
        assert_eq!(validate_stream_id(0, code), Err(wrong.clone()));
        assert_eq!(validate_stream_id(1, code), Ok(()));
        let mut bytes = ErrorFrame::new(0, code, None).to_bytes();
        assert_eq!(Frame::decode(&mut bytes), Err(wrong));
        let mut bytes = ErrorFrame::new(1, code, None).to_bytes();
        assert!(Frame::decode(&mut bytes).is_ok());
    }
    for code in [0, 5, 0x100, 0x205, ErrorFrame::MIN_APPLICATION_ERROR_CODE] {
        assert_eq!(validate_stream_id(0, code), Ok(()));
        assert_eq!(validate_stream_id(1, code), Ok(()));
    }
    // A code may use all 32 bits.
    let mut buf = header(1, 0x0B, 0);
    buf.put_u32(ErrorFrame::MAX_APPLICATION_ERROR_CODE);
    let mut bytes = buf.freeze();
    let written = ErrorFrame::new(1, ErrorFrame::MAX_APPLICATION_ERROR_CODE, None);
    assert_eq!(written.to_bytes(), bytes);
    assert_eq!(&bytes[6..], &[0xFF, 0xFF, 0xFF, 0xFE][..]);
    assert_eq!(Frame::decode(&mut bytes), Ok(Frame::Error(written)));
}

#[test]
fn what_is_not_canonical_is_decoded_all_the_same() {
    // Bits that stand for no flag are dropped, and the METADATA flag is not asked.
    let mut buf = header(1, 0x0A, 0x20F | 0x10);
    buf.put_slice(&[0, 0, 1, b'm', b'd']);
    let mut bytes = buf.freeze();
    match Frame::decode(&mut bytes).unwrap() {
        Frame::Payload(frame) => {
            assert!(frame.is_next());
            assert!(!frame.is_complete());
            assert!(!frame.is_follows());
            assert_eq!(frame.to_bytes()[5], 0x10);
            assert_eq!(frame.payload(), payload(Some("m"), Some("d")));
        }
        other => panic!("{:?}", other),
    }
    // What follows a frame of a fixed length stays in the buffer.
    let mut buf = header(1, 0x08, 0);
    buf.put_slice(&[0x80, 0, 0, 5, 0xAA, 0xBB]);
    let mut bytes = buf.freeze();
    assert_eq!(Frame::decode(&mut bytes), Ok(Frame::RequestN(RequestNFrame::new(1, 5))));
    assert_eq!(&bytes[..], &[0xAA, 0xBB][..]);
    let mut buf = header(1, 0x09, 0);
    buf.put_u8(0xCC);
    let mut bytes = buf.freeze();
    assert_eq!(Frame::decode(&mut bytes), Ok(Frame::Cancel(CancelFrame::new(1))));
    assert_eq!(bytes.len(), 1);
}

#[test]
fn resume_flag_without_token() {
    // The token field goes with the flag: without a token its length is zero.
    let setup = SetupFrame::builder()
        .set_keepalive_interval(1)
        .set_keepalive_timeout(2)
        .set_metadata_mimetype("a")
        .set_data_mimetype("b")
        .set_resume_flag()
        .build();
    assert!(setup.is_resume());
    assert_eq!(setup.resume_token(), None);
    let bytes = setup.to_bytes();
    assert_eq!(
        &bytes[..],
        &[
            0, 0, 0, 0, 0x04, 0x40, 0, 1, 0, 0, 0, 0, 0, 1, 0, 0, 0, 2, 0, 0, 1, b'a', 1, b'b',
            0, 0, 0
        ][..]
    );
    assert_eq!(setup.len(), bytes.len());
    assert_eq!(setup.encoded_len(), Some(bytes.len()));
    let mut bytes = bytes;
    match Frame::decode(&mut bytes) {
        Ok(Frame::Setup(decoded)) => {
            assert!(decoded.is_resume());
            assert_eq!(decoded.resume_token(), Some(&Bytes::new()));
            assert_eq!(decoded.metadata_mimetype(), Some("a"));
            assert_eq!(decoded.data_mimetype(), Some("b"));
            assert_eq!(decoded.keepalive_interval(), Duration::from_millis(1));
            // What was read is written again byte for byte.
            assert_eq!(decoded.to_bytes(), setup.to_bytes());
            let mut again = decoded.to_bytes();
            assert_eq!(Frame::decode(&mut again), Ok(Frame::Setup(decoded)));
        }
        other => panic!("{:?}", other),
    }
    assert_eq!(bytes.len(), 0);

    let with_token = SetupFrame::builder().set_resume_token(Bytes::from("t")).build();
    let without = SetupFrame::builder().build();
    assert_eq!(with_token.len(), without.len() + 3);
    assert_eq!(with_token.to_bytes().len(), with_token.len());
    let tried = SetupFrame::builder().try_set_resume_token(Bytes::from(vec![0u8; 65_536]));
    assert!(tried.is_err());
    let tried = SetupFrame::builder().try_set_resume_token(Bytes::from(vec![0u8; 65_535]));
    assert_eq!(tried.unwrap().build().resume_token().map(|t| t.len()), Some(65_535));
}

#[test]
fn lengths_that_do_not_fit_their_field_lose_their_higher_bits() {
    let mimetype = "x".repeat(256);
    let setup = SetupFrame::builder().set_metadata_mimetype(&mimetype).build();
    let bytes = setup.to_bytes();
    assert_eq!(bytes.len(), setup.len());
    assert_eq!(bytes[18], 0);
    let token = Bytes::from(vec![7u8; 0x1_0001]);
    let resume = ResumeFrame::new(Version::new(1, 0), token, 0, 0);
    let bytes = resume.to_bytes();
    assert_eq!(&bytes[10..12], &[0u8, 1][..]);
    assert_eq!(bytes.len(), resume.len());
}

#[test]
fn versions() {
    assert_eq!(Version::default(), Version::new(1, 0));
    assert_eq!(Version::new(1, 0).to_string(), "1.0");
    assert_eq!(Version::new(12, 345).to_string(), "12.345");
    assert_eq!(Version::new(65535, 0).to_string(), "65535.0");
    assert!(Version::new(1, 0) < Version::new(1, 1));
    assert!(Version::new(1, 9) < Version::new(2, 0));
    assert!(Version::new(2, 0) > Version::new(1, 65535));
    assert!(Version::new(3, 4) <= Version::new(3, 4));
    assert_eq!(Version::new(3, 4).cmp(&Version::new(3, 4)), std::cmp::Ordering::Equal);
    assert_eq!(Version::new(3, 4).max(Version::new(3, 5)), Version::new(3, 5));
    let mut buf = BytesMut::new();
    Version::new(0x0102, 0x0304).encode(&mut buf);
    assert_eq!(&buf[..], &[1u8, 2, 3, 4][..]);
    assert_eq!(Version::new(1, 0).len(), 4);
}
