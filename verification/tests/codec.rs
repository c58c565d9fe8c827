use binate::frame::codec::{
    CancelFrame, KeepaliveFrame, LeaseFrame, MetadataPushFrame, PayloadFrame, RequestFnfFrame,
    RequestNFrame, RequestResponseFrame, RequestStreamFrame, ResumeFrame, ResumeOkFrame,
    SetupFrame,
};
use binate::frame::visit::{eat_flags, eat_stream_id};
use binate::frame::{Decode, Encode, Flags, FrameType, Payload, Version};
use bytes::{Bytes, BytesMut};

#[test]
fn cancel_test_codec() {
    let lease = CancelFrame::new(1);

    let mut buf = BytesMut::new();
    lease.encode(&mut buf);
    let mut buf = buf.freeze();

    // len(stream_id): 4
    // len(flags): 2
    let buf_len = buf.len();
    assert_eq!(buf_len, 4 + 2);

    // Eat the stream_id and flags before decoding bytes.
    let stream_id = eat_stream_id(&mut buf).unwrap();
    let (frame_type, flags) = eat_flags(&mut buf).unwrap();
    assert_eq!(frame_type, FrameType::CANCEL);
    assert_eq!(flags, Flags::empty());

    let decoded = CancelFrame::decode(&mut buf, stream_id, flags).unwrap();

    assert_eq!(decoded, lease);
    assert_eq!(lease.len(), buf_len);
    assert_eq!(decoded.len(), buf_len);
}

#[test]
fn keepalive_test_stream_id() {
    assert_eq!(KeepaliveFrame::STREAM_ID, 0);
}

#[test]
fn keepalive_test_codec() {
    let lease = KeepaliveFrame::new(1, Some(Bytes::from("data")), true);

    let mut buf = BytesMut::new();
    lease.encode(&mut buf);
    let mut buf = buf.freeze();

    // len(stream_id): 4
    // len(flags): 2
    // len(last_received_position): 8
    // len(data): 4
    let buf_len = buf.len();
    assert_eq!(buf_len, 4 + 2 + 8 + 4);

    // Eat the stream_id and flags before decoding bytes.
    let stream_id = eat_stream_id(&mut buf).unwrap();
    let (frame_type, flags) = eat_flags(&mut buf).unwrap();
    assert_eq!(stream_id, 0);
    assert_eq!(frame_type, FrameType::KEEPALIVE);
    assert_eq!(flags, Flags::respond());

    let decoded = KeepaliveFrame::decode(&mut buf, stream_id, flags).unwrap();

    assert_eq!(decoded, lease);
    assert_eq!(lease.len(), buf_len);
    assert_eq!(decoded.len(), buf_len);
}

#[test]
fn lease_test_stream_id() {
    assert_eq!(LeaseFrame::STREAM_ID, 0);
}

#[test]
fn lease_test_codec() {
    let lease = LeaseFrame::new(10, 20, Some(Bytes::from("metadata")));

    let mut buf = BytesMut::new();
    lease.encode(&mut buf);
    let mut buf = buf.freeze();

    // len(stream_id): 4
    // len(flags): 2
    // len(ttl): 4
    // len(number_of_requests): 4
    // len(metadata): 8
    let buf_len = buf.len();
    assert_eq!(buf_len, 4 + 2 + 4 + 4 + 8);

    // Eat the stream_id and flags before decoding bytes.
    let stream_id = eat_stream_id(&mut buf).unwrap();
    let (frame_type, flags) = eat_flags(&mut buf).unwrap();
    assert_eq!(stream_id, 0);
    assert_eq!(frame_type, FrameType::LEASE);
    assert_eq!(flags, Flags::metadata());

    let decoded = LeaseFrame::decode(&mut buf, stream_id, flags).unwrap();

    assert_eq!(decoded, lease);
    assert_eq!(lease.len(), buf_len);
    assert_eq!(decoded.len(), buf_len);
}

#[test]
fn metadata_push_test_codec() {
    let lease = MetadataPushFrame::new(Bytes::from("metadata"));

    let mut buf = BytesMut::new();
    lease.encode(&mut buf);
    let mut buf = buf.freeze();

    // len(stream_id): 4
    // len(flags): 2
    // len(metadata): 8
    let buf_len = buf.len();
    assert_eq!(buf_len, 4 + 2 + 8);

    // Eat the stream_id and flags before decoding bytes.
    let stream_id = eat_stream_id(&mut buf).unwrap();
    let (frame_type, flags) = eat_flags(&mut buf).unwrap();
    assert_eq!(frame_type, FrameType::METADATA_PUSH);
    assert_eq!(flags, Flags::metadata());

    let decoded = MetadataPushFrame::decode(&mut buf, stream_id, flags).unwrap();

    assert_eq!(decoded, lease);
    assert_eq!(lease.len(), buf_len);
    assert_eq!(decoded.len(), buf_len);
}

#[test]
fn payload_test_codec() {
    let lease = PayloadFrame::new(
        1,
        Flags::follows() | Flags::next(),
        Payload::builder()
            .set_metadata(Bytes::from("metadata"))
            .set_data(Bytes::from("data"))
            .build(),
    );

    let mut buf = BytesMut::new();
    lease.encode(&mut buf);
    let mut buf = buf.freeze();

    // len(stream_id): 4
    // len(flags): 2
    // len(metadata_len): 3
    // len(metadata): 8
    // len(data): 4
    let buf_len = buf.len();
    assert_eq!(buf_len, 4 + 2 + 3 + 8 + 4);

    // Eat the stream_id and flags before decoding bytes.
    let stream_id = eat_stream_id(&mut buf).unwrap();
    let (frame_type, flags) = eat_flags(&mut buf).unwrap();
    assert_eq!(frame_type, FrameType::PAYLOAD);
    assert_eq!(flags, Flags::metadata() | Flags::follows() | Flags::next());

    let decoded = PayloadFrame::decode(&mut buf, stream_id, flags).unwrap();

    assert_eq!(decoded, lease);
    assert_eq!(lease.len(), buf_len);
    assert_eq!(decoded.len(), buf_len);
}

#[test]
fn request_fnf_test_codec() {
    let lease = RequestFnfFrame::new(
        1,
        true,
        Payload::builder()
            .set_metadata(Bytes::from("metadata"))
            .set_data(Bytes::from("data"))
            .build(),
    );

    let mut buf = BytesMut::new();
    lease.encode(&mut buf);
    let mut buf = buf.freeze();

    // len(stream_id): 4
    // len(flags): 2
    // len(metadata_len): 3
    // len(metadata): 8
    // len(data): 4
    let buf_len = buf.len();
    assert_eq!(buf_len, 4 + 2 + 3 + 8 + 4);

    // Eat the stream_id and flags before decoding bytes.
    let stream_id = eat_stream_id(&mut buf).unwrap();
    let (frame_type, flags) = eat_flags(&mut buf).unwrap();
    assert_eq!(frame_type, FrameType::REQUEST_FNF);
    assert_eq!(flags, Flags::metadata() | Flags::follows());

    let decoded = RequestFnfFrame::decode(&mut buf, stream_id, flags).unwrap();

    assert_eq!(decoded, lease);
    assert_eq!(lease.len(), buf_len);
    assert_eq!(decoded.len(), buf_len);
}

#[test]
fn request_n_test_codec() {
    let lease = RequestNFrame::new(1, 2);

    let mut buf = BytesMut::new();
    lease.encode(&mut buf);
    let mut buf = buf.freeze();

    // len(stream_id): 4
    // len(flags): 2
    // len(request_n): 4
    let buf_len = buf.len();
    assert_eq!(buf_len, 4 + 2 + 4);

    // Eat the stream_id and flags before decoding bytes.
    let stream_id = eat_stream_id(&mut buf).unwrap();
    let (frame_type, flags) = eat_flags(&mut buf).unwrap();
    assert_eq!(frame_type, FrameType::REQUEST_N);
    assert_eq!(flags, Flags::empty());

    let decoded = RequestNFrame::decode(&mut buf, stream_id, flags).unwrap();

    assert_eq!(decoded, lease);
    assert_eq!(lease.len(), buf_len);
    assert_eq!(decoded.len(), buf_len);
}

#[test]
fn request_response_test_codec() {
    let lease = RequestResponseFrame::new(
        1,
        true,
        Payload::builder()
            .set_metadata(Bytes::from("metadata"))
            .set_data(Bytes::from("data"))
            .build(),
    );

    let mut buf = BytesMut::new();
    lease.encode(&mut buf);
    let mut buf = buf.freeze();

    // len(stream_id): 4
    // len(flags): 2
    // len(metadata_len): 3
    // len(metadata): 8
    // len(data): 4
    let buf_len = buf.len();
    assert_eq!(buf_len, 4 + 2 + 3 + 8 + 4);

    // Eat the stream_id and flags before decoding bytes.
    let stream_id = eat_stream_id(&mut buf).unwrap();
    let (frame_type, flags) = eat_flags(&mut buf).unwrap();
    assert_eq!(frame_type, FrameType::REQUEST_RESPONSE);
    assert_eq!(flags, Flags::metadata() | Flags::follows());

    let decoded = RequestResponseFrame::decode(&mut buf, stream_id, flags).unwrap();

    assert_eq!(decoded, lease);
    assert_eq!(lease.len(), buf_len);
    assert_eq!(decoded.len(), buf_len);
}

#[test]
fn request_stream_test_codec() {
    let lease = RequestStreamFrame::new(
        1,
        true,
        2,
        Payload::builder()
            .set_metadata(Bytes::from("metadata"))
            .set_data(Bytes::from("data"))
            .build(),
    );

    let mut buf = BytesMut::new();
    lease.encode(&mut buf);
    let mut buf = buf.freeze();

    // len(stream_id): 4
    // len(flags): 2
    // len(initial_request_n): 4
    // len(metadata_len): 3
    // len(metadata): 8
    // len(data): 4
    let buf_len = buf.len();
    assert_eq!(buf_len, 4 + 2 + 4 + 3 + 8 + 4);

    // Eat the stream_id and flags before decoding bytes.
    let stream_id = eat_stream_id(&mut buf).unwrap();
    let (frame_type, flags) = eat_flags(&mut buf).unwrap();
    assert_eq!(frame_type, FrameType::REQUEST_STREAM);
    assert_eq!(flags, Flags::metadata() | Flags::follows());

    let decoded = RequestStreamFrame::decode(&mut buf, stream_id, flags).unwrap();

    assert_eq!(decoded, lease);
    assert_eq!(lease.len(), buf_len);
    assert_eq!(decoded.len(), buf_len);
}

#[test]
fn resume_test_codec() {
    let lease = ResumeFrame::new(Version::new(1, 0), Bytes::from("resume token"), 1, 2);

    let mut buf = BytesMut::new();
    lease.encode(&mut buf);
    let mut buf = buf.freeze();

    // len(stream_id): 4
    // len(flags): 2
    // len(version): 4
    // len(token_length): 2
    // len(resume_token): 12
    // len(last_received_server_position): 8
    // len(first_available_client_position): 8
    let buf_len = buf.len();
    assert_eq!(buf_len, 4 + 2 + 4 + 2 + 12 + 8 + 8);

    // Eat the stream_id and flags before decoding bytes.
    let stream_id = eat_stream_id(&mut buf).unwrap();
    let (frame_type, flags) = eat_flags(&mut buf).unwrap();
    assert_eq!(frame_type, FrameType::RESUME);
    assert_eq!(flags, Flags::empty());

    let decoded = ResumeFrame::decode(&mut buf, stream_id, flags).unwrap();

    assert_eq!(decoded, lease);
    assert_eq!(lease.len(), buf_len);
    assert_eq!(decoded.len(), buf_len);
}

#[test]
fn resume_ok_test_codec() {
    let lease = ResumeOkFrame::new(1);

    let mut buf = BytesMut::new();
    lease.encode(&mut buf);
    let mut buf = buf.freeze();

    // len(stream_id): 4
    // len(flags): 2
    // len(last_received_client_position): 8
    let buf_len = buf.len();
    assert_eq!(buf_len, 4 + 2 + 8);

    // Eat the stream_id and flags before decoding bytes.
    let stream_id = eat_stream_id(&mut buf).unwrap();
    let (frame_type, flags) = eat_flags(&mut buf).unwrap();
    assert_eq!(frame_type, FrameType::RESUME_OK);
    assert_eq!(flags, Flags::empty());

    let decoded = ResumeOkFrame::decode(&mut buf, stream_id, flags).unwrap();

    assert_eq!(decoded, lease);
    assert_eq!(lease.len(), buf_len);
    assert_eq!(decoded.len(), buf_len);
}

#[test]
fn setup_test_stream_id() {
    assert_eq!(SetupFrame::STREAM_ID, 0);
}

#[test]
fn setup_test_codec() {
    let setup = SetupFrame::builder()
        .set_version(1, 0)
        .set_keepalive_interval(1000)
        .set_keepalive_timeout(2000)
        .set_resume_flag()
        .set_lease_flag()
        .set_resume_token(Bytes::from("resume token".to_string()))
        .set_metadata_mimetype("application/json")
        .set_data_mimetype("application/binary")
        .set_metadata(Bytes::from("metadata"))
        .set_data(Bytes::from("data"))
        .build();

    let mut buf = BytesMut::new();
    setup.encode(&mut buf);
    let mut buf = buf.freeze();

    // len(stream_id): 4
    // len(flags): 2
    // len(version): 4
    // len(keepalive): 4
    // len(lifetime): 4
    // len(resume_token_lenght): 2
    // len(resume_token): 12
    // len(metadata_mimetype_len): 1
    // len(metadata_mimetype): 16
    // len(data_mimetype_len): 1
    // len(data_mimetype): 18
    // len(metadata_len): 3
    // len(metadata): 8
    // len(data): 4
    let buf_len = buf.len();
    assert_eq!(buf_len, 4 + 2 + 4 + 4 + 4 + 2 + 12 + 1 + 16 + 1 + 18 + 3 + 8 + 4);

    // Eat the stream_id and flags before decoding bytes.
    let stream_id = eat_stream_id(&mut buf).unwrap();
    let (frame_type, flags) = eat_flags(&mut buf).unwrap();
    assert_eq!(stream_id, 0);
    assert_eq!(frame_type, FrameType::SETUP);
    assert_eq!(flags, Flags::metadata() | Flags::resume() | Flags::lease());

    let decoded = SetupFrame::decode(&mut buf, stream_id, flags).unwrap();

    assert_eq!(decoded, setup);
    assert_eq!(setup.len(), buf_len);
    assert_eq!(decoded.len(), buf_len);
}
