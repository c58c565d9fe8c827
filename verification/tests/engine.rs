use binate::connection::demux::{connection_close, is_opened_by, rejected, route, Route};
use binate::connection::handshake::{accept_first_frame, reject_resume, reject_setup, Handshake};
use binate::connection::keepalive::{connection_error, KeepaliveSupervisor};
use binate::connection::lease::{on_lease_frame, Lease};
use binate::connection::socket::{fire_and_forget_frames, fragment, metadata_push_frame};
use binate::connection::stream::{
    add_credit, invalid, to_state_after_request, Interaction, Reaction, Side, Stream, StreamState,
    NOT_COMPLETE, NO_CREDIT, NO_NEXT_OR_COMPLETE, UNEXPECTED_REQUEST, ZERO_REQUEST_N,
};
use binate::connection::Role;
use binate::error::Code;
use binate::frame::codec::{
    CancelFrame, ErrorFrame, KeepaliveFrame, LeaseFrame, MetadataPushFrame, PayloadFrame,
    RequestChannelFrame, RequestFnfFrame, RequestNFrame, RequestResponseFrame, RequestStreamFrame,
    ResumeFrame, SetupFrame,
};
use binate::frame::{Flags, Frame, Payload, Version};
use bytes::Bytes;

fn data(text: &'static str) -> Payload {
    Payload::new(None, Some(Bytes::from(text)))
}

#[test]
fn keepalive_is_sent_and_answered() {
    let mut supervisor = KeepaliveSupervisor::new(100, 300, 1_000);
    supervisor.received(40);
    supervisor.received(2);
    assert_eq!(supervisor.last_received_position, 42);
    assert_eq!(supervisor.tick(), KeepaliveFrame::new(42, None, true));

    let ping = KeepaliveFrame::new(7, Some(Bytes::from("ping")), true);
    let answer = supervisor.on_keepalive(&ping, 1_250);
    assert_eq!(answer, Some(KeepaliveFrame::new(7, Some(Bytes::from("ping")), false)));
    assert_eq!(supervisor.last_received_at, 1_250);
    // An answer counts if it echoes the position that was sent.
    let stray = KeepaliveFrame::new(9, None, false);
    assert_eq!(supervisor.on_keepalive(&stray, 1_280), None);
    assert_eq!(supervisor.last_received_at, 1_250);
    let pong = KeepaliveFrame::new(42, None, false);
    assert_eq!(supervisor.on_keepalive(&pong, 1_300), None);
    assert_eq!(supervisor.last_received_at, 1_300);
    assert_eq!(supervisor.check(1_600), binate::connection::keepalive::KeepaliveVerdict::Alive);
    assert_ne!(supervisor.check(1_601), binate::connection::keepalive::KeepaliveVerdict::Alive);
    // A clock that runs backwards does not time the connection out.
    assert_eq!(supervisor.check(0), binate::connection::keepalive::KeepaliveVerdict::Alive);
}

#[test]
fn keepalive_position_has_63_bits() {
    let mut supervisor = KeepaliveSupervisor::new(1, 1, 0);
    assert_eq!(supervisor.awaited_position, None);
    let unasked = KeepaliveFrame::new(0, None, false);
    assert_eq!(supervisor.on_keepalive(&unasked, 5), None);
    assert_eq!(supervisor.last_received_at, 0);
    supervisor.received(0x7FFF_FFFF_FFFF_FFFF);
    assert_eq!(supervisor.last_received_position, 0x7FFF_FFFF_FFFF_FFFF);
    supervisor.received(2);
    assert_eq!(supervisor.last_received_position, 1);
}

#[test]
fn connection_errors_stand_on_stream_zero() {
    let error = connection_error("boom");
    assert_eq!(error, ErrorFrame::new(0, ErrorFrame::CONNECTION_ERROR, Some(Bytes::from("boom"))));
    let error = reject_setup(Code::UnsupportedSetup, "no such version");
    assert_eq!(
        error,
        ErrorFrame::new(0, ErrorFrame::UNSUPPORTED_SETUP, Some(Bytes::from("no such version")))
    );
    assert_eq!(reject_setup(Code::InvalidSetup, "").error_code(), ErrorFrame::INVALID_SETUP);
    assert_eq!(reject_setup(Code::RejectedSetup, "").error_code(), ErrorFrame::REJECTED_SETUP);
    let error = reject_resume("unknown token");
    assert_eq!(
        error,
        ErrorFrame::new(0, ErrorFrame::REJECTED_RESUME, Some(Bytes::from("unknown token")))
    );
}

#[test]
fn first_frame_of_a_connection() {
    let setup = SetupFrame::builder().set_keepalive_interval(500).build();
    assert_eq!(accept_first_frame(Frame::Setup(setup.clone())), Handshake::Setup(setup));
    let resume = ResumeFrame::new(Version::new(1, 0), Bytes::from("token"), 1, 2);
    assert_eq!(accept_first_frame(Frame::Resume(resume.clone())), Handshake::Resume(resume));
    for frame in [
        Frame::Keepalive(KeepaliveFrame::new(0, None, true)),
        Frame::Lease(LeaseFrame::new(1, 1, None)),
        Frame::Cancel(CancelFrame::new(1)),
        Frame::MetadataPush(MetadataPushFrame::new(Bytes::from("m"))),
    ] {
        match accept_first_frame(frame) {
            Handshake::Refused(error) => {
                assert_eq!(error.stream_id(), 0);
                assert_eq!(error.error_code(), ErrorFrame::CONNECTION_ERROR);
            }
            other => panic!("{:?}", other),
        }
    }
}

#[test]
fn lease_bounds_the_requests() {
    let mut open = Lease::new(false);
    assert!(open.acquire(0).is_ok());
    assert!(open.acquire(u64::MAX).is_ok());

    let mut lease = Lease::new(true);
    let refused = lease.acquire(0).unwrap_err();
    assert!(refused.is_rejected());

    on_lease_frame(&mut lease, &LeaseFrame::new(1_000, 2, None), 5_000);
    assert_eq!(lease.requests, 2);
    assert_eq!(lease.expires_at, 6_000);
    assert!(lease.acquire(5_000).is_ok());
    assert!(lease.acquire(5_999).is_ok());
    assert!(lease.acquire(5_999).unwrap_err().is_rejected());
    assert_eq!(lease.requests, 0);

    lease.on_lease(1_000, 5, 7_000);
    assert!(lease.acquire(8_000).unwrap_err().is_rejected());
    assert_eq!(lease.requests, 5);
    lease.on_lease(u32::MAX, 1, u64::MAX - 1);
    assert_eq!(lease.expires_at, u64::MAX);
}

#[test]
fn frames_find_their_way() {
    let request = Frame::RequestResponse(RequestResponseFrame::new(1, false, data("q")));
    let item = Frame::Payload(PayloadFrame::new(1, Flags::next(), data("a")));
    let keepalive = Frame::Keepalive(KeepaliveFrame::new(0, None, true));
    let connection_error = Frame::Error(ErrorFrame::new(0, ErrorFrame::CONNECTION_ERROR, None));

    assert_eq!(route(Role::Server, &keepalive, false, false), Route::Connection);
    assert_eq!(route(Role::Client, &connection_error, true, false), Route::Connection);
    assert_eq!(route(Role::Client, &item, true, false), Route::Stream);
    assert_eq!(route(Role::Client, &item, false, false), Route::Drop);
    assert_eq!(route(Role::Server, &request, false, false), Route::Open);
    assert_eq!(route(Role::Server, &request, true, false), Route::Stream);
    // A client opens the odd streams itself: a request on one breaks the protocol.
    assert_eq!(route(Role::Client, &request, false, false), Route::Invalid);
    let even = Frame::RequestFnf(RequestFnfFrame::new(2, false, data("q")));
    assert_eq!(route(Role::Client, &even, false, false), Route::Open);
    assert_eq!(route(Role::Server, &even, false, false), Route::Invalid);

    // A connection that is about to close lets its streams go on and opens no new one.
    assert_eq!(route(Role::Server, &request, false, true), Route::Refuse);
    assert_eq!(route(Role::Server, &request, true, true), Route::Stream);
    assert_eq!(route(Role::Server, &keepalive, false, true), Route::Connection);
    assert_eq!(route(Role::Client, &item, false, true), Route::Drop);
    assert_eq!(route(Role::Client, &request, false, true), Route::Invalid);
    assert_eq!(
        rejected(1, "closing"),
        ErrorFrame::new(1, ErrorFrame::REJECTED, Some(Bytes::from("closing")))
    );
    assert_eq!(
        connection_close("bye"),
        ErrorFrame::new(0, ErrorFrame::CONNECTION_CLOSE, Some(Bytes::from("bye")))
    );

    assert!(is_opened_by(Role::Client, 1));
    assert!(!is_opened_by(Role::Client, 2));
    assert!(is_opened_by(Role::Server, 2));
    assert!(!is_opened_by(Role::Server, 1));
    assert!(!is_opened_by(Role::Server, 0));
    assert!(!is_opened_by(Role::Client, 0));
}

#[test]
fn fire_and_forget_goes_out_whole_or_in_fragments() {
    let whole = fire_and_forget_frames(7, data("hello"), None);
    assert_eq!(whole, vec![Frame::RequestFnf(RequestFnfFrame::new(7, false, data("hello")))]);
    let short = fire_and_forget_frames(7, data("hello"), Some(5));
    assert_eq!(short, vec![Frame::RequestFnf(RequestFnfFrame::new(7, false, data("hello")))]);
    let empty = fire_and_forget_frames(7, Payload::new(None, None), Some(1));
    assert_eq!(
        empty,
        vec![Frame::RequestFnf(RequestFnfFrame::new(7, false, Payload::new(None, None)))]
    );
    let zero = fire_and_forget_frames(7, data("hello"), Some(0));
    assert_eq!(zero.len(), 1);

    let split = fire_and_forget_frames(7, data("hello"), Some(2));
    assert_eq!(
        split,
        vec![
            Frame::RequestFnf(RequestFnfFrame::new(7, true, data("he"))),
            Frame::Payload(PayloadFrame::new(7, Flags::next() | Flags::follows(), data("ll"))),
            Frame::Payload(PayloadFrame::new(7, Flags::next(), data("o"))),
        ]
    );
    assert_eq!(fragment(9, data("x"), true, true), split_first(9));
    assert_eq!(
        metadata_push_frame(Bytes::from("m")),
        Frame::MetadataPush(MetadataPushFrame::new(Bytes::from("m")))
    );
}

fn split_first(stream_id: u32) -> Frame {
    Frame::RequestFnf(RequestFnfFrame::new(stream_id, true, data("x")))
}

#[test]
fn stream_states_after_the_request() {
    assert_eq!(to_state_after_request(Interaction::FireAndForget, Side::Requester, false), StreamState::Closed);
    assert_eq!(to_state_after_request(Interaction::FireAndForget, Side::Responder, false), StreamState::Closed);
    assert_eq!(
        to_state_after_request(Interaction::RequestResponse, Side::Requester, false),
        StreamState::HalfClosedLocal
    );
    assert_eq!(
        to_state_after_request(Interaction::RequestStream, Side::Responder, false),
        StreamState::HalfClosedRemote
    );
    assert_eq!(to_state_after_request(Interaction::RequestChannel, Side::Requester, false), StreamState::Active);
    assert_eq!(
        to_state_after_request(Interaction::RequestChannel, Side::Responder, true),
        StreamState::HalfClosedRemote
    );
    assert!(StreamState::Active.is_receiving() && StreamState::Active.is_sending());
    assert!(StreamState::HalfClosedLocal.is_receiving());
    assert!(!StreamState::HalfClosedLocal.is_sending());
    assert!(StreamState::HalfClosedRemote.is_sending());
    assert!(!StreamState::Closed.is_receiving() && !StreamState::Idle.is_sending());
    assert_eq!(StreamState::Active.close_local(), StreamState::HalfClosedLocal);
    assert_eq!(StreamState::Active.close_remote(), StreamState::HalfClosedRemote);
    assert_eq!(StreamState::HalfClosedLocal.close_remote(), StreamState::Closed);
    assert_eq!(StreamState::HalfClosedRemote.close_local(), StreamState::Closed);
    assert_eq!(add_credit(1, 2), 3);
    assert_eq!(add_credit(0x7FFF_FFFF, 1), 0x7FFF_FFFF);
    assert_eq!(add_credit(5, u32::MAX), 0x7FFF_FFFF);
}

#[test]
fn a_stream_asks_only_once_and_only_well() {
    let mut stream = Stream::new(1, Interaction::RequestStream);
    assert_eq!(stream.state(), StreamState::Idle);
    assert_eq!(stream.side(), Side::Requester);
    assert_eq!(stream.kind(), Interaction::RequestStream);
    assert_eq!(stream.stream_id(), 1);
    assert_eq!(stream.request(0, data("q")), None);
    assert_eq!(stream.request(0x8000_0000, data("q")), None);
    assert_eq!(stream.state(), StreamState::Idle);
    assert_eq!(stream.cancel(), None);
    assert_eq!(stream.grant(1), None);
    let request = stream.request(3, data("q")).unwrap();
    assert_eq!(request, Frame::RequestStream(RequestStreamFrame::new(1, false, 3, data("q"))));
    assert_eq!(stream.state(), StreamState::Requesting);
    assert_eq!(stream.request(3, data("q")), None);
    assert_eq!(stream.cancel(), None);
    stream.on_written();
    assert_eq!(stream.state(), StreamState::HalfClosedLocal);
    stream.on_written();
    assert_eq!(stream.state(), StreamState::HalfClosedLocal);
    assert_eq!(stream.grant(0), None);
    assert_eq!(stream.grant(0x8000_0000), None);
    assert_eq!(stream.grant(4), Some(RequestNFrame::new(1, 4)));
    assert_eq!(stream.inbound_credit(), 7);

    let mut forget = Stream::new(5, Interaction::FireAndForget);
    let request = forget.request(0, data("bye")).unwrap();
    assert_eq!(request, Frame::RequestFnf(RequestFnfFrame::new(5, false, data("bye"))));
    forget.on_written();
    assert!(forget.is_closed());

    let mut channel = Stream::new(7, Interaction::RequestChannel);
    let request = channel.request(2, data("q")).unwrap();
    assert_eq!(
        request,
        Frame::RequestChannel(RequestChannelFrame::new(7, false, false, 2, data("q")))
    );
    channel.on_written();
    assert_eq!(channel.state(), StreamState::Active);
}

#[test]
fn breaches_of_the_protocol_end_the_stream() {
    let open = || {
        let mut stream = Stream::new(1, Interaction::RequestStream);
        stream.request(1, data("q")).unwrap();
        stream.on_written();
        stream
    };

    let mut stream = open();
    let bare = PayloadFrame::new(1, Flags::empty(), data("x"));
    assert_eq!(
        stream.on_frame(Frame::Payload(bare)),
        Reaction::Violation(invalid(1, NO_NEXT_OR_COMPLETE))
    );
    assert!(stream.is_closed());
    assert_eq!(invalid(1, NO_NEXT_OR_COMPLETE).error_code(), ErrorFrame::INVALID);

    let mut stream = open();
    let item = || Frame::Payload(PayloadFrame::new(1, Flags::next(), data("x")));
    assert_eq!(stream.on_frame(item()), Reaction::Next(data("x")));
    assert_eq!(stream.on_frame(item()), Reaction::Violation(invalid(1, NO_CREDIT)));
    assert!(stream.is_closed());
    assert_eq!(stream.on_frame(item()), Reaction::Dropped);

    let mut stream = open();
    let request = Frame::RequestStream(RequestStreamFrame::new(1, false, 1, data("q")));
    assert_eq!(stream.on_frame(request), Reaction::Violation(invalid(1, UNEXPECTED_REQUEST)));

    let mut response = Stream::new(1, Interaction::RequestResponse);
    response.request(0, data("q")).unwrap();
    response.on_written();
    assert_eq!(response.on_frame(item()), Reaction::Violation(invalid(1, NOT_COMPLETE)));

    let (server, _) =
        Stream::accept(Frame::RequestStream(RequestStreamFrame::new(1, false, 1, data("q"))));
    let mut server = server.unwrap();
    // A REQUEST_N frame cannot be made to ask for nothing: the greatest bit is cut.
    let none = RequestNFrame::new(1, 0x8000_0000);
    assert_eq!(none.request_n(), 0);
    assert_eq!(
        server.on_frame(Frame::RequestN(none)),
        Reaction::Violation(invalid(1, ZERO_REQUEST_N))
    );
    assert!(server.is_closed());

    let (none, reaction) =
        Stream::accept(Frame::RequestStream(RequestStreamFrame::new(1, false, 0, data("q"))));
    assert!(none.is_none());
    assert_eq!(reaction, Reaction::Violation(invalid(1, ZERO_REQUEST_N)));
    let (none, reaction) = Stream::accept(Frame::Cancel(CancelFrame::new(1)));
    assert!(none.is_none());
    assert_eq!(reaction, Reaction::Dropped);
}

#[test]
fn errors_and_the_end_of_the_connection() {
    let mut stream = Stream::new(1, Interaction::RequestStream);
    stream.request(1, data("q")).unwrap();
    stream.on_written();
    let error = ErrorFrame::new(1, ErrorFrame::APPLICATION_ERROR, Some(Bytes::from("no")));
    assert_eq!(stream.on_frame(Frame::Error(error.clone())), Reaction::Failed(error.clone()));
    assert!(stream.is_closed());
    assert_eq!(stream.on_frame(Frame::Error(error)), Reaction::Dropped);
    assert_eq!(stream.shutdown(), Reaction::Dropped);
    assert_eq!(stream.fail(ErrorFrame::APPLICATION_ERROR, None), None);

    let mut stream = Stream::new(3, Interaction::RequestStream);
    stream.request(1, data("q")).unwrap();
    stream.on_written();
    assert_eq!(
        stream.shutdown(),
        Reaction::Failed(ErrorFrame::new(3, ErrorFrame::CANCELED, None))
    );
    assert!(stream.is_closed());

    let (server, _) =
        Stream::accept(Frame::RequestResponse(RequestResponseFrame::new(5, false, data("q"))));
    let mut server = server.unwrap();
    assert_eq!(server.side(), Side::Responder);
    assert_eq!(
        server.fail(ErrorFrame::APPLICATION_ERROR, Some(Bytes::from("the handler failed"))),
        Some(ErrorFrame::new(
            5,
            ErrorFrame::APPLICATION_ERROR,
            Some(Bytes::from("the handler failed"))
        ))
    );
    assert!(server.is_closed());

    // A frame of another stream is passed over.
    let mut stream = Stream::new(1, Interaction::RequestStream);
    stream.request(1, data("q")).unwrap();
    stream.on_written();
    let other = Frame::Payload(PayloadFrame::new(3, Flags::next(), data("x")));
    assert_eq!(stream.on_frame(other), Reaction::Dropped);
    assert_eq!(stream.inbound_credit(), 1);
}

#[test]
fn a_channel_runs_both_ways() {
    let mut client = Stream::new(1, Interaction::RequestChannel);
    let request = client.request(1, data("first")).unwrap();
    client.on_written();
    let (server, reaction) = Stream::accept(request);
    let mut server = server.unwrap();
    assert_eq!(reaction, Reaction::Request(data("first")));
    assert_eq!(server.state(), StreamState::Active);

    // The client may send only what the server has granted.
    assert_eq!(client.emit(data("more"), false), Err(data("more")));
    let grant = server.grant(2).unwrap();
    assert_eq!(client.on_frame(Frame::RequestN(grant)), Reaction::Credit(2));
    let more = client.emit(data("more"), false).unwrap();
    assert_eq!(server.on_frame(Frame::Payload(more)), Reaction::Next(data("more")));

    let answer = server.emit(data("answer"), false).unwrap();
    assert_eq!(client.on_frame(Frame::Payload(answer)), Reaction::Next(data("answer")));

    let done = client.complete().unwrap();
    assert_eq!(done, PayloadFrame::new(1, Flags::complete(), Payload::new(None, None)));
    assert_eq!(client.state(), StreamState::HalfClosedLocal);
    assert_eq!(client.complete(), None);
    assert_eq!(server.on_frame(Frame::Payload(done)), Reaction::Complete);
    assert_eq!(server.state(), StreamState::HalfClosedRemote);

    // The server tells a client that still sends to stop.
    let mut client = Stream::new(3, Interaction::RequestChannel);
    let request = client.request(1, data("first")).unwrap();
    client.on_written();
    let mut server = Stream::accept(request).0.unwrap();
    let stop = server.cancel().unwrap();
    assert_eq!(server.state(), StreamState::HalfClosedRemote);
    assert_eq!(client.on_frame(Frame::Cancel(stop)), Reaction::Cancelled);
    assert_eq!(client.state(), StreamState::HalfClosedLocal);
    // In a request for a stream the responder has nothing to cancel.
    let mut server = Stream::accept(Frame::RequestStream(RequestStreamFrame::new(
        5,
        false,
        1,
        data("q"),
    )))
    .0
    .unwrap();
    assert_eq!(server.cancel(), None);
}

#[test]
fn fragments_of_a_response_are_put_together() {
    let mut stream = Stream::new(1, Interaction::RequestResponse);
    stream.request(0, data("q")).unwrap();
    stream.on_written();
    let part = |flags: Flags, metadata: Option<&'static str>, text: Option<&'static str>| {
        Frame::Payload(PayloadFrame::new(
            1,
            flags,
            Payload::new(metadata.map(Bytes::from), text.map(Bytes::from)),
        ))
    };
    let more = Flags::next() | Flags::follows();
    assert_eq!(stream.on_frame(part(more, Some("me"), Some("da"))), Reaction::Buffered);
    assert_eq!(stream.on_frame(part(more, Some("ta"), None)), Reaction::Buffered);
    assert_eq!(stream.inbound_credit(), 1);
    assert_eq!(
        stream.on_frame(part(Flags::next() | Flags::complete(), None, Some("ta"))),
        Reaction::NextAndComplete(Payload::new(
            Some(Bytes::from("meta")),
            Some(Bytes::from("data"))
        ))
    );
    assert!(stream.is_closed());
}
