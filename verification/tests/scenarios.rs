use binate::connection::handshake::{accept_first_frame, Handshake, SETUP_EXPECTED};
use binate::connection::keepalive::{KeepaliveSupervisor, KeepaliveVerdict, KEEPALIVE_TIMEOUT};
use binate::connection::socket::fire_and_forget_frames;
use binate::connection::stream::{Interaction, Reaction, Stream, StreamState};
use binate::connection::ConnectionStatus;
use binate::frame::codec::{CancelFrame, ErrorFrame, PayloadFrame, RequestResponseFrame};
use binate::frame::{Encode, Flags, Frame, Payload};
use bytes::Bytes;

fn payload(metadata: Option<&'static str>, data: Option<&'static str>) -> Payload {
    Payload::new(metadata.map(Bytes::from), data.map(Bytes::from))
}

fn over_the_wire(frame: Frame) -> Frame {
    let mut bytes = frame.to_bytes();
    let decoded = Frame::decode(&mut bytes).unwrap();
    assert_eq!(bytes.len(), 0);
    assert_eq!(decoded, frame);
    decoded
}

#[test]
fn request_response_happy_path() {
    let mut client = Stream::new(1, Interaction::RequestResponse);
    let request = client.request(0, payload(Some("m"), Some("d"))).unwrap();
    assert_eq!(
        request,
        Frame::RequestResponse(RequestResponseFrame::new(1, false, payload(Some("m"), Some("d"))))
    );
    client.on_written();
    assert_eq!(client.state(), StreamState::HalfClosedLocal);

    let (server, reaction) = Stream::accept(over_the_wire(request));
    let mut server = server.unwrap();
    assert_eq!(reaction, Reaction::Request(payload(Some("m"), Some("d"))));

    let response = server.emit(payload(Some("m2"), Some("d2")), true).unwrap();
    assert_eq!(
        response,
        PayloadFrame::new(
            1,
            Flags::metadata() | Flags::next() | Flags::complete(),
            payload(Some("m2"), Some("d2"))
        )
    );
    assert!(server.is_closed());

    let observed = client.on_frame(over_the_wire(Frame::Payload(response)));
    assert_eq!(observed, Reaction::NextAndComplete(payload(Some("m2"), Some("d2"))));
    assert!(client.is_closed());

    let again = PayloadFrame::new(1, Flags::next() | Flags::complete(), payload(None, Some("x")));
    assert_eq!(client.on_frame(Frame::Payload(again)), Reaction::Dropped);
}

#[test]
fn request_stream_with_credit() {
    let mut client = Stream::new(1, Interaction::RequestStream);
    let request = client.request(2, payload(None, Some("q"))).unwrap();
    client.on_written();
    assert_eq!(client.inbound_credit(), 2);

    let (server, reaction) = Stream::accept(over_the_wire(request));
    let mut server = server.unwrap();
    assert_eq!(reaction, Reaction::Request(payload(None, Some("q"))));
    assert_eq!(server.outbound_credit(), 2);

    let mut observed = Vec::new();
    let a = server.emit(payload(None, Some("a")), false).unwrap();
    assert_eq!(a, PayloadFrame::new(1, Flags::next(), payload(None, Some("a"))));
    observed.push(client.on_frame(over_the_wire(Frame::Payload(a))));
    let b = server.emit(payload(None, Some("b")), false).unwrap();
    observed.push(client.on_frame(over_the_wire(Frame::Payload(b))));

    // The credit is used up: the server stops.
    assert_eq!(server.outbound_credit(), 0);
    assert_eq!(server.emit(payload(None, Some("c")), true), Err(payload(None, Some("c"))));
    assert_eq!(client.inbound_credit(), 0);

    let more = client.grant(1).unwrap();
    assert_eq!(more.stream_id(), 1);
    assert_eq!(more.request_n(), 1);
    assert_eq!(server.on_frame(over_the_wire(Frame::RequestN(more))), Reaction::Credit(1));

    let c = server.emit(payload(None, Some("c")), true).unwrap();
    assert_eq!(
        c,
        PayloadFrame::new(1, Flags::next() | Flags::complete(), payload(None, Some("c")))
    );
    observed.push(client.on_frame(over_the_wire(Frame::Payload(c))));

    assert_eq!(
        observed,
        vec![
            Reaction::Next(payload(None, Some("a"))),
            Reaction::Next(payload(None, Some("b"))),
            Reaction::NextAndComplete(payload(None, Some("c"))),
        ]
    );
    assert!(client.is_closed());
    assert!(server.is_closed());
}

#[test]
fn cancel() {
    let mut client = Stream::new(3, Interaction::RequestStream);
    let request = client.request(10, payload(None, Some("q"))).unwrap();
    client.on_written();
    let (server, _) = Stream::accept(over_the_wire(request));
    let mut server = server.unwrap();

    let x = server.emit(payload(None, Some("x")), false).unwrap();
    assert_eq!(
        client.on_frame(over_the_wire(Frame::Payload(x))),
        Reaction::Next(payload(None, Some("x")))
    );

    let cancel = client.cancel().unwrap();
    assert_eq!(cancel, CancelFrame::new(3));
    assert!(client.is_closed());

    // Whatever still comes on the stream is dropped by the client.
    let y = server.emit(payload(None, Some("y")), false).unwrap();
    assert_eq!(client.on_frame(Frame::Payload(y)), Reaction::Dropped);
    let end = server.emit(payload(None, Some("z")), true).unwrap();
    assert_eq!(client.on_frame(Frame::Payload(end)), Reaction::Dropped);
    let error = ErrorFrame::new(3, ErrorFrame::APPLICATION_ERROR, None);
    assert_eq!(client.on_frame(Frame::Error(error)), Reaction::Dropped);
    assert_eq!(client.cancel(), None);

    // The server stops when the CANCEL reaches it, whenever that is.
    let mut late = Stream::accept(Frame::RequestStream(
        binate::frame::codec::RequestStreamFrame::new(3, false, 10, payload(None, Some("q"))),
    ))
    .0
    .unwrap();
    assert_eq!(late.on_frame(over_the_wire(Frame::Cancel(cancel))), Reaction::Cancelled);
    assert!(late.is_closed());
    assert_eq!(late.emit(payload(None, Some("y")), false), Err(payload(None, Some("y"))));
}

#[test]
fn keepalive_timeout() {
    let supervisor = KeepaliveSupervisor::new(100, 300, 0);
    assert_eq!(supervisor.check(0), KeepaliveVerdict::Alive);
    assert_eq!(supervisor.check(300), KeepaliveVerdict::Alive);
    match supervisor.check(301) {
        KeepaliveVerdict::TimedOut(status, frame) => {
            assert_eq!(status, ConnectionStatus::Error("keepalive timeout".to_string()));
            assert_eq!(frame.stream_id(), 0);
            assert_eq!(frame.error_code(), ErrorFrame::CONNECTION_ERROR);
            assert_eq!(frame.data_utf8(), Some(KEEPALIVE_TIMEOUT));
            over_the_wire(Frame::Error(frame));
        }
        KeepaliveVerdict::Alive => panic!("the connection has timed out"),
    }
}

#[test]
fn fragmentation() {
    let whole = payload(Some("metadata"), Some("data payload"));
    let mut chunks = whole.clone().chunks(4);
    assert_eq!(chunks.len(), 3);
    assert_eq!(chunks.next(), Some(payload(Some("meta"), Some("data"))));
    assert_eq!(chunks.next(), Some(payload(Some("data"), Some(" pay"))));
    assert_eq!(chunks.next(), Some(payload(None, Some("load"))));
    assert_eq!(chunks.next(), None);

    let frames = fire_and_forget_frames(5, whole, Some(4));
    assert_eq!(frames.len(), 3);
    match &frames[0] {
        Frame::RequestFnf(f) => {
            assert!(f.is_follows());
            assert_eq!(f.stream_id(), 5);
            assert_eq!(f.clone().payload(), payload(Some("meta"), Some("data")));
        }
        other => panic!("{:?}", other),
    }
    match &frames[1] {
        Frame::Payload(f) => {
            assert!(f.is_follows());
            assert!(f.is_next());
            assert_eq!(f.stream_id(), 5);
            assert_eq!(f.clone().payload(), payload(Some("data"), Some(" pay")));
        }
        other => panic!("{:?}", other),
    }
    match &frames[2] {
        Frame::Payload(f) => {
            assert!(!f.is_follows());
            assert!(f.is_next());
            assert_eq!(f.clone().payload(), payload(None, Some("load")));
        }
        other => panic!("{:?}", other),
    }

    // The responder puts the fragments together again.
    let mut frames = frames.into_iter().map(over_the_wire);
    let (stream, reaction) = Stream::accept(frames.next().unwrap());
    let mut stream = stream.unwrap();
    assert_eq!(reaction, Reaction::Buffered);
    assert_eq!(stream.state(), StreamState::Requesting);
    assert_eq!(stream.on_frame(frames.next().unwrap()), Reaction::Buffered);
    assert_eq!(
        stream.on_frame(frames.next().unwrap()),
        Reaction::Request(payload(Some("metadata"), Some("data payload")))
    );
    assert!(stream.is_closed());
}

#[test]
fn bad_setup() {
    let first = Frame::RequestResponse(RequestResponseFrame::new(1, false, payload(None, None)));
    match accept_first_frame(over_the_wire(first)) {
        Handshake::Refused(error) => {
            assert_eq!(error.stream_id(), 0);
            assert_eq!(error.error_code(), ErrorFrame::CONNECTION_ERROR);
            assert_eq!(error.data_utf8(), Some(SETUP_EXPECTED));
            over_the_wire(Frame::Error(error));
        }
        other => panic!("{:?}", other),
    }
}
