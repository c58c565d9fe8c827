//! Where the frames of a connection go.
use crate::connection::conn::Role;
use crate::frame::{Frame, FrameType, FrameView};
use crate::frame::buf::bytes_from_string;
use crate::frame::codec::error::ErrorFrameView;
use crate::frame::codec::ErrorFrame;
use crate::frame::visit::{lemma_mask_u31, MAX_U31};
use vstd::prelude::*;
use vstd::string::StringSliceAdditionalSpecFns;

verus! {

/// Where a frame goes.
#[derive(Debug, Clone, Copy, PartialEq, Eq, Structural)]
pub enum Route {
    /// To the connection itself: the frame stands on stream 0.
    Connection,
    /// To the stream that the frame names, which is under way.
    Stream,
    /// To a new stream, which the frame opens with a request.
    Open,
    /// Nowhere: the frame names a stream that is not known, and is passed over.
    Drop,
    /// Nowhere: the frame is a request that names a stream which this side
    /// would have had to open itself. The ID of a stream that a client
    /// opens is odd, and that of a stream that a server opens is even.
    Invalid,
    /// Nowhere: the frame is a request, and the connection is about to
    /// close and takes no new one.
    Refuse,
}

/// Whether a frame of this type is a request, which opens a stream.
pub open spec fn is_request(frame_type: FrameType) -> bool {
    ||| frame_type == FrameType::REQUEST_RESPONSE
    ||| frame_type == FrameType::REQUEST_FNF
    ||| frame_type == FrameType::REQUEST_STREAM
    ||| frame_type == FrameType::REQUEST_CHANNEL
}

/// Whether `stream_id` is one that the side with the role `role` opens: a
/// client's are odd, a server's are even and above 0.
pub open spec fn opened_by(role: Role, stream_id: u32) -> bool {
    match role {
        Role::Client => stream_id % 2 == 1,
        Role::Server => stream_id % 2 == 0 && stream_id != 0,
    }
}

/// Where `frame` goes on the connection of the side with the role `role`,
/// where `known` says whether the stream that it names is under way, and
/// `closing` whether the connection is about to close: then the streams
/// under way go on, and no new one is opened.
pub open spec fn route_of(role: Role, frame: FrameView, known: bool, closing: bool) -> Route {
    if frame.stream_id() == 0 {
        Route::Connection
    } else if known {
        Route::Stream
    } else if is_request(frame.frame_type()) {
        if opened_by(role, frame.stream_id()) {
            Route::Invalid
        } else if closing {
            Route::Refuse
        } else {
            Route::Open
        }
    } else {
        Route::Drop
    }
}

/// Returns true if `stream_id` is one that the side with the role `role` opens.
pub fn is_opened_by(role: Role, stream_id: u32) -> (r: bool)
    ensures
        r == opened_by(role, stream_id),
{
    match role {
        Role::Client => stream_id % 2 == 1,
        Role::Server => stream_id % 2 == 0 && stream_id != 0,
    }
}

/// Says where `frame` goes: see `route_of`.
pub fn route(role: Role, frame: &Frame, known: bool, closing: bool) -> (r: Route)
    ensures
        r == route_of(role, frame@, known, closing),
{
    let stream_id = frame.stream_id();
    if stream_id == 0 {
        return Route::Connection;
    }
    if known {
        return Route::Stream;
    }
    match frame.frame_type() {
        FrameType::REQUEST_RESPONSE
        | FrameType::REQUEST_FNF
        | FrameType::REQUEST_STREAM
        | FrameType::REQUEST_CHANNEL => {
            if is_opened_by(role, stream_id) {
                Route::Invalid
            } else if closing {
                Route::Refuse
            } else {
                Route::Open
            }
        },
        _ => Route::Drop,
    }
}

/// The ERROR frame that turns a request down: it stands on the stream of the
/// request, its code is REJECTED, and its data says why.
pub fn rejected(stream_id: u32, reason: &str) -> (r: ErrorFrame)
    ensures
        r@ == (ErrorFrameView {
            stream_id: stream_id & MAX_U31,
            code: ErrorFrame::REJECTED,
            data: Some(reason.spec_bytes()),
        }),
{
    ErrorFrame::new(stream_id, ErrorFrame::REJECTED, Some(bytes_from_string(reason.to_owned())))
}

/// The ERROR frame that says that the connection is about to close: it
/// stands on stream 0, its code is CONNECTION_CLOSE, and its data says why.
/// The streams under way go on to their end; no new one is opened.
pub fn connection_close(reason: &str) -> (r: ErrorFrame)
    ensures
        r@ == (ErrorFrameView {
            stream_id: 0,
            code: ErrorFrame::CONNECTION_CLOSE,
            data: Some(reason.spec_bytes()),
        }),
{
    proof {
        lemma_mask_u31(0);
    }
    ErrorFrame::new(
        0,
        ErrorFrame::CONNECTION_CLOSE,
        Some(bytes_from_string(reason.to_owned())),
    )
}

} // verus!
