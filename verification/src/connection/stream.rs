//! The streams of a connection: one automaton for each.
//!
//! A stream takes the frames that the peer sends on it, and what its own
//! side does, and says what follows: what goes to the user, what is sent,
//! and what state the stream is in afterwards.
use bytes::{Bytes, BytesMut};
use crate::frame::{Frame, FrameView};
use crate::frame::buf::{
    bytes_from_string, bytes_len, bytes_mut_len, bytes_mut_new, contents, freeze, opt_contents,
    opt_len, put_slice, written,
};
use crate::frame::codec::{
    CancelFrame, ErrorFrame, PayloadFrame, RequestChannelFrame, RequestFnfFrame, RequestNFrame,
    RequestResponseFrame, RequestStreamFrame,
};
use crate::frame::codec::cancel::CancelFrameView;
use crate::frame::codec::error::ErrorFrameView;
use crate::frame::codec::payload::PayloadFrameView;
use crate::frame::codec::request_channel::RequestChannelFrameView;
use crate::frame::codec::request_fnf::RequestFnfFrameView;
use crate::frame::codec::request_n::RequestNFrameView;
use crate::frame::codec::request_response::RequestResponseFrameView;
use crate::frame::codec::request_stream::RequestStreamFrameView;
use crate::frame::encode::buffer_limit;
use crate::frame::flags::{request_flags, Flags, COMPLETE_BIT, FOLLOWS_BIT, NEXT_BIT};
use crate::frame::visit::{lemma_mask_u31, MAX_U31};
use crate::payload::{Payload, PayloadView};
use vstd::prelude::*;
use vstd::string::StringSliceAdditionalSpecFns;

verus! {

/// The interaction models.
#[derive(Debug, Clone, Copy, PartialEq, Eq, Structural)]
pub enum Interaction {
    /// A single one-way message.
    FireAndForget,
    /// A request that is answered by one response.
    RequestResponse,
    /// A request that is answered by a stream of responses.
    RequestStream,
    /// Streams of payloads in both directions.
    RequestChannel,
}

/// The side of a stream.
#[derive(Debug, Clone, Copy, PartialEq, Eq, Structural)]
pub enum Side {
    /// The side that asked.
    Requester,
    /// The side that answers.
    Responder,
}

/// The states of a stream.
#[derive(Debug, Clone, Copy, PartialEq, Eq, Structural)]
pub enum StreamState {
    /// Nothing was sent or received yet.
    Idle,
    /// The request is on its way: handed out to be written, or received in
    /// part.
    Requesting,
    /// Payloads may go both ways.
    Active,
    /// The peer sends no more payloads; this side still may.
    HalfClosedRemote,
    /// This side sends no more payloads; the peer still may.
    HalfClosedLocal,
    /// The stream has ended.
    Closed,
}

impl StreamState {
    /// Whether payloads of the peer are still taken.
    pub open spec fn receives(self) -> bool {
        self == StreamState::Active || self == StreamState::HalfClosedLocal
    }

    /// Whether this side may still send payloads.
    pub open spec fn sends(self) -> bool {
        self == StreamState::Active || self == StreamState::HalfClosedRemote
    }

    /// The state after the peer's direction has ended.
    pub open spec fn remote_closed(self) -> StreamState {
        match self {
            StreamState::Active => StreamState::HalfClosedRemote,
            StreamState::HalfClosedRemote => StreamState::HalfClosedRemote,
            StreamState::Idle => StreamState::Idle,
            StreamState::Requesting => StreamState::Requesting,
            _ => StreamState::Closed,
        }
    }

    /// The state after this side's direction has ended.
    pub open spec fn local_closed(self) -> StreamState {
        match self {
            StreamState::Active => StreamState::HalfClosedLocal,
            StreamState::HalfClosedLocal => StreamState::HalfClosedLocal,
            StreamState::Idle => StreamState::Idle,
            StreamState::Requesting => StreamState::Requesting,
            _ => StreamState::Closed,
        }
    }

    /// Returns true if payloads of the peer are still taken.
    pub fn is_receiving(self) -> (r: bool)
        ensures
            r == self.receives(),
    {
        match self {
            StreamState::Active | StreamState::HalfClosedLocal => true,
            _ => false,
        }
    }

    /// Returns true if this side may still send payloads.
    pub fn is_sending(self) -> (r: bool)
        ensures
            r == self.sends(),
    {
        match self {
            StreamState::Active | StreamState::HalfClosedRemote => true,
            _ => false,
        }
    }

    /// Returns the state after the peer's direction has ended.
    pub fn close_remote(self) -> (r: StreamState)
        ensures
            r == self.remote_closed(),
    {
        match self {
            StreamState::Active => StreamState::HalfClosedRemote,
            StreamState::HalfClosedRemote => StreamState::HalfClosedRemote,
            StreamState::Idle => StreamState::Idle,
            StreamState::Requesting => StreamState::Requesting,
            _ => StreamState::Closed,
        }
    }

    /// Returns the state after this side's direction has ended.
    pub fn close_local(self) -> (r: StreamState)
        ensures
            r == self.local_closed(),
    {
        match self {
            StreamState::Active => StreamState::HalfClosedLocal,
            StreamState::HalfClosedLocal => StreamState::HalfClosedLocal,
            StreamState::Idle => StreamState::Idle,
            StreamState::Requesting => StreamState::Requesting,
            _ => StreamState::Closed,
        }
    }
}

/// The state that a stream is in once its request has been sent, or
/// received, whole. A fire-and-forget request ends the stream. After a
/// request for a response or for a stream only the responder sends
/// payloads. In a channel both sides do, unless the requester has said with
/// its request that it is done.
pub open spec fn state_after_request(kind: Interaction, side: Side, complete: bool) -> StreamState {
    match kind {
        Interaction::FireAndForget => StreamState::Closed,
        Interaction::RequestResponse | Interaction::RequestStream => match side {
            Side::Requester => StreamState::HalfClosedLocal,
            Side::Responder => StreamState::HalfClosedRemote,
        },
        Interaction::RequestChannel => if complete {
            match side {
                Side::Requester => StreamState::HalfClosedLocal,
                Side::Responder => StreamState::HalfClosedRemote,
            }
        } else {
            StreamState::Active
        },
    }
}

/// Computes `state_after_request`.
pub fn to_state_after_request(kind: Interaction, side: Side, complete: bool) -> (r: StreamState)
    ensures
        r == state_after_request(kind, side, complete),
{
    match kind {
        Interaction::FireAndForget => StreamState::Closed,
        Interaction::RequestResponse | Interaction::RequestStream => match side {
            Side::Requester => StreamState::HalfClosedLocal,
            Side::Responder => StreamState::HalfClosedRemote,
        },
        Interaction::RequestChannel => if complete {
            match side {
                Side::Requester => StreamState::HalfClosedLocal,
                Side::Responder => StreamState::HalfClosedRemote,
            }
        } else {
            StreamState::Active
        },
    }
}

/// Credit that grows by `n`, up to the greatest 31-bit number.
pub open spec fn credit_plus(credit: u32, n: u32) -> u32 {
    if credit + n > MAX_U31 {
        MAX_U31
    } else {
        (credit + n) as u32
    }
}

/// Computes `credit_plus`.
pub fn add_credit(credit: u32, n: u32) -> (r: u32)
    ensures
        r == credit_plus(credit, n),
{
    if n > MAX_U31 || credit > MAX_U31 - n {
        MAX_U31
    } else {
        credit + n
    }
}

/// Two parts of a payload put together: absent where both are.
pub open spec fn joined(head: Option<Seq<u8>>, tail: Option<Seq<u8>>) -> Option<Seq<u8>> {
    match (head, tail) {
        (None, None) => None,
        (Some(h), None) => Some(h),
        (None, Some(t)) => Some(t),
        (Some(h), Some(t)) => Some(h + t),
    }
}

/// Two payloads put together, part by part.
pub open spec fn joined_payload(head: PayloadView, tail: PayloadView) -> PayloadView {
    PayloadView {
        metadata: joined(head.metadata, tail.metadata),
        data: joined(head.data, tail.data),
    }
}

/// Whether `tail` can be put behind `head` within what a buffer can hold.
pub open spec fn fits_behind(head: Option<Seq<u8>>, tail: Option<Seq<u8>>) -> bool {
    tail is None || opt_len(head) + opt_len(tail) <= isize::MAX
}

/// Whether the payload `tail` can be put behind `head`, part by part.
pub open spec fn joinable(head: PayloadView, tail: PayloadView) -> bool {
    fits_behind(head.metadata, tail.metadata) && fits_behind(head.data, tail.data)
}

/// Whether `tail` can be handed out behind `head`: where there is no head,
/// the tail is handed out as it is.
pub open spec fn ends(head: Option<Seq<u8>>, tail: Option<Seq<u8>>) -> bool {
    head is None || fits_behind(head, tail)
}

/// Whether the payload `tail` can be handed out behind `head`, part by part.
pub open spec fn endable(head: PayloadView, tail: PayloadView) -> bool {
    ends(head.metadata, tail.metadata) && ends(head.data, tail.data)
}

/// What the bytes written so far are, if there is a buffer.
pub open spec fn opt_written(o: Option<BytesMut>) -> Option<Seq<u8>> {
    match o {
        Some(b) => Some(written(b)),
        None => None,
    }
}

/// Puts `part` behind what `pending` holds, if it fits; says whether it did.
fn append_part(pending: &mut Option<BytesMut>, part: Option<Bytes>) -> (r: bool)
    ensures
        r == fits_behind(opt_written(*old(pending)), opt_contents(part)),
        r ==> opt_written(*final(pending)) == joined(
            opt_written(*old(pending)),
            opt_contents(part),
        ),
        !r ==> opt_written(*final(pending)) == opt_written(*old(pending)),
{
    match part {
        None => true,
        Some(bytes) => {
            let was_pending = pending.is_some();
            let mut buffer = match pending.take() {
                Some(buffer) => buffer,
                None => bytes_mut_new(),
            };
            let fits = bytes_len(&bytes) <= buffer_limit() && bytes_mut_len(&buffer)
                <= buffer_limit() - bytes_len(&bytes);
            if fits {
                put_slice(&mut buffer, &bytes);
                assert(Seq::<u8>::empty() + contents(bytes) =~= contents(bytes));
                *pending = Some(buffer);
                true
            } else {
                if was_pending {
                    *pending = Some(buffer);
                }
                false
            }
        },
    }
}

/// Hands out what `pending` holds with `part` behind it, and leaves
/// `pending` empty; `None` where `part` does not fit, and then `pending` is
/// as it was.
fn finish_part(pending: &mut Option<BytesMut>, part: Option<Bytes>) -> (r: Option<Option<Bytes>>)
    ensures
        r is Some <==> ends(opt_written(*old(pending)), opt_contents(part)),
        r matches Some(whole) ==> opt_contents(whole) == joined(
            opt_written(*old(pending)),
            opt_contents(part),
        ) && *final(pending) is None,
        r is None ==> opt_written(*final(pending)) == opt_written(*old(pending)),
{
    if pending.is_none() {
        return Some(part);
    }
    if append_part(pending, part) {
        match pending.take() {
            Some(buffer) => Some(Some(freeze(buffer))),
            None => Some(None),
        }
    } else {
        None
    }
}

/// Said of a PAYLOAD frame that holds neither NEXT nor COMPLETE.
pub const NO_NEXT_OR_COMPLETE: &'static str = "PAYLOAD without NEXT or COMPLETE";

/// Said of a REQUEST_N frame, or of a request, that asks for no item.
pub const ZERO_REQUEST_N: &'static str = "request for 0 items";

/// Said of a payload that comes though no credit is left for it.
pub const NO_CREDIT: &'static str = "PAYLOAD beyond the credit granted";

/// Said of the response to a request for one response that does not
/// complete the stream.
pub const NOT_COMPLETE: &'static str = "response without COMPLETE";

/// Said of a request that comes on a stream that is under way.
pub const UNEXPECTED_REQUEST: &'static str = "request on a stream that is under way";

/// Said of fragments that are together more than a buffer holds.
pub const TOO_LARGE: &'static str = "payload too large";

/// What a stream makes of a frame.
#[derive(Debug, Clone, PartialEq, Eq)]
pub enum Reaction {
    /// The frame is passed over.
    Dropped,
    /// The frame held a fragment, which waits for those that follow.
    Buffered,
    /// The request that opens the stream has come whole: it goes to the
    /// user's responder.
    Request(Payload),
    /// An item for the user.
    Next(Payload),
    /// An item for the user, and the last: the peer's direction has ended.
    NextAndComplete(Payload),
    /// The peer's direction has ended.
    Complete,
    /// The peer has ended the stream with this ERROR frame.
    Failed(ErrorFrame),
    /// The peer grants this side so many more items to send.
    Credit(u32),
    /// The peer wants no more items of this side.
    Cancelled,
    /// The peer broke the protocol: the stream has ended, and this ERROR
    /// frame is to be sent.
    Violation(ErrorFrame),
}

/// What a `Reaction` holds.
pub ghost enum ReactionView {
    Dropped,
    Buffered,
    Request(PayloadView),
    Next(PayloadView),
    NextAndComplete(PayloadView),
    Complete,
    Failed(ErrorFrameView),
    Credit(u32),
    Cancelled,
    Violation(ErrorFrameView),
}

impl View for Reaction {
    type V = ReactionView;

    open spec fn view(&self) -> ReactionView {
        match self {
            Reaction::Dropped => ReactionView::Dropped,
            Reaction::Buffered => ReactionView::Buffered,
            Reaction::Request(p) => ReactionView::Request(p@),
            Reaction::Next(p) => ReactionView::Next(p@),
            Reaction::NextAndComplete(p) => ReactionView::NextAndComplete(p@),
            Reaction::Complete => ReactionView::Complete,
            Reaction::Failed(f) => ReactionView::Failed(f@),
            Reaction::Credit(n) => ReactionView::Credit(*n),
            Reaction::Cancelled => ReactionView::Cancelled,
            Reaction::Violation(f) => ReactionView::Violation(f@),
        }
    }
}

/// The ERROR frame that answers a breach of the protocol on a stream: its
/// code is INVALID, and its data says what was wrong.
pub open spec fn invalid_frame(stream_id: u32, reason: &str) -> ErrorFrameView {
    ErrorFrameView {
        stream_id: stream_id & MAX_U31,
        code: ErrorFrame::INVALID,
        data: Some(reason.spec_bytes()),
    }
}

/// Makes the ERROR frame that answers a breach of the protocol.
pub fn invalid(stream_id: u32, reason: &str) -> (r: ErrorFrame)
    ensures
        r@ == invalid_frame(stream_id, reason),
{
    ErrorFrame::new(stream_id, ErrorFrame::INVALID, Some(bytes_from_string(reason.to_owned())))
}

/// A payload with no part.
pub open spec fn no_payload() -> PayloadView {
    PayloadView { metadata: None, data: None }
}

/// One stream of a connection, as one side sees it.
#[derive(Debug)]
pub struct Stream {
    stream_id: u32,
    kind: Interaction,
    side: Side,
    state: StreamState,
    inbound_credit: u32,
    outbound_credit: u32,
    pending_metadata: Option<BytesMut>,
    pending_data: Option<BytesMut>,
}

/// What a `Stream` holds.
pub ghost struct StreamView {
    /// The ID of the stream.
    pub stream_id: u32,
    /// The interaction that the stream serves.
    pub kind: Interaction,
    /// The side of the stream that this is.
    pub side: Side,
    /// The state of the stream.
    pub state: StreamState,
    /// How many items the peer may still send.
    pub inbound_credit: u32,
    /// How many items this side may still send.
    pub outbound_credit: u32,
    /// The fragments received so far of a payload that is not whole yet.
    pub pending: PayloadView,
}

impl View for Stream {
    type V = StreamView;

    closed spec fn view(&self) -> StreamView {
        StreamView {
            stream_id: self.stream_id,
            kind: self.kind,
            side: self.side,
            state: self.state,
            inbound_credit: self.inbound_credit,
            outbound_credit: self.outbound_credit,
            pending: PayloadView {
                metadata: opt_written(self.pending_metadata),
                data: opt_written(self.pending_data),
            },
        }
    }
}

impl StreamView {
    /// Whether frames are passed over because the stream has not begun or
    /// has ended.
    pub open spec fn is_deaf(self) -> bool {
        self.state == StreamState::Idle || self.state == StreamState::Closed
    }

    /// The stream ended, with nothing pending.
    pub open spec fn closed(self) -> StreamView {
        StreamView { state: StreamState::Closed, pending: no_payload(), ..self }
    }

    /// What follows a breach of the protocol: the stream ends, and an ERROR
    /// frame with the code INVALID is to be sent.
    pub open spec fn violation(self, reason: &str) -> (StreamView, ReactionView) {
        (self.closed(), ReactionView::Violation(invalid_frame(self.stream_id, reason)))
    }

    /// What follows a PAYLOAD frame.
    ///
    /// The frame is passed over unless payloads of the peer are still
    /// taken, or the stream is a responder's whose request has not come
    /// whole yet. It has to hold NEXT or COMPLETE. With FOLLOWS it is a
    /// fragment, which is kept; without, it ends a payload, which is made of
    /// the fragments kept and of the frame's own. That payload is the
    /// request, where the request had not come whole. Else, with NEXT it is
    /// an item, for which the peer needs credit, and which has to complete
    /// the stream where only one response was asked for; with COMPLETE the
    /// peer's direction ends.
    pub open spec fn on_payload(self, f: PayloadFrameView) -> (StreamView, ReactionView) {
        let next = f.flags & NEXT_BIT == NEXT_BIT;
        let complete = f.flags & COMPLETE_BIT == COMPLETE_BIT;
        let follows = f.flags & FOLLOWS_BIT == FOLLOWS_BIT;
        let gathering = self.state == StreamState::Requesting && self.side == Side::Responder;
        if !self.state.receives() && !gathering {
            (self, ReactionView::Dropped)
        } else if !next && !complete {
            self.violation(NO_NEXT_OR_COMPLETE)
        } else if follows {
            if joinable(self.pending, f.payload) {
                (
                    StreamView { pending: joined_payload(self.pending, f.payload), ..self },
                    ReactionView::Buffered,
                )
            } else {
                self.violation(TOO_LARGE)
            }
        } else if !endable(self.pending, f.payload) {
            self.violation(TOO_LARGE)
        } else {
            let whole = joined_payload(self.pending, f.payload);
            let cleared = StreamView { pending: no_payload(), ..self };
            if gathering {
                (
                    StreamView {
                        state: state_after_request(self.kind, self.side, complete),
                        ..cleared
                    },
                    ReactionView::Request(whole),
                )
            } else if next {
                if self.inbound_credit == 0 {
                    self.violation(NO_CREDIT)
                } else if complete {
                    (
                        StreamView {
                            state: self.state.remote_closed(),
                            inbound_credit: (self.inbound_credit - 1) as u32,
                            ..cleared
                        },
                        ReactionView::NextAndComplete(whole),
                    )
                } else if self.kind == Interaction::RequestResponse {
                    self.violation(NOT_COMPLETE)
                } else {
                    (
                        StreamView {
                            inbound_credit: (self.inbound_credit - 1) as u32,
                            ..cleared
                        },
                        ReactionView::Next(whole),
                    )
                }
            } else {
                (
                    StreamView { state: self.state.remote_closed(), ..cleared },
                    ReactionView::Complete,
                )
            }
        }
    }

    /// What follows an ERROR frame: the stream ends.
    pub open spec fn on_error(self, f: ErrorFrameView) -> (StreamView, ReactionView) {
        (self.closed(), ReactionView::Failed(f))
    }

    /// What follows a REQUEST_N frame: the credit of this side grows, if it
    /// may still send; a frame that grants nothing breaks the protocol.
    pub open spec fn on_request_n(self, f: RequestNFrameView) -> (StreamView, ReactionView) {
        if !self.state.sends() {
            (self, ReactionView::Dropped)
        } else if f.request_n == 0 {
            self.violation(ZERO_REQUEST_N)
        } else {
            (
                StreamView {
                    outbound_credit: credit_plus(self.outbound_credit, f.request_n),
                    ..self
                },
                ReactionView::Credit(f.request_n),
            )
        }
    }

    /// What follows a CANCEL frame: a responder's stream ends; in a
    /// channel, a requester that still sends stops sending.
    pub open spec fn on_cancel(self) -> (StreamView, ReactionView) {
        if self.side == Side::Responder {
            (self.closed(), ReactionView::Cancelled)
        } else if self.kind == Interaction::RequestChannel && self.state.sends() {
            (StreamView { state: self.state.local_closed(), ..self }, ReactionView::Cancelled)
        } else {
            (self, ReactionView::Dropped)
        }
    }

    /// What follows a frame of the peer: the stream afterwards, and what it
    /// makes of the frame. A frame of another stream is passed over, and so
    /// is every frame once the stream has ended.
    pub open spec fn step(self, frame: FrameView) -> (StreamView, ReactionView) {
        if frame.stream_id() != self.stream_id || self.is_deaf() {
            (self, ReactionView::Dropped)
        } else {
            match frame {
                FrameView::Payload(f) => self.on_payload(f),
                FrameView::Error(f) => self.on_error(f),
                FrameView::RequestN(f) => self.on_request_n(f),
                FrameView::Cancel(_) => self.on_cancel(),
                FrameView::RequestResponse(_)
                | FrameView::RequestFnf(_)
                | FrameView::RequestStream(_)
                | FrameView::RequestChannel(_) => self.violation(UNEXPECTED_REQUEST),
                _ => (self, ReactionView::Dropped),
            }
        }
    }
}

impl Stream {
    /// Returns the ID of the stream.
    pub fn stream_id(&self) -> (r: u32)
        ensures
            r == self@.stream_id,
    {
        self.stream_id
    }

    /// Returns the interaction that the stream serves.
    pub fn kind(&self) -> (r: Interaction)
        ensures
            r == self@.kind,
    {
        self.kind
    }

    /// Returns the side of the stream that this is.
    pub fn side(&self) -> (r: Side)
        ensures
            r == self@.side,
    {
        self.side
    }

    /// Returns the state of the stream.
    pub fn state(&self) -> (r: StreamState)
        ensures
            r == self@.state,
    {
        self.state
    }

    /// Returns how many items the peer may still send.
    pub fn inbound_credit(&self) -> (r: u32)
        ensures
            r == self@.inbound_credit,
    {
        self.inbound_credit
    }

    /// Returns how many items this side may still send.
    pub fn outbound_credit(&self) -> (r: u32)
        ensures
            r == self@.outbound_credit,
    {
        self.outbound_credit
    }

    /// Returns true if the stream has ended.
    pub fn is_closed(&self) -> (r: bool)
        ensures
            r == (self@.state == StreamState::Closed),
    {
        match self.state {
            StreamState::Closed => true,
            _ => false,
        }
    }

    /// Ends the stream and lets go of what was pending.
    fn close(&mut self)
        ensures
            final(self)@ == old(self)@.closed(),
    {
        self.state = StreamState::Closed;
        self.pending_metadata = None;
        self.pending_data = None;
    }

    /// Ends the stream over a breach of the protocol.
    fn violate(&mut self, reason: &str) -> (r: Reaction)
        ensures
            (final(self)@, r@) == old(self)@.violation(reason),
    {
        self.close();
        Reaction::Violation(invalid(self.stream_id, reason))
    }

    /// Takes a PAYLOAD frame: see `StreamView::on_payload`.
    fn take_payload(&mut self, frame: PayloadFrame) -> (r: Reaction)
        ensures
            (final(self)@, r@) == old(self)@.on_payload(frame@),
    {
        let next = frame.is_next();
        let complete = frame.is_complete();
        let follows = frame.is_follows();
        let gathering = match (self.state, self.side) {
            (StreamState::Requesting, Side::Responder) => true,
            _ => false,
        };
        if !self.state.is_receiving() && !gathering {
            return Reaction::Dropped;
        }
        if !next && !complete {
            return self.violate(NO_NEXT_OR_COMPLETE);
        }
        let (metadata, data) = frame.payload().split();
        if follows {
            let ghost before = self@;
            let kept = append_part(&mut self.pending_metadata, metadata) && append_part(
                &mut self.pending_data,
                data,
            );
            if kept {
                return Reaction::Buffered;
            }
            assert(self@.closed() == before.closed());
            return self.violate(TOO_LARGE);
        }
        let ghost before = self@;
        let whole_metadata = match finish_part(&mut self.pending_metadata, metadata) {
            Some(whole) => whole,
            None => {
                assert(self@.closed() == before.closed());
                return self.violate(TOO_LARGE);
            },
        };
        let whole_data = match finish_part(&mut self.pending_data, data) {
            Some(whole) => whole,
            None => {
                assert(self@.closed() == before.closed());
                return self.violate(TOO_LARGE);
            },
        };
        let whole = Payload::new(whole_metadata, whole_data);
        if gathering {
            self.state = to_state_after_request(self.kind, self.side, complete);
            return Reaction::Request(whole);
        }
        if next {
            if self.inbound_credit == 0 {
                return self.violate(NO_CREDIT);
            }
            if complete {
                self.inbound_credit = self.inbound_credit - 1;
                self.state = self.state.close_remote();
                return Reaction::NextAndComplete(whole);
            }
            match self.kind {
                Interaction::RequestResponse => {
                    return self.violate(NOT_COMPLETE);
                },
                _ => {},
            }
            self.inbound_credit = self.inbound_credit - 1;
            Reaction::Next(whole)
        } else {
            self.state = self.state.close_remote();
            Reaction::Complete
        }
    }

    /// Takes a frame that the peer sent on this stream: see
    /// `StreamView::step`.
    pub fn on_frame(&mut self, frame: Frame) -> (r: Reaction)
        ensures
            (final(self)@, r@) == old(self)@.step(frame@),
    {
        let deaf = match self.state {
            StreamState::Idle | StreamState::Closed => true,
            _ => false,
        };
        match frame {
            Frame::Payload(f) => {
                if f.stream_id() != self.stream_id || deaf {
                    return Reaction::Dropped;
                }
                self.take_payload(f)
            },
            Frame::Error(f) => {
                if f.stream_id() != self.stream_id || deaf {
                    return Reaction::Dropped;
                }
                self.close();
                Reaction::Failed(f)
            },
            Frame::RequestN(f) => {
                if f.stream_id() != self.stream_id || deaf {
                    return Reaction::Dropped;
                }
                if !self.state.is_sending() {
                    return Reaction::Dropped;
                }
                let n = f.request_n();
                if n == 0 {
                    return self.violate(ZERO_REQUEST_N);
                }
                self.outbound_credit = add_credit(self.outbound_credit, n);
                Reaction::Credit(n)
            },
            Frame::Cancel(f) => {
                if f.stream_id() != self.stream_id || deaf {
                    return Reaction::Dropped;
                }
                match self.side {
                    Side::Responder => {
                        self.close();
                        Reaction::Cancelled
                    },
                    Side::Requester => {
                        let channel = match self.kind {
                            Interaction::RequestChannel => true,
                            _ => false,
                        };
                        if channel && self.state.is_sending() {
                            self.state = self.state.close_local();
                            Reaction::Cancelled
                        } else {
                            Reaction::Dropped
                        }
                    },
                }
            },
            Frame::RequestResponse(f) => {
                if f.stream_id() != self.stream_id || deaf {
                    return Reaction::Dropped;
                }
                self.violate(UNEXPECTED_REQUEST)
            },
            Frame::RequestFnf(f) => {
                if f.stream_id() != self.stream_id || deaf {
                    return Reaction::Dropped;
                }
                self.violate(UNEXPECTED_REQUEST)
            },
            Frame::RequestStream(f) => {
                if f.stream_id() != self.stream_id || deaf {
                    return Reaction::Dropped;
                }
                self.violate(UNEXPECTED_REQUEST)
            },
            Frame::RequestChannel(f) => {
                if f.stream_id() != self.stream_id || deaf {
                    return Reaction::Dropped;
                }
                self.violate(UNEXPECTED_REQUEST)
            },
            _ => Reaction::Dropped,
        }
    }
}

/// The flags of a PAYLOAD frame that carries an item: NEXT, COMPLETE where
/// the item is the last, and METADATA where the item has metadata.
pub open spec fn item_flags(complete: bool, has_metadata: bool) -> u16 {
    if complete {
        if has_metadata {
            0x0B0
        } else {
            0x030
        }
    } else {
        if has_metadata {
            0x090
        } else {
            NEXT_BIT
        }
    }
}

/// What the bits of the flags of an item are to one another.
proof fn lemma_item_bits()
    by (bit_vector)
    ensures
        (0x010u16 | 0x020u16) & (0x040u16 | 0x020u16 | 0x010u16) == 0x030u16,
        0x010u16 & (0x040u16 | 0x020u16 | 0x010u16) == 0x010u16,
        0x020u16 & (0x040u16 | 0x020u16 | 0x010u16) == 0x020u16,
        0x030u16 | 0x080u16 == 0x0B0u16,
        0x030u16 | 0u16 == 0x030u16,
        0x010u16 | 0x080u16 == 0x090u16,
        0x010u16 | 0u16 == 0x010u16,
        0x020u16 | 0u16 == 0x020u16,
        0x0B0u16 & 0x010u16 == 0x010u16,
        0x030u16 & 0x010u16 == 0x010u16,
        0x090u16 & 0x010u16 == 0x010u16,
        0x010u16 & 0x010u16 == 0x010u16,
        0x0B0u16 & 0x020u16 == 0x020u16,
        0x030u16 & 0x020u16 == 0x020u16,
        0x090u16 & 0x020u16 == 0u16,
        0x010u16 & 0x020u16 == 0u16,
        0x0B0u16 & 0x040u16 == 0u16,
        0x030u16 & 0x040u16 == 0u16,
        0x090u16 & 0x040u16 == 0u16,
        0x010u16 & 0x040u16 == 0u16,
        0x020u16 & 0x040u16 == 0u16,
        0x020u16 & 0x010u16 == 0u16,
        0x020u16 & 0x020u16 == 0x020u16,
{
}

/// An item's flags hold NEXT and not FOLLOWS, and COMPLETE where it is the last.
pub proof fn lemma_item_flags(complete: bool, has_metadata: bool)
    ensures
        item_flags(complete, has_metadata) & NEXT_BIT == NEXT_BIT,
        item_flags(complete, has_metadata) & FOLLOWS_BIT != FOLLOWS_BIT,
        item_flags(complete, has_metadata) & COMPLETE_BIT == COMPLETE_BIT <==> complete,
{
    lemma_item_bits();
}

/// The frame of the request that opens a stream of the given kind.
pub open spec fn request_frame(
    stream_id: u32,
    kind: Interaction,
    initial_request_n: u32,
    payload: PayloadView,
) -> FrameView {
    let id = stream_id & MAX_U31;
    let flags = request_flags(false, payload.metadata is Some);
    match kind {
        Interaction::FireAndForget => FrameView::RequestFnf(
            RequestFnfFrameView { stream_id: id, flags, payload },
        ),
        Interaction::RequestResponse => FrameView::RequestResponse(
            RequestResponseFrameView { stream_id: id, flags, payload },
        ),
        Interaction::RequestStream => FrameView::RequestStream(
            RequestStreamFrameView {
                stream_id: id,
                flags,
                initial_request_n: initial_request_n & MAX_U31,
                payload,
            },
        ),
        Interaction::RequestChannel => FrameView::RequestChannel(
            RequestChannelFrameView {
                stream_id: id,
                flags,
                initial_request_n: initial_request_n & MAX_U31,
                payload,
            },
        ),
    }
}

/// The credit that a request gives the responder: one item for one
/// response, what the request asks for where it asks for a stream, and
/// nothing where it asks for no answer.
pub open spec fn credit_of_request(kind: Interaction, initial_request_n: u32) -> u32 {
    match kind {
        Interaction::FireAndForget => 0,
        Interaction::RequestResponse => 1,
        _ => initial_request_n,
    }
}

/// Whether a request of the given kind may ask for `initial_request_n`
/// items: a stream or a channel asks for at least one and at most 2^31 - 1.
pub open spec fn asks_well(kind: Interaction, initial_request_n: u32) -> bool {
    kind == Interaction::FireAndForget || kind == Interaction::RequestResponse || 0
        < initial_request_n <= MAX_U31
}

impl StreamView {
    /// The stream of a requester before it has asked.
    pub open spec fn fresh(stream_id: u32, kind: Interaction) -> StreamView {
        StreamView {
            stream_id,
            kind,
            side: Side::Requester,
            state: StreamState::Idle,
            inbound_credit: 0,
            outbound_credit: 0,
            pending: no_payload(),
        }
    }

    /// The stream of a responder whose request has come with the frame
    /// `frame` of kind `kind`. A fragment of the request waits for those
    /// that follow; a whole request puts the stream in the state that
    /// follows the request.
    pub open spec fn opened(
        stream_id: u32,
        kind: Interaction,
        initial_request_n: u32,
        follows: bool,
        complete: bool,
        payload: PayloadView,
    ) -> StreamView {
        StreamView {
            stream_id,
            kind,
            side: Side::Responder,
            state: if follows {
                StreamState::Requesting
            } else {
                state_after_request(kind, Side::Responder, complete)
            },
            inbound_credit: 0,
            outbound_credit: credit_of_request(kind, initial_request_n),
            pending: if follows {
                payload
            } else {
                no_payload()
            },
        }
    }

    /// Whether the stream may tell the peer to stop: a requester may once
    /// its request is written, until the stream ends; a responder may in a
    /// channel, while it still takes payloads.
    pub open spec fn may_cancel(self) -> bool {
        match self.side {
            Side::Requester => self.state != StreamState::Idle && self.state
                != StreamState::Requesting && self.state != StreamState::Closed,
            Side::Responder => self.kind == Interaction::RequestChannel && self.state.receives(),
        }
    }

    /// Whether the stream may grant the peer `n` more items.
    pub open spec fn may_grant(self, n: u32) -> bool {
        &&& self.state.receives()
        &&& self.kind == Interaction::RequestStream || self.kind == Interaction::RequestChannel
        &&& 0 < n <= MAX_U31
    }

    /// Whether the stream may send an item.
    pub open spec fn may_emit(self) -> bool {
        self.state.sends() && self.outbound_credit > 0
    }
}

impl Stream {
    /// The stream of a requester that has not asked yet.
    pub fn new(stream_id: u32, kind: Interaction) -> (r: Stream)
        ensures
            r@ == StreamView::fresh(stream_id, kind),
    {
        Stream {
            stream_id,
            kind,
            side: Side::Requester,
            state: StreamState::Idle,
            inbound_credit: 0,
            outbound_credit: 0,
            pending_metadata: None,
            pending_data: None,
        }
    }

    /// Asks: hands out the frame of the request, which is to be written,
    /// and waits for that. The peer is given credit for one response, or
    /// for the `initial_request_n` items of a stream or a channel.
    ///
    /// Nothing is handed out, and nothing changes, where the stream has
    /// asked before, or where a stream or a channel is asked for no item or
    /// for more than 2^31 - 1.
    pub fn request(&mut self, initial_request_n: u32, payload: Payload) -> (r: Option<Frame>)
        ensures
            r is Some <==> old(self)@.state == StreamState::Idle && asks_well(
                old(self)@.kind,
                initial_request_n,
            ),
            r matches Some(frame) ==> frame@ == request_frame(
                old(self)@.stream_id,
                old(self)@.kind,
                initial_request_n,
                payload@,
            ) && final(self)@ == (StreamView {
                state: StreamState::Requesting,
                inbound_credit: credit_of_request(old(self)@.kind, initial_request_n),
                ..old(self)@
            }),
            r is None ==> final(self)@ == old(self)@,
    {
        match self.state {
            StreamState::Idle => {},
            _ => {
                return None;
            },
        }
        let frame = match self.kind {
            Interaction::FireAndForget => {
                self.inbound_credit = 0;
                Frame::RequestFnf(RequestFnfFrame::new(self.stream_id, false, payload))
            },
            Interaction::RequestResponse => {
                self.inbound_credit = 1;
                Frame::RequestResponse(RequestResponseFrame::new(self.stream_id, false, payload))
            },
            Interaction::RequestStream => {
                if initial_request_n == 0 || initial_request_n > MAX_U31 {
                    return None;
                }
                self.inbound_credit = initial_request_n;
                Frame::RequestStream(
                    RequestStreamFrame::new(self.stream_id, false, initial_request_n, payload),
                )
            },
            Interaction::RequestChannel => {
                if initial_request_n == 0 || initial_request_n > MAX_U31 {
                    return None;
                }
                self.inbound_credit = initial_request_n;
                proof {
                    crate::frame::flags::lemma_flag_sets(
                        request_flags(false, payload@.metadata is Some),
                        0,
                    );
                }
                Frame::RequestChannel(
                    RequestChannelFrame::new(
                        self.stream_id,
                        false,
                        false,
                        initial_request_n,
                        payload,
                    ),
                )
            },
        };
        self.state = StreamState::Requesting;
        Some(frame)
    }

    /// Says that the frame of the request has been written: the stream of a
    /// requester that waited for that goes on to the state that follows the
    /// request. Nothing changes otherwise.
    pub fn on_written(&mut self)
        ensures
            final(self)@ == if old(self)@.state == StreamState::Requesting && old(self)@.side
                == Side::Requester {
                StreamView {
                    state: state_after_request(old(self)@.kind, Side::Requester, false),
                    ..old(self)@
                }
            } else {
                old(self)@
            },
    {
        match (self.state, self.side) {
            (StreamState::Requesting, Side::Requester) => {
                self.state = to_state_after_request(self.kind, Side::Requester, false);
            },
            _ => {},
        }
    }

    /// Grants the peer `n` more items, and hands out the REQUEST_N frame
    /// that tells it so. Nothing is handed out, and nothing changes, where
    /// the stream may not grant: see `StreamView::may_grant`.
    pub fn grant(&mut self, n: u32) -> (r: Option<RequestNFrame>)
        ensures
            r is Some <==> old(self)@.may_grant(n),
            r matches Some(frame) ==> frame@ == (RequestNFrameView {
                stream_id: old(self)@.stream_id & MAX_U31,
                request_n: n,
            }) && final(self)@ == (StreamView {
                inbound_credit: credit_plus(old(self)@.inbound_credit, n),
                ..old(self)@
            }),
            r is None ==> final(self)@ == old(self)@,
    {
        let streams = match self.kind {
            Interaction::RequestStream | Interaction::RequestChannel => true,
            _ => false,
        };
        if !self.state.is_receiving() || !streams || n == 0 || n > MAX_U31 {
            return None;
        }
        self.inbound_credit = add_credit(self.inbound_credit, n);
        proof {
            lemma_mask_u31(n);
        }
        Some(RequestNFrame::new(self.stream_id, n))
    }

    /// Tells the peer to stop, and hands out the CANCEL frame that does so.
    /// The stream of a requester ends; a responder in a channel takes no
    /// more payloads. Nothing is handed out, and nothing changes, where the
    /// stream may not cancel: see `StreamView::may_cancel`.
    pub fn cancel(&mut self) -> (r: Option<CancelFrame>)
        ensures
            r is Some <==> old(self)@.may_cancel(),
            r matches Some(frame) ==> frame@ == (CancelFrameView {
                stream_id: old(self)@.stream_id & MAX_U31,
            }) && final(self)@ == (match old(self)@.side {
                Side::Requester => old(self)@.closed(),
                Side::Responder => StreamView {
                    state: old(self)@.state.remote_closed(),
                    pending: no_payload(),
                    ..old(self)@
                },
            }),
            r is None ==> final(self)@ == old(self)@,
    {
        match self.side {
            Side::Requester => {
                match self.state {
                    StreamState::Idle | StreamState::Requesting | StreamState::Closed => {
                        return None;
                    },
                    _ => {},
                }
                self.close();
            },
            Side::Responder => {
                let channel = match self.kind {
                    Interaction::RequestChannel => true,
                    _ => false,
                };
                if !channel || !self.state.is_receiving() {
                    return None;
                }
                self.state = self.state.close_remote();
                self.pending_metadata = None;
                self.pending_data = None;
            },
        }
        Some(CancelFrame::new(self.stream_id))
    }

    /// Sends an item: hands out the PAYLOAD frame that carries it, with
    /// NEXT, and with COMPLETE where the item is the last; the one response
    /// to a request for a response is always the last. The item uses up one
    /// of the credits that the peer has granted. After the last item this
    /// side sends no more.
    ///
    /// Where the stream may not send an item, because this side's
    /// direction has ended or because no credit is left, the payload is
    /// handed back and nothing changes.
    pub fn emit(&mut self, payload: Payload, complete: bool) -> (r: Result<PayloadFrame, Payload>)
        ensures
            r is Ok <==> old(self)@.may_emit(),
            r matches Ok(frame) ==> {
                let last = complete || old(self)@.kind == Interaction::RequestResponse;
                &&& frame@ == (PayloadFrameView {
                    stream_id: old(self)@.stream_id & MAX_U31,
                    flags: item_flags(last, payload@.metadata is Some),
                    payload: payload@,
                })
                &&& final(self)@ == (StreamView {
                    outbound_credit: (old(self)@.outbound_credit - 1) as u32,
                    state: if last {
                        old(self)@.state.local_closed()
                    } else {
                        old(self)@.state
                    },
                    ..old(self)@
                })
            },
            r matches Err(back) ==> back@ == payload@ && final(self)@ == old(self)@,
    {
        if !self.state.is_sending() || self.outbound_credit == 0 {
            return Err(payload);
        }
        let last = complete || match self.kind {
            Interaction::RequestResponse => true,
            _ => false,
        };
        self.outbound_credit = self.outbound_credit - 1;
        let mut flags = Flags::next();
        if last {
            flags = flags | Flags::complete();
            self.state = self.state.close_local();
        }
        proof {
            lemma_item_bits();
        }
        Ok(PayloadFrame::new(self.stream_id, flags, payload))
    }

    /// Ends this side's direction without a last item: hands out a PAYLOAD
    /// frame that holds COMPLETE and nothing else. Nothing is handed out,
    /// and nothing changes, where this side's direction has ended before.
    pub fn complete(&mut self) -> (r: Option<PayloadFrame>)
        ensures
            r is Some <==> old(self)@.state.sends(),
            r matches Some(frame) ==> frame@ == (PayloadFrameView {
                stream_id: old(self)@.stream_id & MAX_U31,
                flags: COMPLETE_BIT,
                payload: no_payload(),
            }) && final(self)@ == (StreamView {
                state: old(self)@.state.local_closed(),
                ..old(self)@
            }),
            r is None ==> final(self)@ == old(self)@,
    {
        if !self.state.is_sending() {
            return None;
        }
        self.state = self.state.close_local();
        proof {
            lemma_item_bits();
        }
        Some(PayloadFrame::new(self.stream_id, Flags::complete(), Payload::new(None, None)))
    }

    /// Ends the stream with an error: hands out the ERROR frame that tells
    /// the peer, with the code and the data given. Nothing is handed out,
    /// and nothing changes, where the stream has not begun or has ended.
    pub fn fail(&mut self, code: u32, data: Option<Bytes>) -> (r: Option<ErrorFrame>)
        ensures
            r is Some <==> !old(self)@.is_deaf(),
            r matches Some(frame) ==> frame@ == (ErrorFrameView {
                stream_id: old(self)@.stream_id & MAX_U31,
                code,
                data: opt_contents(data),
            }) && final(self)@ == old(self)@.closed(),
            r is None ==> final(self)@ == old(self)@,
    {
        match self.state {
            StreamState::Idle | StreamState::Closed => {
                return None;
            },
            _ => {},
        }
        self.close();
        Some(ErrorFrame::new(self.stream_id, code, data))
    }

    /// Ends the stream because its connection has closed: the user is told
    /// with an ERROR frame that holds the code CANCELED, which is not sent.
    /// Nothing is handed out, and nothing changes, where the stream has not
    /// begun or has ended.
    pub fn shutdown(&mut self) -> (r: Reaction)
        ensures
            old(self)@.is_deaf() ==> r@ == ReactionView::Dropped && final(self)@ == old(self)@,
            !old(self)@.is_deaf() ==> r@ == ReactionView::Failed(
                ErrorFrameView {
                    stream_id: old(self)@.stream_id & MAX_U31,
                    code: ErrorFrame::CANCELED,
                    data: None,
                },
            ) && final(self)@ == old(self)@.closed(),
    {
        match self.state {
            StreamState::Idle | StreamState::Closed => {
                return Reaction::Dropped;
            },
            _ => {},
        }
        self.close();
        Reaction::Failed(ErrorFrame::new(self.stream_id, ErrorFrame::CANCELED, None))
    }
}

/// What a responder makes of a frame on a stream that it does not know: a
/// request opens a stream, and every other frame is passed over.
///
/// A request that comes whole goes to the user's responder. A request with
/// FOLLOWS is a fragment, which waits for those that follow. A request for a
/// stream or for a channel that asks for no item breaks the protocol, and so
/// does a fragment that is more than a buffer holds: no stream is opened.
pub open spec fn opening(frame: FrameView) -> (Option<StreamView>, ReactionView) {
    match frame {
        FrameView::RequestFnf(f) => open_with(
            f.stream_id,
            Interaction::FireAndForget,
            0,
            f.flags & FOLLOWS_BIT == FOLLOWS_BIT,
            false,
            f.payload,
        ),
        FrameView::RequestResponse(f) => open_with(
            f.stream_id,
            Interaction::RequestResponse,
            0,
            f.flags & FOLLOWS_BIT == FOLLOWS_BIT,
            false,
            f.payload,
        ),
        FrameView::RequestStream(f) => open_with(
            f.stream_id,
            Interaction::RequestStream,
            f.initial_request_n,
            f.flags & FOLLOWS_BIT == FOLLOWS_BIT,
            false,
            f.payload,
        ),
        FrameView::RequestChannel(f) => open_with(
            f.stream_id,
            Interaction::RequestChannel,
            f.initial_request_n,
            f.flags & FOLLOWS_BIT == FOLLOWS_BIT,
            f.flags & COMPLETE_BIT == COMPLETE_BIT,
            f.payload,
        ),
        _ => (None, ReactionView::Dropped),
    }
}

/// What a responder makes of a request of the given kind: see `opening`.
pub open spec fn open_with(
    stream_id: u32,
    kind: Interaction,
    initial_request_n: u32,
    follows: bool,
    complete: bool,
    payload: PayloadView,
) -> (Option<StreamView>, ReactionView) {
    let streams = kind == Interaction::RequestStream || kind == Interaction::RequestChannel;
    if streams && initial_request_n == 0 {
        (None, ReactionView::Violation(invalid_frame(stream_id, ZERO_REQUEST_N)))
    } else if follows {
        if joinable(no_payload(), payload) {
            (
                Some(
                    StreamView::opened(stream_id, kind, initial_request_n, true, complete, payload),
                ),
                ReactionView::Buffered,
            )
        } else {
            (None, ReactionView::Violation(invalid_frame(stream_id, TOO_LARGE)))
        }
    } else {
        (
            Some(StreamView::opened(stream_id, kind, initial_request_n, false, complete, payload)),
            ReactionView::Request(payload),
        )
    }
}

impl Stream {
    /// Opens the stream of a responder for a request: see `open_with`.
    fn open(
        stream_id: u32,
        kind: Interaction,
        initial_request_n: u32,
        follows: bool,
        complete: bool,
        payload: Payload,
    ) -> (r: (Option<Stream>, Reaction))
        ensures
            ({
                let expected = open_with(
                    stream_id,
                    kind,
                    initial_request_n,
                    follows,
                    complete,
                    payload@,
                );
                &&& r.1@ == expected.1
                &&& r.0 is Some <==> expected.0 is Some
                &&& r.0 matches Some(stream) ==> Some(stream@) == expected.0
            }),
    {
        let streams = match kind {
            Interaction::RequestStream | Interaction::RequestChannel => true,
            _ => false,
        };
        if streams && initial_request_n == 0 {
            return (None, Reaction::Violation(invalid(stream_id, ZERO_REQUEST_N)));
        }
        let credit = match kind {
            Interaction::FireAndForget => 0,
            Interaction::RequestResponse => 1,
            _ => initial_request_n,
        };
        let mut stream = Stream {
            stream_id,
            kind,
            side: Side::Responder,
            state: StreamState::Requesting,
            inbound_credit: 0,
            outbound_credit: credit,
            pending_metadata: None,
            pending_data: None,
        };
        if follows {
            let (metadata, data) = payload.split();
            let kept = append_part(&mut stream.pending_metadata, metadata) && append_part(
                &mut stream.pending_data,
                data,
            );
            if kept {
                (Some(stream), Reaction::Buffered)
            } else {
                (None, Reaction::Violation(invalid(stream_id, TOO_LARGE)))
            }
        } else {
            stream.state = to_state_after_request(kind, Side::Responder, complete);
            (Some(stream), Reaction::Request(payload))
        }
    }

    /// Takes a frame that came on a stream that the responder does not know
    /// yet: see `opening`.
    pub fn accept(frame: Frame) -> (r: (Option<Stream>, Reaction))
        ensures
            r.1@ == opening(frame@).1,
            r.0 is Some <==> opening(frame@).0 is Some,
            r.0 matches Some(stream) ==> Some(stream@) == opening(frame@).0,
    {
        match frame {
            Frame::RequestFnf(f) => {
                let follows = f.is_follows();
                Stream::open(
                    f.stream_id(),
                    Interaction::FireAndForget,
                    0,
                    follows,
                    false,
                    f.payload(),
                )
            },
            Frame::RequestResponse(f) => {
                let follows = f.is_follows();
                Stream::open(
                    f.stream_id(),
                    Interaction::RequestResponse,
                    0,
                    follows,
                    false,
                    f.payload(),
                )
            },
            Frame::RequestStream(f) => {
                let follows = f.is_follows();
                let n = f.initial_request_n();
                Stream::open(f.stream_id(), Interaction::RequestStream, n, follows, false, f.payload())
            },
            Frame::RequestChannel(f) => {
                let follows = f.is_follows();
                let complete = f.is_complete();
                let n = f.initial_request_n();
                Stream::open(
                    f.stream_id(),
                    Interaction::RequestChannel,
                    n,
                    follows,
                    complete,
                    f.payload(),
                )
            },
            _ => (None, Reaction::Dropped),
        }
    }
}

impl StreamView {
    /// A stream that has ended passes over every frame and stays as it is;
    /// so does one that has not begun. So a CANCEL after the end is
    /// ignored, and a second frame that would end the stream is dropped.
    pub proof fn lemma_deaf_stream_drops(self, frame: FrameView)
        requires
            self.is_deaf(),
        ensures
            self.step(frame) == (self, ReactionView::Dropped),
    {
    }

    /// A frame of another stream is passed over.
    pub proof fn lemma_other_stream_drops(self, frame: FrameView)
        requires
            frame.stream_id() != self.stream_id,
        ensures
            self.step(frame) == (self, ReactionView::Dropped),
    {
    }

    /// No frame changes which stream this is, what it serves or whose side
    /// it is; no frame of the peer raises the credit of the peer; and a
    /// stream that has ended stays ended.
    pub proof fn lemma_step_keeps(self, frame: FrameView)
        ensures
            self.step(frame).0.stream_id == self.stream_id,
            self.step(frame).0.kind == self.kind,
            self.step(frame).0.side == self.side,
            self.step(frame).0.inbound_credit <= self.inbound_credit,
            self.state == StreamState::Closed ==> self.step(frame).0.state == StreamState::Closed,
    {
    }

    /// An item reaches the user only while the peer has credit, and uses up
    /// one credit: the peer cannot send more items than it was granted.
    pub proof fn lemma_items_need_credit(self, frame: FrameView)
        requires
            self.step(frame).1 is Next || self.step(frame).1 is NextAndComplete,
        ensures
            self.inbound_credit > 0,
            self.step(frame).0.inbound_credit == self.inbound_credit - 1,
            self.state.receives(),
    {
    }

    /// An ERROR frame on a stream that is under way ends it, and so does
    /// every breach of the protocol.
    pub proof fn lemma_errors_end_the_stream(self, frame: FrameView)
        requires
            self.step(frame).1 is Failed || self.step(frame).1 is Violation,
        ensures
            self.step(frame).0.state == StreamState::Closed,
            self.step(frame).0.pending == no_payload(),
    {
    }

    /// A PAYLOAD frame that holds neither NEXT nor COMPLETE breaks the
    /// protocol on a stream that takes payloads, and so does a REQUEST_N
    /// frame that grants nothing on a stream that sends.
    pub proof fn lemma_breaches(self, frame: FrameView)
        requires
            frame.stream_id() == self.stream_id,
        ensures
            (frame matches FrameView::Payload(f) && self.state.receives() && f.flags & NEXT_BIT
                != NEXT_BIT && f.flags & COMPLETE_BIT != COMPLETE_BIT) ==> self.step(frame).1
                == ReactionView::Violation(invalid_frame(self.stream_id, NO_NEXT_OR_COMPLETE)),
            (frame matches FrameView::RequestN(f) && self.state.sends() && f.request_n == 0)
                ==> self.step(frame).1 == ReactionView::Violation(
                invalid_frame(self.stream_id, ZERO_REQUEST_N),
            ),
    {
    }
}

} // verus!
