//! Liveness of a connection.
use crate::connection::conn::ConnectionStatus;
use crate::frame::buf::bytes_from_string;
use crate::frame::codec::{ErrorFrame, KeepaliveFrame};
use crate::frame::codec::error::ErrorFrameView;
use crate::frame::codec::keepalive::KeepaliveFrameView;
use crate::frame::visit::{mask_u63, MAX_U63};
use vstd::prelude::*;
use vstd::string::{StringExecFns, StringSliceAdditionalSpecFns};

verus! {

/// What a connection that timed out says of itself.
pub const KEEPALIVE_TIMEOUT: &'static str = "keepalive timeout";

/// Watches over the liveness of a connection. Time is counted in
/// milliseconds from a start that the caller chooses.
#[derive(Debug, Clone, Copy, PartialEq, Eq, Structural)]
pub struct KeepaliveSupervisor {
    /// The time between two KEEPALIVE frames that this side sends.
    pub interval: u64,
    /// The time for which the peer may stay silent.
    pub timeout: u64,
    /// When the last KEEPALIVE frame of the peer came, or when the watch began.
    pub last_received_at: u64,
    /// How many bytes of frames this side has received from the peer so far.
    pub last_received_position: u64,
    /// The position that this side sent with its last KEEPALIVE frame, for
    /// which it awaits the answer; none before the first.
    pub awaited_position: Option<u64>,
}

/// What the supervisor asks for when its time is looked at.
#[derive(Debug, Clone, PartialEq, Eq)]
pub enum KeepaliveVerdict {
    /// The peer was heard of in time.
    Alive,
    /// The peer stayed silent for longer than the timeout: the connection
    /// takes the status, sends the frame and closes.
    TimedOut(ConnectionStatus, ErrorFrame),
}

/// What a `KeepaliveVerdict` holds.
pub ghost enum KeepaliveVerdictView {
    Alive,
    TimedOut(ConnectionStatus, ErrorFrameView),
}

impl View for KeepaliveVerdict {
    type V = KeepaliveVerdictView;

    open spec fn view(&self) -> KeepaliveVerdictView {
        match self {
            KeepaliveVerdict::Alive => KeepaliveVerdictView::Alive,
            KeepaliveVerdict::TimedOut(status, frame) => KeepaliveVerdictView::TimedOut(
                *status,
                frame@,
            ),
        }
    }
}

impl KeepaliveSupervisor {
    /// Whether at time `now` the peer has stayed silent for longer than the
    /// timeout.
    pub open spec fn expired(self, now: u64) -> bool {
        now > self.last_received_at && now - self.last_received_at > self.timeout
    }

    /// Whether a KEEPALIVE frame of the peer shows that the peer is alive:
    /// one that asks for an answer does, and so does an answer that echoes
    /// the position that this side sent last.
    pub open spec fn counts(self, frame: KeepaliveFrameView) -> bool {
        frame.respond || self.awaited_position == Some(frame.last_received_position)
    }

    /// Begins the watch at time `now`, with nothing received or sent so far.
    pub fn new(interval: u64, timeout: u64, now: u64) -> (r: KeepaliveSupervisor)
        ensures
            r == (KeepaliveSupervisor {
                interval,
                timeout,
                last_received_at: now,
                last_received_position: 0,
                awaited_position: None,
            }),
    {
        KeepaliveSupervisor {
            interval,
            timeout,
            last_received_at: now,
            last_received_position: 0,
            awaited_position: None,
        }
    }

    /// Counts `bytes` more bytes received from the peer. The position has 63
    /// bits and starts again from zero beyond them.
    pub fn received(&mut self, bytes: u64)
        ensures
            final(self).last_received_position == ((old(self).last_received_position as int
                + bytes as int) % 0x1_0000_0000_0000_0000) as u64 & MAX_U63,
            final(self).interval == old(self).interval,
            final(self).timeout == old(self).timeout,
            final(self).last_received_at == old(self).last_received_at,
            final(self).awaited_position == old(self).awaited_position,
    {
        self.last_received_position = mask_u63(self.last_received_position.wrapping_add(bytes));
    }

    /// The frame to send when the interval has passed: a KEEPALIVE that asks
    /// for an answer and carries the position of this side, which is the
    /// position that the answer has to echo.
    pub fn tick(&mut self) -> (r: KeepaliveFrame)
        ensures
            r@ == (KeepaliveFrameView {
                respond: true,
                last_received_position: old(self).last_received_position & MAX_U63,
                data: None,
            }),
            *final(self) == (KeepaliveSupervisor {
                awaited_position: Some(old(self).last_received_position & MAX_U63),
                ..*old(self)
            }),
    {
        let position = mask_u63(self.last_received_position);
        self.awaited_position = Some(position);
        proof {
            crate::frame::visit::lemma_mask_u63(position);
        }
        KeepaliveFrame::new(position, None, true)
    }

    /// Takes a KEEPALIVE frame that came from the peer at time `now`. Where
    /// the frame counts, the peer is alive at that time: see `counts`.
    /// Where the frame asks for an answer, the answer is returned: a
    /// KEEPALIVE that asks for none and echoes the position and the data of
    /// the peer's frame.
    pub fn on_keepalive(&mut self, frame: &KeepaliveFrame, now: u64) -> (r: Option<KeepaliveFrame>)
        ensures
            *final(self) == (KeepaliveSupervisor {
                last_received_at: if old(self).counts(frame@) {
                    now
                } else {
                    old(self).last_received_at
                },
                ..*old(self)
            }),
            r is Some <==> frame@.respond,
            r matches Some(answer) ==> answer@ == (KeepaliveFrameView {
                respond: false,
                last_received_position: frame@.last_received_position & MAX_U63,
                data: frame@.data,
            }),
    {
        let echoes = match self.awaited_position {
            Some(position) => position == frame.last_received_position(),
            None => false,
        };
        if frame.is_respond() || echoes {
            self.last_received_at = now;
        }
        if frame.is_respond() {
            let data = match frame.data() {
                Some(data) => Some(data.clone()),
                None => None,
            };
            Some(KeepaliveFrame::new(frame.last_received_position(), data, false))
        } else {
            None
        }
    }

    /// Looks at the time: the connection has timed out if and only if the
    /// peer has stayed silent for more than the timeout. Then its status is
    /// `Error("keepalive timeout")`, and the frame it sends before it closes
    /// is an ERROR frame of the connection with the code CONNECTION_ERROR
    /// and the same words.
    pub fn check(&self, now: u64) -> (r: KeepaliveVerdict)
        ensures
            r is TimedOut <==> self.expired(now),
            r matches KeepaliveVerdict::TimedOut(status, frame) ==> {
                &&& status matches ConnectionStatus::Error(text)
                &&& text@ == KEEPALIVE_TIMEOUT@
                &&& frame@ == (ErrorFrameView {
                    stream_id: 0,
                    code: ErrorFrame::CONNECTION_ERROR,
                    data: Some(KEEPALIVE_TIMEOUT.spec_bytes()),
                })
            },
    {
        if now > self.last_received_at && now - self.last_received_at > self.timeout {
            let status = ConnectionStatus::Error(String::from_str(KEEPALIVE_TIMEOUT));
            let frame = connection_error(KEEPALIVE_TIMEOUT);
            KeepaliveVerdict::TimedOut(status, frame)
        } else {
            KeepaliveVerdict::Alive
        }
    }
}

/// An ERROR frame of the connection with the code CONNECTION_ERROR that
/// says `reason`.
pub fn connection_error(reason: &str) -> (r: ErrorFrame)
    ensures
        r@ == (ErrorFrameView {
            stream_id: 0,
            code: ErrorFrame::CONNECTION_ERROR,
            data: Some(reason.spec_bytes()),
        }),
{
    proof {
        crate::frame::visit::lemma_mask_u31(0);
    }
    ErrorFrame::new(0, ErrorFrame::CONNECTION_ERROR, Some(bytes_from_string(reason.to_owned())))
}

} // verus!
