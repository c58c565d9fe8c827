//! How a connection begins.
use crate::connection::keepalive::connection_error;
use crate::error::Code;
use crate::frame::{Frame, FrameView};
use crate::frame::buf::bytes_from_string;
use crate::frame::codec::{ErrorFrame, ResumeFrame, SetupFrame};
use crate::frame::codec::error::ErrorFrameView;
use crate::frame::codec::resume::ResumeFrameView;
use crate::frame::codec::setup::SetupFrameView;
use vstd::prelude::*;
use vstd::string::StringSliceAdditionalSpecFns;

verus! {

/// What a server says to a client that opens with no SETUP and no RESUME.
pub const SETUP_EXPECTED: &'static str = "the first frame must be SETUP or RESUME";

/// What a server makes of the first frame on a fresh connection.
#[derive(Debug, Clone, PartialEq, Eq)]
pub enum Handshake {
    /// The client sets the connection up.
    Setup(SetupFrame),
    /// The client asks to resume an earlier connection.
    Resume(ResumeFrame),
    /// The client opened with another frame: the server sends this ERROR
    /// frame and closes.
    Refused(ErrorFrame),
}

/// What a `Handshake` holds.
pub ghost enum HandshakeView {
    Setup(SetupFrameView),
    Resume(ResumeFrameView),
    Refused(ErrorFrameView),
}

impl View for Handshake {
    type V = HandshakeView;

    open spec fn view(&self) -> HandshakeView {
        match self {
            Handshake::Setup(frame) => HandshakeView::Setup(frame@),
            Handshake::Resume(frame) => HandshakeView::Resume(frame@),
            Handshake::Refused(frame) => HandshakeView::Refused(frame@),
        }
    }
}

/// What a server makes of the first frame `frame`: a SETUP frame sets the
/// connection up, a RESUME frame asks to resume, and every other frame is
/// refused with a CONNECTION_ERROR on stream 0.
pub open spec fn first_frame(frame: FrameView) -> HandshakeView {
    match frame {
        FrameView::Setup(setup) => HandshakeView::Setup(setup),
        FrameView::Resume(resume) => HandshakeView::Resume(resume),
        _ => HandshakeView::Refused(
            ErrorFrameView {
                stream_id: 0,
                code: ErrorFrame::CONNECTION_ERROR,
                data: Some(SETUP_EXPECTED.spec_bytes()),
            },
        ),
    }
}

/// Takes the first frame that a server receives on a fresh connection: see
/// `first_frame`.
pub fn accept_first_frame(frame: Frame) -> (r: Handshake)
    ensures
        r@ == first_frame(frame@),
{
    match frame {
        Frame::Setup(setup) => Handshake::Setup(setup),
        Frame::Resume(resume) => Handshake::Resume(resume),
        _ => Handshake::Refused(connection_error(SETUP_EXPECTED)),
    }
}

/// Whether `code` is one with which a server turns a SETUP frame down.
pub open spec fn is_setup_code(code: Code) -> bool {
    code == Code::InvalidSetup || code == Code::UnsupportedSetup || code == Code::RejectedSetup
}

/// The ERROR frame with which a server turns a SETUP frame down, for the
/// reason given: it stands on stream 0. `code` is INVALID_SETUP,
/// UNSUPPORTED_SETUP or REJECTED_SETUP.
pub fn reject_setup(code: Code, reason: &str) -> (r: ErrorFrame)
    requires
        is_setup_code(code),
    ensures
        r@ == (ErrorFrameView {
            stream_id: 0,
            code: code.spec_value(),
            data: Some(reason.spec_bytes()),
        }),
{
    proof {
        crate::frame::visit::lemma_mask_u31(0);
    }
    ErrorFrame::new(0, code.value(), Some(bytes_from_string(reason.to_owned())))
}

/// The ERROR frame with which a server turns a RESUME frame down, for the
/// reason given: it stands on stream 0 and its code is REJECTED_RESUME.
pub fn reject_resume(reason: &str) -> (r: ErrorFrame)
    ensures
        r@ == (ErrorFrameView {
            stream_id: 0,
            code: ErrorFrame::REJECTED_RESUME,
            data: Some(reason.spec_bytes()),
        }),
{
    proof {
        crate::frame::visit::lemma_mask_u31(0);
    }
    ErrorFrame::new(0, ErrorFrame::REJECTED_RESUME, Some(bytes_from_string(reason.to_owned())))
}

} // verus!
