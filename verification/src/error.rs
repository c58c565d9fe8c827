//! RSocket error and result types.
use crate::frame::DecodeError;
use vstd::prelude::*;
use vstd::string::StringExecFns;

verus! {

/// A Result type aliased for `Result<T, Error>`.
pub type Result<T> = std::result::Result<T, Error>;

/// Errors that can occur when handling RSocket streams.
#[derive(Debug)]
pub struct Error {
    inner: Box<ErrorImpl>,
}

#[derive(Debug)]
struct ErrorImpl {
    kind: Kind,
    source: Option<String>,
}

/// The kinds of error.
#[derive(Debug, Clone, PartialEq)]
#[non_exhaustive]
pub enum Kind {
    /// Decoding a frame failed.
    Decode(DecodeError),
    /// Protocol error `INVALID_SETUP`.
    InvalidSetup,
    /// Protocol error `UNSUPPORTED_SETUP`.
    UnsupportedSetup,
    /// Protocol error `REJECTED_SETUP`.
    RejectedSetup,
    /// Protocol error `REJECTED_RESUME`.
    RejectedResume,
    /// Protocol error `CONNECTION_ERROR`.
    ConnectionError,
    /// Protocol error `CONNECTION_CLOSE`.
    ConnectionClose,
    /// Protocol error `APPLICATION_ERROR`.
    ApplicationError,
    /// Protocol error `REJECTED`.
    Rejected,
    /// Protocol error `CANCELED`.
    Canceled,
    /// Protocol error `INVALID`.
    Invalid,
    /// The transport failed.
    Io,
}

/// A list of valid RSocket protocol error codes.
#[non_exhaustive]
#[derive(Debug, Clone, Copy, PartialEq, Eq, Structural)]
pub enum Code {
    /// The Setup frame is invalid for the server
    /// (it could be that the client is too recent for the old server).
    InvalidSetup,
    /// Some (or all) of the parameters specified by the client are unsupported by the server.
    UnsupportedSetup,
    /// The server rejected the setup, it can specify the reason in the payload.
    RejectedSetup,
    /// The server rejected the resume, it can specify the reason in the payload.
    RejectedResume,
    /// The connection is being terminated. Sender or Receiver of this frame MAY close the
    /// connection immediately without waiting for outstanding streams to terminate.
    ConnectionError,
    /// The connection is being terminated. Sender or Receiver of this frame MUST wait for
    /// outstanding streams to terminate before closing the connection. New requests MAY not be
    /// accepted.
    ConnectionClose,
    /// Application layer logic generating a Reactive Streams onError event.
    ApplicationError,
    /// Despite being a valid request, the Responder decided to reject it.
    /// The Responder guarantees that it didn't process the request.
    Rejected,
    /// The Responder canceled the request but may have started processing it
    /// (similar to REJECTED but doesn't guarantee lack of side-effects).
    Canceled,
    /// The request is invalid.
    Invalid,
}

impl Code {
    /// The number that stands for the code in an ERROR frame.
    pub open spec fn spec_value(self) -> u32 {
        match self {
            Code::InvalidSetup => 0x0000_0001,
            Code::UnsupportedSetup => 0x0000_0002,
            Code::RejectedSetup => 0x0000_0003,
            Code::RejectedResume => 0x0000_0004,
            Code::ConnectionError => 0x0000_0101,
            Code::ConnectionClose => 0x0000_0102,
            Code::ApplicationError => 0x0000_0201,
            Code::Rejected => 0x0000_0202,
            Code::Canceled => 0x0000_0203,
            Code::Invalid => 0x0000_0204,
        }
    }

    /// The kind of error that the code stands for.
    pub open spec fn spec_kind(self) -> Kind {
        match self {
            Code::InvalidSetup => Kind::InvalidSetup,
            Code::UnsupportedSetup => Kind::UnsupportedSetup,
            Code::RejectedSetup => Kind::RejectedSetup,
            Code::RejectedResume => Kind::RejectedResume,
            Code::ConnectionError => Kind::ConnectionError,
            Code::ConnectionClose => Kind::ConnectionClose,
            Code::ApplicationError => Kind::ApplicationError,
            Code::Rejected => Kind::Rejected,
            Code::Canceled => Kind::Canceled,
            Code::Invalid => Kind::Invalid,
        }
    }

    /// Returns the number that stands for the code in an ERROR frame.
    pub fn value(self) -> (r: u32)
        ensures
            r == self.spec_value(),
    {
        match self {
            Code::InvalidSetup => 0x0000_0001,
            Code::UnsupportedSetup => 0x0000_0002,
            Code::RejectedSetup => 0x0000_0003,
            Code::RejectedResume => 0x0000_0004,
            Code::ConnectionError => 0x0000_0101,
            Code::ConnectionClose => 0x0000_0102,
            Code::ApplicationError => 0x0000_0201,
            Code::Rejected => 0x0000_0202,
            Code::Canceled => 0x0000_0203,
            Code::Invalid => 0x0000_0204,
        }
    }

    /// Returns the code that `value` stands for; `None` where it stands for none.
    pub fn from_value(value: u32) -> (r: Option<Code>)
        ensures
            r matches Some(code) ==> code.spec_value() == value,
            r is None ==> forall|code: Code| code.spec_value() != value,
    {
        if value == 0x0000_0001 {
            Some(Code::InvalidSetup)
        } else if value == 0x0000_0002 {
            Some(Code::UnsupportedSetup)
        } else if value == 0x0000_0003 {
            Some(Code::RejectedSetup)
        } else if value == 0x0000_0004 {
            Some(Code::RejectedResume)
        } else if value == 0x0000_0101 {
            Some(Code::ConnectionError)
        } else if value == 0x0000_0102 {
            Some(Code::ConnectionClose)
        } else if value == 0x0000_0201 {
            Some(Code::ApplicationError)
        } else if value == 0x0000_0202 {
            Some(Code::Rejected)
        } else if value == 0x0000_0203 {
            Some(Code::Canceled)
        } else if value == 0x0000_0204 {
            Some(Code::Invalid)
        } else {
            None
        }
    }

    /// Returns the kind of error that the code stands for.
    pub fn kind(self) -> (r: Kind)
        ensures
            r == self.spec_kind(),
    {
        match self {
            Code::InvalidSetup => Kind::InvalidSetup,
            Code::UnsupportedSetup => Kind::UnsupportedSetup,
            Code::RejectedSetup => Kind::RejectedSetup,
            Code::RejectedResume => Kind::RejectedResume,
            Code::ConnectionError => Kind::ConnectionError,
            Code::ConnectionClose => Kind::ConnectionClose,
            Code::ApplicationError => Kind::ApplicationError,
            Code::Rejected => Kind::Rejected,
            Code::Canceled => Kind::Canceled,
            Code::Invalid => Kind::Invalid,
        }
    }
}

/// What an `Error` holds: its kind, and the text of its cause where it has one.
pub ghost struct ErrorView {
    pub kind: Kind,
    pub source: Option<Seq<char>>,
}

impl Kind {
    /// Whether the kind is one of the ten error codes of the protocol.
    pub open spec fn is_protocol(self) -> bool {
        !(self is Decode) && !(self is Io)
    }

    /// The words that describe the kind.
    pub open spec fn description(self) -> Seq<char> {
        match self {
            Kind::InvalidSetup => "INVALID_SETUP (0x00000001)"@,
            Kind::UnsupportedSetup => "UNSUPPORTED_SETUP (0x00000002)"@,
            Kind::RejectedSetup => "REJECTED_SETUP (0x00000003)"@,
            Kind::RejectedResume => "REJECTED_RESUME (0x00000004)"@,
            Kind::ConnectionError => "CONNECTION_ERROR (0x00000101)"@,
            Kind::ConnectionClose => "CONNECTION_CLOSE (0x00000102)"@,
            Kind::ApplicationError => "APPLICATION_ERROR (0x00000201)"@,
            Kind::Rejected => "REJECTED (0x00000202)"@,
            Kind::Canceled => "CANCELED (0x00000203)"@,
            Kind::Invalid => "INVALID (0x00000204)"@,
            Kind::Decode(_) => "error decoding frame"@,
            Kind::Io => "I/O error"@,
        }
    }
}

impl ErrorView {
    /// The text of the error: the description of its kind, and behind a
    /// colon the text of its cause where it has one.
    pub open spec fn text(self) -> Seq<char> {
        match self.source {
            Some(source) => self.kind.description() + ": "@ + source,
            None => self.kind.description(),
        }
    }
}

impl View for Error {
    type V = ErrorView;

    closed spec fn view(&self) -> ErrorView {
        ErrorView {
            kind: self.inner.kind,
            source: match self.inner.source {
                Some(source) => Some(source@),
                None => None,
            },
        }
    }
}

impl Error {
    /// Creates an error of the given kind, with the text of its cause if there is one.
    pub fn new(kind: Kind, source: Option<String>) -> (r: Error)
        ensures
            r@.kind == kind,
            r@.source == match source {
                Some(text) => Some(text@),
                None => None,
            },
    {
        Error { inner: Box::new(ErrorImpl { kind, source }) }
    }

    /// Returns the kind of this error.
    pub fn kind(&self) -> (r: &Kind)
        ensures
            *r == self@.kind,
    {
        &self.inner.kind
    }

    /// Returns the text of the cause of this error, if it has one.
    pub fn source(&self) -> (r: Option<&String>)
        ensures
            r matches Some(text) ==> self@.source == Some(text@),
            r is None <==> self@.source is None,
    {
        self.inner.source.as_ref()
    }

    /// Returns true if this error is related to decoding `Bytes`.
    pub fn is_decode(&self) -> (r: bool)
        ensures
            r == (self@.kind is Decode),
    {
        match self.inner.kind {
            Kind::Decode(_) => true,
            _ => false,
        }
    }

    /// Returns true if this error is a RSocket protocol error.
    pub fn is_protocol(&self) -> (r: bool)
        ensures
            r == self@.kind.is_protocol(),
    {
        match self.inner.kind {
            Kind::InvalidSetup
            | Kind::UnsupportedSetup
            | Kind::RejectedSetup
            | Kind::RejectedResume
            | Kind::ConnectionError
            | Kind::ConnectionClose
            | Kind::ApplicationError
            | Kind::Rejected
            | Kind::Canceled
            | Kind::Invalid => true,
            _ => false,
        }
    }

    /// Returns true if this error is related to connection setup.
    pub fn is_setup(&self) -> (r: bool)
        ensures
            r == (self@.kind is InvalidSetup || self@.kind is UnsupportedSetup || self@.kind
                is RejectedSetup),
    {
        match self.inner.kind {
            Kind::InvalidSetup | Kind::UnsupportedSetup | Kind::RejectedSetup => true,
            _ => false,
        }
    }

    /// Returns true if this is protocol error `INVALID_SETUP`.
    pub fn is_invalid_setup(&self) -> (r: bool)
        ensures
            r == (self@.kind is InvalidSetup),
    {
        match self.inner.kind {
            Kind::InvalidSetup => true,
            _ => false,
        }
    }

    /// Returns true if this is protocol error `UNSUPPORTED_SETUP`.
    pub fn is_unsupported_setup(&self) -> (r: bool)
        ensures
            r == (self@.kind is UnsupportedSetup),
    {
        match self.inner.kind {
            Kind::UnsupportedSetup => true,
            _ => false,
        }
    }

    /// Returns true if this is protocol error `REJECTED_SETUP`.
    pub fn is_rejected_setup(&self) -> (r: bool)
        ensures
            r == (self@.kind is RejectedSetup),
    {
        match self.inner.kind {
            Kind::RejectedSetup => true,
            _ => false,
        }
    }

    /// Returns true if this is protocol error `REJECTED_RESUME`.
    pub fn is_rejected_resume(&self) -> (r: bool)
        ensures
            r == (self@.kind is RejectedResume),
    {
        match self.inner.kind {
            Kind::RejectedResume => true,
            _ => false,
        }
    }

    /// Returns true if this is protocol error `CONNECTION_ERROR`.
    ///
    /// Sender or Receiver of this error MAY close the connection immediately without waiting
    /// for outstanding streams to terminate.
    pub fn is_connection_error(&self) -> (r: bool)
        ensures
            r == (self@.kind is ConnectionError),
    {
        match self.inner.kind {
            Kind::ConnectionError => true,
            _ => false,
        }
    }

    /// Returns true if this is protocol error `CONNECTION_CLOSE`.
    ///
    /// Sender or Receiver of this error MUST wait for outstanding streams to terminate before
    /// closing the connection. New requests MAY not be accepted.
    pub fn is_connection_close(&self) -> (r: bool)
        ensures
            r == (self@.kind is ConnectionClose),
    {
        match self.inner.kind {
            Kind::ConnectionClose => true,
            _ => false,
        }
    }

    /// Returns true if this is protocol error `APPLICATION_ERROR`.
    pub fn is_application_error(&self) -> (r: bool)
        ensures
            r == (self@.kind is ApplicationError),
    {
        match self.inner.kind {
            Kind::ApplicationError => true,
            _ => false,
        }
    }

    /// Returns true if this is protocol error `REJECTED`.
    pub fn is_rejected(&self) -> (r: bool)
        ensures
            r == (self@.kind is Rejected),
    {
        match self.inner.kind {
            Kind::Rejected => true,
            _ => false,
        }
    }

    /// Returns true if this is protocol error `CANCELED`.
    pub fn is_cancel(&self) -> (r: bool)
        ensures
            r == (self@.kind is Canceled),
    {
        match self.inner.kind {
            Kind::Canceled => true,
            _ => false,
        }
    }

    /// Returns true if this is protocol error `INVALID`.
    pub fn is_invalid(&self) -> (r: bool)
        ensures
            r == (self@.kind is Invalid),
    {
        match self.inner.kind {
            Kind::Invalid => true,
            _ => false,
        }
    }

    /// Returns the words that describe the kind of this error.
    pub fn description(&self) -> (r: &'static str)
        ensures
            r@ == self@.kind.description(),
    {
        match &self.inner.kind {
            Kind::InvalidSetup => "INVALID_SETUP (0x00000001)",
            Kind::UnsupportedSetup => "UNSUPPORTED_SETUP (0x00000002)",
            Kind::RejectedSetup => "REJECTED_SETUP (0x00000003)",
            Kind::RejectedResume => "REJECTED_RESUME (0x00000004)",
            Kind::ConnectionError => "CONNECTION_ERROR (0x00000101)",
            Kind::ConnectionClose => "CONNECTION_CLOSE (0x00000102)",
            Kind::ApplicationError => "APPLICATION_ERROR (0x00000201)",
            Kind::Rejected => "REJECTED (0x00000202)",
            Kind::Canceled => "CANCELED (0x00000203)",
            Kind::Invalid => "INVALID (0x00000204)",
            Kind::Decode(_) => "error decoding frame",
            Kind::Io => "I/O error",
        }
    }

    /// Returns the text of this error: see `ErrorView::text`.
    pub fn to_string(&self) -> (r: String)
        ensures
            r@ == self@.text(),
    {
        let mut text = String::from_str(self.description());
        if let Some(source) = &self.inner.source {
            text.append(": ");
            text.append(source.as_str());
        }
        text
    }

    /// An error of the transport, with the text of its cause.
    pub fn io(cause: String) -> (r: Error)
        ensures
            r@ == (ErrorView { kind: Kind::Io, source: Some(cause@) }),
    {
        Error::new(Kind::Io, Some(cause))
    }
}

impl vstd::std_specs::convert::FromSpecImpl<DecodeError> for Error {
    open spec fn obeys_from_spec() -> bool {
        false
    }

    open spec fn from_spec(e: DecodeError) -> Error {
        arbitrary()
    }
}

impl From<DecodeError> for Error {
    /// An error of decoding: its cause is the text of the decoding error.
    fn from(e: DecodeError) -> (r: Error)
        ensures
            r@ == (ErrorView { kind: Kind::Decode(e), source: Some(e.text()) }),
    {
        let source = e.to_string();
        Error::new(Kind::Decode(e), Some(source))
    }
}

} // verus!
