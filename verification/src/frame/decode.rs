//! Errors of decoding.
use bytes::Bytes;
use crate::text::{decimal, decimal_text, hex, hex_text, widen};
use super::buf::contents;
use super::flags::Flags;
use vstd::prelude::*;
use vstd::string::StringExecFns;

verus! {

broadcast use crate::frame::wire::group_be_len;

/// A trait for decoding bytes into a frame.
pub trait Decode {
    /// The value decoded into.
    type Value: View;

    /// What decoding gives for the bytes `s` that follow the header of a
    /// frame with the given stream ID and flags, and the bytes it leaves.
    spec fn parse(s: Seq<u8>, stream_id: u32, flags: u16) -> (
        Result<<Self::Value as View>::V, DecodeError>,
        Seq<u8>,
    );

    /// Decodes the bytes that follow the header of a frame. The stream ID and
    /// the flags are those read from the header.
    fn decode(buf: &mut Bytes, stream_id: u32, flags: Flags) -> (r: Result<
        Self::Value,
        DecodeError,
    >)
        ensures
            match r {
                Ok(v) => Self::parse(contents(*old(buf)), stream_id, flags@) == (
                    Ok::<<Self::Value as View>::V, DecodeError>(v@),
                    contents(*final(buf)),
                ),
                Err(e) => Self::parse(contents(*old(buf)), stream_id, flags@) == (
                    Err::<<Self::Value as View>::V, DecodeError>(e),
                    contents(*final(buf)),
                ),
            },
    ;
}

/// Errors that can occur when decoding bytes into a specific frame failed.
#[derive(Debug, Clone, PartialEq, Eq)]
#[non_exhaustive]
pub enum DecodeError {
    /// Not enough data is available to parse a frame.
    InComplete,
    /// The decoded frame type is unrecognized.
    UnrecognizedFrameType(u16),
    /// The decoded stream ID is invalid.
    InvalidStreamId {
        /// expected stream ID
        expected: &'static str,
        /// found stream ID
        found: u32,
    },
}

impl DecodeError {
    /// The text of the error.
    pub open spec fn text(self) -> Seq<char> {
        match self {
            DecodeError::InComplete => "incomplete frame"@,
            DecodeError::UnrecognizedFrameType(v) => "unrecognized frame type 0x"@ + hex_text(
                v as nat,
            ),
            DecodeError::InvalidStreamId { expected, found } => "invalid stream ID (expected "@
                + expected@ + ", found "@ + decimal_text(found as nat) + ")"@,
        }
    }

    /// Returns the text of the error: what it is, and for an unrecognized
    /// frame type its raw value in hexadecimal digits, for an invalid
    /// stream ID what was expected and what was found.
    pub fn to_string(&self) -> (r: String)
        ensures
            r@ == self.text(),
    {
        match self {
            DecodeError::InComplete => String::from_str("incomplete frame"),
            DecodeError::UnrecognizedFrameType(v) => {
                let mut text = String::from_str("unrecognized frame type 0x");
                text.append(hex(widen(*v)).as_str());
                text
            },
            DecodeError::InvalidStreamId { expected, found } => {
                let mut text = String::from_str("invalid stream ID (expected ");
                text.append(expected);
                text.append(", found ");
                text.append(decimal(*found).as_str());
                text.append(")");
                text
            },
        }
    }
}

} // verus!
