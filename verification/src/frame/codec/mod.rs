//! The frame types and their codecs.
pub mod cancel;
pub mod error;
pub mod keepalive;
pub mod lease;
pub mod metadata_push;
pub mod payload;
pub mod request_channel;
pub mod request_fnf;
pub mod request_n;
pub mod request_response;
pub mod request_stream;
pub mod resume;
pub mod resume_ok;
pub mod setup;

pub use self::cancel::CancelFrame;
pub use self::error::ErrorFrame;
pub use self::keepalive::KeepaliveFrame;
pub use self::lease::LeaseFrame;
pub use self::metadata_push::MetadataPushFrame;
pub use self::payload::PayloadFrame;
pub use self::request_channel::RequestChannelFrame;
pub use self::request_fnf::RequestFnfFrame;
pub use self::request_n::RequestNFrame;
pub use self::request_response::RequestResponseFrame;
pub use self::request_stream::RequestStreamFrame;
pub use self::resume::ResumeFrame;
pub use self::resume_ok::ResumeOkFrame;
pub use self::setup::{SetupFrame, SetupFrameBuilder};
