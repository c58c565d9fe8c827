//! RSocket transport session between client and server.
pub mod conn;
pub mod counter;
pub mod demux;
pub mod handshake;
pub mod keepalive;
pub mod lease;
pub mod socket;
pub mod stream;
pub mod stream_id;

pub use self::conn::{ConnectionStatus, Role};
pub use self::counter::RequestCounter;
pub use self::stream_id::StreamIdProvider;
