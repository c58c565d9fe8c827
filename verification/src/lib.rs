//! Protocol engine for RSocket: the frame codec, the stream identifier
//! allocator, payload fragmentation and the decisions of a connection.
pub mod connection;
pub mod consts;
pub mod error;
pub mod frame;
pub mod mimetype;
pub mod payload;
pub mod text;
