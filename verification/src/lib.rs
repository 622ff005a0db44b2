//! Core of a MessagePack-RPC server: the typed message model, the wire
//! codec that frames messages over a byte stream, and the per-connection
//! protocol engine that multiplexes in-flight requests by id.

pub mod codec;
pub mod ext;
pub mod message;
pub mod server;
pub mod value;
pub mod wire;
