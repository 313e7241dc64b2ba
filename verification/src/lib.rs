//! Real-time coordination for planning-poker rooms: the registry of live
//! connections, the per-room voting state machine and the wire protocol.

pub mod api;
pub mod error;
pub mod handlers;
pub mod json;
pub mod middleware;
pub mod models;
pub mod oid;
pub mod registry;
pub mod server;
pub mod session;
pub mod text;
pub mod websocket;
