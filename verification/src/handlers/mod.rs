//! What the server decides when a request or an event arrives.

pub mod auth;
pub mod game_room;
pub mod lobby;
pub mod room;
pub mod user;
