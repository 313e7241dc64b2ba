//! The records that rooms, stories and accounts are made of.

pub mod game_room;
pub mod user;
