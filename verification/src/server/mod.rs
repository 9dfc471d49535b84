//! The server.

pub mod player;
