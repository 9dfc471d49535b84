//! Clients of the other edition.

pub mod interaction;
