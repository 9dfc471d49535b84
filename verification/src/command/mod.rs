//! Commands.

pub mod commands;
