//! Clients of the one edition.

pub mod config;
