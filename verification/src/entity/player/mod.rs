//! Players.

pub mod nbt;
