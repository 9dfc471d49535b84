//! Peaceful creatures.

pub mod villager;
