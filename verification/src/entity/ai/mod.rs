//! What drives mobs: goals, and finding the way.

pub mod goal;
pub mod pathfinder;
