//! Projectiles.

pub mod arrow;
