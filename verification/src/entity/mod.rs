//! Entities: living things, mobs, projectiles and the goals that drive them.

pub mod ai;
pub mod living;
pub mod mob;
pub mod passive;
pub mod player;
pub mod projectile;
