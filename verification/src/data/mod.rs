//! The vocabulary that the rules speak: kinds of damage, of entities, of
//! equipment, saved data, and real numbers known by their rank.

pub mod block;
pub mod damage_type;
pub mod effect;
pub mod entity_type;
pub mod equipment;
pub mod nbt;
pub mod player_server;
pub mod position;
pub mod rank;
