//! Living entities: what they hold, and the groups of rules on them.

use std::collections::HashMap;

use vstd::prelude::*;

use self::attributes::AttributeInstance;

use crate::data::effect::{Effect, StatusEffect};
use crate::data::entity_type::EntityType;
use crate::data::equipment::Hand;
use crate::data::position::BlockPos;
use crate::data::rank::Rank32;

pub mod attributes;
pub mod damage;
pub mod death;
pub mod effects;
pub mod entity_base;
pub mod equipment;
pub mod movement;
pub mod nbt;
pub mod sound;
pub mod spawn;

verus! {

/// What a rule reads of the item that an entity is using.
#[derive(Clone, Copy, Debug, PartialEq, Eq, Structural)]
pub struct ItemInUse {
    /// The number of the item's kind.
    pub item: u16,
    /// How many ticks a whole use takes.
    pub max_use_time: i32,
    /// Whether the item blocks attacks, as a shield does.
    pub blocks_attacks: bool,
}

/// Why an entity left the world.
#[derive(Clone, Copy, Debug, PartialEq, Eq, Structural)]
pub enum RemovalReason {
    Killed,
    Discarded,
    UnloadedToChunk,
    UnloadedWithPlayer,
    ChangedDimension,
}

/// A living entity: a player, a mob or another creature.
pub struct LivingEntity {
    pub entity_id: i32,
    pub entity_type: EntityType,
    /// How many ticks the entity has been in the world.
    pub age: i32,
    /// Whether the entity is leaving the world or has left it.
    pub removed: bool,
    /// Why the entity has left the world, once it has.
    pub removal_reason: Option<RemovalReason>,
    pub spectator: bool,
    pub invulnerable: bool,
    /// Ticks until the entity can be hurt in full again.
    pub hurt_cooldown: i32,
    /// The damage that the entity last took.
    pub last_damage_taken: Rank32,
    pub health: Rank32,
    /// The number of the attribute for the greatest health.
    pub max_health_attribute: u8,
    /// What the attribute for the greatest health is worth now.
    pub max_health: Rank32,
    /// Absorption, the yellow hearts.
    pub absorption: Rank32,
    pub item_use_time: i32,
    pub item_in_use: Option<ItemInUse>,
    pub active_hand: Option<Hand>,
    pub death_time: u8,
    /// Whether the entity's death has been handled.
    pub dead: bool,
    pub fall_distance: Rank32,
    /// At most one effect of each kind.
    pub active_effects: Vec<Effect>,
    pub jumping: bool,
    pub jumping_cooldown: u8,
    pub climbing: bool,
    /// Where the entity last climbed.
    pub climbing_pos: Option<BlockPos>,
    /// The number of the entity that last attacked this one.
    pub last_attacker_id: i32,
    /// The age at which this entity was last attacked.
    pub last_attacked_time: i32,
    pub last_attacking_id: i32,
    pub last_attack_time: i32,
    /// How much of its speed the entity keeps in water.
    pub water_movement_speed_multiplier: Rank32,
    pub livings_flags: u8,
    /// The attributes that the entity has of its own, by their numbers.
    pub attributes: HashMap<u8, AttributeInstance>,
}

/// Whether `effects` holds an effect of the kind.
pub open spec fn holds_effect(effects: Seq<Effect>, kind: StatusEffect) -> bool {
    exists|i: int| 0 <= i < effects.len() && #[trigger] effects[i].effect_type == kind
}

/// No two effects in the list are of one kind.
pub open spec fn effects_distinct(effects: Seq<Effect>) -> bool {
    forall|i: int, j: int|
        0 <= i < j < effects.len() ==> #[trigger] effects[i].effect_type
            != #[trigger] effects[j].effect_type
}

impl LivingEntity {
    /// An entity has at most one effect of each kind.
    pub open spec fn wf(self) -> bool {
        effects_distinct(self.active_effects@)
    }

    /// The entity is dead or dying.
    pub open spec fn spec_dying(self) -> bool {
        self.health <= 0 || self.dead
    }
}

} // verus!
