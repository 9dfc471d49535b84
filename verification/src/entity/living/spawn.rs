//! How a living entity starts out.

use std::collections::HashMap;

use vstd::prelude::*;

use super::attributes::{attribute_values, AttributeBase, AttributeInstance, Modifier};
use super::LivingEntity;
use crate::data::effect::Effect;
use crate::data::entity_type::EntityType;
use crate::data::rank::{Rank32, Rank64};

verus! {

broadcast use vstd::std_specs::hash::group_hash_axioms;

/// The health (20.0) of an entity whose kind says nothing of it.
pub const DEFAULT_MAX_HEALTH: Rank32 = 0x41A0_0000;

/// How much of its speed (0.98) a polar bear keeps in water.
pub const POLAR_BEAR_WATER_SPEED: Rank32 = 0x3F7A_E148;

/// How much of its speed (0.96) a skeleton horse keeps in water.
pub const SKELETON_HORSE_WATER_SPEED: Rank32 = 0x3F75_C28F;

/// How much of its speed (0.8) any other entity keeps in water.
pub const WATER_SPEED: Rank32 = 0x3F4C_CCCD;

/// The attributes that a kind of entity starts with: the last base value that it
/// gives to each, and no modifiers.
pub open spec fn starting_values(bases: Seq<AttributeBase>) -> Map<u8, (Rank64, Seq<Modifier>)>
    decreases bases.len(),
{
    if bases.len() == 0 {
        Map::empty()
    } else {
        starting_values(bases.drop_last()).insert(
            bases.last().attribute,
            (bases.last().base, Seq::empty()),
        )
    }
}

/// The health that a kind of entity starts with: the last base value that it gives to
/// the attribute for the greatest health.
pub open spec fn starting_health(bases: Seq<AttributeBase>, max_health: u8) -> Rank32
    decreases bases.len(),
{
    if bases.len() == 0 {
        DEFAULT_MAX_HEALTH
    } else if bases.last().attribute == max_health {
        bases.last().narrowed
    } else {
        starting_health(bases.drop_last(), max_health)
    }
}

/// How much of its speed a kind of entity keeps in water.
pub open spec fn water_speed(entity_type: EntityType) -> Rank32 {
    if entity_type == EntityType::PolarBear {
        POLAR_BEAR_WATER_SPEED
    } else if entity_type == EntityType::SkeletonHorse {
        SKELETON_HORSE_WATER_SPEED
    } else {
        WATER_SPEED
    }
}

impl LivingEntity {
    /// A living entity of the kind, as it comes into the world. `max_health` is the
    /// number of the attribute for the greatest health.
    pub fn new(
        entity_id: i32,
        entity_type: EntityType,
        bases: &Vec<AttributeBase>,
        max_health: u8,
    ) -> (r: Self)
        ensures
            r.wf(),
            attribute_values(r.attributes@) == starting_values(bases@),
            forall|attribute: u8| #[trigger]
                r.attributes@.contains_key(attribute) ==> !r.attributes@[attribute].dirty,
            r.active_effects@ == Seq::<Effect>::empty(),
            r == (LivingEntity {
                entity_id,
                entity_type,
                age: 0,
                removed: false,
                removal_reason: None,
                spectator: false,
                invulnerable: false,
                hurt_cooldown: 0,
                last_damage_taken: 0,
                health: starting_health(bases@, max_health),
                max_health_attribute: max_health,
                max_health: starting_health(bases@, max_health),
                absorption: 0,
                item_use_time: 0,
                item_in_use: None,
                active_hand: None,
                death_time: 0,
                dead: false,
                fall_distance: 0,
                active_effects: r.active_effects,
                jumping: false,
                jumping_cooldown: 0,
                climbing: false,
                climbing_pos: None,
                last_attacker_id: 0,
                last_attacked_time: 0,
                last_attacking_id: 0,
                last_attack_time: 0,
                water_movement_speed_multiplier: water_speed(entity_type),
                livings_flags: 0,
                attributes: r.attributes,
            }),
    {
        let mut attributes: HashMap<u8, AttributeInstance> = HashMap::new();
        let mut health: Rank32 = DEFAULT_MAX_HEALTH;
        assert(attribute_values(attributes@) =~= starting_values(bases@.take(0)));
        let mut i: usize = 0;
        while i < bases.len()
            invariant
                i <= bases@.len(),
                attribute_values(attributes@) == starting_values(bases@.take(i as int)),
                forall|attribute: u8| #[trigger]
                    attributes@.contains_key(attribute) ==> !attributes@[attribute].dirty,
                health == starting_health(bases@.take(i as int), max_health),
            decreases bases.len() - i,
        {
            assert(bases@.take(i as int + 1).drop_last() =~= bases@.take(i as int));
            let base: AttributeBase = bases[i];
            if base.attribute == max_health {
                health = base.narrowed;
            }
            attributes.insert(base.attribute, AttributeInstance::new(base.base));
            i = i + 1;
            assert(attribute_values(attributes@) =~= starting_values(bases@.take(i as int)));
        }
        assert(bases@.take(i as int) =~= bases@);
        let multiplier: Rank32 = if entity_type == EntityType::PolarBear {
            POLAR_BEAR_WATER_SPEED
        } else if entity_type == EntityType::SkeletonHorse {
            SKELETON_HORSE_WATER_SPEED
        } else {
            WATER_SPEED
        };
        LivingEntity {
            entity_id,
            entity_type,
            age: 0,
            removed: false,
            removal_reason: None,
            spectator: false,
            invulnerable: false,
            hurt_cooldown: 0,
            last_damage_taken: 0,
            health,
            max_health_attribute: max_health,
            max_health: health,
            absorption: 0,
            item_use_time: 0,
            item_in_use: None,
            active_hand: None,
            death_time: 0,
            dead: false,
            fall_distance: 0,
            active_effects: Vec::new(),
            jumping: false,
            jumping_cooldown: 0,
            climbing: false,
            climbing_pos: None,
            last_attacker_id: 0,
            last_attacked_time: 0,
            last_attacking_id: 0,
            last_attack_time: 0,
            water_movement_speed_multiplier: multiplier,
            livings_flags: 0,
            attributes,
        }
    }
}

/// The last base that is given to the attribute for the greatest health counts.
proof fn lemma_last_health_counts(bases: Seq<AttributeBase>, max_health: u8, k: int)
    requires
        0 <= k < bases.len(),
        bases[k].attribute == max_health,
        forall|i: int| k < i < bases.len() ==> (#[trigger] bases[i]).attribute != max_health,
    ensures
        starting_health(bases, max_health) == bases[k].narrowed,
    decreases bases.len(),
{
    if k < bases.len() - 1 {
        assert(bases[bases.len() - 1] == bases.last());
        let before = bases.drop_last();
        assert(before[k] == bases[k]);
        assert forall|i: int| k < i < before.len() implies (
        #[trigger] before[i]).attribute != max_health by {
            assert(before[i] == bases[i]);
        }
        lemma_last_health_counts(before, max_health, k);
    } else {
        assert(bases[k] == bases.last());
    }
}

/// Where no base is given to it the greatest health is the default.
proof fn lemma_default_health(bases: Seq<AttributeBase>, max_health: u8)
    requires
        forall|i: int| 0 <= i < bases.len() ==> (#[trigger] bases[i]).attribute != max_health,
    ensures
        starting_health(bases, max_health) == DEFAULT_MAX_HEALTH,
    decreases bases.len(),
{
    if bases.len() > 0 {
        assert(bases[bases.len() - 1] == bases.last());
        let before = bases.drop_last();
        assert forall|i: int| 0 <= i < before.len() implies (
        #[trigger] before[i]).attribute != max_health by {
            assert(before[i] == bases[i]);
        }
        lemma_default_health(before, max_health);
    }
}

/// The last base that is given to an attribute is what it starts with.
proof fn lemma_last_base_counts(bases: Seq<AttributeBase>, attribute: u8, k: int)
    requires
        0 <= k < bases.len(),
        bases[k].attribute == attribute,
        forall|i: int| k < i < bases.len() ==> (#[trigger] bases[i]).attribute != attribute,
    ensures
        starting_values(bases).contains_key(attribute),
        starting_values(bases)[attribute].0 == bases[k].base,
        starting_values(bases)[attribute].1.len() == 0,
    decreases bases.len(),
{
    if k < bases.len() - 1 {
        assert(bases[bases.len() - 1] == bases.last());
        let before = bases.drop_last();
        assert(before[k] == bases[k]);
        assert forall|i: int| k < i < before.len() implies (
        #[trigger] before[i]).attribute != attribute by {
            assert(before[i] == bases[i]);
        }
        lemma_last_base_counts(before, attribute, k);
    } else {
        assert(bases[k] == bases.last());
    }
}

/// Law: an entity comes into the world whole: with the greatest health that its kind gives it last,
/// or 20 where it gives none, alive, unhurt, without effects and using nothing. In water a polar
/// bear keeps 0.98 of its speed, a skeleton horse 0.96 and any other 0.8.
pub proof fn law_new_entity_is_whole(
    entity_id: i32,
    entity_type: EntityType,
    bases: Vec<AttributeBase>,
    max_health: u8,
    r: LivingEntity,
    k: int,
)
    requires
        call_ensures(LivingEntity::new, (entity_id, entity_type, &bases, max_health), r),
        -1 <= k < bases@.len(),
        forall|i: int| k < i < bases@.len() ==> (#[trigger] bases@[i]).attribute != max_health,
        k >= 0 ==> bases@[k].attribute == max_health,
    ensures
        r.entity_id == entity_id,
        r.entity_type == entity_type,
        k >= 0 ==> r.health == bases@[k].narrowed,
        k >= 0 ==> attribute_values(r.attributes@).contains_key(max_health) && attribute_values(
            r.attributes@,
        )[max_health].0 == bases@[k].base,
        k == -1 ==> r.health == 0x41A0_0000,
        r.max_health == r.health,
        r.absorption == 0,
        !r.dead,
        !r.removed,
        r.removal_reason is None,
        r.active_effects@.len() == 0,
        r.hurt_cooldown == 0,
        r.item_in_use is None,
        r.active_hand is None,
        r.fall_distance == 0,
        r.death_time == 0,
        r.age == 0,
        r.livings_flags == 0,
        r.water_movement_speed_multiplier == (if entity_type == EntityType::PolarBear {
            0x3F7A_E148int
        } else if entity_type == EntityType::SkeletonHorse {
            0x3F75_C28Fint
        } else {
            0x3F4C_CCCDint
        }),
{
    if k >= 0 {
        lemma_last_health_counts(bases@, max_health, k);
        lemma_last_base_counts(bases@, max_health, k);
    } else {
        lemma_default_health(bases@, max_health);
    }
}

} // verus!
