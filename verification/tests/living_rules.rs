use pumpkin::data::block::Block;
use pumpkin::data::damage_type::DamageType;
use pumpkin::data::effect::{Effect, StatusEffect};
use pumpkin::data::entity_type::{Difficulty, EntityType};
use pumpkin::data::equipment::{Enchantment, EnchantmentLevel, EquipmentSlot, Hand};
use pumpkin::data::nbt::StackId;
use pumpkin::data::position::BlockPos;
use pumpkin::entity::living::attributes::{
    AttributeBase, AttributeChange, AttributeInstance, EffectModifier, Modifier,
    ModifierOperation,
};
use pumpkin::entity::living::damage::{
    enchantment_protection, hit_armor_wear, hit_wears_armor, landed_damage, settle_shield_wear, AbsorptionSum,
    Attacker, CostStep, DamageStat, DeathOutcome, HealthSum, Hit, HitOutcome, HitStep, Party,
};
use pumpkin::entity::living::death::{
    armor_takes_wear, armor_wear, dropped_damage, slots_to_drop, villager_turns, ArmorStep,
    ArmorWear, Conversion, DamageResult, DeathMessageType, DeathScene, DeathStat, DeathStep,
    DropCandidate, Killer,
};
use pumpkin::entity::living::effects::{AbsorptionStep, EffectStep, EffectTick, HealthStep};
use pumpkin::entity::living::entity_base::{
    FoodKind, Support, TickPhase, TickStep, TickView, UsedItem,
};
use pumpkin::entity::living::equipment::{HandStack, HandSync};
use pumpkin::entity::living::movement::{
    AirMoved, AirScene, Drag, FallScene, FallSound, FluidDrift, FluidMoved, FluidPush, FluidScene,
    Footing, Landing, Leap, MotionScene, NearbyBlock, Pace, Pull, Sinking, Travel, WaterEase,
    WaterGrip,
};
use pumpkin::entity::living::sound::SoundCategory;
use pumpkin::entity::living::{ItemInUse, LivingEntity, RemovalReason};

const MAX_HEALTH: u8 = 3;

fn rank(number: f32) -> i32 {
    if number < 0.0 {
        -((-number).to_bits() as i32)
    } else {
        number.to_bits() as i32
    }
}

fn wide(number: f64) -> i64 {
    if number < 0.0 {
        -((-number).to_bits() as i64)
    } else {
        number.to_bits() as i64
    }
}

fn entity(entity_type: EntityType) -> LivingEntity {
    let bases = vec![AttributeBase {
        attribute: MAX_HEALTH,
        base: wide(20.0),
        narrowed: rank(20.0),
    }];
    LivingEntity::new(1, entity_type, &bases, MAX_HEALTH)
}

fn effect(kind: StatusEffect, duration: i32, amplifier: u8) -> Effect {
    Effect {
        effect_type: kind,
        duration,
        amplifier,
        ambient: false,
        show_particles: true,
        show_icon: true,
        blend: false,
    }
}

fn attacker(entity_type: EntityType) -> Attacker {
    Attacker {
        entity_id: 9,
        entity_type,
        is_player: entity_type == EntityType::Player,
        holds_axe: false,
        sprinting: false,
    }
}

fn hit(amount: f32) -> Hit {
    Hit {
        damage_type: DamageType::MobAttack,
        invulnerable: false,
        fire_damage_rule: true,
        amount: rank(amount),
        effective_amount: rank(amount),
        effective_tenths: (amount * 10.0) as i32,
        resistance: 0,
        resisted_tenths: 0,
        victim_is_player: false,
        source: Some(attacker(EntityType::Zombie)),
        cause: None,
        bypasses_shield: false,
        from_front: Some(true),
        disable_roll: rank(0.9),
        block_durability: 1 + amount as i32,
        hurt_animation: true,
        knockback_resistance: 0,
    }
}

// ---------------------------------------------------------------------------
// Coming into the world.
// ---------------------------------------------------------------------------

#[test]
fn an_entity_starts_with_the_health_of_its_kind() {
    let bases = vec![
        AttributeBase {
            attribute: MAX_HEALTH,
            base: wide(30.0),
            narrowed: rank(30.0),
        },
        AttributeBase {
            attribute: 5,
            base: wide(0.1),
            narrowed: rank(0.1),
        },
    ];
    let bear = LivingEntity::new(4, EntityType::PolarBear, &bases, MAX_HEALTH);
    assert_eq!(bear.health, rank(30.0));
    assert_eq!(bear.max_health, rank(30.0));
    assert_eq!(bear.water_movement_speed_multiplier, rank(0.98));
    assert_eq!(bear.attributes.len(), 2);
    let other = LivingEntity::new(4, EntityType::Zombie, &Vec::new(), MAX_HEALTH);
    assert_eq!(other.health, rank(20.0));
    assert_eq!(other.water_movement_speed_multiplier, rank(0.8));
    let horse = LivingEntity::new(4, EntityType::SkeletonHorse, &Vec::new(), MAX_HEALTH);
    assert_eq!(horse.water_movement_speed_multiplier, rank(0.96));
}

#[test]
fn sounds_fall_under_their_volume() {
    assert_eq!(
        LivingEntity::sound_category_for_entity(EntityType::Player, false),
        SoundCategory::Players
    );
    assert_eq!(
        LivingEntity::sound_category_for_entity(EntityType::Zombie, true),
        SoundCategory::Hostile
    );
    assert_eq!(
        LivingEntity::sound_category_for_entity(EntityType::Villager, false),
        SoundCategory::Neutral
    );
}

#[test]
fn a_slime_sounds_as_its_size_makes_it() {
    let registry = vec![
        "entity.generic.hurt".to_string(),
        "entity.slime.hurt".to_string(),
        "entity.slime.hurt_small".to_string(),
    ];
    let slime = entity(EntityType::Slime);
    assert_eq!(slime.hurt_sound(2, None, "slime", &registry, 0), 2);
    let zombie = entity(EntityType::Zombie);
    assert_eq!(zombie.hurt_sound(2, None, "zombie", &registry, 0), 0);
}

// ---------------------------------------------------------------------------
// Hits.
// ---------------------------------------------------------------------------

#[test]
fn the_same_hit_lands_once() {
    let mut zombie = entity(EntityType::Zombie);
    let strike = hit(4.0);
    let (outcome, steps) = zombie.damage_with_context_impl(&strike);
    assert_eq!(outcome, HitOutcome::LandsInFull);
    assert_eq!(
        steps,
        vec![
            HitStep::ShowHurtAnimation,
            HitStep::SendDamageEvent,
            HitStep::TrySpawnSilverfish,
            HitStep::PlayHurtSound,
            HitStep::Knockback,
        ]
    );
    assert_eq!(zombie.last_damage_taken, rank(4.0));
    assert_eq!(zombie.last_attacker_id, 9);
    let (outcome, steps) = zombie.damage_with_context_impl(&strike);
    assert_eq!(outcome, HitOutcome::TooSoon);
    assert!(steps.is_empty());
    // A harder one lands with what it exceeds the last by.
    let (outcome, steps) = zombie.damage_with_context_impl(&hit(6.0));
    assert_eq!(outcome, HitOutcome::LandsExcess);
    assert!(!steps.contains(&HitStep::PlayHurtSound));
    assert_eq!(landed_damage(outcome, rank(6.0), rank(2.0)), rank(2.0));
    assert_eq!(
        landed_damage(HitOutcome::LandsInFull, rank(6.0), rank(2.0)),
        rank(6.0)
    );
    assert_eq!(landed_damage(HitOutcome::Blocked, rank(6.0), rank(2.0)), 0);
}

#[test]
fn damage_from_beyond_ignores_the_cooldown() {
    let mut zombie = entity(EntityType::Zombie);
    let strike = Hit {
        damage_type: DamageType::OutOfWorld,
        source: None,
        ..hit(4.0)
    };
    assert_eq!(
        zombie.damage_with_context_impl(&strike).0,
        HitOutcome::LandsInFull
    );
    assert_eq!(
        zombie.damage_with_context_impl(&strike).0,
        HitOutcome::LandsInFull
    );
}

#[test]
fn the_dead_and_the_invulnerable_are_not_hurt() {
    let mut dead = entity(EntityType::Zombie);
    dead.health = 0;
    assert!(dead.refuses_hit(&hit(4.0)));
    assert_eq!(
        dead.damage_with_context_impl(&hit(4.0)).0,
        HitOutcome::Refused
    );
    let alive = entity(EntityType::Zombie);
    assert!(alive.refuses_hit(&Hit {
        invulnerable: true,
        ..hit(4.0)
    }));
    assert!(alive.refuses_hit(&hit(-1.0)));
    assert!(!alive.refuses_hit(&hit(0.0)));
}

#[test]
fn fire_spares_those_who_resist_it() {
    let fire = Hit {
        damage_type: DamageType::OnFire,
        ..hit(1.0)
    };
    let mut player = entity(EntityType::Player);
    assert!(!player.refuses_hit(&fire));
    assert!(player.refuses_hit(&Hit {
        fire_damage_rule: false,
        ..fire
    }));
    player.add_effect(effect(StatusEffect::FireResistance, 100, 0), true);
    assert!(player.refuses_hit(&fire));
    assert!(!player.refuses_hit(&hit(1.0)));
}

fn shielded_player() -> LivingEntity {
    let mut player = entity(EntityType::Player);
    player.set_active_hand(
        Hand::Left,
        Some(ItemInUse {
            item: 7,
            max_use_time: 72000,
            blocks_attacks: true,
        }),
        72000,
    );
    player
}

#[test]
fn a_raised_shield_stops_a_hit_from_the_front() {
    let mut player = shielded_player();
    let strike = Hit {
        victim_is_player: true,
        ..hit(4.0)
    };
    // The shield is not up yet.
    assert!(!player.is_blocking());
    assert_eq!(
        player.damage_with_context_impl(&strike).0,
        HitOutcome::LandsInFull
    );
    player.item_use_time -= 5;
    assert!(player.is_blocking());
    let (outcome, steps) = player.damage_with_context_impl(&strike);
    assert_eq!(outcome, HitOutcome::Blocked);
    assert_eq!(
        steps,
        vec![
            HitStep::PlayShieldBlock,
            HitStep::AddStat {
                party: Party::Victim,
                stat: DamageStat::DamageBlockedByShield,
                tenths: 40,
            },
            HitStep::TriggerDeflectedDamage,
            HitStep::DamageShield {
                slot: EquipmentSlot::OffHand,
                durability: 5,
            },
        ]
    );
    let from_behind = Hit {
        from_front: Some(false),
        ..strike
    };
    assert_ne!(
        player.damage_with_context_impl(&from_behind).0,
        HitOutcome::Blocked
    );
}

#[test]
fn an_axe_disables_a_shield() {
    let mut player = shielded_player();
    player.item_use_time -= 5;
    let strike = Hit {
        victim_is_player: true,
        cause: Some(Attacker {
            holds_axe: true,
            ..attacker(EntityType::Player)
        }),
        disable_roll: rank(0.2),
        ..hit(4.0)
    };
    let (outcome, steps) = player.damage_with_context_impl(&strike);
    assert_eq!(outcome, HitOutcome::Blocked);
    assert!(steps.contains(&HitStep::StartShieldCooldown { ticks: 100 }));
    assert!(steps.contains(&HitStep::ClearActiveHand));
    assert!(!steps
        .iter()
        .any(|step| matches!(step, HitStep::DamageShield { .. })));
}

#[test]
fn a_broken_shield_is_gone() {
    let slot = EquipmentSlot::OffHand;
    assert!(settle_shield_wear(DamageResult::Damaged, slot, true).is_empty());
    assert_eq!(
        settle_shield_wear(DamageResult::Broken, slot, true),
        vec![
            HitStep::CountBroken { slot },
            HitStep::ShowBreak { slot },
            HitStep::EmptySlot { slot },
            HitStep::ClearActiveHand,
        ]
    );
}

#[test]
fn protection_counts_by_kind() {
    let levels = vec![
        EnchantmentLevel {
            enchantment: Enchantment::Protection,
            level: 4,
        },
        EnchantmentLevel {
            enchantment: Enchantment::FireProtection,
            level: 2,
        },
    ];
    assert_eq!(enchantment_protection(&levels, DamageType::MobAttack), 4);
    assert_eq!(enchantment_protection(&levels, DamageType::OnFire), 8);
    assert_eq!(enchantment_protection(&Vec::new(), DamageType::OnFire), 0);
}

#[test]
fn absorption_is_used_up_first() {
    let mut player = entity(EntityType::Player);
    player.absorption = rank(4.0);
    let strike = Hit {
        victim_is_player: true,
        ..hit(3.0)
    };
    let (remaining, steps) = player.absorb_damage(
        &strike,
        &AbsorptionSum {
            damage: rank(3.0),
            absorption_left: rank(1.0),
            damage_left: rank(-1.0),
            absorbed_tenths: 30,
        },
    );
    assert_eq!(remaining, 0);
    assert_eq!(player.absorption, rank(1.0));
    assert_eq!(
        steps,
        vec![
            CostStep::AddStat {
                party: Party::Victim,
                stat: DamageStat::DamageAbsorbed,
                tenths: 30,
            },
            CostStep::Absorption(AbsorptionStep::SendMaxAbsorption),
            CostStep::Absorption(AbsorptionStep::SendHearts {
                absorption: rank(1.0),
            }),
        ]
    );
    let (remaining, _) = player.absorb_damage(
        &strike,
        &AbsorptionSum {
            damage: rank(3.0),
            absorption_left: rank(-2.0),
            damage_left: rank(2.0),
            absorbed_tenths: 10,
        },
    );
    assert_eq!(remaining, rank(2.0));
    assert_eq!(player.absorption, 0);
}

#[test]
fn what_is_left_of_the_damage_costs_health() {
    let mut zombie = entity(EntityType::Zombie);
    let (dies, steps) = zombie.settle_damage(
        &hit(5.0),
        &HealthSum {
            remaining: rank(5.0),
            health_left: rank(15.0),
            remaining_tenths: 50,
        },
    );
    assert!(!dies);
    assert_eq!(zombie.health, rank(15.0));
    assert_eq!(steps, vec![CostStep::SendHealth { health: rank(15.0) }]);
    let (dies, _) = zombie.settle_damage(
        &hit(50.0),
        &HealthSum {
            remaining: rank(50.0),
            health_left: rank(-35.0),
            remaining_tenths: 500,
        },
    );
    assert!(dies);
    assert_eq!(zombie.health, 0);
}

// ---------------------------------------------------------------------------
// Death.
// ---------------------------------------------------------------------------

fn scene() -> DeathScene {
    DeathScene {
        in_world: true,
        victim_is_player: false,
        damage_type: DamageType::PlayerAttack,
        source: Some(EntityType::Player),
        cause: Some(Killer {
            entity_type: EntityType::Player,
            is_player: true,
            holds_item: true,
            looting: 2,
            holds_crossbow: false,
            far_away: false,
        }),
        on_fire: false,
        raining: false,
        thundering: false,
        day_time: 1000,
        mob_drops: true,
        show_death_messages: true,
        experience: 5,
    }
}

#[test]
fn a_death_is_handled_once() {
    let mut zombie = entity(EntityType::Zombie);
    zombie.health = 0;
    let steps = zombie.on_death(&scene());
    assert_eq!(steps[0], DeathStep::EmitDeathVibration);
    assert_eq!(steps[1], DeathStep::ClearMovementInput);
    assert!(steps.contains(&DeathStep::CountForKiller(DeathStat::MobKills)));
    assert!(steps.contains(&DeathStep::CountForKiller(DeathStat::Killed(
        EntityType::Zombie
    ))));
    assert!(steps.contains(&DeathStep::SpawnExperience { amount: 5 }));
    assert!(steps.contains(&DeathStep::DropEquipment { looting: 2 }));
    assert_eq!(steps[steps.len() - 1], DeathStep::ResetEffects);
    assert!(zombie.dead);
    assert!(zombie.on_death(&scene()).is_empty());
}

#[test]
fn only_players_leave_experience_behind() {
    let mut zombie = entity(EntityType::Zombie);
    let steps = zombie.on_death(&DeathScene {
        cause: None,
        ..scene()
    });
    assert!(!steps
        .iter()
        .any(|step| matches!(step, DeathStep::SpawnExperience { .. })));
    let mut other = entity(EntityType::Zombie);
    let steps = other.on_death(&DeathScene {
        mob_drops: false,
        ..scene()
    });
    assert!(!steps
        .iter()
        .any(|step| matches!(step, DeathStep::SpawnExperience { .. })));
}

#[test]
fn an_entity_out_of_the_world_is_just_gone() {
    let mut zombie = entity(EntityType::Zombie);
    let steps = zombie.on_death(&DeathScene {
        in_world: false,
        ..scene()
    });
    assert!(steps.is_empty());
    assert!(zombie.dead && zombie.removed);
    assert_eq!(zombie.removal_reason, Some(RemovalReason::Discarded));
}

#[test]
fn a_totem_saves_its_holder() {
    let mut player = entity(EntityType::Player);
    player.health = 0;
    let hands = vec![(Hand::Right, false), (Hand::Left, true)];
    let outcome =
        player.meet_death_with_lot(&hit(50.0), &hands, Difficulty::Normal, true, &scene());
    match outcome {
        DeathOutcome::Protected(used) => {
            assert_eq!(used.hand, Hand::Left);
            assert_eq!(used.health, rank(1.0));
        }
        _ => panic!("the totem did not save its holder"),
    }
    assert_eq!(player.health, rank(1.0));
    assert!(player.has_effect(StatusEffect::Absorption));
    assert!(player.has_effect(StatusEffect::Regeneration));
    assert_eq!(
        player
            .get_effect(StatusEffect::FireResistance)
            .map(|effect| effect.duration),
        Some(800)
    );
    // Nothing protects from the void.
    let void = Hit {
        damage_type: DamageType::OutOfWorld,
        ..hit(50.0)
    };
    let outcome = player.meet_death(&void, &hands, Difficulty::Normal, &scene());
    assert!(matches!(outcome, DeathOutcome::Died(_)));
}

#[test]
fn zombies_turn_villagers() {
    let strike = hit(50.0);
    let mut villager = entity(EntityType::Villager);
    let outcome =
        villager.meet_death_with_lot(&strike, &Vec::new(), Difficulty::Hard, false, &scene());
    assert!(matches!(
        outcome,
        DeathOutcome::Turned(Conversion::Converted)
    ));
    assert!(villager.dead);
    let again = villager.convert_villager(Some(EntityType::Zombie), Difficulty::Hard, false, true);
    assert_eq!(again, Conversion::AlreadyHandled);
    let mut lucky = entity(EntityType::Villager);
    assert_eq!(
        lucky.convert_villager(Some(EntityType::Husk), Difficulty::Normal, true, true),
        Conversion::Converted
    );
    let mut unlucky = entity(EntityType::Villager);
    assert_eq!(
        unlucky.convert_villager(Some(EntityType::Husk), Difficulty::Normal, false, true),
        Conversion::Dies
    );
    assert_eq!(
        unlucky.try_convert_villager_on_zombie_kill(
            Some(EntityType::Zombie),
            Difficulty::Easy,
            true
        ),
        Conversion::Dies
    );
    assert_eq!(
        unlucky.convert_villager(Some(EntityType::Creeper), Difficulty::Hard, true, true),
        Conversion::Dies
    );
    assert!(villager_turns(Difficulty::Hard, false));
    assert!(!villager_turns(Difficulty::Peaceful, true));
}

#[test]
fn the_lot_turns_some_villagers() {
    let mut turned = 0;
    for _ in 0..200 {
        let mut villager = entity(EntityType::Villager);
        if villager.try_convert_villager_on_zombie_kill(
            Some(EntityType::Zombie),
            Difficulty::Normal,
            true,
        ) == Conversion::Converted
        {
            turned += 1;
        }
    }
    assert!(turned > 0 && turned < 200);
}

#[test]
fn deaths_are_announced_by_their_cause() {
    let message =
        LivingEntity::get_death_message(DeathMessageType::Default, "mob", true, true);
    assert_eq!(message.key, "death.attack.mob.player");
    assert!(message.names_cause && !message.in_brackets);
    let message =
        LivingEntity::get_death_message(DeathMessageType::Default, "cactus", false, false);
    assert_eq!(message.key, "death.attack.cactus");
    assert!(!message.names_cause);
    let message =
        LivingEntity::get_death_message(DeathMessageType::FallVariants, "fall", false, false);
    assert_eq!(message.key, "death.fell.accident.generic");
    let message = LivingEntity::get_death_message(
        DeathMessageType::IntentionalGameDesign,
        "badRespawnPoint",
        false,
        false,
    );
    assert_eq!(message.key, "death.attack.badRespawnPoint.message");
    assert!(message.in_brackets);
}

#[test]
fn equipment_stays_behind_by_chance() {
    let slots = slots_to_drop(&vec![EquipmentSlot::Head]);
    assert_eq!(slots, vec![EquipmentSlot::Head, EquipmentSlot::MainHand]);
    let sure = DropCandidate {
        slot: EquipmentSlot::Head,
        chance: rank(2.0),
        roll: rank(0.99),
        empty: false,
        max_damage: Some(100),
    };
    let never = DropCandidate {
        slot: EquipmentSlot::MainHand,
        chance: rank(0.1),
        roll: rank(0.1),
        ..sure
    };
    let empty = DropCandidate {
        empty: true,
        ..sure
    };
    let drops = LivingEntity::drop_equipment(&vec![sure, never, empty]);
    assert_eq!(drops.len(), 1);
    assert_eq!(drops[0].slot, EquipmentSlot::Head);
    let damage = drops[0].damage.unwrap();
    assert!((4..=100).contains(&damage));
    assert_eq!(dropped_damage(100, 30), 70);
    assert_eq!(dropped_damage(2, 3), 0);
}

#[test]
fn silverfish_come_out_of_the_infested() {
    let mut zombie = entity(EntityType::Zombie);
    assert_eq!(zombie.try_spawn_infested_silverfish(0), 0);
    zombie.add_effect(effect(StatusEffect::Infested, 100, 0), true);
    for _ in 0..50 {
        assert!((1..=2).contains(&zombie.try_spawn_infested_silverfish(rank(0.1))));
    }
    assert_eq!(zombie.try_spawn_infested_silverfish(rank(0.11)), 0);
    assert_eq!(zombie.silverfish_count(rank(0.05), 2), 2);
}

#[test]
fn hits_wear_armour() {
    assert_eq!(armor_wear(rank(0.0)), 1);
    assert_eq!(armor_wear(rank(7.99)), 1);
    assert_eq!(armor_wear(rank(8.0)), 2);
    assert_eq!(armor_wear(rank(20.0)), 5);
    assert_eq!(armor_wear(rank(1023.9)), 255);
    assert_eq!(armor_wear(rank(40_000_000.0)), 10_000_000);
    assert_eq!(armor_wear(rank(200_000_000.0)), 50_000_000);
    assert_eq!(armor_wear(rank(1.0e30)), i32::MAX);
    assert!(armor_takes_wear(false, None));
    assert!(!armor_takes_wear(false, Some(false)));
    assert!(!armor_takes_wear(true, Some(true)));
    assert!(hit_wears_armor(DamageType::MobAttack, rank(1.0), false));
    assert!(!hit_wears_armor(DamageType::Fall, rank(1.0), false));
    assert!(!hit_wears_armor(DamageType::MobAttack, rank(1.0), true));
    let wear = vec![
        ArmorWear {
            slot_index: 36,
            slot: EquipmentSlot::Feet,
            result: DamageResult::Broken,
        },
        ArmorWear {
            slot_index: 37,
            slot: EquipmentSlot::Legs,
            result: DamageResult::Untouched,
        },
        ArmorWear {
            slot_index: 38,
            slot: EquipmentSlot::Chest,
            result: DamageResult::Damaged,
        },
    ];
    let (steps, slots) = LivingEntity::damage_armor_items(&wear, true);
    assert_eq!(
        steps,
        vec![
            ArmorStep::ShowBreak {
                slot: EquipmentSlot::Feet
            },
            ArmorStep::SendSlot {
                slot_index: 36,
                slot: EquipmentSlot::Feet
            },
            ArmorStep::SendSlot {
                slot_index: 38,
                slot: EquipmentSlot::Chest
            },
        ]
    );
    assert_eq!(slots, vec![EquipmentSlot::Feet, EquipmentSlot::Chest]);
}

// ---------------------------------------------------------------------------
// Effects and attributes.
// ---------------------------------------------------------------------------

#[test]
fn health_is_kept_within_bounds() {
    let mut zombie = entity(EntityType::Zombie);
    assert_eq!(zombie.set_health(rank(30.0)), rank(20.0));
    assert_eq!(zombie.set_health(rank(-3.0)), 0);
    assert_eq!(zombie.health, 0);
    zombie.health = rank(5.0);
    assert_eq!(zombie.heal(rank(2.0), rank(7.0)), rank(7.0));
    zombie.max_health = rank(4.0);
    assert_eq!(zombie.cut_health(), Some(rank(4.0)));
    assert_eq!(zombie.health, rank(4.0));
    assert_eq!(zombie.cut_health(), None);
}

fn worth(instance: &AttributeInstance) -> i32 {
    let number = |rank: i64| f64::from_bits(rank as u64);
    let added: f64 = instance.modifiers.iter().map(|m| number(m.amount)).sum();
    rank((number(instance.base_value) + added) as f32)
}

#[test]
fn a_health_boost_counts_at_once() {
    let bases = vec![AttributeBase {
        attribute: MAX_HEALTH,
        base: wide(20.0),
        narrowed: rank(20.0),
    }];
    let mut zombie = LivingEntity::new(1, EntityType::Zombie, &bases, MAX_HEALTH);
    let boost = vec![EffectModifier {
        attribute: MAX_HEALTH,
        default_value: wide(20.0),
        modifier: Modifier {
            id: 1,
            amount: wide(4.0),
            operation: ModifierOperation::Add,
        },
    }];
    let steps = zombie.add_effect(effect(StatusEffect::HealthBoost, 100, 0), true);
    assert!(steps.contains(&EffectStep::ApplyModifiers {
        kind: StatusEffect::HealthBoost,
        amplifier: 0
    }));
    assert_eq!(
        zombie.update_effect_modifiers(&bases, &boost, true, &worth),
        vec![MAX_HEALTH]
    );
    assert_eq!(zombie.get_max_health(), rank(24.0));
    assert_eq!(zombie.heal(rank(9.0), rank(29.0)), rank(24.0));
    zombie.remove_effect(StatusEffect::HealthBoost);
    zombie.update_effect_modifiers(&bases, &boost, false, &worth);
    assert_eq!(zombie.get_max_health(), rank(20.0));
    assert_eq!(zombie.cut_health(), Some(rank(20.0)));
}

#[test]
fn the_greatest_health_is_an_attribute() {
    let mut zombie = entity(EntityType::Zombie);
    let steps = zombie.set_max_health(rank(8.0), wide(8.0), &worth);
    assert_eq!(
        steps,
        vec![
            HealthStep::SendAttribute {
                attribute: MAX_HEALTH
            },
            HealthStep::SendHealth { health: rank(8.0) },
        ]
    );
    assert_eq!(zombie.attributes[&MAX_HEALTH].base_value, wide(8.0));
    assert!(zombie.attributes[&MAX_HEALTH].dirty);
    assert_eq!(zombie.get_max_health(), rank(8.0));
    assert_eq!(zombie.health, rank(8.0));
    let steps = zombie.set_max_health(rank(30.0), wide(30.0), &worth);
    assert_eq!(steps.len(), 1);
    assert_eq!(zombie.health, rank(8.0));
    assert_eq!(zombie.set_health(rank(99.0)), rank(30.0));
    zombie.set_attribute_base(MAX_HEALTH, wide(12.0), &worth);
    assert_eq!(zombie.get_max_health(), rank(12.0));
}

#[test]
fn an_entity_is_lifted_out_of_a_fluid() {
    let sinking = wide(-0.5);
    assert_eq!(LivingEntity::leave_fluid(true, false, sinking), wide(0.3));
    assert_eq!(LivingEntity::leave_fluid(true, true, sinking), sinking);
    assert_eq!(LivingEntity::leave_fluid(false, false, sinking), sinking);
}

#[test]
fn an_effect_takes_the_place_of_its_kind() {
    let mut zombie = entity(EntityType::Zombie);
    let steps = zombie.add_effect(effect(StatusEffect::Glowing, 100, 0), true);
    assert!(steps.contains(&EffectStep::SetGlowing { glowing: true }));
    zombie.add_effect(effect(StatusEffect::Glowing, 50, 2), true);
    assert_eq!(zombie.active_effects.len(), 1);
    assert_eq!(
        zombie
            .get_effect(StatusEffect::Glowing)
            .map(|effect| effect.amplifier),
        Some(2)
    );
    let (found, steps) = zombie.remove_effect(StatusEffect::Glowing);
    assert!(found);
    assert_eq!(
        steps,
        vec![
            EffectStep::SendEffectRemoved {
                kind: StatusEffect::Glowing
            },
            EffectStep::DropModifiers {
                kind: StatusEffect::Glowing
            },
            EffectStep::SetGlowing { glowing: false },
        ]
    );
    assert!(!zombie.remove_effect(StatusEffect::Glowing).0);
}

#[test]
fn instant_effects_act_at_once() {
    let mut zombie = entity(EntityType::Zombie);
    let steps = zombie.add_effect(effect(StatusEffect::InstantHealth, 1, 2), true);
    assert_eq!(steps[0], EffectStep::Heal { points: 16 });
    let steps = zombie.add_effect(effect(StatusEffect::InstantDamage, 1, 1), true);
    assert_eq!(steps[0], EffectStep::HurtByMagic { points: 12 });
    assert!(zombie.active_effects.is_empty());
}

#[test]
fn effects_run_down_and_act_in_their_rhythm() {
    let mut zombie = entity(EntityType::Zombie);
    zombie.add_effect(effect(StatusEffect::Poison, 50, 0), true);
    let mut acted = 0;
    let mut ticks = 0;
    loop {
        let (expired, acting) = zombie.tick_effects();
        if !expired.is_empty() {
            assert_eq!(expired, vec![StatusEffect::Poison]);
            break;
        }
        acted += acting.len();
        ticks += 1;
    }
    assert_eq!(ticks, 50);
    assert_eq!(acted, 2);
    assert!(LivingEntity::should_apply_effect_tick(
        StatusEffect::Regeneration,
        1,
        25
    ));
    assert!(!LivingEntity::should_apply_effect_tick(
        StatusEffect::Regeneration,
        0,
        25
    ));
    assert!(LivingEntity::should_apply_effect_tick(
        StatusEffect::RaidOmen,
        0,
        1
    ));
}

#[test]
fn endless_effects_go_by_the_age() {
    let mut zombie = entity(EntityType::Zombie);
    zombie.add_effect(effect(StatusEffect::Wither, -1, 0), true);
    zombie.age = 40;
    let (expired, acting) = zombie.tick_effects();
    assert!(expired.is_empty());
    assert_eq!(acting, vec![(StatusEffect::Wither, 0)]);
    zombie.age = 41;
    assert!(zombie.tick_effects().1.is_empty());
    assert_eq!(zombie.active_effects[0].duration, -1);
}

#[test]
fn what_effects_do_depends_on_the_entity() {
    let mut zombie = entity(EntityType::Zombie);
    assert_eq!(
        zombie.apply_effect_tick(StatusEffect::Regeneration, 0, true, false),
        EffectTick::Nothing
    );
    zombie.health = rank(5.0);
    assert_eq!(
        zombie.apply_effect_tick(StatusEffect::Regeneration, 0, true, false),
        EffectTick::HealOne
    );
    zombie.health = rank(1.0);
    assert_eq!(
        zombie.apply_effect_tick(StatusEffect::Poison, 0, true, false),
        EffectTick::Nothing
    );
    assert_eq!(
        zombie.apply_effect_tick(StatusEffect::Wither, 0, true, false),
        EffectTick::WitherOne
    );
    assert_eq!(
        zombie.apply_effect_tick(StatusEffect::Hunger, 1, true, true),
        EffectTick::Exhaust { tenths: 2 }
    );
    assert_eq!(
        zombie.apply_effect_tick(StatusEffect::Saturation, 1, true, true),
        EffectTick::Feed { points: 2 }
    );
    assert_eq!(
        zombie.apply_effect_tick(StatusEffect::BadOmen, 1, true, false),
        EffectTick::Nothing
    );
}

#[test]
fn a_dropped_modifier_leaves_no_trace() {
    let bases = vec![AttributeBase {
        attribute: 8,
        base: wide(0.1),
        narrowed: rank(0.1),
    }];
    let mut zombie = LivingEntity::new(1, EntityType::Zombie, &bases, MAX_HEALTH);
    let slowness = EffectModifier {
        attribute: 8,
        default_value: wide(0.7),
        modifier: Modifier {
            id: 3,
            amount: wide(-0.15),
            operation: ModifierOperation::MultiplyTotal,
        },
    };
    let touched = zombie.update_effect_modifiers(&bases, &vec![slowness], true, &worth);
    assert_eq!(touched, vec![8]);
    assert_eq!(zombie.attributes[&8].modifiers.len(), 1);
    let touched = zombie.update_effect_modifiers(&bases, &vec![slowness], false, &worth);
    assert_eq!(touched, vec![8]);
    assert!(zombie.attributes[&8].modifiers.is_empty());
    assert_eq!(zombie.get_attribute_base(&bases, 8), wide(0.1));
    zombie.set_attribute_base(8, wide(0.3), &worth);
    assert_eq!(zombie.get_attribute_base(&bases, 8), wide(0.3));
    zombie.update_attribute(
        &bases,
        9,
        wide(2.0),
        AttributeChange::Put(slowness.modifier),
        &worth,
    );
    assert_eq!(zombie.attributes[&9].base_value, wide(2.0));
}

#[test]
fn an_attribute_is_worth_its_own_value_or_the_default() {
    let bases = vec![AttributeBase {
        attribute: 8,
        base: wide(0.1),
        narrowed: rank(0.1),
    }];
    let zombie = LivingEntity::new(1, EntityType::Zombie, &bases, MAX_HEALTH);
    let base = |instance: &AttributeInstance| instance.base_value;
    assert_eq!(zombie.get_attribute_value(8, wide(0.7), &base), wide(0.1));
    assert_eq!(zombie.get_attribute_value(9, wide(0.7), &base), wide(0.7));
}

#[test]
fn an_entity_comes_back_to_life() {
    let mut player = entity(EntityType::Player);
    player.add_effect(effect(StatusEffect::Glowing, 100, 0), true);
    player.health = 0;
    player.dead = true;
    player.absorption = rank(4.0);
    assert!(!player.is_alive());
    let (health, steps) = player.reset_state();
    assert_eq!(health, rank(20.0));
    assert!(steps.contains(&EffectStep::SetGlowing { glowing: false }));
    assert!(player.is_alive());
    assert!(player.active_effects.is_empty());
    assert_eq!(player.absorption, 0);
    assert!(player.is_pushable());
}

// ---------------------------------------------------------------------------
// A tick.
// ---------------------------------------------------------------------------

fn view() -> TickView {
    TickView {
        is_player: false,
        creative: false,
        support: Some(Support {
            pos: BlockPos { x: 0, y: 63, z: 0 },
            solid: false,
        }),
        used: UsedItem {
            food: None,
            potion: false,
            in_main_hand: false,
            in_off_hand: false,
            has_cooldown: false,
        },
    }
}

#[test]
fn a_tick_goes_through_its_phases() {
    let mut zombie = entity(EntityType::Zombie);
    let mut phase = Some(TickPhase::Begin);
    let mut steps = Vec::new();
    while let Some(now) = phase {
        let (more, next) = zombie.tick(now, &view());
        steps.extend(more);
        phase = next;
    }
    assert_eq!(
        steps,
        vec![
            TickStep::TickEntity,
            TickStep::TickMovement,
            TickStep::TickFrozen,
            TickStep::PushEntities,
            TickStep::SendPosition,
            TickStep::StepOn {
                pos: BlockPos { x: 0, y: 63, z: 0 },
                below: false,
            },
            TickStep::StepOn {
                pos: BlockPos { x: 0, y: 62, z: 0 },
                below: true,
            },
        ]
    );
}

#[test]
fn a_corpse_stays_for_its_animation() {
    let mut zombie = entity(EntityType::Zombie);
    zombie.health = 0;
    zombie.dead = true;
    for _ in 0..20 {
        assert!(zombie.tick(TickPhase::Counters, &view()).0.is_empty());
    }
    assert_eq!(
        zombie.tick(TickPhase::Counters, &view()).0,
        vec![TickStep::ShowDeath, TickStep::RemoveEntity]
    );
    assert_eq!(zombie.removal_reason, Some(RemovalReason::Killed));
    assert!(zombie.tick(TickPhase::Counters, &view()).0.is_empty());
}

#[test]
fn the_hurt_cooldown_runs_down() {
    let mut zombie = entity(EntityType::Zombie);
    zombie.damage_with_context_impl(&hit(1.0));
    let cooldown = zombie.hurt_cooldown;
    assert!(cooldown > 0);
    for _ in 0..cooldown {
        zombie.tick(TickPhase::Counters, &view());
    }
    assert_eq!(zombie.hurt_cooldown, 0);
    zombie.tick(TickPhase::Counters, &view());
    assert_eq!(zombie.hurt_cooldown, 0);
}

#[test]
fn a_golden_apple_has_its_effects() {
    let mut player = entity(EntityType::Player);
    let apple = ItemInUse {
        item: 9,
        max_use_time: 32,
        blocks_attacks: false,
    };
    let sync = player.set_active_hand(Hand::Right, Some(apple), 1);
    assert_eq!(
        sync,
        Some(HandSync {
            send: true,
            flags: 1,
            using_item: true,
        })
    );
    let eating = TickView {
        is_player: true,
        used: UsedItem {
            food: Some(FoodKind::GoldenApple),
            in_main_hand: true,
            ..view().used
        },
        ..view()
    };
    assert!(player.tick(TickPhase::Item, &eating).0.is_empty());
    let steps = player.tick(TickPhase::Item, &eating).0;
    assert_eq!(
        steps,
        vec![
            TickStep::Eat,
            TickStep::AddEffect {
                effect: effect(StatusEffect::Regeneration, 100, 1),
            },
            TickStep::AddEffect {
                effect: effect(StatusEffect::Absorption, 2400, 0),
            },
            TickStep::TriggerConsumeItem,
            TickStep::TakeOne {
                hand: Hand::Right,
                leaves_bottle: false,
            },
            TickStep::SyncHand {
                sync: HandSync {
                    send: true,
                    flags: 0,
                    using_item: false,
                },
            },
        ]
    );
    assert!(player.item_in_use.is_none());
    assert!(player.tick(TickPhase::Item, &eating).0.is_empty());
}

#[test]
fn hands_hold_their_stacks() {
    assert_eq!(
        LivingEntity::get_stack_in_hand(true, Hand::Right),
        HandStack::Held
    );
    assert_eq!(
        LivingEntity::get_stack_in_hand(false, Hand::Right),
        HandStack::Equipped(EquipmentSlot::MainHand)
    );
    assert_eq!(
        LivingEntity::get_stack_in_hand(true, Hand::Left),
        HandStack::Equipped(EquipmentSlot::OffHand)
    );
}

#[test]
fn players_around_are_told_of_equipment() {
    let helmet = (EquipmentSlot::Head, StackId(4));
    assert_eq!(
        LivingEntity::equipment_packet_if_any(&vec![
            (EquipmentSlot::Feet, None),
            (EquipmentSlot::Head, Some(StackId(4))),
        ]),
        Some(vec![helmet])
    );
    assert_eq!(
        LivingEntity::equipment_packet_if_any(&vec![(EquipmentSlot::Feet, None)]),
        None
    );
    assert_eq!(
        LivingEntity::send_equipment_changes(&vec![helmet]),
        Some(vec![helmet])
    );
    assert_eq!(LivingEntity::send_equipment_changes(&Vec::new()), None);
}

#[test]
fn both_editions_are_shown_the_same() {
    let mut zombie = entity(EntityType::Zombie);
    zombie.entity_id = 12;
    let shown = zombie.swing_hand();
    assert_eq!((shown.entity_id, shown.runtime_entity_id), (12, 12));
    let shown = zombie.pickup(30, 64);
    assert_eq!((shown.item_id, shown.collector_id, shown.amount), (30, 12, 64));
    assert_eq!((shown.item_runtime_id, shown.collector_runtime_id), (30, 12));
}

// ---------------------------------------------------------------------------
// Motion.
// ---------------------------------------------------------------------------

fn ground() -> FallScene {
    FallScene {
        block: Block::Other(0),
        resets_fall_damage: false,
        sneaking: false,
        instant_portals: false,
        immune: false,
    }
}

#[test]
fn a_fall_counts_its_last_move_and_ends_on_the_ground() {
    let mut zombie = entity(EntityType::Zombie);
    assert_eq!(
        zombie.fall(&ground(), &Vec::new(), Some(rank(3.0)), false, false),
        Landing::Harmless
    );
    assert_eq!(zombie.fall_distance, rank(3.0));
    assert_eq!(
        zombie.fall(&ground(), &Vec::new(), Some(rank(4.5)), true, false),
        Landing::Lands {
            fall_distance: rank(4.5)
        }
    );
    assert_eq!(zombie.fall_distance, 0);
    assert_eq!(
        zombie.fall(&ground(), &Vec::new(), None, true, false),
        Landing::Harmless
    );
    assert!(zombie.handle_fall_damage(false, rank(1.0)));
    assert!(!zombie.handle_fall_damage(true, rank(1.0)));
    assert!(!zombie.handle_fall_damage(false, 0));
}

#[test]
fn some_blocks_soften_a_fall() {
    let mut player = entity(EntityType::Player);
    let water = FallScene {
        block: Block::Water,
        ..ground()
    };
    assert!(LivingEntity::is_in_water(&water));
    assert!(player.should_prevent_fall_damage(&water));
    let scaffolding = FallScene {
        block: Block::Scaffolding,
        resets_fall_damage: true,
        ..ground()
    };
    assert!(!player.should_prevent_fall_damage(&scaffolding));
    assert!(player.should_prevent_fall_damage(&FallScene {
        sneaking: true,
        ..scaffolding
    }));
    let portal = FallScene {
        block: Block::NetherPortal,
        instant_portals: true,
        ..ground()
    };
    assert!(player.should_prevent_fall_damage(&portal));
    assert!(!entity(EntityType::Zombie).should_prevent_fall_damage(&portal));
    let web = vec![
        NearbyBlock {
            block: Block::Other(1),
            near: true,
        },
        NearbyBlock {
            block: Block::Cobweb,
            near: true,
        },
    ];
    assert!(LivingEntity::should_prevent_fall_damage_in_area(&web));
    assert!(!LivingEntity::should_prevent_fall_damage_in_area(&vec![
        web[0]
    ]));
    assert_eq!(
        player.fall(&ground(), &web, Some(rank(9.0)), true, false),
        Landing::Harmless
    );
}

#[test]
fn a_big_fall_sounds_big() {
    let player = entity(EntityType::Player);
    assert_eq!(player.get_fall_sound(5), FallSound::PlayerBigFall);
    assert_eq!(player.get_fall_sound(4), FallSound::PlayerSmallFall);
    let zombie = entity(EntityType::Zombie);
    assert_eq!(zombie.get_fall_sound(5), FallSound::GenericBigFall);
    assert_eq!(zombie.get_fall_sound(1), FallSound::GenericSmallFall);
}

#[test]
fn jumps_keep_their_distance() {
    let mut zombie = entity(EntityType::Zombie);
    zombie.jumping = true;
    let scene = MotionScene {
        flying_player: false,
        touching_water: false,
        touching_lava: false,
        on_ground: true,
        deep_in_fluid: false,
        is_strider: false,
    };
    let mut jumps = Vec::new();
    for tick in 0..25 {
        if zombie.tick_movement(&scene).0 == Leap::Jump {
            jumps.push(tick);
        }
    }
    assert_eq!(jumps, vec![0, 10, 20]);
    let deep = MotionScene {
        touching_water: true,
        deep_in_fluid: true,
        ..scene
    };
    assert_eq!(
        zombie.tick_movement(&deep),
        (Leap::SwimUp, Travel::Water)
    );
    assert_eq!(
        zombie.tick_movement(&MotionScene {
            is_strider: true,
            touching_lava: true,
            ..scene
        })
        .1,
        Travel::Air
    );
    zombie.jumping = false;
    assert_eq!(zombie.tick_movement(&scene).0, Leap::Stay);
    assert_eq!(zombie.jumping_cooldown, 0);
}

#[test]
fn slow_falling_leaves_little_gravity() {
    let mut zombie = entity(EntityType::Zombie);
    assert_eq!(
        zombie.get_effective_gravity(wide(0.08), wide(-1.0)),
        wide(0.08)
    );
    zombie.add_effect(effect(StatusEffect::SlowFalling, 100, 0), true);
    assert_eq!(
        zombie.get_effective_gravity(wide(0.08), wide(-1.0)),
        wide(0.01)
    );
    assert_eq!(
        zombie.get_effective_gravity(wide(0.08), wide(1.0)),
        wide(0.08)
    );
}

#[test]
fn climbing_is_slow_and_ends_a_fall() {
    let mut zombie = entity(EntityType::Zombie);
    zombie.fall_distance = rank(3.0);
    let same = zombie.apply_climbing_speed(wide(1.0), wide(-2.0), wide(-1.0));
    assert_eq!(same, (wide(1.0), wide(-2.0), wide(-1.0)));
    zombie.climbing = true;
    let slow = zombie.apply_climbing_speed(wide(1.0), wide(-2.0), wide(-1.0));
    assert_eq!(slow, (wide(0.15), wide(-0.15), wide(-0.15)));
    assert_eq!(zombie.fall_distance, 0);
    zombie.climbing_pos = Some(BlockPos { x: 1, y: 2, z: 3 });
    zombie.check_climbing(true);
    assert!(!zombie.climbing);
    assert_eq!(zombie.climbing_pos, None);
    assert_eq!(LivingEntity::get_swim_height(false, wide(0.3)), 0);
    assert_eq!(LivingEntity::get_swim_height(false, wide(1.6)), wide(0.4));
    assert_eq!(LivingEntity::get_swim_height(true, wide(1.6)), wide(1.6));
}

#[test]
fn mobs_go_by_their_own_speed() {
    let mob = AirScene {
        is_player: false,
        living_speed: wide(0.25),
        on_ground: true,
        sideways: false,
    };
    let push = LivingEntity::travel_in_air(&mob);
    assert_eq!(push.pace, Pace::Own);
    assert_eq!(push.footing, Footing::Ground);
    assert!(push.forward_at_own_speed);
    let strafing = AirScene {
        sideways: true,
        on_ground: false,
        ..mob
    };
    let push = LivingEntity::travel_in_air(&strafing);
    assert_eq!(push.footing, Footing::MobAloft);
    assert!(!push.forward_at_own_speed);
    let player = AirScene {
        is_player: true,
        on_ground: false,
        ..mob
    };
    let push = LivingEntity::travel_in_air(&player);
    assert_eq!(push.pace, Pace::Attribute);
    assert_eq!(push.footing, Footing::PlayerAloft);
}

#[test]
fn levitation_takes_the_place_of_gravity() {
    let mut zombie = entity(EntityType::Zombie);
    let moved = AirMoved {
        horizontal_collision: true,
        climbs_powder_snow: false,
        gravity: wide(0.08),
        velocity_y: wide(-0.5),
        own_drag: false,
        flutters: false,
    };
    let drift = zombie.drift_in_air(&moved);
    assert!(!drift.climbs);
    assert_eq!(
        drift.pull,
        Pull::Gravity {
            gravity: wide(0.08)
        }
    );
    assert_eq!(drift.drag, Drag::Air);
    zombie.climbing = true;
    zombie.add_effect(effect(StatusEffect::Levitation, 100, 3), true);
    let drift = zombie.drift_in_air(&AirMoved {
        flutters: true,
        ..moved
    });
    assert!(drift.climbs);
    assert_eq!(drift.pull, Pull::Levitation { amplifier: 3 });
    assert_eq!(drift.drag, Drag::Friction);
}

#[test]
fn swimming_depends_on_the_fluid() {
    let mut zombie = entity(EntityType::Zombie);
    let scene = FluidScene {
        water: true,
        sprinting: false,
        on_ground: false,
        water_efficiency: wide(0.5),
        gravity: wide(0.08),
        velocity_y: wide(-0.1),
    };
    zombie.add_effect(effect(StatusEffect::DolphinsGrace, 100, 0), true);
    let (push, gravity, falling) = zombie.travel_in_fluid(&scene);
    assert_eq!(
        push,
        FluidPush::Water {
            grip: WaterGrip::Own,
            ease: WaterEase::Half,
            graceful: true,
        }
    );
    assert_eq!(gravity, wide(0.08));
    assert!(falling);
    assert_eq!(
        zombie
            .travel_in_fluid(&FluidScene {
                water: false,
                ..scene
            })
            .0,
        FluidPush::Lava
    );
    let moved = FluidMoved {
        water: false,
        horizontal_collision: true,
        lava_height: wide(0.3),
        swim_height: wide(0.4),
        gravity: wide(0.08),
    };
    assert_eq!(
        zombie.drift_in_fluid(&moved),
        FluidDrift::Lava {
            shallow: true,
            weighs: true,
        }
    );
    assert_eq!(
        zombie.drift_in_fluid(&FluidMoved {
            water: true,
            ..moved
        }),
        FluidDrift::Water { climbs: false }
    );
    assert_eq!(
        LivingEntity::apply_fluid_moving_speed(wide(0.08), false, true, true),
        Sinking::Settles
    );
    assert_eq!(
        LivingEntity::apply_fluid_moving_speed(wide(0.08), false, false, true),
        Sinking::Falls
    );
    assert_eq!(
        LivingEntity::apply_fluid_moving_speed(0, false, true, true),
        Sinking::Keeps
    );
}

#[test]
fn a_jump_does_not_slow_a_rise() {
    assert_eq!(
        LivingEntity::jump(wide(0.42), wide(0.1), true),
        Some((wide(0.42), true))
    );
    assert_eq!(
        LivingEntity::jump(wide(0.42), wide(0.9), false),
        Some((wide(0.9), false))
    );
    assert_eq!(LivingEntity::jump(wide(1.0e-5), wide(0.1), true), None);
}

#[test]
fn walls_and_the_void_hurt() {
    assert_eq!(
        LivingEntity::suffocation(true),
        Some((rank(1.0), DamageType::InWall))
    );
    assert_eq!(LivingEntity::suffocation(false), None);
    assert_eq!(
        entity(EntityType::Zombie).tick_in_void(),
        (rank(4.0), DamageType::OutOfWorld)
    );
}

#[test]
fn armour_wears_by_the_amount_before_it_softens_the_hit() {
    let strike = Hit {
        effective_amount: rank(6.0),
        ..hit(20.0)
    };
    assert_eq!(hit_armor_wear(&strike, rank(6.0), false), Some(5));
    assert_eq!(hit_armor_wear(&strike, rank(0.0), false), None);
    assert_eq!(hit_armor_wear(&strike, rank(6.0), true), None);
    let fall = Hit {
        damage_type: DamageType::Fall,
        ..hit(20.0)
    };
    assert_eq!(hit_armor_wear(&fall, rank(20.0), false), None);
}
