use pumpkin::data::effect::{Effect, StatusEffect};
use pumpkin::data::entity_type::{Difficulty, EntityType};
use pumpkin::data::nbt::NbtCompound;
use pumpkin::data::position::BlockPos;
use pumpkin::entity::living::LivingEntity;
use pumpkin::entity::mob::creeper::{CreeperEntity, CreeperGoal};
use pumpkin::entity::mob::entity_base::{mob_hit, MobHit, MobPhase, MobStep, MobView};
use pumpkin::entity::mob::interact::{is_lead, Interaction};
use pumpkin::entity::mob::spawn_rules::{is_valid_patrolling_monster_block_light, SpawnLight};
use pumpkin::entity::mob::{remove_free_will, MobEntity};

fn rank32(number: f32) -> i32 {
    let bits = (number.abs().to_bits()) as i32;
    if number < 0.0 {
        -bits
    } else {
        bits
    }
}

fn mob() -> MobEntity {
    MobEntity::new(LivingEntity::new(4, EntityType::Creeper, &vec![], 20))
}

fn creeper() -> CreeperEntity {
    CreeperEntity::new(mob())
}

fn dark() -> SpawnLight {
    SpawnLight {
        sky_light: 0,
        block_light: Some(0),
        block_light_limit: 0,
        brightness: 3,
        brightness_limit: 7,
    }
}

#[test]
fn patrolling_monster_light_cap_matches_vanilla() {
    assert!(is_valid_patrolling_monster_block_light(None));
    assert!(is_valid_patrolling_monster_block_light(Some(0)));
    assert!(is_valid_patrolling_monster_block_light(Some(8)));
    assert!(!is_valid_patrolling_monster_block_light(Some(9)));
    assert!(!is_valid_patrolling_monster_block_light(Some(15)));
}

#[test]
fn monsters_appear_in_the_dark() {
    assert!(MobEntity::check_monster_spawn_rules(Difficulty::Easy, &dark()));
    assert!(!MobEntity::check_monster_spawn_rules(Difficulty::Peaceful, &dark()));
    let lit = SpawnLight {
        block_light: Some(1),
        ..dark()
    };
    assert!(!MobEntity::is_dark_enough_to_spawn(&lit));
    let unlimited = SpawnLight {
        block_light_limit: 15,
        ..lit
    };
    assert!(MobEntity::is_dark_enough_to_spawn(&unlimited));
    let bright = SpawnLight {
        brightness: 8,
        ..dark()
    };
    assert!(!MobEntity::is_dark_enough_to_spawn(&bright));
    assert!(MobEntity::check_any_light_monster_spawn_rules(Difficulty::Hard));
    assert!(!MobEntity::check_patrolling_monster_spawn_rules(
        Difficulty::Hard,
        Some(9)
    ));
}

#[test]
fn the_light_of_the_sky_is_set_against_a_lot() {
    let open = SpawnLight {
        sky_light: 15,
        ..dark()
    };
    assert!(!MobEntity::is_dark_enough_with_draw(&open, 14));
    assert!(MobEntity::is_dark_enough_with_draw(&open, 15));
    assert!(MobEntity::check_surface_monster_with_draw(
        Difficulty::Normal,
        &open,
        31
    ));
    assert!(!MobEntity::check_surface_monster_spawn_rules(
        Difficulty::Normal,
        &dark()
    ));
    let mut appeared = 0;
    for _ in 0..400 {
        if MobEntity::is_dark_enough_to_spawn(&open) {
            appeared += 1;
        }
    }
    assert!(appeared > 0);
    assert!(appeared < 400);
}

#[test]
fn flags_are_independent() {
    let mut mob = mob();
    assert_eq!(mob.set_attacking(true), Some(4));
    assert_eq!(mob.set_attacking(true), None);
    assert_eq!(mob.set_left_handed(true), Some(6));
    assert_eq!(mob.set_no_ai(true), Some(7));
    assert_eq!(mob.set_can_pick_up_loot(true), Some(15));
    assert_eq!(mob.set_left_handed(false), Some(13));
    assert!(mob.is_attacking());
    assert!(!mob.is_left_handed());
    assert!(mob.is_no_ai());
    assert!(mob.can_pick_up_loot());
}

#[test]
fn a_bound_mob_stays_near_its_place() {
    let mut mob = mob();
    let far = BlockPos { x: 3, y: 0, z: 4 };
    assert!(mob.is_in_position_target_range(&far));
    mob.position_target_range = 5;
    assert!(!mob.is_in_position_target_range_pos(&far));
    mob.position_target_range = 6;
    assert!(mob.is_in_position_target_range_pos(&far));
}

#[test]
fn love_and_breeding_are_counted_down() {
    let mut mob = mob();
    mob.set_love_ticks(20, Some(9));
    mob.set_breeding_cooldown(1);
    assert!(mob.is_in_love());
    assert!(!mob.is_breeding_ready());
    let view = MobView {
        persistent: true,
        despawned: false,
        yaw: 1,
        pitch: 2,
        head_yaw: 0,
    };
    let (steps, next) = mob.tick(MobPhase::Counters, &view);
    assert_eq!(steps, vec![MobStep::ShowHeart, MobStep::MobTick]);
    assert_eq!(next, Some(MobPhase::Mind));
    assert_eq!(mob.love_ticks, 19);
    assert!(mob.is_breeding_ready());
    let (steps, _) = mob.tick(MobPhase::Counters, &view);
    assert_eq!(steps, vec![MobStep::MobTick]);
    mob.reset_love_ticks();
    assert!(!mob.is_in_love());
    let (steps, next) = mob.tick(MobPhase::Rotation, &view);
    assert_eq!(steps, vec![MobStep::SendRotation { yaw: 1, pitch: 2 }]);
    assert_eq!(next, None);
    let (steps, _) = mob.tick(MobPhase::Rotation, &view);
    assert_eq!(steps, vec![]);
}

#[test]
fn a_despawned_mob_ticks_no_more() {
    let mut mob = mob();
    let view = MobView {
        persistent: false,
        despawned: true,
        yaw: 0,
        pitch: 0,
        head_yaw: 0,
    };
    let (steps, next) = mob.tick(MobPhase::Begin, &view);
    assert_eq!(
        steps,
        vec![MobStep::TickLeash, MobStep::TickSunBurn, MobStep::CheckDespawn]
    );
    assert_eq!(next, Some(MobPhase::Counters));
    assert_eq!(mob.tick(MobPhase::Counters, &view), (vec![], None));
}

#[test]
fn babies_are_worth_nothing() {
    let mut mob = mob();
    assert_eq!(mob.get_experience_reward(5), 5);
    mob.living_entity.age = -1;
    assert!(mob.is_mob_baby());
    assert_eq!(mob.get_experience_reward(5), 0);
    assert!(!mob.is_breeding_ready());
}

#[test]
fn a_saved_trait_is_not_rolled_again() {
    let mut mob = mob();
    mob.roll_traits(true, 1, 2, true, 2, 2);
    assert!(mob.can_break_doors());
    assert!(!mob.can_pick_up_loot());
    mob.set_can_break_doors_from_nbt(false);
    assert!(mob.can_break_doors_loaded());
    assert_eq!(mob.roll_traits(true, 1, 2, true, 1, 2), Some(8));
    assert!(!mob.can_break_doors());
    assert!(mob.can_pick_up_loot());
}

#[test]
fn hits_may_be_dodged() {
    assert_eq!(mob_hit(false, None), MobHit::Dodged);
    assert_eq!(mob_hit(true, None), MobHit::Apply);
    assert_eq!(mob_hit(true, Some(true)), MobHit::Hurt);
    assert_eq!(mob_hit(true, Some(false)), MobHit::Unhurt);
}

#[test]
fn a_mob_is_led_by_a_lead() {
    let lead = "minecraft:lead".to_string();
    let stick = "minecraft:stick".to_string();
    assert!(is_lead(&lead));
    assert!(is_lead(&"lead".to_string()));
    assert!(!is_lead(&stick));
    let mut mob = mob();
    assert_eq!(mob.mob_interact(7, false, &stick, true), Interaction::Ignored);
    assert_eq!(mob.mob_interact(7, false, &lead, false), Interaction::Ignored);
    assert_eq!(
        mob.mob_interact(7, false, &lead, true),
        Interaction::Leashed { takes_lead: true }
    );
    assert_eq!(mob.leashed_to, Some(7));
    assert_eq!(
        mob.mob_interact(7, true, &stick, true),
        Interaction::Unleashed { drops_lead: false }
    );
    assert_eq!(mob.leashed_to, None);
    mob.leashed_to = Some(7);
    assert!(mob.on_start_riding());
    assert!(!mob.on_start_riding());
}

#[test]
fn a_mob_without_free_will_has_no_target() {
    let mut mob = mob();
    mob.set_mob_target(Some(3));
    let (targeting, others) = remove_free_will(&mut mob);
    assert!(targeting.is_empty());
    assert!(others.is_empty());
    assert_eq!(mob.target, None);
}

#[test]
fn an_ignited_creeper_blows_up_in_time() {
    let mut creeper = creeper();
    assert_eq!(creeper.ignite(false, false), None);
    assert_eq!(creeper.ignite(true, false), Some(true));
    let first = creeper.mob_tick(true);
    assert!(first.hisses);
    assert_eq!(first.sent_speed, Some(1));
    for _ in 1..29 {
        assert!(creeper.mob_tick(true).explosion.is_none());
    }
    let last = creeper.mob_tick(true);
    let Some(explosion) = last.explosion else {
        panic!("the fuse has burnt down");
    };
    assert_eq!(explosion.radius, 3);
    assert!(creeper.mob_entity.living_entity.dead);
}

#[test]
fn a_calm_creeper_does_not_burn() {
    let mut creeper = creeper();
    for _ in 0..100 {
        let tick = creeper.mob_tick(true);
        assert!(tick.explosion.is_none());
        assert!(!tick.hisses);
    }
    assert_eq!(creeper.current_fuse_time, 0);
    creeper.set_fuse_speed(1);
    assert!(creeper.mob_tick(false).explosion.is_none());
    assert_eq!(creeper.current_fuse_time, 0);
}

#[test]
fn lightning_makes_a_creeper_stronger() {
    let mut creeper = creeper();
    creeper.charged = true;
    creeper.mob_entity.living_entity.active_effects = vec![Effect {
        effect_type: StatusEffect::Poison,
        duration: 1,
        amplifier: 0,
        ambient: false,
        show_particles: true,
        show_icon: true,
        blend: false,
    }];
    let explosion = creeper.explode();
    assert_eq!(explosion.radius, 6);
    let Some(cloud) = explosion.cloud else {
        panic!("the effects live on");
    };
    assert_eq!(cloud.effects.len(), 1);
    assert_eq!(cloud.duration, 300);
    assert_eq!(cloud.radius, rank32(2.5));
    assert_eq!(cloud.wait_time, 10);
    assert_eq!(cloud.radius_on_use, rank32(-0.5));
    let mut plain = self::creeper();
    assert!(plain.explode().cloud.is_none());
}

#[test]
fn a_creeper_comes_back_as_saved() {
    let mut one = creeper();
    one.charged = true;
    one.fuse_time = 77;
    one.explosion_radius = -5;
    one.ignited = true;
    one.mob_entity.living_entity.health = rank32(7.0);
    let mut nbt = NbtCompound::new();
    one.write_nbt(&mut nbt);
    assert_eq!(nbt.get_bool("powered"), Some(true));
    assert_eq!(nbt.get_short("Fuse"), Some(77));
    assert_eq!(nbt.get_byte("ExplosionRadius"), Some(-5));
    assert_eq!(nbt.get_bool("ignited"), Some(true));
    let mut other = creeper();
    other.read_nbt(&nbt, 0);
    assert!(other.charged);
    assert_eq!(other.fuse_time, 77);
    assert_eq!(other.explosion_radius, -5);
    assert!(other.ignited);
    assert_eq!(other.mob_entity.living_entity.health, rank32(7.0));
    let mut third = creeper();
    third.read_nbt(&NbtCompound::new(), 0);
    assert!(!third.charged);
    assert_eq!(third.fuse_time, 30);
}

#[test]
fn a_creeper_has_its_goals_in_order() {
    let goals = CreeperEntity::goals();
    assert_eq!(goals[1], (2, CreeperGoal::Ignite));
    assert_eq!(
        goals[3].1,
        CreeperGoal::AvoidCats {
            blocks: 6,
            walk_speed: 1.0f64.to_bits() as i64,
            sprint_speed: 1.2f64.to_bits() as i64
        }
    );
    assert_eq!(
        goals[5].1,
        CreeperGoal::WanderAround {
            speed: 0.8f64.to_bits() as i64
        }
    );
    assert!(goals.windows(2).all(|pair| pair[0].0 <= pair[1].0));
    assert_eq!(
        CreeperEntity::target_goals()[0],
        (1, CreeperGoal::TargetPlayers { check_visibility: true })
    );
}

#[test]
fn a_thunderstorm_darkens_the_day() {
    assert_eq!(MobEntity::ambient_darkness(true, 0), 10);
    assert_eq!(MobEntity::ambient_darkness(true, 15), 10);
    assert_eq!(MobEntity::ambient_darkness(false, 3), 3);
}
