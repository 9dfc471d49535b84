use pumpkin::data::effect::StatusEffect;
use pumpkin::data::entity_type::EntityType;
use pumpkin::data::position::{BlockPos, Position};
use pumpkin::entity::projectile::arrow::{
    get_hit_face, ArrowEntity, ArrowPickup, ArrowTick, BlockDirection, BlockHitStep,
    EntityHitStep, InTheWay, Inertia, ProjectileHit, Touch, ARROW_BASE_DAMAGE, DESPAWN_TIME,
};

fn rank64(number: f64) -> i64 {
    let bits = (number.abs().to_bits()) as i64;
    if number < 0.0 {
        -bits
    } else {
        bits
    }
}

const POS: BlockPos = BlockPos { x: 1, y: 2, z: 3 };

#[test]
fn pickup_rules_come_back_from_their_bytes() {
    for rule in [
        ArrowPickup::Disallowed,
        ArrowPickup::Allowed,
        ArrowPickup::CreativeOnly,
    ] {
        assert_eq!(ArrowPickup::from_byte(rule.to_byte()), rule);
    }
    assert_eq!(ArrowPickup::from_byte(1), ArrowPickup::Allowed);
    assert_eq!(ArrowPickup::from_byte(2), ArrowPickup::CreativeOnly);
    assert_eq!(ArrowPickup::from_byte(3), ArrowPickup::Disallowed);
    assert_eq!(ArrowPickup::from_byte(255), ArrowPickup::Disallowed);
}

#[test]
fn a_shot_arrow_knows_its_owner() {
    let arrow = ArrowEntity::new_shot(7, ArrowPickup::Allowed);
    assert_eq!(arrow.owner_id, Some(7));
    assert_eq!(arrow.pickup, ArrowPickup::Allowed);
    assert_eq!(arrow.base_damage, rank64(2.0));
    assert_eq!(ARROW_BASE_DAMAGE, rank64(2.0));
    assert_eq!(ArrowEntity::new(None).pickup, ArrowPickup::Disallowed);
}

#[test]
fn an_arrow_lies_its_time() {
    let mut arrow = ArrowEntity::new(None);
    arrow.on_hit_block(POS, false, None);
    assert_eq!(arrow.shake_time, 7);
    for _ in 0..DESPAWN_TIME {
        assert_eq!(arrow.tick(), ArrowTick::Lies { despawns: false });
    }
    assert_eq!(arrow.tick(), ArrowTick::Lies { despawns: true });
    assert_eq!(arrow.shake_time, 0);
}

#[test]
fn a_critical_arrow_leaves_a_trail() {
    let mut arrow = ArrowEntity::new(None);
    assert_eq!(arrow.tick(), ArrowTick::Flies { trail: false });
    arrow.set_critical(true);
    assert_eq!(arrow.tick(), ArrowTick::Flies { trail: true });
    assert_eq!(ArrowEntity::inertia(true), Inertia::Water);
    assert_eq!(ArrowEntity::inertia(false), Inertia::Air);
}

#[test]
fn an_arrow_spares_its_owner_at_first() {
    let arrow = ArrowEntity::new_shot(7, ArrowPickup::Allowed);
    assert!(arrow.should_skip_collision(1, 4, 7, EntityType::Player));
    assert!(!arrow.should_skip_collision(1, 5, 7, EntityType::Player));
    assert!(arrow.should_skip_collision(1, 50, 1, EntityType::Zombie));
    assert!(arrow.should_skip_collision(1, 50, 2, EntityType::Arrow));
    assert!(arrow.should_skip_collision(1, 50, 2, EntityType::Item));
    assert!(arrow.should_skip_collision(1, 50, 2, EntityType::FallingBlock));
    assert!(!arrow.should_skip_collision(1, 50, 2, EntityType::Zombie));
}

#[test]
fn an_arrow_hits_what_it_meets_first() {
    let arrow = ArrowEntity::new(None);
    let times = vec![Some(rank64(0.7)), None, Some(rank64(0.4))];
    let blocks = vec![(1usize, POS), (2usize, BlockPos { x: 9, y: 9, z: 9 })];
    let zombie = |time: f64| InTheWay {
        entity_id: 5,
        entity_type: EntityType::Zombie,
        time: Some(rank64(time)),
    };
    assert_eq!(
        arrow.closest_hit(1, 50, &times, &blocks, &vec![zombie(0.5)]),
        Some(ProjectileHit::Block {
            pos: BlockPos { x: 9, y: 9, z: 9 },
            time: rank64(0.4)
        })
    );
    assert_eq!(
        arrow.closest_hit(1, 50, &times, &blocks, &vec![zombie(0.3)]),
        Some(ProjectileHit::Entity {
            entity_id: 5,
            time: rank64(0.3)
        })
    );
    assert_eq!(
        arrow.closest_hit(1, 50, &vec![Some(rank64(1.0))], &blocks, &vec![zombie(1.0)]),
        None
    );
}

#[test]
fn only_the_first_hit_counts() {
    let mut arrow = ArrowEntity::new(None);
    assert!(arrow.take_hit());
    assert!(!arrow.take_hit());
    arrow.tick();
    assert!(!arrow.take_hit());
}

#[test]
fn a_target_rewards_its_shooter() {
    let mut arrow = ArrowEntity::new_shot(7, ArrowPickup::Allowed);
    arrow.set_critical(true);
    assert_eq!(
        arrow.on_hit_block(POS, true, Some(7)),
        vec![
            BlockHitStep::EmitLanding,
            BlockHitStep::PressButton { pos: POS },
            BlockHitStep::HitTarget { pos: POS },
            BlockHitStep::CreditBullseye { player: 7 },
            BlockHitStep::StopThere,
            BlockHitStep::PlaySound,
        ]
    );
    assert!(arrow.in_ground);
    assert!(!arrow.is_critical);
    assert_eq!(arrow.last_block_pos, Some(POS));
    assert_eq!(arrow.on_hit_block(POS, false, Some(7)).len(), 4);
}

#[test]
fn a_critical_hit_adds_a_bonus() {
    let mut arrow = ArrowEntity::new(None);
    assert_eq!(arrow.hit_damage_with_lot(9, 5), 9);
    arrow.set_critical(true);
    assert_eq!(arrow.hit_damage_with_lot(9, 5), 14);
    assert_eq!(arrow.hit_damage_with_lot(9, 6), 9);
    assert_eq!(arrow.hit_damage_with_lot(i32::MAX, 5), i32::MAX);
    assert_eq!(arrow.hit_damage_with_lot(-1, 3), 0);
    let mut seen = 0;
    for _ in 0..200 {
        let damage = arrow.hit_damage(9);
        assert!((9..=14).contains(&damage));
        seen |= 1 << (damage - 9);
    }
    assert_ne!(seen, 1);
}

#[test]
fn what_follows_a_hit_depends_on_owner_and_arrow() {
    let mut arrow = ArrowEntity::new_shot(7, ArrowPickup::Disallowed);
    arrow.punch_level = 2;
    let steps = arrow.on_hit_entity(true, Some(EntityType::Stray), true);
    assert_eq!(steps.len(), 4);
    match steps[0] {
        EntityHitStep::AddEffect { effect } => {
            assert_eq!(effect.effect_type, StatusEffect::Slowness);
            assert_eq!(effect.duration, 600);
        }
        _ => panic!("a stray slows down whom it hurts"),
    }
    assert_eq!(steps[1], EntityHitStep::KnockBack { level: 2 });
    assert_eq!(steps[2], EntityHitStep::PlaySound);
    assert_eq!(steps[3], EntityHitStep::Remove);
    arrow.set_pierce_level(1);
    assert_eq!(arrow.on_hit_entity(true, None, true), vec![EntityHitStep::PlaySound]);
    assert_eq!(arrow.on_hit_entity(true, Some(EntityType::Bogged), false), vec![]);
    assert_eq!(arrow.burn_ticks(), None);
    arrow.is_flame = true;
    assert_eq!(arrow.burn_ticks(), Some(100));
}

#[test]
fn arrows_are_picked_up_from_the_ground_only() {
    let mut arrow = ArrowEntity::new_shot(7, ArrowPickup::Allowed);
    assert_eq!(arrow.on_player_collision(1, false), Touch::Stays);
    arrow.on_hit_block(POS, false, None);
    assert_eq!(arrow.on_player_collision(1, false), Touch::TakenIfRoom);
    assert_eq!(arrow.on_player_collision(1, true), Touch::Taken);
    assert_eq!(arrow.on_player_collision(0, true), Touch::Stays);
    arrow.pickup = ArrowPickup::CreativeOnly;
    assert_eq!(arrow.on_player_collision(1, false), Touch::Stays);
    assert_eq!(arrow.on_player_collision(1, true), Touch::Taken);
    arrow.pickup = ArrowPickup::Disallowed;
    assert_eq!(arrow.on_player_collision(1, true), Touch::Stays);
}

#[test]
fn faces_are_told_by_the_place_in_the_block() {
    let face = |x: f64, y: f64, z: f64| {
        get_hit_face(&Position {
            x: rank64(x),
            y: rank64(y),
            z: rank64(z),
        })
    };
    assert_eq!(face(0.0, 0.5, 0.5), BlockDirection::West);
    assert_eq!(face(1.0e-4, 0.5, 0.5), BlockDirection::West);
    assert_eq!(face(1.0 - 1.0e-4, 0.0, 0.5), BlockDirection::East);
    assert_eq!(face(0.5, -0.1, 0.5), BlockDirection::Down);
    assert_eq!(face(0.5, 1.0, 0.0), BlockDirection::Up);
    assert_eq!(face(0.5, 0.5, 0.0), BlockDirection::North);
    assert_eq!(face(0.5, 0.5, 0.5), BlockDirection::South);
}
