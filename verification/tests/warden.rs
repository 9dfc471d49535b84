use pumpkin::data::entity_type::EntityType;
use pumpkin::data::nbt::{NbtCompound, NbtTag};
use pumpkin::data::position::BlockPos;
use pumpkin::entity::living::attributes::AttributeBase;
use pumpkin::entity::living::LivingEntity;
use pumpkin::entity::mob::warden::ai::{
    InvestigateDisturbanceGoal, Investigation, RoarGoal, Scent, SniffGoal,
    ROAR_ANGER_INCREASE,
};
use pumpkin::entity::mob::warden::anger::{AngerLevel, AngerManagement, WardenSound, MAX_ANGER};
use pumpkin::entity::mob::warden::saved::{pack_uuid, unpack_uuid};
use pumpkin::entity::mob::warden::{
    Border, Candidate, WardenEntity, WardenGoal, WardenPose, WardenStep, WardenTarget,
};

fn rank64(number: f64) -> i64 {
    let bits = (number.abs().to_bits()) as i64;
    if number < 0.0 {
        -bits
    } else {
        bits
    }
}

fn border() -> Border {
    Border {
        min_x: rank64(-100.0),
        max_x: rank64(100.0),
        min_z: rank64(-100.0),
        max_z: rank64(100.0),
    }
}

fn warden() -> WardenEntity {
    let mut living = LivingEntity::new(1, EntityType::Warden, &Vec::new(), 0);
    let mut warden = WardenEntity::new(&mut living, 1);
    warden.refresh_border_snapshot(border());
    warden
}

fn player() -> Candidate {
    Candidate {
        entity_id: 2,
        entity_type: EntityType::Player,
        is_player: true,
        living: true,
        same_world: true,
        spectator: false,
        creative: false,
        invulnerable: false,
        alive: true,
        x: rank64(10.0),
        z: rank64(-10.0),
    }
}

#[test]
fn anger_level_thresholds_match_vanilla() {
    assert_eq!(AngerLevel::by_anger(0), AngerLevel::Calm);
    assert_eq!(AngerLevel::by_anger(39), AngerLevel::Calm);
    assert_eq!(AngerLevel::by_anger(40), AngerLevel::Agitated);
    assert_eq!(AngerLevel::by_anger(79), AngerLevel::Agitated);
    assert_eq!(AngerLevel::by_anger(80), AngerLevel::Angry);
    assert!(AngerLevel::Angry.is_angry());
    assert!(!AngerLevel::Agitated.is_angry());
}

#[test]
fn increase_anger_clamps_at_max() {
    let mut anger = AngerManagement::default();
    let uuid = 1;
    assert_eq!(anger.increase_anger(uuid, true, 35), 35);
    assert_eq!(anger.increase_anger(uuid, true, 200), MAX_ANGER);
    assert_eq!(anger.active_anger(Some(uuid)), MAX_ANGER);
}

#[test]
fn tick_decays_and_drops_exhausted_suspects() {
    let mut anger = AngerManagement::default();
    let uuid = 2;
    anger.increase_anger(uuid, true, 3);
    let always_valid = |_: u128| true;
    anger.tick(&always_valid);
    assert_eq!(anger.active_anger(Some(uuid)), 2);
    anger.tick(&always_valid);
    assert_eq!(anger.active_anger(Some(uuid)), 0);
    assert!(anger.top_suspect(&always_valid).is_none());
}

#[test]
fn tick_drops_invalid_suspects() {
    let mut anger = AngerManagement::default();
    let uuid = 3;
    anger.increase_anger(uuid, true, 100);
    anger.tick(&|_: u128| false);
    assert!(anger.top_suspect(&|_: u128| true).is_none());
}

#[test]
fn angry_suspect_sorts_before_calmer_player() {
    let mut anger = AngerManagement::default();
    let angry_mob = 4;
    let calm_player = 5;
    anger.increase_anger(calm_player, true, 10);
    anger.increase_anger(angry_mob, false, 90);
    assert_eq!(anger.top_suspect(&|_: u128| true), Some(angry_mob));
    assert_eq!(anger.active_anger(None), 90);
}

#[test]
fn player_wins_tie_between_equally_calm_suspects() {
    let mut anger = AngerManagement::default();
    let mob = 6;
    let player = 7;
    anger.increase_anger(mob, false, 20);
    anger.increase_anger(player, true, 20);
    assert_eq!(anger.top_suspect(&|_: u128| true), Some(player));
}

#[test]
fn saved_anger_round_trips() {
    let mut anger = AngerManagement::default();
    anger.insert_saved(8, 55);
    let pairs: Vec<(u128, i32)> = anger.suspect_pairs();
    assert_eq!(pairs, vec![(8, 55)]);
    assert_eq!(anger.active_anger(None), 55);
}

#[test]
fn clearing_a_grudge_leaves_the_others() {
    let mut anger = AngerManagement::default();
    anger.increase_anger(1, false, 60);
    anger.increase_anger(2, false, 50);
    anger.clear_anger(1);
    assert_eq!(anger.active_anger(Some(1)), 0);
    assert_eq!(anger.active_anger(None), 50);
    assert_eq!(anger.top_suspect(&|uuid: u128| uuid != 2), None);
}

#[test]
fn a_uuid_comes_back_from_its_words() {
    let uuid = 0x8000_0001_7fff_ffff_ffff_ffff_0000_0002;
    let words = pack_uuid(uuid);
    assert_eq!(words, vec![-2147483647, 2147483647, -1, 2]);
    assert_eq!(unpack_uuid(&words), Some(uuid));
    assert_eq!(unpack_uuid(&vec![1, 2, 3]), None);
}

#[test]
fn grudges_come_back_from_what_is_saved() {
    let mut angry = warden();
    angry.increase_anger_at_uuid(77, 30, false, Some(player()));
    let living = LivingEntity::new(1, EntityType::Warden, &Vec::new(), 0);
    let mut nbt = NbtCompound::new();
    angry.write_nbt(&living, &mut nbt);
    assert_eq!(nbt.get_float("Health"), Some(living.health));
    let Some(suspects) = nbt
        .get_compound("anger")
        .and_then(|anger| anger.get_list("suspects"))
    else {
        panic!("the grudges are saved");
    };
    assert_eq!(suspects.len(), 1);
    let Some(entry) = suspects[0].extract_compound() else {
        panic!("a grudge is a compound");
    };
    assert_eq!(entry.get_int("anger"), Some(30));
    assert_eq!(entry.get_int_array("uuid"), Some(&vec![0, 0, 0, 77]));
    let mut other = warden();
    let mut body = LivingEntity::new(2, EntityType::Warden, &Vec::new(), 0);
    other.read_nbt(&mut body, &nbt, 0);
    assert_eq!(other.anger_management.suspect_pairs(), vec![(77, 30)]);
    other.read_nbt(&mut body, &NbtCompound::new(), 0);
    assert_eq!(other.anger_management.suspect_pairs(), vec![]);
    assert_eq!(other.active_anger(), 0);
}

fn grudge(words: Option<Vec<i32>>, anger: Option<i32>) -> NbtTag {
    let mut entry = NbtCompound::new();
    if let Some(words) = words {
        entry.put("uuid", NbtTag::IntArray(words));
    }
    if let Some(anger) = anger {
        entry.put_int("anger", anger);
    }
    NbtTag::Compound(entry)
}

fn saved_anger(suspects: Vec<NbtTag>) -> NbtCompound {
    let mut anger = NbtCompound::new();
    anger.put("suspects", NbtTag::List(suspects));
    let mut nbt = NbtCompound::new();
    nbt.put_compound("anger", anger);
    nbt
}

#[test]
fn broken_grudges_are_passed_over() {
    let nbt = saved_anger(vec![
        grudge(Some(pack_uuid(77)), Some(30)),
        grudge(Some(vec![1]), Some(90)),
        grudge(Some(pack_uuid(5)), None),
        grudge(Some(pack_uuid(6)), Some(-1)),
        grudge(None, Some(90)),
        NbtTag::Int(3),
    ]);
    let mut warden = warden();
    let mut body = LivingEntity::new(2, EntityType::Warden, &Vec::new(), 0);
    warden.read_nbt(&mut body, &nbt, 0);
    assert_eq!(warden.anger_management.suspect_pairs(), vec![(77, 30)]);
}

#[test]
fn a_warden_targets_only_what_it_may() {
    let warden = warden();
    assert!(warden.can_target_entity(&player()));
    let refused = [
        Candidate {
            creative: true,
            ..player()
        },
        Candidate {
            spectator: true,
            ..player()
        },
        Candidate {
            invulnerable: true,
            ..player()
        },
        Candidate {
            alive: false,
            ..player()
        },
        Candidate {
            same_world: false,
            ..player()
        },
        Candidate {
            entity_type: EntityType::Warden,
            is_player: false,
            ..player()
        },
        Candidate {
            entity_type: EntityType::ArmorStand,
            is_player: false,
            ..player()
        },
        Candidate {
            x: rank64(200.0),
            ..player()
        },
    ];
    for candidate in &refused {
        assert!(!warden.can_target_entity(candidate), "{candidate:?}");
    }
}

#[test]
fn a_new_warden_follows_far_and_knows_the_whole_world() {
    let bases = vec![AttributeBase {
        attribute: 1,
        base: rank64(16.0),
        narrowed: 0,
    }];
    let mut living = LivingEntity::new(7, EntityType::Warden, &bases, 0);
    let warden = WardenEntity::new(&mut living, 1);
    assert_eq!(warden.entity_id, 7);
    assert_eq!(living.attributes[&1].base_value, rank64(24.0));
    assert!(warden.is_within_border(rank64(-29_999_984.0), rank64(29_999_983.0)));
    assert!(!warden.is_within_border(rank64(29_999_984.0), 0));
    assert!(!warden.is_within_border(0, rank64(-29_999_985.0)));
}

#[test]
fn a_warden_has_its_goals_in_order() {
    let goals = WardenEntity::goals();
    assert_eq!(goals[0].1, WardenGoal::Swim);
    assert_eq!(
        goals[3].1,
        WardenGoal::MeleeAttack {
            speed: rank64(1.2),
            pause_when_mob_idle: false
        }
    );
    assert_eq!(goals[6].1, WardenGoal::WanderAround { speed: rank64(0.5) });
    assert!(goals.windows(2).all(|pair| pair[0].0 <= pair[1].0));
}

#[test]
fn a_roar_ends_in_an_attack() {
    let mut warden = warden();
    warden.increase_anger_at_uuid(9, 100, false, Some(player()));
    warden.roar_target = Some(9);
    let mut goal = RoarGoal::new(1);
    assert!(goal.can_start(Some(&warden)));
    goal.start(&mut warden, Some(player()));
    assert_eq!(warden.pose, WardenPose::Roaring);
    assert_eq!(warden.active_anger(), 100 + ROAR_ANGER_INCREASE);
    let mut ticks = 0;
    let mut roars = 0;
    while goal.should_continue() {
        if goal.tick(true) {
            roars += 1;
        }
        ticks += 1;
        assert!(ticks < 1000);
    }
    assert_eq!(ticks, 84);
    assert_eq!(roars, 1);
    goal.stop(&mut warden, Some(player()));
    assert_eq!(warden.pose, WardenPose::Standing);
    assert_eq!(warden.roar_target, None);
    assert_eq!(
        warden.target,
        Some(WardenTarget {
            uuid: 9,
            is_player: true
        })
    );
}

#[test]
fn a_warden_looks_where_it_heard_something() {
    let mut warden = warden();
    let goal = InvestigateDisturbanceGoal::new(1);
    assert!(!goal.can_start(Some(&warden)));
    let block = BlockPos { x: 3, y: 4, z: 5 };
    warden.set_disturbance_location(block, true);
    assert!(goal.can_start(Some(&warden)));
    assert_eq!(
        goal.tick(Some(&warden), rank64(1.0)),
        Investigation::Watch { block }
    );
    assert!(matches!(
        goal.tick(Some(&warden), rank64(100.0)),
        Investigation::Approach { .. }
    ));
    let mut sniff = SniffGoal::new(1);
    assert!(!sniff.can_start(Some(&warden)));
}

#[test]
fn a_disturbance_outside_the_border_is_passed_over() {
    let mut warden = warden();
    warden.set_disturbance_location(BlockPos { x: 3, y: 4, z: 5 }, false);
    assert_eq!(warden.disturbance_location, None);
}

#[test]
fn an_angry_warden_does_not_look_into_noises() {
    let mut warden = warden();
    warden.increase_anger_at_uuid(9, 79, false, Some(player()));
    let block = BlockPos { x: 3, y: 4, z: 5 };
    warden.set_disturbance_location(block, true);
    assert_eq!(warden.disturbance_location, Some(block));
    warden.disturbance_ticks = 7;
    warden.increase_anger_at_uuid(9, 1, false, Some(player()));
    assert_eq!(warden.anger_level(), AngerLevel::Angry);
    warden.set_disturbance_location(BlockPos { x: 9, y: 9, z: 9 }, true);
    assert_eq!(warden.disturbance_location, Some(block));
    assert_eq!(warden.disturbance_ticks, 7);
}

#[test]
fn sniffing_keeps_the_noise_that_is_minded() {
    let scent = Scent {
        uuid: 9,
        candidate: player(),
        horizontal_sq: rank64(9.0),
        vertical: rank64(0.0),
        block: BlockPos { x: 3, y: 4, z: 5 },
        within_border: true,
    };
    let mut warden = warden();
    let mut goal = SniffGoal::new(1);
    let noise = BlockPos { x: 1, y: 1, z: 1 };
    warden.set_disturbance_location(noise, true);
    goal.stop(&mut warden, &vec![scent]);
    assert_eq!(warden.anger_management.active_anger(Some(9)), 35);
    assert_eq!(goal.cooldown, 100);
    assert_eq!(warden.disturbance_location, Some(noise));
    let mut other = self::warden();
    goal.stop(&mut other, &vec![scent]);
    assert_eq!(other.disturbance_location, Some(scent.block));
}

#[test]
fn anger_that_is_saved_twice_counts_once() {
    let mut anger = AngerManagement::default();
    anger.insert_saved(1, 90);
    anger.insert_saved(1, 10);
    assert_eq!(anger.suspect_pairs(), vec![(1, 10)]);
    assert_eq!(anger.active_anger(Some(1)), 10);
    assert_eq!(anger.active_anger(None), 10);
    let mut warden = warden();
    let found = |anger: i32| grudge(Some(pack_uuid(1)), Some(anger));
    let mut body = LivingEntity::new(2, EntityType::Warden, &Vec::new(), 0);
    warden.read_nbt(&mut body, &saved_anger(vec![found(90), found(10)]), 0);
    assert_eq!(warden.active_anger(), 10);
    assert_eq!(warden.anger_level(), AngerLevel::Calm);
}

#[test]
fn darkness_spares_those_who_only_watch() {
    assert!(WardenEntity::apply_darkness_around(true, false, None).is_none());
    assert!(WardenEntity::apply_darkness_around(false, true, None).is_none());
    let Some(effect) = WardenEntity::apply_darkness_around(false, false, None) else {
        panic!("a player in survival mode gets darkness");
    };
    assert_eq!(effect.duration, 260);
    assert!(WardenEntity::apply_darkness_around(false, false, Some(201)).is_none());
    assert!(WardenEntity::apply_darkness_around(false, false, Some(200)).is_none());
    assert!(WardenEntity::apply_darkness_around(false, false, Some(199)).is_some());
}

#[test]
fn vibrations_reach_wardens_in_range() {
    let heard = WardenEntity::dispatch_vibration(
        3,
        &vec![
            (true, rank64(100.0)),
            (false, rank64(1.0)),
            (true, rank64(256.0)),
            (true, rank64(256.5)),
        ],
    );
    assert_eq!(heard, vec![0, 2]);
}

#[test]
fn ambient_sounds_come_by_lot() {
    let mut warden = warden();
    warden.ambient_sound_time = 80;
    assert_eq!(
        warden.tick_ambient_sound_with_draw(0),
        Some(WardenSound::Ambient)
    );
    let mut other = self::warden();
    other.ambient_sound_time = -80;
    assert_eq!(other.tick_ambient_sound_with_draw(0), None);
}

#[test]
fn anger_at_those_who_are_away_is_kept() {
    let mut warden = warden();
    warden.increase_anger_at_uuid(7, 100, false, Some(player()));
    warden.update_anger(&vec![], &vec![7], false);
    assert_eq!(warden.anger_management.suspect_pairs(), vec![(7, 99)]);
    assert_eq!(warden.roar_target, None);
    warden.update_anger(&vec![7], &vec![], false);
    assert_eq!(warden.anger_management.suspect_pairs(), vec![(7, 98)]);
    assert_eq!(warden.roar_target, Some(7));
    warden.update_anger(&vec![], &vec![], false);
    assert_eq!(warden.anger_management.suspect_pairs(), vec![]);
}

#[test]
fn a_warden_strikes_back_at_once_when_it_can() {
    let near = rank64(25.0);
    let far = rank64(25.5);
    let struck = |by_hand: bool, distance_sq: i64| {
        let mut warden = warden();
        warden.on_damage(Some((7, player())), true, by_hand, distance_sq);
        assert_eq!(warden.active_anger(), 100);
        warden.target.map(|target| target.uuid)
    };
    assert_eq!(struck(false, near), Some(7));
    assert_eq!(struck(false, far), None);
    assert_eq!(struck(true, far), Some(7));
    let mut digging = warden();
    digging.pose = WardenPose::Digging;
    digging.on_damage(Some((7, player())), true, true, near);
    assert_eq!(digging.active_anger(), 0);
}

#[test]
fn a_tick_of_a_warden_goes_in_order() {
    let narrow = Border {
        min_x: 0,
        ..border()
    };
    let mut warden = warden();
    warden.touch_cooldown = 5;
    warden.ambient_sound_time = 80;
    let age = 240 - warden.entity_id;
    assert_eq!(
        warden.mob_tick_with_draw(narrow, age, 10),
        vec![
            WardenStep::PlayAmbientSound {
                sound: WardenSound::Ambient
            },
            WardenStep::SpreadDarkness,
        ]
    );
    assert_eq!(warden.touch_cooldown, 4);
    assert_eq!(warden.ambient_sound_time, -80);
    assert!(!warden.is_within_border(rank64(-1.0), 0));
    assert_eq!(
        warden.mob_tick_with_draw(border(), 40, 10),
        vec![WardenStep::UpdateAnger, WardenStep::SyncClientAngerLevel]
    );
    assert!(warden.is_within_border(rank64(-1.0), 0));
    assert_eq!(
        warden.mob_tick(border(), 60),
        vec![WardenStep::UpdateAnger, WardenStep::SyncClientAngerLevel]
    );
    warden.alive = false;
    assert!(warden.mob_tick(narrow, 40).is_empty());
    assert_eq!(warden.touch_cooldown, 2);
    assert!(warden.is_within_border(rank64(-1.0), 0));
}
