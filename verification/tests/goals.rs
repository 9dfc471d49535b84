use pumpkin::data::entity_type::EntityType;
use pumpkin::data::position::{BlockPos, Position};
use pumpkin::entity::ai::goal::chase_player::{ChasePlayerGoal, ChaseStep, StareTarget};
use pumpkin::entity::ai::goal::creeper_ignite::{CreeperIgniteGoal, IgniteTarget};
use pumpkin::entity::ai::goal::goal_selector::{GoalAction, GoalAnswer, GoalSelector, NO_GOAL};
use pumpkin::entity::ai::goal::leap_at_target::LeapAtTargetGoal;
use pumpkin::entity::ai::goal::melee_attack::{
    MeleeAttackGoal, MeleeDraws, MeleeStart, MeleeStep, MeleeTarget, MIN_SPEED,
};
use pumpkin::entity::ai::goal::pick_up_block::PickUpBlockGoal;
use pumpkin::entity::ai::goal::sonic_boom::{BoomAction, BoomTarget, SonicBoomGoal};
use pumpkin::entity::ai::goal::{
    get_tick_count, to_goal_ticks, Control, Controls, PrioritizedGoal,
};

fn rank(number: f64) -> i64 {
    if number < 0.0 {
        -((-number).to_bits() as i64)
    } else {
        number.to_bits() as i64
    }
}

fn at(x: f64, y: f64, z: f64) -> Position {
    Position {
        x: rank(x),
        y: rank(y),
        z: rank(z),
    }
}

fn moves() -> Controls {
    Controls {
        moves: true,
        looks: false,
        jumps: false,
        targets: false,
    }
}

fn looks() -> Controls {
    Controls {
        moves: false,
        looks: true,
        jumps: false,
        targets: false,
    }
}

fn answer(continues: bool, can_start: bool) -> GoalAnswer {
    GoalAnswer {
        continues,
        can_start,
    }
}

#[test]
fn half_ticks_are_rounded_up() {
    assert_eq!(to_goal_ticks(20), 10);
    assert_eq!(to_goal_ticks(7), 4);
    assert_eq!(get_tick_count(true, 7), 7);
    assert_eq!(get_tick_count(false, 7), 4);
}

#[test]
fn controls_have_their_numbers() {
    for idx in 0..4 {
        assert_eq!(Control::from_idx(idx).idx(), idx);
    }
    let mut controls = Controls::none();
    controls.set(Control::Jump, true);
    assert!(controls.get(Control::Jump));
    assert!(!controls.get(Control::Move));
}

#[test]
fn two_goals_never_share_a_control() {
    let mut selector = GoalSelector::default();
    selector.add_goal(PrioritizedGoal::new(1, 5, moves(), true, true));
    selector.add_goal(PrioritizedGoal::new(2, 1, moves(), true, true));
    selector.add_goal(PrioritizedGoal::new(3, 7, looks(), true, false));
    // The first one starts, gives way to the second in the same tick, and the third takes
    // another control.
    let actions = selector.tick(&vec![
        answer(true, true),
        answer(true, true),
        answer(true, true),
    ]);
    assert_eq!(
        actions,
        vec![
            GoalAction::Start(0),
            GoalAction::Stop(0),
            GoalAction::Start(1),
            GoalAction::Start(2),
            GoalAction::Tick(1),
            GoalAction::Tick(2),
        ]
    );
    assert_eq!(selector.get_goal_by_control(Control::Move), Some(1));
    assert_eq!(selector.get_goal_by_control(Control::Look), Some(2));
    assert_eq!(selector.get_goal_by_control(Control::Jump), None);
    assert!(!selector.goals[0].running);
    assert!(selector.goals[1].running);
    // The goal that matters less waits for the other.
    let actions = selector.tick(&vec![
        answer(true, true),
        answer(true, true),
        answer(true, true),
    ]);
    assert_eq!(actions, vec![GoalAction::Tick(1), GoalAction::Tick(2)]);
    // Once that one is over, it starts.
    let actions = selector.tick(&vec![
        answer(true, true),
        answer(false, false),
        answer(true, true),
    ]);
    assert_eq!(
        actions,
        vec![
            GoalAction::Stop(1),
            GoalAction::Start(0),
            GoalAction::Tick(0),
            GoalAction::Tick(2),
        ]
    );
    assert_eq!(selector.tick_goals(false), vec![0]);
}

#[test]
fn a_goal_that_cannot_be_interrupted_goes_on() {
    let mut selector = GoalSelector::default();
    selector.add_goal(PrioritizedGoal::new(1, 5, moves(), false, true));
    selector.tick(&vec![answer(true, true)]);
    selector.add_goal(PrioritizedGoal::new(2, 1, moves(), true, true));
    let better = selector.goals[1];
    assert!(!selector.goals[0].can_be_replaced_by(&better));
    assert!(!selector.can_replace_all(&better));
    let actions = selector.tick(&vec![answer(true, true), answer(true, true)]);
    assert_eq!(actions, vec![GoalAction::Tick(0)]);
}

#[test]
fn a_disabled_control_stops_its_goal() {
    let mut selector = GoalSelector::default();
    selector.add_goal(PrioritizedGoal::new(1, 5, moves(), true, true));
    selector.tick(&vec![answer(true, true)]);
    assert!(selector.goals[0].running);
    selector.disable_control(Control::Move);
    assert!(selector.is_control_disabled(Control::Move));
    let actions = selector.tick(&vec![answer(true, true)]);
    assert_eq!(actions, vec![GoalAction::Stop(0)]);
    assert_eq!(selector.get_goal_by_control(Control::Move), None);
    selector.enable_control(Control::Move);
    let actions = selector.tick(&vec![answer(true, true)]);
    assert_eq!(actions, vec![GoalAction::Start(0), GoalAction::Tick(0)]);
}

#[test]
fn a_ridden_mob_has_no_will_of_its_own() {
    let mut selector = GoalSelector::default();
    selector.update_control_flags(false, true);
    assert!(selector.is_control_disabled(Control::Move));
    assert!(selector.is_control_disabled(Control::Look));
    assert!(selector.is_control_disabled(Control::Jump));
    assert!(!selector.is_control_disabled(Control::Target));
    // In a boat it does not jump.
    selector.update_control_flags(true, false);
    assert!(!selector.is_control_disabled(Control::Move));
    assert!(selector.is_control_disabled(Control::Jump));
}

#[test]
fn removed_goals_are_told_to_stop() {
    let mut selector = GoalSelector::default();
    selector.add_goal(PrioritizedGoal::new(1, 5, moves(), true, true));
    selector.add_goal(PrioritizedGoal::new(2, 5, looks(), true, true));
    selector.tick(&vec![answer(true, true), answer(true, true)]);
    assert_eq!(selector.remove_goal(1), vec![0]);
    assert_eq!(selector.goals.len(), 1);
    assert_eq!(selector.goals[0].type_id, 2);
    assert_eq!(selector.clear_all_goals(), vec![0]);
    assert!(selector.goals.is_empty());
    assert_eq!(selector.goals_by_control, [NO_GOAL; 4]);
}

#[test]
fn removing_a_goal_leaves_the_others_their_controls() {
    let mut selector = GoalSelector::default();
    selector.add_goal(PrioritizedGoal::new(1, 5, looks(), true, true));
    selector.add_goal(PrioritizedGoal::new(2, 5, looks(), true, true));
    selector.add_goal(PrioritizedGoal::new(3, 5, moves(), true, true));
    selector.tick(&vec![
        answer(false, false),
        answer(false, false),
        answer(true, true),
    ]);
    assert!(selector.goals[2].running);
    assert_eq!(selector.goals_by_control.iter().filter(|s| **s == 2).count(), 1);
    assert!(selector.remove_goal(1).is_empty());
    let types: Vec<u64> = selector.goals.iter().map(|goal| goal.type_id).collect();
    assert_eq!(types, vec![3, 2]);
    let holders: Vec<usize> = selector
        .goals_by_control
        .iter()
        .copied()
        .filter(|slot| *slot != NO_GOAL)
        .collect();
    assert_eq!(holders, vec![0]);
    assert_eq!(selector.goals[0].type_id, 3);
}

#[test]
fn an_enderman_faces_who_stares_at_it() {
    let staring = StareTarget {
        entity_id: 7,
        is_player: true,
        distance_sq: rank(256.0),
        staring: true,
    };
    let mut goal = ChasePlayerGoal::new(3);
    assert!(goal.can_start(Some(staring), true, Some(7)));
    assert_eq!(goal.target, Some(7));
    assert_eq!(goal.start(), ChaseStep::StopNavigator);
    assert_eq!(goal.tick(), Some(ChaseStep::LookAtEyes { player: 7 }));
    assert!(goal.should_continue(true, rank(256.0), true));
    assert!(!goal.should_continue(true, rank(256.01), true));
    assert!(!goal.should_continue(true, rank(1.0), false));
    goal.stop();
    assert_eq!(goal.tick(), None);
    assert!(!goal.can_start(Some(staring), true, Some(8)));
    assert!(!goal.can_start(Some(staring), false, Some(7)));
    assert!(!goal.can_start(
        Some(StareTarget {
            is_player: false,
            ..staring
        }),
        true,
        Some(7)
    ));
    assert!(!goal.can_start(None, true, Some(7)));
}

#[test]
fn a_creeper_swells_near_its_target() {
    let goal = CreeperIgniteGoal::new(5);
    let near = IgniteTarget {
        distance_sq: rank(8.9),
        can_see: true,
    };
    let edge = IgniteTarget {
        distance_sq: rank(9.0),
        can_see: true,
    };
    let far = IgniteTarget {
        distance_sq: rank(49.1),
        can_see: true,
    };
    assert!(goal.can_start(true, -1, Some(near)));
    assert!(!goal.can_start(true, -1, Some(edge)));
    assert!(goal.can_start(true, 1, None));
    assert!(!goal.can_start(false, 1, Some(near)));
    assert_eq!(goal.tick(true, Some(near)), Some(1));
    assert_eq!(goal.tick(true, Some(far)), Some(-1));
    assert_eq!(
        goal.tick(
            true,
            Some(IgniteTarget {
                can_see: false,
                ..near
            })
        ),
        Some(-1)
    );
    assert_eq!(goal.tick(true, None), Some(-1));
    assert_eq!(goal.tick(false, Some(near)), None);
    assert_eq!(goal.stop(true), Some(-1));
}

#[test]
fn a_mob_leaps_from_the_ground_by_lot() {
    let goal = LeapAtTargetGoal::new(rank(0.4));
    assert!(LeapAtTargetGoal::is_in_leap_range(rank(4.0)));
    assert!(LeapAtTargetGoal::is_in_leap_range(rank(16.0)));
    assert!(!LeapAtTargetGoal::is_in_leap_range(rank(3.99)));
    assert!(!LeapAtTargetGoal::is_in_leap_range(rank(16.01)));
    assert!(goal.can_start_with_lot(Some(rank(9.0)), true, 0));
    assert!(!goal.can_start_with_lot(Some(rank(9.0)), true, 1));
    assert!(!goal.can_start_with_lot(Some(rank(9.0)), false, 0));
    assert!(!goal.can_start_with_lot(None, true, 0));
    assert!(!goal.can_start(Some(rank(9.0)), false));
    // In a thousand ticks the lot falls both ways.
    let leaps = (0..1000)
        .filter(|_| goal.can_start(Some(rank(9.0)), true))
        .count();
    assert!(leaps > 0 && leaps < 1000);
    assert!(goal.should_continue(false));
    assert!(!goal.should_continue(true));
}

#[test]
fn an_enderman_picks_up_what_it_reaches() {
    let goal = PickUpBlockGoal::new(2);
    assert!(goal.can_start_with_lot(true, false, true, 0));
    assert!(!goal.can_start_with_lot(true, false, true, 1));
    assert!(!goal.can_start_with_lot(true, true, true, 0));
    assert!(!goal.can_start_with_lot(true, false, false, 0));
    assert!(!goal.can_start(true, true, true));
    let feet = BlockPos { x: 10, y: 60, z: 20 };
    let place = PickUpBlockGoal::place_at(feet, -2, 1, 2);
    assert_eq!(place, BlockPos { x: 8, y: 61, z: 22 });
    for _ in 0..200 {
        let place = goal.draw_place(feet);
        assert!((place.x - feet.x).abs() <= 2);
        assert!((0..=2).contains(&(place.y - feet.y)));
        assert!((place.z - feet.z).abs() <= 2);
    }
    assert!(goal.tick(true, true, Some(place), place));
    assert!(goal.tick(true, true, None, place));
    assert!(!goal.tick(true, true, Some(feet), place));
    assert!(!goal.tick(true, false, Some(place), place));
    assert!(!goal.should_continue());
}

#[test]
fn a_sonic_boom_goes_off_once() {
    let target = BoomTarget {
        alive: true,
        horizontal_sq: rank(225.0),
        vertical: rank(20.0),
        can_be_targeted: true,
    };
    let mut goal = SonicBoomGoal::new(1);
    assert!(goal.can_start(true, 0, Some(target)));
    assert!(!goal.can_start(true, 1, Some(target)));
    assert!(!goal.can_start(
        true,
        0,
        Some(BoomTarget {
            horizontal_sq: rank(225.1),
            ..target
        })
    ));
    goal.start();
    let mut fired = Vec::new();
    let mut tick = 0;
    while goal.should_continue() {
        tick += 1;
        if goal.tick(true, Some(target)) == BoomAction::Fire {
            fired.push(tick);
        }
    }
    assert_eq!(tick, 60);
    assert_eq!(fired, vec![34]);
    assert_eq!(goal.stop(true), Some(40));
    assert_eq!(goal.tick(true, None), BoomAction::Nothing);
    assert_eq!(SonicBoomGoal::beam_steps(12), (1, 19));
}

#[test]
fn a_boom_out_of_reach_is_lost() {
    let target = BoomTarget {
        alive: true,
        horizontal_sq: rank(1.0),
        vertical: rank(0.0),
        can_be_targeted: true,
    };
    let away = BoomTarget {
        vertical: rank(20.5),
        ..target
    };
    let mut goal = SonicBoomGoal::new(1);
    goal.start();
    for _ in 0..33 {
        assert_eq!(goal.tick(true, Some(target)), BoomAction::Look);
    }
    assert_eq!(goal.tick(true, Some(away)), BoomAction::Look);
    assert_eq!(goal.tick(true, Some(target)), BoomAction::Look);
}

fn melee_target() -> MeleeTarget {
    MeleeTarget {
        valid: true,
        exempt: false,
        pos: at(3.0, 64.0, 0.0),
        distance_sq: rank(9.0),
        moved_sq: rank(0.0),
        in_attack_range: true,
        can_see: true,
        in_position_range: true,
    }
}

fn draws() -> MeleeDraws {
    MeleeDraws {
        follow: 5,
        close: 2,
        apart: 6,
    }
}

#[test]
fn a_mob_asks_itself_once_in_a_while() {
    let mut goal = MeleeAttackGoal::new(rank(1.0), false);
    let target = melee_target();
    assert_eq!(goal.can_start(100, Some(target)), MeleeStart::Yes);
    assert_eq!(goal.can_start(119, Some(target)), MeleeStart::No);
    assert_eq!(goal.can_start(120, Some(target)), MeleeStart::Yes);
    assert_eq!(goal.can_start(140, None), MeleeStart::No);
    let apart = MeleeTarget {
        in_attack_range: false,
        ..target
    };
    assert_eq!(goal.can_start(160, Some(apart)), MeleeStart::IfPath);
    let on_top = MeleeTarget {
        distance_sq: rank(0.2),
        ..apart
    };
    assert_eq!(goal.can_start(180, Some(on_top)), MeleeStart::No);
    let creative = MeleeTarget {
        exempt: true,
        ..target
    };
    assert_eq!(goal.can_start(200, Some(creative)), MeleeStart::No);
    assert!(!goal.should_continue(Some(creative)));
    assert!(goal.should_continue(Some(apart)));
}

#[test]
fn a_slow_mob_has_the_least_speed() {
    assert_eq!(MeleeAttackGoal::new(0, false).speed, MIN_SPEED);
    assert_eq!(MeleeAttackGoal::new(rank(1.5), false).speed, rank(1.5));
}

#[test]
fn strikes_keep_their_interval() {
    let mut goal = MeleeAttackGoal::new(rank(1.0), false);
    let target = melee_target();
    let pos = at(0.0, 64.0, 0.0);
    goal.start(pos, Some(target));
    let mut strikes = Vec::new();
    for tick in 0..50 {
        let steps = goal.tick_with_draws(pos, EntityType::Zombie, Some(target), draws());
        assert_eq!(steps[0], MeleeStep::LookAtTarget);
        if steps.contains(&MeleeStep::Attack) {
            assert!(steps.contains(&MeleeStep::SwingHand));
            strikes.push(tick);
        }
    }
    assert_eq!(strikes, vec![0, 20, 40]);
}

#[test]
fn a_golem_strikes_without_swinging() {
    let mut goal = MeleeAttackGoal::new(rank(1.0), false);
    let pos = at(0.0, 64.0, 0.0);
    let steps = goal.tick(pos, EntityType::IronGolem, Some(melee_target()));
    assert!(steps.contains(&MeleeStep::Attack));
    assert!(!steps.contains(&MeleeStep::SwingHand));
}

#[test]
fn a_mob_follows_a_target_that_moved() {
    let mut goal = MeleeAttackGoal::new(rank(1.0), false);
    let pos = at(0.0, 64.0, 0.0);
    let apart = MeleeTarget {
        in_attack_range: false,
        distance_sq: rank(2000.0),
        ..melee_target()
    };
    let steps = goal.tick_with_draws(pos, EntityType::Zombie, Some(apart), draws());
    assert_eq!(steps.len(), 2);
    assert!(matches!(steps[1], MeleeStep::SetProgress { goal } if goal.destination == apart.pos));
    // Four and the draw, and ten more for a target that is very far.
    assert_eq!(goal.update_countdown_ticks, 20);
    // It waits, and then the target has not moved.
    for _ in 0..30 {
        let steps = goal.tick_with_draws(pos, EntityType::Zombie, Some(apart), draws());
        assert_eq!(steps, vec![MeleeStep::LookAtTarget]);
    }
    let moved = MeleeTarget {
        moved_sq: rank(1.0),
        distance_sq: rank(15.0),
        ..apart
    };
    let steps = goal.tick_with_draws(pos, EntityType::Zombie, Some(moved), draws());
    assert_eq!(steps.len(), 2);
    assert_eq!(goal.update_countdown_ticks, 4);
}

#[test]
fn a_dead_target_is_dropped() {
    let mut goal = MeleeAttackGoal::new(rank(1.0), false);
    let pos = at(0.0, 64.0, 0.0);
    let dead = MeleeTarget {
        valid: false,
        ..melee_target()
    };
    let dropped = vec![
        MeleeStep::ClearTarget,
        MeleeStep::SetAttacking { attacking: false },
        MeleeStep::StopNavigator,
    ];
    assert_eq!(
        goal.tick_with_draws(pos, EntityType::Zombie, Some(dead), draws()),
        dropped
    );
    assert_eq!(goal.after_attack(false), dropped);
    assert_eq!(goal.after_attack(true), Vec::new());
    assert_eq!(goal.stop(Some(dead)), dropped);
    assert_eq!(
        goal.stop(Some(melee_target())),
        vec![
            MeleeStep::SetAttacking { attacking: false },
            MeleeStep::StopNavigator,
        ]
    );
}
