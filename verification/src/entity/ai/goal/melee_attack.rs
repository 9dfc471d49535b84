//! A mob that runs up to its target and strikes it.

use vstd::prelude::*;

use super::{get_tick_count, Control, Controls};
use crate::data::entity_type::EntityType;
use crate::data::position::Position;
use crate::data::rank::Rank64;
use crate::entity::ai::pathfinder::NavigatorGoal;
use crate::plan::{only_if, push_if, push_step};
use crate::random::draw_range;

verus! {

/// The least speed (0.01).
pub const MIN_SPEED: Rank64 = 0x3F84_7AE1_47AE_147B;

/// A mob asks itself only every so many ticks whether it can attack.
pub const CHECK_INTERVAL: i64 = 20;

/// How many ticks pass between two strikes.
pub const ATTACK_INTERVAL: i32 = 20;

/// The square (0.25) of the distance within which no way is looked for.
pub const NO_WAY_DISTANCE_SQ: Rank64 = 0x3FD0_0000_0000_0000;

/// The square (1.0) of the distance that a target has to move to be followed.
pub const MOVED_DISTANCE_SQ: Rank64 = 0x3FF0_0000_0000_0000;

/// The square (16.0) of the distance within which a target is close.
pub const CLOSE_DISTANCE_SQ: Rank64 = 0x4030_0000_0000_0000;

/// The square (256.0) of the distance beyond which a target is far.
pub const FAR_DISTANCE_SQ: Rank64 = 0x4070_0000_0000_0000;

/// The square (1024.0) of the distance beyond which a target is very far.
pub const VERY_FAR_DISTANCE_SQ: Rank64 = 0x4090_0000_0000_0000;

/// In one tick out of this many a mob follows a target that has not moved.
pub const FOLLOW_ODDS: i32 = 20;

/// The goal of a mob to strike its target.
pub struct MeleeAttackGoal {
    pub speed: Rank64,
    pub pause_when_mob_idle: bool,
    /// Ticks until the mob looks for a way again.
    pub update_countdown_ticks: i32,
    /// Ticks until the mob can strike again.
    pub cooldown: i32,
    pub last_target_position: Option<Position>,
    /// The age at which the mob last asked itself whether it can attack, or the least
    /// number if it never did.
    pub last_can_use_check: i64,
}

/// What the goal reads of the mob's target.
#[derive(Clone, Copy, Debug, PartialEq, Eq, Structural)]
pub struct MeleeTarget {
    /// Whether the target is alive.
    pub valid: bool,
    /// Whether the target is a player who looks on or is in creative mode.
    pub exempt: bool,
    pub pos: Position,
    /// The square of the distance to the target.
    pub distance_sq: Rank64,
    /// The square of the distance from where the target was followed to last.
    pub moved_sq: Rank64,
    pub in_attack_range: bool,
    /// Whether no solid block is between the eyes of the two.
    pub can_see: bool,
    /// Whether the target is where the mob is bound to stay.
    pub in_position_range: bool,
}

/// Whether the goal can start.
#[derive(Clone, Copy, Debug, PartialEq, Eq, Structural)]
pub enum MeleeStart {
    No,
    Yes,
    /// If there is a way to the target.
    IfPath,
}

/// What the goal asks the world to do.
#[derive(Clone, Copy, Debug, PartialEq, Eq, Structural)]
pub enum MeleeStep {
    SetAttacking { attacking: bool },
    SetProgress { goal: NavigatorGoal },
    StopNavigator,
    ClearTarget,
    LookAtTarget,
    SwingHand,
    /// Strikes the target; then [`MeleeAttackGoal::after_attack`] says what follows.
    Attack,
}

/// The numbers that a tick draws.
#[derive(Clone, Copy, Debug, PartialEq, Eq, Structural)]
pub struct MeleeDraws {
    /// From 0 up to 20, left out.
    pub follow: i32,
    /// From 0 up to 3, left out.
    pub close: i32,
    /// From 0 up to 7, left out.
    pub apart: i32,
}

impl MeleeDraws {
    /// The numbers are in their ranges.
    pub open spec fn wf(self) -> bool {
        0 <= self.follow < FOLLOW_ODDS && 0 <= self.close < 3 && 0 <= self.apart < 7
    }
}

/// Dropping a target that has died.
pub open spec fn drop_target() -> Seq<MeleeStep> {
    seq![
        MeleeStep::ClearTarget,
        MeleeStep::SetAttacking { attacking: false },
        MeleeStep::StopNavigator,
    ]
}

/// Dropping a target that has died.
fn drop_target_steps() -> (steps: Vec<MeleeStep>)
    ensures
        steps@ == drop_target(),
{
    let mut steps: Vec<MeleeStep> = Vec::new();
    steps.push(MeleeStep::ClearTarget);
    steps.push(MeleeStep::SetAttacking { attacking: false });
    steps.push(MeleeStep::StopNavigator);
    assert(steps@ =~= drop_target());
    steps
}

/// The ticks until a mob looks for a way again: fewer when it is close to its target,
/// more when that is far.
pub open spec fn next_countdown(distance_sq: Rank64, draws: MeleeDraws) -> int {
    (if distance_sq < CLOSE_DISTANCE_SQ {
        2 + draws.close
    } else {
        4 + draws.apart
    }) + (if distance_sq > VERY_FAR_DISTANCE_SQ {
        10int
    } else if distance_sq > FAR_DISTANCE_SQ {
        5
    } else {
        0
    })
}

/// A number counted down by one, but not below 0.
pub open spec fn counted_down(ticks: i32) -> int {
    if ticks > 0 {
        ticks - 1
    } else {
        0
    }
}

/// A number counted down by one, but not below 0.
fn count_down(ticks: i32) -> (r: i32)
    ensures
        r == counted_down(ticks),
{
    if ticks > 0 {
        ticks - 1
    } else {
        0
    }
}

impl MeleeAttackGoal {
    /// The goal to run at the target with the given speed.
    pub fn new(speed: Rank64, pause_when_mob_idle: bool) -> (r: Self)
        ensures
            r == (MeleeAttackGoal {
                speed: if speed > MIN_SPEED {
                    speed
                } else {
                    MIN_SPEED
                },
                pause_when_mob_idle,
                update_countdown_ticks: 0,
                cooldown: 0,
                last_target_position: None,
                last_can_use_check: i64::MIN,
            }),
    {
        MeleeAttackGoal {
            speed: if speed > MIN_SPEED {
                speed
            } else {
                MIN_SPEED
            },
            pause_when_mob_idle,
            update_countdown_ticks: 0,
            cooldown: 0,
            last_target_position: None,
            last_can_use_check: i64::MIN,
        }
    }

    /// How many ticks pass between two strikes.
    pub fn get_max_cooldown(&self) -> (r: i32)
        ensures
            r == ATTACK_INTERVAL,
    {
        get_tick_count(self.should_run_every_tick(), ATTACK_INTERVAL)
    }

    /// The mob asked itself a moment ago, as far as its age can tell, which wraps around.
    pub open spec fn spec_throttled(self, age: i32) -> bool {
        self.last_can_use_check != i64::MIN && (age as i64).wrapping_sub(self.last_can_use_check)
            < CHECK_INTERVAL
    }

    /// Whether the goal can start, at the given age of the mob. Asking too soon is no.
    pub fn can_start(&mut self, age: i32, target: Option<MeleeTarget>) -> (r: MeleeStart)
        ensures
            *final(self) == (MeleeAttackGoal {
                last_can_use_check: if old(self).spec_throttled(age) {
                    old(self).last_can_use_check
                } else {
                    age as i64
                },
                ..*old(self)
            }),
            r == (if old(self).spec_throttled(age) {
                MeleeStart::No
            } else {
                match target {
                    Some(seen) => if !seen.valid || seen.exempt {
                        MeleeStart::No
                    } else if seen.in_attack_range {
                        MeleeStart::Yes
                    } else if seen.distance_sq < NO_WAY_DISTANCE_SQ {
                        MeleeStart::No
                    } else {
                        MeleeStart::IfPath
                    },
                    None => MeleeStart::No,
                }
            }),
    {
        let now: i64 = age as i64;
        if self.last_can_use_check != i64::MIN && now.wrapping_sub(self.last_can_use_check)
            < CHECK_INTERVAL {
            return MeleeStart::No;
        }
        self.last_can_use_check = now;
        match target {
            Some(seen) => {
                if !seen.valid || seen.exempt {
                    MeleeStart::No
                } else if seen.in_attack_range {
                    MeleeStart::Yes
                } else if seen.distance_sq < NO_WAY_DISTANCE_SQ {
                    MeleeStart::No
                } else {
                    MeleeStart::IfPath
                }
            },
            None => MeleeStart::No,
        }
    }

    /// Whether the goal goes on: the target is alive and may be struck, and is where
    /// the mob is bound to stay, where that matters.
    pub fn should_continue(&self, target: Option<MeleeTarget>) -> (r: bool)
        ensures
            r == (target matches Some(seen) && seen.valid && !seen.exempt && (
            self.pause_when_mob_idle ==> seen.in_position_range)),
    {
        match target {
            Some(seen) => {
                if !seen.valid || seen.exempt {
                    return false;
                }
                if self.pause_when_mob_idle {
                    return seen.in_position_range;
                }
                true
            },
            None => false,
        }
    }

    /// The way from a position to the target.
    pub open spec fn spec_way(self, pos: Position, target: MeleeTarget) -> NavigatorGoal {
        NavigatorGoal { current_progress: pos, destination: target.pos, speed: self.speed }
    }

    /// Starts the attack: the mob sets out for its target. With a target that has died,
    /// nothing else happens than that the mob looks as if it attacked.
    pub fn start(&mut self, pos: Position, target: Option<MeleeTarget>) -> (steps: Vec<MeleeStep>)
        ensures
            steps@ == seq![MeleeStep::SetAttacking { attacking: true }] + only_if(
                target is Some && target->0.valid,
                (MeleeStep::SetProgress { goal: old(self).spec_way(pos, target->0) }),
            ),
            *final(self) == (match target {
                Some(seen) => if seen.valid {
                    MeleeAttackGoal {
                        last_target_position: Some(seen.pos),
                        update_countdown_ticks: 0,
                        cooldown: 0,
                        ..*old(self)
                    }
                } else {
                    *old(self)
                },
                None => MeleeAttackGoal { update_countdown_ticks: 0, cooldown: 0, ..*old(self) },
            }),
    {
        let mut steps: Vec<MeleeStep> = Vec::new();
        steps.push(MeleeStep::SetAttacking { attacking: true });
        assert(steps@ =~= seq![MeleeStep::SetAttacking { attacking: true }]);
        if let Some(seen) = target {
            if !seen.valid {
                return steps;
            }
            let goal: NavigatorGoal = NavigatorGoal::new(pos, seen.pos, self.speed);
            push_step(&mut steps, MeleeStep::SetProgress { goal });
            self.last_target_position = Some(seen.pos);
        }
        self.update_countdown_ticks = 0;
        self.cooldown = 0;
        steps
    }

    /// Ends the attack. A target that has died, or may no longer be struck, is
    /// forgotten, so that the mob can pick another.
    pub fn stop(&mut self, target: Option<MeleeTarget>) -> (steps: Vec<MeleeStep>)
        ensures
            *final(self) == (MeleeAttackGoal { last_target_position: None, ..*old(self) }),
            steps@ == only_if(
                target matches Some(seen) && (!seen.valid || seen.exempt),
                MeleeStep::ClearTarget,
            ) + seq![MeleeStep::SetAttacking { attacking: false }] + seq![
                MeleeStep::StopNavigator,
            ],
    {
        let clear: bool = match target {
            Some(seen) => !seen.valid || seen.exempt,
            None => false,
        };
        let mut steps: Vec<MeleeStep> = Vec::new();
        push_if(&mut steps, clear, MeleeStep::ClearTarget);
        assert(steps@ =~= only_if(clear, MeleeStep::ClearTarget));
        push_step(&mut steps, MeleeStep::SetAttacking { attacking: false });
        push_step(&mut steps, MeleeStep::StopNavigator);
        self.last_target_position = None;
        steps
    }

    /// The mob follows its target in this tick: it is time to, and the target has moved
    /// or the draw says so.
    pub open spec fn spec_follows(self, target: MeleeTarget, draws: MeleeDraws) -> bool {
        &&& counted_down(self.update_countdown_ticks) == 0
        &&& self.last_target_position is None || target.moved_sq >= MOVED_DISTANCE_SQ
            || draws.follow == 0
    }

    /// The mob strikes in this tick.
    pub open spec fn spec_strikes(self, target: MeleeTarget) -> bool {
        counted_down(self.cooldown) == 0 && target.can_see && target.in_attack_range
    }

    /// The goal after a tick.
    pub open spec fn spec_after_tick(
        self,
        target: Option<MeleeTarget>,
        draws: MeleeDraws,
    ) -> MeleeAttackGoal {
        match target {
            Some(seen) => if seen.valid {
                MeleeAttackGoal {
                    update_countdown_ticks: if self.spec_follows(seen, draws) {
                        next_countdown(seen.distance_sq, draws) as i32
                    } else {
                        counted_down(self.update_countdown_ticks) as i32
                    },
                    last_target_position: if self.spec_follows(seen, draws) {
                        Some(seen.pos)
                    } else {
                        self.last_target_position
                    },
                    cooldown: if self.spec_strikes(seen) {
                        ATTACK_INTERVAL
                    } else {
                        counted_down(self.cooldown) as i32
                    },
                    ..self
                }
            } else {
                self
            },
            None => self,
        }
    }

    /// What a tick asks for.
    pub open spec fn tick_steps(
        self,
        pos: Position,
        attacker: EntityType,
        target: Option<MeleeTarget>,
        draws: MeleeDraws,
    ) -> Seq<MeleeStep> {
        match target {
            Some(seen) => if seen.valid {
                seq![MeleeStep::LookAtTarget] + only_if(
                    self.spec_follows(seen, draws),
                    (MeleeStep::SetProgress { goal: self.spec_way(pos, seen) }),
                ) + only_if(
                    self.spec_strikes(seen) && attacker != EntityType::IronGolem,
                    MeleeStep::SwingHand,
                ) + only_if(self.spec_strikes(seen), MeleeStep::Attack)
            } else {
                drop_target()
            },
            None => Seq::empty(),
        }
    }

    /// Lets a tick go by, once the numbers have been drawn: the mob looks at its
    /// target, follows it and strikes it when it can.
    pub fn tick_with_draws(
        &mut self,
        pos: Position,
        attacker: EntityType,
        target: Option<MeleeTarget>,
        draws: MeleeDraws,
    ) -> (steps: Vec<MeleeStep>)
        requires
            draws.wf(),
        ensures
            *final(self) == old(self).spec_after_tick(target, draws),
            steps@ == old(self).tick_steps(pos, attacker, target, draws),
    {
        let seen: MeleeTarget = match target {
            Some(seen) => seen,
            None => {
                return Vec::new();
            },
        };
        if !seen.valid {
            return drop_target_steps();
        }
        let mut steps: Vec<MeleeStep> = Vec::new();
        steps.push(MeleeStep::LookAtTarget);
        assert(steps@ =~= seq![MeleeStep::LookAtTarget]);
        self.update_countdown_ticks = count_down(self.update_countdown_ticks);
        let follows: bool = self.update_countdown_ticks <= 0 && (
        self.last_target_position.is_none() || seen.moved_sq >= MOVED_DISTANCE_SQ || draws.follow
            == 0);
        let goal: NavigatorGoal = NavigatorGoal::new(pos, seen.pos, self.speed);
        push_if(&mut steps, follows, MeleeStep::SetProgress { goal });
        if follows {
            self.last_target_position = Some(seen.pos);
            self.update_countdown_ticks = if seen.distance_sq < CLOSE_DISTANCE_SQ {
                2 + draws.close
            } else {
                4 + draws.apart
            };
            if seen.distance_sq > VERY_FAR_DISTANCE_SQ {
                self.update_countdown_ticks = self.update_countdown_ticks + 10;
            } else if seen.distance_sq > FAR_DISTANCE_SQ {
                self.update_countdown_ticks = self.update_countdown_ticks + 5;
            }
        }
        self.cooldown = count_down(self.cooldown);
        let strikes: bool = self.cooldown <= 0 && seen.can_see && seen.in_attack_range;
        if strikes {
            self.cooldown = self.get_max_cooldown();
        }
        push_if(&mut steps, strikes && attacker != EntityType::IronGolem, MeleeStep::SwingHand);
        push_if(&mut steps, strikes, MeleeStep::Attack);
        steps
    }

    /// Lets a tick go by, drawing the numbers.
    pub fn tick(
        &mut self,
        pos: Position,
        attacker: EntityType,
        target: Option<MeleeTarget>,
    ) -> (steps: Vec<MeleeStep>)
        ensures
            exists|draws: MeleeDraws|
                draws.wf() && *final(self) == old(self).spec_after_tick(target, draws)
                    && #[trigger] old(self).tick_steps(pos, attacker, target, draws) == steps@,
    {
        let draws: MeleeDraws = MeleeDraws {
            follow: draw_range(0, FOLLOW_ODDS),
            close: draw_range(0, 3),
            apart: draw_range(0, 7),
        };
        let steps: Vec<MeleeStep> = self.tick_with_draws(pos, attacker, target, draws);
        assert(draws.wf() && old(self).tick_steps(pos, attacker, target, draws) == steps@);
        steps
    }

    /// What follows a strike: a target that died of it is dropped at once.
    pub fn after_attack(&self, target_valid: bool) -> (steps: Vec<MeleeStep>)
        ensures
            steps@ == (if target_valid {
                Seq::empty()
            } else {
                drop_target()
            }),
    {
        if target_valid {
            Vec::new()
        } else {
            drop_target_steps()
        }
    }

    /// The goal runs in every tick.
    pub fn should_run_every_tick(&self) -> (r: bool)
        ensures
            r,
    {
        true
    }

    /// The goal takes the controls for moving and looking.
    pub fn controls(&self) -> (r: Controls)
        ensures
            forall|control: Control| #[trigger]
                r.has(control) <==> control == Control::Move || control == Control::Look,
    {
        Controls { moves: true, looks: true, jumps: false, targets: false }
    }
}

/// The goal after some ticks, each with its own target and draws.
pub open spec fn ticked_goal(
    goal: MeleeAttackGoal,
    ticks: Seq<(Option<MeleeTarget>, MeleeDraws)>,
) -> MeleeAttackGoal
    decreases ticks.len(),
{
    if ticks.len() == 0 {
        goal
    } else {
        ticked_goal(goal, ticks.drop_last()).spec_after_tick(ticks.last().0, ticks.last().1)
    }
}

/// Law: two strikes are at least as many ticks apart as the interval says. After a
/// strike, in any of the next nineteen ticks the mob does not strike, whatever it
/// sees.
pub proof fn law_strikes_keep_their_interval(
    goal: MeleeAttackGoal,
    ticks: Seq<(Option<MeleeTarget>, MeleeDraws)>,
    target: MeleeTarget,
)
    requires
        goal.cooldown == ATTACK_INTERVAL,
        ticks.len() < ATTACK_INTERVAL - 1,
    ensures
        !ticked_goal(goal, ticks).spec_strikes(target),
        ticked_goal(goal, ticks).cooldown >= ATTACK_INTERVAL - ticks.len(),
    decreases ticks.len(),
{
    if ticks.len() > 0 {
        let rest = ticks.drop_last();
        law_strikes_keep_their_interval(goal, rest, target);
        let before = ticked_goal(goal, rest);
        if let Some(seen) = ticks.last().0 {
            law_strikes_keep_their_interval(goal, rest, seen);
        }
    }
}

/// Law: a mob looks for a way at most every other tick, and at least every twenty
/// ticks it is free to.
pub proof fn law_countdown_stays_in_bounds(distance_sq: Rank64, draws: MeleeDraws)
    requires
        draws.wf(),
    ensures
        2 <= next_countdown(distance_sq, draws) <= 20,
{
}

/// Law: a mob that gets ready to strike goes at least at 0.01, has struck nobody and asked itself
/// nothing yet; between two strikes it waits for 20 ticks.
pub proof fn law_new_attacker_is_ready(
    speed: Rank64,
    pause_when_mob_idle: bool,
    r: MeleeAttackGoal,
    interval: i32,
)
    requires
        call_ensures(MeleeAttackGoal::new, (speed, pause_when_mob_idle), r),
        call_ensures(MeleeAttackGoal::get_max_cooldown, (&r,), interval),
    ensures
        r.speed >= 0x3F84_7AE1_47AE_147B,
        speed >= 0x3F84_7AE1_47AE_147B ==> r.speed == speed,
        r.pause_when_mob_idle == pause_when_mob_idle,
        r.cooldown == 0,
        r.update_countdown_ticks == 0,
        r.last_target_position is None,
        interval == 20,
{
}

/// Law: a mob asks itself whether it can attack every 20 ticks. It can where its target is alive and
/// may be struck: at once in its reach, and else by a way, unless that would be half a block or
/// less.
pub proof fn law_when_an_attack_can_start(
    goal: &mut MeleeAttackGoal,
    age: i32,
    target: Option<MeleeTarget>,
    r: MeleeStart,
)
    requires
        call_ensures(MeleeAttackGoal::can_start, (goal, age, target), r),
        age >= 0,
        old(goal).last_can_use_check >= 0 || old(goal).last_can_use_check == i64::MIN,
    ensures
        ({
            let too_soon = old(goal).last_can_use_check != i64::MIN && age - old(goal).last_can_use_check < 20;
            let may = target is Some && target->0.valid && !target->0.exempt;
            &&& too_soon ==> r == MeleeStart::No && *final(goal) == *old(goal)
            &&& !too_soon ==> final(goal).last_can_use_check == age
            &&& r == MeleeStart::Yes <==> !too_soon && may && target->0.in_attack_range
            &&& r == MeleeStart::IfPath <==> !too_soon && may && !target->0.in_attack_range
                && target->0.distance_sq >= 0x3FD0_0000_0000_0000
            &&& final(goal).cooldown == old(goal).cooldown
        }),
{
}

/// Law: an attack goes on while the target is alive and may be struck; a mob that is bound to a
/// place also minds where the target is.
pub proof fn law_when_an_attack_goes_on(
    goal: MeleeAttackGoal,
    target: Option<MeleeTarget>,
    r: bool,
)
    requires
        call_ensures(MeleeAttackGoal::should_continue, (&goal, target), r),
    ensures
        r ==> target is Some && target->0.valid && !target->0.exempt,
        r && goal.pause_when_mob_idle ==> target->0.in_position_range,
        target is Some && target->0.valid && !target->0.exempt && !goal.pause_when_mob_idle ==> r,
        target is Some && target->0.valid && !target->0.exempt && target->0.in_position_range ==> r,
{
}

/// Law: an attack begins with the mob setting out for a target that lives, at its speed, ready to
/// strike; it ends with the mob at rest, having forgotten a target that died or may not be struck.
pub proof fn law_begin_and_end_of_an_attack(
    begun: &mut MeleeAttackGoal,
    pos: Position,
    target: Option<MeleeTarget>,
    first: Vec<MeleeStep>,
    ended: &mut MeleeAttackGoal,
    last: Vec<MeleeStep>,
)
    requires
        call_ensures(MeleeAttackGoal::start, (begun, pos, target), first),
        call_ensures(MeleeAttackGoal::stop, (ended, target), last),
    ensures
        first@[0] == (MeleeStep::SetAttacking { attacking: true }),
        target is Some && target->0.valid ==> {
            &&& first@.len() == 2
            &&& first@[1] is SetProgress
            &&& first@[1]->goal.current_progress == pos
            &&& first@[1]->goal.destination == target->0.pos
            &&& first@[1]->goal.speed == old(begun).speed
            &&& final(begun).last_target_position == Some(target->0.pos)
            &&& final(begun).cooldown == 0
            &&& final(begun).update_countdown_ticks == 0
        },
        target is None || !target->0.valid ==> first@.len() == 1,
        final(ended).last_target_position is None,
        last@.last() == MeleeStep::StopNavigator,
        last@[last@.len() - 2] == (MeleeStep::SetAttacking { attacking: false }),
        target is Some && (!target->0.valid || target->0.exempt) ==> last@.len() == 3 && last@[0]
            == MeleeStep::ClearTarget,
        target is None || target->0.valid && !target->0.exempt ==> last@.len() == 2,
{
}

/// Law: in each tick a mob looks at its target. It strikes where it sees the target within its reach
/// and its cooldown is over, which then starts anew at 20 ticks, and swings its hand unless it is
/// an iron golem.
pub proof fn law_when_a_mob_strikes(
    goal: &mut MeleeAttackGoal,
    pos: Position,
    attacker: EntityType,
    target: Option<MeleeTarget>,
    draws: MeleeDraws,
    steps: Vec<MeleeStep>,
)
    requires
        call_ensures(
            MeleeAttackGoal::tick_with_draws,
            (goal, pos, attacker, target, draws),
            steps,
        ),
    ensures
        target is None ==> steps@.len() == 0 && *final(goal) == *old(goal),
        target is Some && !target->0.valid ==> steps@ == seq![
            MeleeStep::ClearTarget,
            MeleeStep::SetAttacking { attacking: false },
            MeleeStep::StopNavigator,
        ] && *final(goal) == *old(goal),
        target is Some && target->0.valid ==> {
            let strikes = old(goal).cooldown <= 1 && target->0.can_see
                && target->0.in_attack_range;
            &&& steps@[0] == MeleeStep::LookAtTarget
            &&& steps@.contains(MeleeStep::Attack) <==> strikes
            &&& steps@.contains(MeleeStep::SwingHand) <==> strikes && attacker
                != EntityType::IronGolem
            &&& strikes ==> steps@.last() == MeleeStep::Attack && final(goal).cooldown == 20
            &&& !strikes ==> final(goal).cooldown == (if old(goal).cooldown > 0 {
                old(goal).cooldown - 1
            } else {
                0
            })
            &&& !steps@.contains(MeleeStep::ClearTarget)
        },
{
    broadcast use crate::plan::lemma_plan_contains;
    broadcast use crate::plan::lemma_only_if_contains;
    broadcast use crate::plan::lemma_single_contains;

}

/// Law: a mob follows its target when its countdown is over and the target has moved by a block, or
/// now and then anyway. The next countdown is 2 to 4 ticks close to the target and 4 to 10 apart
/// from it, 5 more beyond 16 blocks and 10 more beyond 32.
pub proof fn law_when_a_mob_follows(
    goal: &mut MeleeAttackGoal,
    pos: Position,
    attacker: EntityType,
    target: Option<MeleeTarget>,
    draws: MeleeDraws,
    steps: Vec<MeleeStep>,
    way: NavigatorGoal,
)
    requires
        call_ensures(
            MeleeAttackGoal::tick_with_draws,
            (goal, pos, attacker, target, draws),
            steps,
        ),
        draws.wf(),
        target is Some,
        target->0.valid,
    ensures
        ({
            let follows = old(goal).update_countdown_ticks <= 1 && (old(goal).last_target_position is None || target->0.moved_sq >= 0x3FF0_0000_0000_0000
                || draws.follow == 0);
            let far = if target->0.distance_sq > 0x4090_0000_0000_0000 {
                10int
            } else if target->0.distance_sq > 0x4070_0000_0000_0000 {
                5
            } else {
                0
            };
            &&& steps@.contains(MeleeStep::SetProgress { goal: way }) <==> follows
                && way.current_progress == pos && way.destination == target->0.pos && way.speed
                == old(goal).speed
            &&& follows ==> final(goal).last_target_position == Some(target->0.pos)
            &&& follows && target->0.distance_sq < 0x4030_0000_0000_0000 ==> final(goal).update_countdown_ticks == 2 + draws.close
            &&& follows && target->0.distance_sq >= 0x4030_0000_0000_0000 ==> final(goal).update_countdown_ticks == 4 + draws.apart + far
            &&& !follows ==> final(goal).last_target_position == old(goal).last_target_position
                && final(goal).update_countdown_ticks == (if old(goal).update_countdown_ticks > 0 {
                old(goal).update_countdown_ticks - 1
            } else {
                0
            })
        }),
{
    broadcast use crate::plan::lemma_plan_contains;
    broadcast use crate::plan::lemma_only_if_contains;
    broadcast use crate::plan::lemma_single_contains;

}

/// Law: a target that died of the strike is dropped, and one that lives is not.
pub proof fn law_dead_target_is_dropped(
    goal: MeleeAttackGoal,
    target_valid: bool,
    steps: Vec<MeleeStep>,
    controls: Controls,
)
    requires
        call_ensures(MeleeAttackGoal::after_attack, (&goal, target_valid), steps),
        call_ensures(MeleeAttackGoal::controls, (&goal,), controls),
    ensures
        target_valid ==> steps@.len() == 0,
        !target_valid ==> steps@ == seq![
            MeleeStep::ClearTarget,
            MeleeStep::SetAttacking { attacking: false },
            MeleeStep::StopNavigator,
        ],
        controls.has(Control::Move),
        controls.has(Control::Look),
        !controls.has(Control::Jump),
        !controls.has(Control::Target),
{
}

/// Law: whoever goes to strike moves and looks for that alone, in every tick.
pub proof fn law_strike_takes_legs_and_eyes(goal: MeleeAttackGoal, controls: Controls, every_tick: bool)
    requires
        call_ensures(MeleeAttackGoal::controls, (&goal,), controls),
        call_ensures(MeleeAttackGoal::should_run_every_tick, (&goal,), every_tick),
    ensures
        controls.moves == true,
        controls.looks == true,
        controls.jumps == false,
        !controls.targets,
        every_tick,
{
    assert(controls.has(Control::Move) == true);
    assert(controls.has(Control::Look) == true);
    assert(controls.has(Control::Jump) == false);
    assert(!controls.has(Control::Target));
}

} // verus!
