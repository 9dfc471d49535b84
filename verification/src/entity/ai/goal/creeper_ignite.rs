//! A creeper that swells next to its target.

use vstd::prelude::*;

use super::{Control, Controls};
use crate::data::rank::Rank64;

verus! {

/// The square (9.0) of the distance within which a creeper starts to swell.
pub const START_DISTANCE_SQ: Rank64 = 0x4022_0000_0000_0000;

/// The square (49.0) of the distance beyond which a creeper stops swelling.
pub const STOP_DISTANCE_SQ: Rank64 = 0x4048_8000_0000_0000;

/// The goal of a creeper to blow up next to its target.
pub struct CreeperIgniteGoal {
    /// The number of the creeper.
    pub creeper: i32,
}

/// What the goal reads of the mob's target.
#[derive(Clone, Copy, Debug, PartialEq, Eq, Structural)]
pub struct IgniteTarget {
    pub distance_sq: Rank64,
    /// Whether no solid block is between the eyes of the two.
    pub can_see: bool,
}

impl CreeperIgniteGoal {
    /// The goal of the creeper.
    pub fn new(creeper: i32) -> (r: Self)
        ensures
            r.creeper == creeper,
    {
        CreeperIgniteGoal { creeper }
    }

    /// Whether the goal can start: the creeper is there, and it swells already or its
    /// target is near.
    pub fn can_start(
        &self,
        creeper_present: bool,
        fuse_speed: i32,
        target: Option<IgniteTarget>,
    ) -> (r: bool)
        ensures
            r == (creeper_present && (fuse_speed > 0 || (target matches Some(seen)
                && seen.distance_sq < START_DISTANCE_SQ))),
    {
        if !creeper_present {
            return false;
        }
        if fuse_speed > 0 {
            return true;
        }
        match target {
            Some(seen) => seen.distance_sq < START_DISTANCE_SQ,
            None => false,
        }
    }

    /// The speed of the fuse once the goal has stopped, where the creeper is there.
    pub fn stop(&self, creeper_present: bool) -> (r: Option<i32>)
        ensures
            r == (if creeper_present {
                Some(-1i32)
            } else {
                None
            }),
    {
        if creeper_present {
            Some(-1)
        } else {
            None
        }
    }

    /// The speed of the fuse in this tick, where the creeper is there: it burns while
    /// the target is near and in sight, and else goes back.
    pub fn tick(&self, creeper_present: bool, target: Option<IgniteTarget>) -> (r: Option<i32>)
        ensures
            !creeper_present ==> r is None,
            creeper_present ==> r == Some(
                if target matches Some(seen) && seen.distance_sq <= STOP_DISTANCE_SQ
                    && seen.can_see {
                    1i32
                } else {
                    -1i32
                },
            ),
    {
        if !creeper_present {
            return None;
        }
        match target {
            Some(seen) => {
                if seen.distance_sq > STOP_DISTANCE_SQ || !seen.can_see {
                    Some(-1)
                } else {
                    Some(1)
                }
            },
            None => Some(-1),
        }
    }

    /// The goal runs in every tick.
    pub fn should_run_every_tick(&self) -> (r: bool)
        ensures
            r,
    {
        true
    }

    /// The goal takes the control for moving.
    pub fn controls(&self) -> (r: Controls)
        ensures
            forall|control: Control| #[trigger] r.has(control) <==> control == Control::Move,
    {
        Controls { moves: true, looks: false, jumps: false, targets: false }
    }
}

/// Law: a creeper starts to swell within 3 blocks of its target, or where it swells already. It goes
/// on while it sees the target within 7 blocks, and else, or once it stops, it shrinks.
pub proof fn law_when_a_creeper_swells(
    goal: CreeperIgniteGoal,
    creeper_present: bool,
    fuse_speed: i32,
    target: Option<IgniteTarget>,
    starts: bool,
    speed: Option<i32>,
    stopped: Option<i32>,
)
    requires
        call_ensures(
            CreeperIgniteGoal::can_start,
            (&goal, creeper_present, fuse_speed, target),
            starts,
        ),
        call_ensures(CreeperIgniteGoal::tick, (&goal, creeper_present, target), speed),
        call_ensures(CreeperIgniteGoal::stop, (&goal, creeper_present), stopped),
    ensures
        starts <==> creeper_present && (fuse_speed > 0 || target is Some && target->0.distance_sq
            < 0x4022_0000_0000_0000),
        speed is Some <==> creeper_present,
        speed is Some ==> speed->0 == 1 || speed->0 == -1,
        speed is Some ==> (speed->0 == 1 <==> target is Some && target->0.can_see
            && target->0.distance_sq <= 0x4048_8000_0000_0000),
        stopped is Some <==> creeper_present,
        stopped is Some ==> stopped->0 == -1,
{
}

/// Law: a creeper that swells does not walk, looks as it likes, and swells in every tick.
pub proof fn law_swelling_stops_the_walk(goal: CreeperIgniteGoal, controls: Controls, every_tick: bool)
    requires
        call_ensures(CreeperIgniteGoal::controls, (&goal,), controls),
        call_ensures(CreeperIgniteGoal::should_run_every_tick, (&goal,), every_tick),
    ensures
        controls.moves == true,
        controls.looks == false,
        controls.jumps == false,
        !controls.targets,
        every_tick,
{
    assert(controls.has(Control::Move) == true);
    assert(controls.has(Control::Look) == false);
    assert(controls.has(Control::Jump) == false);
    assert(!controls.has(Control::Target));
}

} // verus!
