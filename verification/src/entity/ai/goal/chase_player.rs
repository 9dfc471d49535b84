//! An enderman that stands still while a player stares at it.

use vstd::prelude::*;

use super::{Control, Controls};
use crate::data::rank::Rank64;

verus! {

/// The square (256.0) of the greatest distance to the player.
pub const MAX_DISTANCE_SQ: Rank64 = 0x4070_0000_0000_0000;

/// The goal of an enderman to face the player who stares at it.
pub struct ChasePlayerGoal {
    /// The number of the enderman.
    pub enderman: i32,
    /// The number of the player, while the goal runs.
    pub target: Option<i32>,
}

/// What the goal reads of the mob's target.
#[derive(Clone, Copy, Debug, PartialEq, Eq, Structural)]
pub struct StareTarget {
    pub entity_id: i32,
    pub is_player: bool,
    pub distance_sq: Rank64,
    /// Whether the player stares at the enderman.
    pub staring: bool,
}

/// What the goal asks the world to do.
#[derive(Clone, Copy, Debug, PartialEq, Eq, Structural)]
pub enum ChaseStep {
    StopNavigator,
    /// Looks into the eyes of the player.
    LookAtEyes { player: i32 },
}

/// The target may be stared back at: a player, near enough, who stares at the
/// enderman and is the nearest player of all.
pub open spec fn is_stared_at(
    target: Option<StareTarget>,
    enderman_present: bool,
    closest: Option<i32>,
) -> bool {
    &&& target matches Some(seen)
    &&& seen.is_player
    &&& seen.distance_sq <= MAX_DISTANCE_SQ
    &&& enderman_present
    &&& seen.staring
    &&& closest == Some(seen.entity_id)
}

impl ChasePlayerGoal {
    /// The goal of the enderman.
    pub fn new(enderman: i32) -> (r: Self)
        ensures
            r.enderman == enderman,
            r.target is None,
    {
        ChasePlayerGoal { enderman, target: None }
    }

    /// Whether the goal can start; the player is then its target.
    pub fn can_start(
        &mut self,
        target: Option<StareTarget>,
        enderman_present: bool,
        closest: Option<i32>,
    ) -> (r: bool)
        ensures
            r == is_stared_at(target, enderman_present, closest),
            *final(self) == (ChasePlayerGoal {
                target: if r {
                    Some(target->0.entity_id)
                } else {
                    None
                },
                ..*old(self)
            }),
    {
        self.target = None;
        match target {
            Some(seen) => {
                if !seen.is_player || seen.distance_sq > MAX_DISTANCE_SQ || !enderman_present
                    || !seen.staring {
                    return false;
                }
                match closest {
                    Some(player) => {
                        if player == seen.entity_id {
                            self.target = Some(player);
                            return true;
                        }
                        false
                    },
                    None => false,
                }
            },
            None => false,
        }
    }

    /// Whether the goal goes on: the player is near enough and still stares.
    pub fn should_continue(&self, enderman_present: bool, distance_sq: Rank64, staring: bool) -> (r:
        bool)
        ensures
            r == (self.target is Some && enderman_present && distance_sq <= MAX_DISTANCE_SQ
                && staring),
    {
        self.target.is_some() && enderman_present && distance_sq <= MAX_DISTANCE_SQ && staring
    }

    /// The enderman stands still.
    pub fn start(&self) -> (r: ChaseStep)
        ensures
            r == ChaseStep::StopNavigator,
    {
        ChaseStep::StopNavigator
    }

    /// The player is forgotten.
    pub fn stop(&mut self)
        ensures
            *final(self) == (ChasePlayerGoal { target: None, ..*old(self) }),
    {
        self.target = None;
    }

    /// The enderman looks into the eyes of the player.
    pub fn tick(&self) -> (r: Option<ChaseStep>)
        ensures
            r == match self.target {
                Some(player) => Some(ChaseStep::LookAtEyes { player }),
                None => None,
            },
    {
        match self.target {
            Some(player) => Some(ChaseStep::LookAtEyes { player }),
            None => None,
        }
    }

    /// The goal takes the controls for jumping and moving.
    pub fn controls(&self) -> (r: Controls)
        ensures
            forall|control: Control| #[trigger]
                r.has(control) <==> control == Control::Jump || control == Control::Move,
    {
        Controls { moves: true, looks: false, jumps: true, targets: false }
    }
}

/// Law: an enderman faces the nearest player who stares at it from within 16 blocks, and nobody
/// else. It faces that player until it looks away or is farther off, and then forgets it.
pub proof fn law_whom_an_enderman_faces(
    goal: &mut ChasePlayerGoal,
    target: Option<StareTarget>,
    enderman_present: bool,
    closest: Option<i32>,
    r: bool,
    looks: Option<ChaseStep>,
    distance_sq: Rank64,
    staring: bool,
    goes_on: bool,
)
    requires
        call_ensures(ChasePlayerGoal::can_start, (goal, target, enderman_present, closest), r),
        call_ensures(ChasePlayerGoal::tick, (&*final(goal),), looks),
        call_ensures(
            ChasePlayerGoal::should_continue,
            (&*final(goal), enderman_present, distance_sq, staring),
            goes_on,
        ),
    ensures
        r <==> target is Some && target->0.is_player && target->0.distance_sq
            <= 0x4070_0000_0000_0000 && enderman_present && target->0.staring && closest == Some(
            target->0.entity_id,
        ),
        r ==> looks == Some((ChaseStep::LookAtEyes { player: target->0.entity_id })),
        !r ==> looks is None && !goes_on && final(goal).target is None,
        r ==> (goes_on <==> distance_sq <= 0x4070_0000_0000_0000 && staring),
{
}

/// Law: an enderman that no longer faces anybody looks nowhere and does not go on.
pub proof fn law_stopped_enderman_forgets(
    goal: &mut ChasePlayerGoal,
    looks: Option<ChaseStep>,
    begun: ChaseStep,
)
    requires
        call_ensures(ChasePlayerGoal::stop, (goal,), ()),
        call_ensures(ChasePlayerGoal::tick, (&*final(goal),), looks),
        call_ensures(ChasePlayerGoal::start, (&*old(goal),), begun),
    ensures
        final(goal).target is None,
        final(goal).enderman == old(goal).enderman,
        looks is None,
        begun == ChaseStep::StopNavigator,
{
}

/// Law: a chase takes the controls for moving and jumping, and leaves the others free.
pub proof fn law_chase_takes_legs(goal: ChasePlayerGoal, controls: Controls)
    requires
        call_ensures(ChasePlayerGoal::controls, (&goal,), controls),
    ensures
        controls.moves == true,
        controls.looks == false,
        controls.jumps == true,
        !controls.targets,
{
    assert(controls.has(Control::Move) == true);
    assert(controls.has(Control::Look) == false);
    assert(controls.has(Control::Jump) == true);
    assert(!controls.has(Control::Target));
}

} // verus!
