//! A mob that leaps at its target.

use vstd::prelude::*;

use super::{Control, Controls};
use crate::data::rank::Rank64;
use crate::random::draw_range;

verus! {

/// The square (4.0) of the least distance of a leap.
pub const MIN_LEAP_DISTANCE_SQ: Rank64 = 0x4010_0000_0000_0000;

/// The square (16.0) of the greatest distance of a leap.
pub const MAX_LEAP_DISTANCE_SQ: Rank64 = 0x4030_0000_0000_0000;

/// A mob that could leap does so in one tick out of this many.
pub const LEAP_ODDS: i32 = 5;

/// The goal of a mob to leap at its target.
pub struct LeapAtTargetGoal {
    /// The speed of the leap upward.
    pub yd: Rank64,
}

impl LeapAtTargetGoal {
    /// The goal to leap with the given speed upward.
    pub fn new(yd: Rank64) -> (r: Self)
        ensures
            r.yd == yd,
    {
        LeapAtTargetGoal { yd }
    }

    /// The distance is one of a leap, both ends of the range included.
    pub open spec fn spec_in_range(distance_sq: Rank64) -> bool {
        MIN_LEAP_DISTANCE_SQ <= distance_sq <= MAX_LEAP_DISTANCE_SQ
    }

    /// Whether the distance is one of a leap, both ends of the range included.
    pub fn is_in_leap_range(distance_sq: Rank64) -> (r: bool)
        ensures
            r == Self::spec_in_range(distance_sq),
    {
        MIN_LEAP_DISTANCE_SQ <= distance_sq && distance_sq <= MAX_LEAP_DISTANCE_SQ
    }

    /// The mob could leap: it has a target at the distance of a leap and stands on the
    /// ground.
    pub open spec fn spec_could_leap(target_distance_sq: Option<Rank64>, on_ground: bool) -> bool {
        on_ground && (target_distance_sq matches Some(distance_sq) && Self::spec_in_range(
            distance_sq,
        ))
    }

    /// Whether the goal can start, once the lot is known.
    pub fn can_start_with_lot(
        &self,
        target_distance_sq: Option<Rank64>,
        on_ground: bool,
        lot: i32,
    ) -> (r: bool)
        ensures
            r == (Self::spec_could_leap(target_distance_sq, on_ground) && lot == 0),
    {
        match target_distance_sq {
            Some(distance_sq) => on_ground && Self::is_in_leap_range(distance_sq) && lot == 0,
            None => false,
        }
    }

    /// Whether the goal can start, drawing the lot.
    pub fn can_start(&self, target_distance_sq: Option<Rank64>, on_ground: bool) -> (r: bool)
        ensures
            r ==> Self::spec_could_leap(target_distance_sq, on_ground),
    {
        let lot: i32 = draw_range(0, LEAP_ODDS);
        self.can_start_with_lot(target_distance_sq, on_ground, lot)
    }

    /// Whether the leap goes on: until the mob is back on the ground.
    pub fn should_continue(&self, on_ground: bool) -> (r: bool)
        ensures
            r == !on_ground,
    {
        !on_ground
    }

    /// The goal takes the controls for jumping and moving.
    pub fn controls(&self) -> (r: Controls)
        ensures
            forall|control: Control| #[trigger]
                r.has(control) <==> control == Control::Jump || control == Control::Move,
    {
        Controls { moves: true, looks: false, jumps: true, targets: false }
    }
}

/// Law: a mob leaps over 2 to 4 blocks, both included, off the ground and at a target, where its lot
/// falls so; the leap is over once it is back on the ground.
pub proof fn law_when_a_mob_leaps(
    goal: LeapAtTargetGoal,
    target_distance_sq: Option<Rank64>,
    on_ground: bool,
    lot: i32,
    leaps: bool,
    drawn: bool,
    goes_on: bool,
)
    requires
        call_ensures(
            LeapAtTargetGoal::can_start_with_lot,
            (&goal, target_distance_sq, on_ground, lot),
            leaps,
        ),
        call_ensures(LeapAtTargetGoal::can_start, (&goal, target_distance_sq, on_ground), drawn),
        call_ensures(LeapAtTargetGoal::should_continue, (&goal, on_ground), goes_on),
    ensures
        leaps <==> on_ground && lot == 0 && target_distance_sq is Some && 0x4010_0000_0000_0000
            <= target_distance_sq->0 <= 0x4030_0000_0000_0000,
        drawn ==> on_ground && target_distance_sq is Some && 0x4010_0000_0000_0000
            <= target_distance_sq->0 <= 0x4030_0000_0000_0000,
        goes_on <==> !on_ground,
        !(leaps && goes_on),
{
}

/// Law: the distances of a leap are those between 2 and 4 blocks.
pub proof fn law_distance_of_a_leap(distance_sq: Rank64, r: bool)
    requires
        call_ensures(LeapAtTargetGoal::is_in_leap_range, (distance_sq,), r),
    ensures
        r <==> 0x4010_0000_0000_0000 <= distance_sq <= 0x4030_0000_0000_0000,
{
}

/// Law: a leap takes the controls for moving and jumping, and leaves the others free.
pub proof fn law_leap_takes_legs(goal: LeapAtTargetGoal, controls: Controls)
    requires
        call_ensures(LeapAtTargetGoal::controls, (&goal,), controls),
    ensures
        controls.moves == true,
        controls.looks == false,
        controls.jumps == true,
        !controls.targets,
{
    assert(controls.has(Control::Move) == true);
    assert(controls.has(Control::Look) == false);
    assert(controls.has(Control::Jump) == true);
    assert(!controls.has(Control::Target));
}

} // verus!
