//! An enderman that picks up blocks.

use vstd::prelude::*;

use super::to_goal_ticks;
use crate::data::position::BlockPos;
use crate::random::draw_range;

verus! {

/// An enderman that could pick up a block does so in one tick of the server out of
/// this many.
pub const PICK_UP_ODDS: i32 = 20;

/// How far to each side an enderman picks up blocks.
pub const PICK_UP_RANGE: i32 = 2;

/// The goal of an enderman to pick up a block.
pub struct PickUpBlockGoal {
    /// The number of the enderman.
    pub enderman: i32,
}

/// The place is one that an enderman standing in the given block reaches.
pub open spec fn in_reach(feet: BlockPos, place: BlockPos) -> bool {
    &&& -PICK_UP_RANGE <= place.x - feet.x <= PICK_UP_RANGE
    &&& 0 <= place.y - feet.y <= PICK_UP_RANGE
    &&& -PICK_UP_RANGE <= place.z - feet.z <= PICK_UP_RANGE
}

impl PickUpBlockGoal {
    /// The goal of the enderman.
    pub fn new(enderman: i32) -> (r: Self)
        ensures
            r.enderman == enderman,
    {
        PickUpBlockGoal { enderman }
    }

    /// Whether the goal can start, once the lot is known: the enderman is there with
    /// empty hands, and mobs may change the world.
    pub fn can_start_with_lot(
        &self,
        enderman_present: bool,
        carries_block: bool,
        mob_griefing: bool,
        lot: i32,
    ) -> (r: bool)
        ensures
            r == (enderman_present && !carries_block && mob_griefing && lot == 0),
    {
        enderman_present && !carries_block && mob_griefing && lot == 0
    }

    /// Whether the goal can start, drawing the lot.
    pub fn can_start(&self, enderman_present: bool, carries_block: bool, mob_griefing: bool) -> (r:
        bool)
        ensures
            r ==> enderman_present && !carries_block && mob_griefing,
    {
        let lot: i32 = draw_range(0, to_goal_ticks(PICK_UP_ODDS));
        self.can_start_with_lot(enderman_present, carries_block, mob_griefing, lot)
    }

    /// The place at the given distances from the block that the enderman stands in.
    pub fn place_at(feet: BlockPos, dx: i32, dy: i32, dz: i32) -> (r: BlockPos)
        requires
            i32::MIN <= feet.x + dx <= i32::MAX,
            i32::MIN <= feet.y + dy <= i32::MAX,
            i32::MIN <= feet.z + dz <= i32::MAX,
        ensures
            r.x == feet.x + dx,
            r.y == feet.y + dy,
            r.z == feet.z + dz,
    {
        BlockPos { x: feet.x + dx, y: feet.y + dy, z: feet.z + dz }
    }

    /// Draws the place that the enderman reaches for.
    pub fn draw_place(&self, feet: BlockPos) -> (r: BlockPos)
        requires
            i32::MIN + PICK_UP_RANGE <= feet.x <= i32::MAX - PICK_UP_RANGE,
            feet.y <= i32::MAX - PICK_UP_RANGE,
            i32::MIN + PICK_UP_RANGE <= feet.z <= i32::MAX - PICK_UP_RANGE,
        ensures
            in_reach(feet, r),
    {
        let dx: i32 = draw_range(-PICK_UP_RANGE, PICK_UP_RANGE + 1);
        let dy: i32 = draw_range(0, PICK_UP_RANGE + 1);
        let dz: i32 = draw_range(-PICK_UP_RANGE, PICK_UP_RANGE + 1);
        Self::place_at(feet, dx, dy, dz)
    }

    /// Whether the enderman picks the block at the place up: it is one that endermen
    /// hold, and the first solid block on the way to it, if there is one, is the block
    /// itself.
    pub fn tick(
        &self,
        enderman_present: bool,
        holdable: bool,
        hit: Option<BlockPos>,
        place: BlockPos,
    ) -> (r: bool)
        ensures
            r == (enderman_present && holdable && (hit matches Some(hit) ==> hit == place)),
    {
        if !enderman_present || !holdable {
            return false;
        }
        match hit {
            Some(hit) => hit == place,
            None => true,
        }
    }

    /// The goal runs for one tick.
    pub fn should_continue(&self) -> (r: bool)
        ensures
            !r,
    {
        false
    }
}

/// Law: an enderman reaches for a block at most 2 blocks away to each side, no lower than its feet
/// and at most 2 blocks above them.
pub proof fn law_reach_of_an_enderman(goal: PickUpBlockGoal, feet: BlockPos, r: BlockPos)
    requires
        call_ensures(PickUpBlockGoal::draw_place, (&goal, feet), r),
    ensures
        -2 <= r.x - feet.x <= 2,
        0 <= r.y - feet.y <= 2,
        -2 <= r.z - feet.z <= 2,
{
}

/// Law: an enderman that carries a block picks up none, nor where mobs may not change the world. It
/// takes just what endermen hold, and nothing through a wall.
pub proof fn law_when_an_enderman_picks_up(
    goal: PickUpBlockGoal,
    enderman_present: bool,
    carries_block: bool,
    mob_griefing: bool,
    lot: i32,
    starts: bool,
    holdable: bool,
    hit: Option<BlockPos>,
    place: BlockPos,
    takes: bool,
    goes_on: bool,
)
    requires
        call_ensures(
            PickUpBlockGoal::can_start_with_lot,
            (&goal, enderman_present, carries_block, mob_griefing, lot),
            starts,
        ),
        call_ensures(PickUpBlockGoal::tick, (&goal, enderman_present, holdable, hit, place), takes),
        call_ensures(PickUpBlockGoal::should_continue, (&goal,), goes_on),
    ensures
        starts <==> enderman_present && !carries_block && mob_griefing && lot == 0,
        takes ==> enderman_present && holdable,
        hit is Some && hit->0 != place ==> !takes,
        enderman_present && holdable && (hit is None || hit->0 == place) ==> takes,
        !goes_on,
{
}

/// Law: a place lies at its distances from the feet, along each axis by itself.
pub proof fn law_place_lies_at_its_distances(
    feet: BlockPos,
    dx: i32,
    dy: i32,
    dz: i32,
    r: BlockPos,
)
    requires
        call_ensures(PickUpBlockGoal::place_at, (feet, dx, dy, dz), r),
    ensures
        r.x - feet.x == dx,
        r.y - feet.y == dy,
        r.z - feet.z == dz,
{
}

} // verus!
