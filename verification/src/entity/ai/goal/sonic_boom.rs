//! The sonic boom of a warden.

use vstd::prelude::*;

use super::{Control, Controls};
use crate::data::rank::{Rank32, Rank64};

verus! {

/// The square (225.0) of the reach of a boom sideways.
pub const DISTANCE_XZ_SQ: Rank64 = 0x406C_2000_0000_0000;

/// The reach (20.0) of a boom up and down.
pub const DISTANCE_Y: Rank64 = 0x4034_0000_0000_0000;

/// How many ticks after a boom the next one can be charged.
pub const COOLDOWN: i32 = 40;

/// In which tick of the charge the boom goes off.
pub const TICKS_BEFORE_PLAYING_SOUND: i32 = 34;

/// How many ticks it all takes.
pub const DURATION: i32 = 60;

/// The damage (10.0) of a boom.
pub const BOOM_DAMAGE: Rank32 = 0x4120_0000;

/// How many steps the beam goes on beyond the target.
pub const PARTICLE_STEP_BONUS: i32 = 7;

/// The goal of a warden to strike its target with a sonic boom.
pub struct SonicBoomGoal {
    /// The number of the warden.
    pub warden: i32,
    pub ticks: i32,
    /// Whether the boom of this charge has gone off.
    pub fired: bool,
}

/// Where the target is, seen from the warden.
#[derive(Clone, Copy, Debug, PartialEq, Eq, Structural)]
pub struct BoomTarget {
    pub alive: bool,
    /// The square of the distance sideways.
    pub horizontal_sq: Rank64,
    /// The distance up or down.
    pub vertical: Rank64,
    /// Whether the warden may strike it.
    pub can_be_targeted: bool,
}

impl BoomTarget {
    /// The target is in the reach of a boom, a cylinder.
    pub open spec fn spec_in_range(self) -> bool {
        self.horizontal_sq <= DISTANCE_XZ_SQ && self.vertical <= DISTANCE_Y
    }
}

/// What a tick of the charge comes to.
#[derive(Clone, Copy, Debug, PartialEq, Eq, Structural)]
pub enum BoomAction {
    /// There is no target.
    Nothing,
    /// The warden looks at its target.
    Look,
    /// The warden looks at its target, and the boom goes off.
    Fire,
}

impl SonicBoomGoal {
    /// The goal of the warden.
    pub fn new(warden: i32) -> (r: Self)
        ensures
            r == (SonicBoomGoal { warden, ticks: 0, fired: false }),
    {
        SonicBoomGoal { warden, ticks: 0, fired: false }
    }

    /// Whether the target is in the reach of a boom.
    pub fn within_boom_range(target: &BoomTarget) -> (r: bool)
        ensures
            r == target.spec_in_range(),
    {
        target.horizontal_sq <= DISTANCE_XZ_SQ && target.vertical <= DISTANCE_Y
    }

    /// Whether the goal can start: the warden is there and ready, and its target lives
    /// and is in reach.
    pub fn can_start(
        &self,
        warden_present: bool,
        cooldown: i32,
        target: Option<BoomTarget>,
    ) -> (r: bool)
        ensures
            r == (warden_present && cooldown <= 0 && (target matches Some(seen) && seen.alive
                && seen.spec_in_range())),
    {
        if !warden_present || cooldown > 0 {
            return false;
        }
        match target {
            Some(seen) => seen.alive && Self::within_boom_range(&seen),
            None => false,
        }
    }

    /// Whether the goal goes on.
    pub fn should_continue(&self) -> (r: bool)
        ensures
            r == (self.ticks < DURATION),
    {
        self.ticks < DURATION
    }

    /// Starts the charge.
    pub fn start(&mut self)
        ensures
            *final(self) == (SonicBoomGoal { ticks: 0, fired: false, ..*old(self) }),
    {
        self.ticks = 0;
        self.fired = false;
    }

    /// The goal runs in every tick.
    pub fn should_run_every_tick(&self) -> (r: bool)
        ensures
            r,
    {
        true
    }

    /// The charge is complete in this tick.
    pub open spec fn spec_goes_off(self) -> bool {
        !self.fired && self.ticks + 1 >= TICKS_BEFORE_PLAYING_SOUND
    }

    /// The goal after a tick.
    pub open spec fn spec_after_tick(self, has_target: bool) -> SonicBoomGoal {
        if has_target {
            SonicBoomGoal {
                ticks: (self.ticks + 1) as i32,
                fired: self.fired || self.spec_goes_off(),
                ..self
            }
        } else {
            self
        }
    }

    /// Lets a tick of the charge go by. The boom goes off once, and only if the target
    /// may still be struck and is in reach; if not, the charge was for nothing.
    pub fn tick(&mut self, warden_present: bool, target: Option<BoomTarget>) -> (r: BoomAction)
        requires
            target is Some ==> old(self).ticks < i32::MAX,
        ensures
            *final(self) == old(self).spec_after_tick(target is Some),
            r == match target {
                Some(seen) => if old(self).spec_goes_off() && warden_present && seen.can_be_targeted
                    && seen.spec_in_range() {
                    BoomAction::Fire
                } else {
                    BoomAction::Look
                },
                None => BoomAction::Nothing,
            },
    {
        match target {
            Some(seen) => {
                self.ticks = self.ticks + 1;
                if self.fired || self.ticks < TICKS_BEFORE_PLAYING_SOUND {
                    return BoomAction::Look;
                }
                self.fired = true;
                if !warden_present || !seen.can_be_targeted || !Self::within_boom_range(&seen) {
                    return BoomAction::Look;
                }
                BoomAction::Fire
            },
            None => BoomAction::Nothing,
        }
    }

    /// The steps of the beam, each a block further along, from the first up to the one
    /// that is left out. `whole_length` is the distance to the eyes of the target,
    /// rounded down.
    pub fn beam_steps(whole_length: i32) -> (r: (i32, i32))
        requires
            0 <= whole_length <= i32::MAX - PARTICLE_STEP_BONUS,
        ensures
            r.0 == 1,
            r.1 == whole_length + PARTICLE_STEP_BONUS,
    {
        (1, whole_length + PARTICLE_STEP_BONUS)
    }

    /// The cooldown of the warden once the goal has stopped, where the warden is there.
    pub fn stop(&self, warden_present: bool) -> (r: Option<i32>)
        ensures
            r == (if warden_present {
                Some(COOLDOWN)
            } else {
                None
            }),
    {
        if warden_present {
            Some(COOLDOWN)
        } else {
            None
        }
    }

    /// The goal takes the controls for moving and looking.
    pub fn controls(&self) -> (r: Controls)
        ensures
            forall|control: Control| #[trigger]
                r.has(control) <==> control == Control::Move || control == Control::Look,
    {
        Controls { moves: true, looks: true, jumps: false, targets: false }
    }
}

/// The goal after some ticks with a target.
pub open spec fn charged(goal: SonicBoomGoal, ticks: nat) -> SonicBoomGoal
    decreases ticks,
{
    if ticks == 0 {
        goal
    } else {
        charged(goal, (ticks - 1) as nat).spec_after_tick(true)
    }
}

/// Law: from the start of a charge, the boom goes off in the thirty-fourth tick with a
/// target, and in no other one.
pub proof fn law_boom_goes_off_once(goal: SonicBoomGoal, ticks: nat)
    requires
        goal.ticks == 0,
        !goal.fired,
        ticks < i32::MAX,
    ensures
        charged(goal, ticks).ticks == ticks,
        charged(goal, ticks).fired <==> ticks >= TICKS_BEFORE_PLAYING_SOUND,
        charged(goal, ticks).spec_goes_off() <==> ticks + 1 == TICKS_BEFORE_PLAYING_SOUND,
    decreases ticks,
{
    if ticks > 0 {
        law_boom_goes_off_once(goal, (ticks - 1) as nat);
    }
}

/// Law: a boom reaches 15 blocks sideways and 20 up or down, no farther.
pub proof fn law_reach_of_a_boom(target: BoomTarget, r: bool)
    requires
        call_ensures(SonicBoomGoal::within_boom_range, (&target,), r),
    ensures
        r <==> target.horizontal_sq <= 0x406C_2000_0000_0000 && target.vertical
            <= 0x4034_0000_0000_0000,
{
}

/// Law: a warden that is there and has cooled down charges at a target that lives and is in reach;
/// the charge takes 60 ticks, and the next one waits for 40.
pub proof fn law_when_a_boom_is_charged(
    goal: SonicBoomGoal,
    warden_present: bool,
    cooldown: i32,
    target: Option<BoomTarget>,
    starts: bool,
    goes_on: bool,
    after: Option<i32>,
)
    requires
        call_ensures(SonicBoomGoal::can_start, (&goal, warden_present, cooldown, target), starts),
        call_ensures(SonicBoomGoal::should_continue, (&goal,), goes_on),
        call_ensures(SonicBoomGoal::stop, (&goal, warden_present), after),
    ensures
        starts ==> warden_present && cooldown <= 0 && target is Some && target->0.alive
            && target->0.horizontal_sq <= 0x406C_2000_0000_0000 && target->0.vertical
            <= 0x4034_0000_0000_0000,
        warden_present && cooldown <= 0 && target is Some && target->0.alive
            && target->0.horizontal_sq <= 0x406C_2000_0000_0000 && target->0.vertical
            <= 0x4034_0000_0000_0000 ==> starts,
        goes_on <==> goal.ticks < 60,
        after is Some <==> warden_present,
        after is Some ==> after->0 == 40,
{
}

/// Law: in each tick of its charge a warden looks at its target; in the thirty-fourth the boom goes
/// off, where the target may still be struck and is in reach, and else the charge was for nothing.
/// Without a target nothing happens.
pub proof fn law_tick_of_a_charge(
    goal: &mut SonicBoomGoal,
    warden_present: bool,
    target: Option<BoomTarget>,
    r: BoomAction,
    begun: &mut SonicBoomGoal,
)
    requires
        call_ensures(SonicBoomGoal::tick, (goal, warden_present, target), r),
        old(goal).ticks < i32::MAX,
        call_ensures(SonicBoomGoal::start, (begun,), ()),
    ensures
        target is None ==> r == BoomAction::Nothing && *final(goal) == *old(goal),
        target is Some ==> r != BoomAction::Nothing && final(goal).ticks == old(goal).ticks + 1,
        r == BoomAction::Fire <==> target is Some && !old(goal).fired && old(goal).ticks >= 33
            && warden_present && target->0.can_be_targeted && target->0.horizontal_sq
            <= 0x406C_2000_0000_0000 && target->0.vertical <= 0x4034_0000_0000_0000,
        target is Some && old(goal).ticks >= 33 ==> final(goal).fired,
        final(goal).fired && !old(goal).fired ==> old(goal).ticks >= 33,
        final(begun).ticks == 0,
        !final(begun).fired,
{
}

/// Law: the beam goes 7 blocks beyond its target, from the first block on.
pub proof fn law_beam_goes_through(whole_length: i32, r: (i32, i32))
    requires
        call_ensures(SonicBoomGoal::beam_steps, (whole_length,), r),
    ensures
        r.0 == 1,
        r.1 - whole_length == 7,
{
}

/// Law: a charge holds the legs and the eyes of the warden, in every tick.
pub proof fn law_charge_holds_the_warden(goal: SonicBoomGoal, controls: Controls, every_tick: bool)
    requires
        call_ensures(SonicBoomGoal::controls, (&goal,), controls),
        call_ensures(SonicBoomGoal::should_run_every_tick, (&goal,), every_tick),
    ensures
        controls.moves == true,
        controls.looks == true,
        controls.jumps == false,
        !controls.targets,
        every_tick,
{
    assert(controls.has(Control::Move) == true);
    assert(controls.has(Control::Look) == true);
    assert(controls.has(Control::Jump) == false);
    assert(!controls.has(Control::Target));
}

} // verus!
