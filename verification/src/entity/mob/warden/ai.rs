//! What a warden does: roar, look into noises and sniff.

use vstd::prelude::*;

use super::anger::WardenSound;
use super::{Candidate, WardenEntity, WardenPose, WardenTarget, DEFAULT_ANGER};
use crate::data::position::BlockPos;
use crate::data::rank::Rank64;
use crate::entity::ai::goal::{Control, Controls};

verus! {

/// How many ticks a roar takes.
pub const ROAR_DURATION: i32 = 84;

/// In which tick of a roar its sound comes.
pub const TICKS_BEFORE_PLAYING_ROAR_SOUND: i32 = 25;

/// How much angrier a warden grows by roaring.
pub const ROAR_ANGER_INCREASE: i32 = 20;

/// How many ticks sniffing takes.
pub const SNIFFING_DURATION: i32 = 84;

/// How many chances to sniff pass after a warden has sniffed.
pub const SNIFF_COOLDOWN: i32 = 100;

/// The speed (0.7) at which a warden goes to look into a noise.
pub const INVESTIGATING_SPEED: Rank64 = 0x3FE6_6666_6666_6666;

/// The square (4.0) of the distance within which a warden has come to a noise.
pub const CLOSE_ENOUGH_SQ: Rank64 = 0x4010_0000_0000_0000;

/// The square (36.0) of the distance sideways over which a warden smells.
pub const SNIFF_DISTANCE_XZ_SQ: Rank64 = 0x4042_0000_0000_0000;

/// The distance (20.0) up and down over which a warden smells.
pub const SNIFF_DISTANCE_Y: Rank64 = 0x4034_0000_0000_0000;

// ---------------------------------------------------------------------------
// Roaring.
// ---------------------------------------------------------------------------

/// The goal of a warden to roar at whom it is angry at.
pub struct RoarGoal {
    /// The number of the warden.
    pub warden: i32,
    pub ticks: i32,
    pub played_sound: bool,
}

impl RoarGoal {
    /// The goal of the warden.
    pub fn new(warden: i32) -> (r: Self)
        ensures
            r == (RoarGoal { warden, ticks: 0, played_sound: false }),
    {
        RoarGoal { warden, ticks: 0, played_sound: false }
    }

    /// Whether the goal can start: the warden is there, strikes no one and is about to
    /// roar at someone.
    pub fn can_start(&self, warden: Option<&WardenEntity>) -> (r: bool)
        ensures
            r == (warden matches Some(warden) && warden.target is None
                && warden.roar_target is Some),
    {
        match warden {
            Some(warden) => warden.target.is_none() && warden.roar_target.is_some(),
            None => false,
        }
    }

    /// Whether the goal goes on.
    pub fn should_continue(&self) -> (r: bool)
        ensures
            r == (self.ticks < ROAR_DURATION),
    {
        self.ticks < ROAR_DURATION
    }

    /// Starts the roar, where the warden is there: it stands still, roars and grows
    /// angrier at whom it roars at. Returns whether it looks at them.
    pub fn start(&mut self, warden: &mut WardenEntity, candidate: Option<Candidate>) -> (looks:
        bool)
        requires
            old(warden).wf(),
        ensures
            final(warden).wf(),
            *final(self) == (RoarGoal { ticks: 0, played_sound: false, ..*old(self) }),
            looks == (old(warden).roar_target is Some && candidate is Some),
            match old(warden).roar_target {
                Some(uuid) => (WardenEntity {
                    pose: WardenPose::Roaring,
                    ..*old(warden)
                }).spec_angered(*final(warden), uuid, ROAR_ANGER_INCREASE, candidate),
                None => *final(warden) == (WardenEntity {
                    pose: WardenPose::Roaring,
                    ..*old(warden)
                }),
            },
    {
        self.ticks = 0;
        self.played_sound = false;
        warden.pose = WardenPose::Roaring;
        match warden.roar_target {
            Some(uuid) => {
                warden.increase_anger_at_uuid(uuid, ROAR_ANGER_INCREASE, false, candidate);
                candidate.is_some()
            },
            None => false,
        }
    }

    /// The goal after a tick.
    pub open spec fn spec_after_tick(self) -> RoarGoal {
        RoarGoal {
            ticks: (self.ticks + 1) as i32,
            played_sound: self.played_sound || self.spec_sounds(),
            ..self
        }
    }

    /// The sound of the roar comes in this tick.
    pub open spec fn spec_sounds(self) -> bool {
        !self.played_sound && self.ticks + 1 >= TICKS_BEFORE_PLAYING_ROAR_SOUND
    }

    /// Lets a tick of the roar go by. Returns whether its sound is to be heard.
    pub fn tick(&mut self, warden_present: bool) -> (r: bool)
        requires
            old(self).ticks < i32::MAX,
        ensures
            *final(self) == old(self).spec_after_tick(),
            r == (old(self).spec_sounds() && warden_present),
    {
        self.ticks = self.ticks + 1;
        if self.played_sound || self.ticks < TICKS_BEFORE_PLAYING_ROAR_SOUND {
            return false;
        }
        self.played_sound = true;
        warden_present
    }

    /// Ends the roar: the warden strikes whom it roared at, if it may.
    pub fn stop(&self, warden: &mut WardenEntity, candidate: Option<Candidate>)
        ensures
            ({
                let quiet = WardenEntity {
                    pose: if old(warden).pose == WardenPose::Roaring {
                        WardenPose::Standing
                    } else {
                        old(warden).pose
                    },
                    roar_target: None,
                    ..*old(warden)
                };
                *final(warden) == (match (old(warden).roar_target, candidate) {
                    (Some(uuid), Some(seen)) => if old(warden).spec_can_target(seen) {
                        quiet.spec_striking(WardenTarget { uuid, is_player: seen.is_player })
                    } else {
                        quiet
                    },
                    _ => quiet,
                })
            }),
    {
        if warden.pose == WardenPose::Roaring {
            warden.pose = WardenPose::Standing;
        }
        let roar_target: Option<u128> = warden.roar_target;
        warden.roar_target = None;
        if let Some(uuid) = roar_target {
            warden.set_attack_target_by_uuid(uuid, candidate);
        }
    }

    /// The goal runs in every tick.
    pub fn should_run_every_tick(&self) -> (r: bool)
        ensures
            r,
    {
        true
    }

    /// The goal takes the controls for moving and looking, so that a warden in water can
    /// swim and roar.
    pub fn controls(&self) -> (r: Controls)
        ensures
            forall|control: Control| #[trigger]
                r.has(control) <==> control == Control::Move || control == Control::Look,
    {
        Controls { moves: true, looks: true, jumps: false, targets: false }
    }
}

/// The goal after some ticks.
pub open spec fn roared(goal: RoarGoal, ticks: nat) -> RoarGoal
    decreases ticks,
{
    if ticks == 0 {
        goal
    } else {
        roared(goal, (ticks - 1) as nat).spec_after_tick()
    }
}

/// Law: the sound of a roar comes once, in its twenty-fifth tick.
pub proof fn law_roar_sounds_once(goal: RoarGoal, ticks: nat)
    requires
        goal.ticks == 0,
        !goal.played_sound,
        ticks < i32::MAX,
    ensures
        roared(goal, ticks).ticks == ticks,
        roared(goal, ticks).spec_sounds() <==> ticks + 1 == TICKS_BEFORE_PLAYING_ROAR_SOUND,
        roared(goal, ticks).played_sound <==> ticks >= TICKS_BEFORE_PLAYING_ROAR_SOUND,
    decreases ticks,
{
    if ticks > 0 {
        law_roar_sounds_once(goal, (ticks - 1) as nat);
    }
}

// ---------------------------------------------------------------------------
// Looking into noises.
// ---------------------------------------------------------------------------

/// The goal of a warden to look into a noise.
pub struct InvestigateDisturbanceGoal {
    /// The number of the warden.
    pub warden: i32,
}

/// What a tick of looking into a noise comes to.
#[derive(Clone, Copy, Debug, PartialEq, Eq, Structural)]
pub enum Investigation {
    Nothing,
    /// Stands still and looks at the middle of the block.
    Watch { block: BlockPos },
    /// Goes to the middle of the block and looks at it.
    Approach { block: BlockPos, speed: Rank64 },
}

impl InvestigateDisturbanceGoal {
    /// The goal of the warden.
    pub fn new(warden: i32) -> (r: Self)
        ensures
            r.warden == warden,
    {
        InvestigateDisturbanceGoal { warden }
    }

    /// Whether there is a noise to look into, and nothing that matters more.
    pub fn has_work(warden: &WardenEntity) -> (r: bool)
        ensures
            r == (warden.spec_minds_noise() && warden.disturbance_location is Some),
    {
        if warden.target.is_some() || warden.roar_target.is_some() {
            return false;
        }
        warden.disturbance_location.is_some()
    }

    /// Whether the goal can start.
    pub fn can_start(&self, warden: Option<&WardenEntity>) -> (r: bool)
        ensures
            r == (warden matches Some(warden) && warden.spec_minds_noise()
                && warden.disturbance_location is Some),
    {
        match warden {
            Some(warden) => Self::has_work(warden),
            None => false,
        }
    }

    /// Whether the goal goes on.
    pub fn should_continue(&self, warden: Option<&WardenEntity>) -> (r: bool)
        ensures
            r == (warden matches Some(warden) && warden.spec_minds_noise()
                && warden.disturbance_location is Some),
    {
        self.can_start(warden)
    }

    /// Lets a tick go by. `distance_sq` is the square of the distance to the middle of the
    /// block that the noise came from.
    pub fn tick(&self, warden: Option<&WardenEntity>, distance_sq: Rank64) -> (r: Investigation)
        ensures
            r == match warden {
                Some(warden) => match warden.disturbance_location {
                    Some(block) => if distance_sq <= CLOSE_ENOUGH_SQ {
                        Investigation::Watch { block }
                    } else {
                        Investigation::Approach { block, speed: INVESTIGATING_SPEED }
                    },
                    None => Investigation::Nothing,
                },
                None => Investigation::Nothing,
            },
    {
        match warden {
            Some(warden) => match warden.disturbance_location {
                Some(block) => if distance_sq <= CLOSE_ENOUGH_SQ {
                    Investigation::Watch { block }
                } else {
                    Investigation::Approach { block, speed: INVESTIGATING_SPEED }
                },
                None => Investigation::Nothing,
            },
            None => Investigation::Nothing,
        }
    }

    /// The goal runs in every tick.
    pub fn should_run_every_tick(&self) -> (r: bool)
        ensures
            r,
    {
        true
    }

    /// The goal takes the controls for moving and looking.
    pub fn controls(&self) -> (r: Controls)
        ensures
            forall|control: Control| #[trigger]
                r.has(control) <==> control == Control::Move || control == Control::Look,
    {
        Controls { moves: true, looks: true, jumps: false, targets: false }
    }
}

// ---------------------------------------------------------------------------
// Sniffing.
// ---------------------------------------------------------------------------

/// The goal of a warden to sniff for prey.
pub struct SniffGoal {
    /// The number of the warden.
    pub warden: i32,
    pub ticks: i32,
    /// How many chances to sniff have yet to pass.
    pub cooldown: i32,
}

/// Someone whom a warden may smell.
#[derive(Clone, Copy, Debug, PartialEq, Eq, Structural)]
pub struct Scent {
    pub uuid: u128,
    pub candidate: Candidate,
    /// The square of the distance sideways.
    pub horizontal_sq: Rank64,
    /// The distance up or down.
    pub vertical: Rank64,
    pub block: BlockPos,
    /// Whether the middle of that block is within the border.
    pub within_border: bool,
}

impl WardenEntity {
    /// The warden smells the one: it may strike them, and they are in a cylinder around it.
    pub open spec fn spec_smells(self, scent: Scent) -> bool {
        self.spec_can_target(scent.candidate) && scent.horizontal_sq <= SNIFF_DISTANCE_XZ_SQ
            && scent.vertical <= SNIFF_DISTANCE_Y
    }

    /// The one that the warden smells best: the nearest sideways, and the first of those.
    pub open spec fn spec_nearest(self, scents: Seq<Scent>) -> Option<Scent>
        decreases scents.len(),
    {
        if scents.len() == 0 {
            None
        } else {
            let last = scents.last();
            match self.spec_nearest(scents.drop_last()) {
                Some(best) => if self.spec_smells(last) && last.horizontal_sq < best.horizontal_sq {
                    Some(last)
                } else {
                    Some(best)
                },
                None => if self.spec_smells(last) {
                    Some(last)
                } else {
                    None
                },
            }
        }
    }

    /// The one that the warden smells best.
    fn nearest_scent(&self, scents: &Vec<Scent>) -> (r: Option<Scent>)
        ensures
            r == self.spec_nearest(scents@),
    {
        let mut nearest: Option<Scent> = None;
        let mut i: usize = 0;
        while i < scents.len()
            invariant
                i <= scents@.len(),
                nearest == self.spec_nearest(scents@.take(i as int)),
            decreases scents.len() - i,
        {
            assert(scents@.take(i as int + 1).drop_last() =~= scents@.take(i as int));
            let scent: Scent = scents[i];
            if self.can_target_entity(&scent.candidate) && scent.horizontal_sq
                <= SNIFF_DISTANCE_XZ_SQ && scent.vertical <= SNIFF_DISTANCE_Y {
                let better: bool = match nearest {
                    Some(best) => scent.horizontal_sq < best.horizontal_sq,
                    None => true,
                };
                if better {
                    nearest = Some(scent);
                }
            }
            i = i + 1;
        }
        assert(scents@.take(i as int) =~= scents@);
        nearest
    }
}

impl SniffGoal {
    /// The goal of the warden.
    pub fn new(warden: i32) -> (r: Self)
        ensures
            r == (SniffGoal { warden, ticks: 0, cooldown: 0 }),
    {
        SniffGoal { warden, ticks: 0, cooldown: 0 }
    }

    /// Whether the goal can start: enough chances have passed, and the warden is there and
    /// has nothing else to do.
    pub fn can_start(&mut self, warden: Option<&WardenEntity>) -> (r: bool)
        ensures
            *final(self) == (SniffGoal {
                cooldown: super::counted_down(old(self).cooldown),
                ..*old(self)
            }),
            r == (old(self).cooldown <= 0 && (warden matches Some(warden)
                && warden.spec_minds_noise() && warden.disturbance_location is None)),
    {
        if self.cooldown > 0 {
            self.cooldown = self.cooldown - 1;
            return false;
        }
        match warden {
            Some(warden) => warden.target.is_none() && warden.roar_target.is_none()
                && warden.disturbance_location.is_none(),
            None => false,
        }
    }

    /// Whether the goal goes on.
    pub fn should_continue(&self) -> (r: bool)
        ensures
            r == (self.ticks < SNIFFING_DURATION),
    {
        self.ticks < SNIFFING_DURATION
    }

    /// Starts sniffing, where the warden is there: it stands still and sniffs.
    pub fn start(&mut self, warden: &mut WardenEntity)
        ensures
            *final(self) == (SniffGoal { ticks: 0, ..*old(self) }),
            *final(warden) == (WardenEntity { pose: WardenPose::Sniffing, ..*old(warden) }),
    {
        self.ticks = 0;
        warden.pose = WardenPose::Sniffing;
    }

    /// Lets a tick go by.
    pub fn tick(&mut self)
        requires
            old(self).ticks < i32::MAX,
        ensures
            *final(self) == (SniffGoal { ticks: (old(self).ticks + 1) as i32, ..*old(self) }),
    {
        self.ticks = self.ticks + 1;
    }

    /// Ends sniffing: the warden grows angrier at the one whom it smells best, and minds
    /// where they are, unless there is a noise that it minds already. Returns the sound that
    /// it makes.
    pub fn stop(&mut self, warden: &mut WardenEntity, scents: &Vec<Scent>) -> (sound: Option<
        WardenSound,
    >)
        requires
            old(warden).wf(),
        ensures
            final(warden).wf(),
            *final(self) == (SniffGoal { cooldown: SNIFF_COOLDOWN, ..*old(self) }),
            match old(warden).spec_nearest(scents@) {
                Some(scent) => old(warden).spec_standing().spec_startled(
                    *final(warden),
                    scent.uuid,
                    Some(scent.candidate),
                    scent.block,
                    scent.within_border && old(warden).disturbance_location is None,
                    sound,
                ),
                None => *final(warden) == old(warden).spec_standing() && sound is None,
            },
    {
        self.cooldown = SNIFF_COOLDOWN;
        let nearest: Option<Scent> = warden.nearest_scent(scents);
        if warden.pose == WardenPose::Sniffing {
            warden.pose = WardenPose::Standing;
        }
        let ghost standing = *warden;
        match nearest {
            Some(scent) => {
                let sound: Option<WardenSound> = warden.increase_anger_at_uuid(
                    scent.uuid,
                    DEFAULT_ANGER,
                    true,
                    Some(scent.candidate),
                );
                assert(standing.spec_angered(
                    *warden,
                    scent.uuid,
                    DEFAULT_ANGER,
                    Some(scent.candidate),
                ));
                if warden.disturbance_location.is_none() {
                    warden.set_disturbance_location(scent.block, scent.within_border);
                }
                sound
            },
            None => None,
        }
    }

    /// The goal runs in every tick.
    pub fn should_run_every_tick(&self) -> (r: bool)
        ensures
            r,
    {
        true
    }

    /// The goal takes the controls for moving and looking.
    pub fn controls(&self) -> (r: Controls)
        ensures
            forall|control: Control| #[trigger]
                r.has(control) <==> control == Control::Move || control == Control::Look,
    {
        Controls { moves: true, looks: true, jumps: false, targets: false }
    }
}

impl WardenEntity {
    /// The warden, standing up from sniffing.
    pub open spec fn spec_standing(self) -> WardenEntity {
        WardenEntity {
            pose: if self.pose == WardenPose::Sniffing {
                WardenPose::Standing
            } else {
                self.pose
            },
            ..self
        }
    }
}

/// Law: the one whom a warden smells best is one of those it smells, and no other is
/// nearer.
pub proof fn law_nearest_scent_is_nearest(warden: WardenEntity, scents: Seq<Scent>, i: int)
    requires
        0 <= i < scents.len(),
        warden.spec_smells(scents[i]),
    ensures
        warden.spec_nearest(scents) is Some,
        warden.spec_smells(warden.spec_nearest(scents)->0),
        scents.contains(warden.spec_nearest(scents)->0),
        warden.spec_nearest(scents)->0.horizontal_sq <= scents[i].horizontal_sq,
    decreases scents.len(),
{
    let rest = scents.drop_last();
    let last = scents.last();
    assert(scents[scents.len() - 1] == last);
    if i < rest.len() {
        assert(rest[i] == scents[i]);
        law_nearest_scent_is_nearest(warden, rest, i);
        let best = warden.spec_nearest(rest)->0;
        let k = choose|k: int| 0 <= k < rest.len() && rest[k] == best;
        assert(scents[k] == best);
    } else if let Some(best) = warden.spec_nearest(rest) {
        lemma_nearest_is_smelled(warden, rest);
        let k = choose|k: int| 0 <= k < rest.len() && rest[k] == best;
        assert(scents[k] == best);
    }
}

/// The one whom a warden smells best is one of those it smells.
proof fn lemma_nearest_is_smelled(warden: WardenEntity, scents: Seq<Scent>)
    ensures
        warden.spec_nearest(scents) matches Some(best) ==> warden.spec_smells(best)
            && scents.contains(best),
    decreases scents.len(),
{
    if scents.len() > 0 {
        let rest = scents.drop_last();
        lemma_nearest_is_smelled(warden, rest);
        assert(scents[scents.len() - 1] == scents.last());
        if let Some(best) = warden.spec_nearest(rest) {
            let k = choose|k: int| 0 <= k < rest.len() && rest[k] == best;
            assert(scents[k] == best);
        }
    }
}

/// Law: a warden roars for 84 ticks at someone whom it is about to roar at, while it strikes no one.
/// As it begins it grows 20 angrier at them, where it may strike them.
pub proof fn law_beginning_of_a_roar(
    goal: &mut RoarGoal,
    warden: &mut WardenEntity,
    candidate: Option<Candidate>,
    looks: bool,
    starts: bool,
    goes_on: bool,
    may: bool,
)
    requires
        call_ensures(RoarGoal::start, (goal, warden, candidate), looks),
        call_ensures(RoarGoal::can_start, (&*old(goal), Some(&*old(warden))), starts),
        call_ensures(RoarGoal::should_continue, (&*final(goal),), goes_on),
        candidate is Some ==> call_ensures(
            WardenEntity::can_target_entity,
            (&*old(warden), &candidate->0),
            may,
        ),
    ensures
        starts <==> old(warden).target is None && old(warden).roar_target is Some,
        goes_on,
        final(goal).ticks == 0,
        !final(goal).played_sound,
        final(warden).pose == WardenPose::Roaring,
        looks <==> old(warden).roar_target is Some && candidate is Some,
        old(warden).roar_target is Some && candidate is Some && may && !old(warden).no_ai ==> {
            let uuid = old(warden).roar_target->0;
            let before = old(warden).anger_management.anger();
            let after = final(warden).anger_management.anger();
            let had = if before.contains_key(uuid) {
                before[uuid] as int
            } else {
                0
            };
            &&& after.contains_key(uuid)
            &&& had + 20 <= 150 ==> after[uuid] == had + 20
            &&& had + 20 > 150 ==> after[uuid] == 150
        },
{
    let roaring = WardenEntity { pose: WardenPose::Roaring, ..*old(warden) };
    assert(roaring.border == old(warden).border);
}

/// Law: a roar is heard once, from its twenty-fifth tick on, and is over after 84 ticks.
pub proof fn law_tick_of_a_roar(
    goal: &mut RoarGoal,
    warden_present: bool,
    r: bool,
    goes_on: bool,
)
    requires
        call_ensures(RoarGoal::tick, (goal, warden_present), r),
        call_ensures(RoarGoal::should_continue, (&*final(goal),), goes_on),
        old(goal).ticks < i32::MAX,
    ensures
        final(goal).ticks == old(goal).ticks + 1,
        r <==> !old(goal).played_sound && old(goal).ticks >= 24 && warden_present,
        old(goal).ticks >= 24 ==> final(goal).played_sound,
        goes_on <==> old(goal).ticks < 83,
{
}

/// Law: after its roar a warden stands, is about to roar at no one, and strikes whom it roared at
/// where it may.
pub proof fn law_end_of_a_roar(
    goal: RoarGoal,
    warden: &mut WardenEntity,
    candidate: Option<Candidate>,
    may: bool,
)
    requires
        call_ensures(RoarGoal::stop, (&goal, warden, candidate), ()),
        candidate is Some ==> call_ensures(
            WardenEntity::can_target_entity,
            (&*old(warden), &candidate->0),
            may,
        ),
    ensures
        final(warden).roar_target is None,
        final(warden).pose != WardenPose::Roaring,
        old(warden).pose != WardenPose::Roaring ==> final(warden).pose == old(warden).pose,
        old(warden).pose == WardenPose::Roaring ==> final(warden).pose == WardenPose::Standing,
        old(warden).roar_target is Some && candidate is Some && may ==> {
            &&& final(warden).target is Some
            &&& final(warden).target->0.uuid == old(warden).roar_target->0
            &&& final(warden).target->0.is_player == candidate->0.is_player
            &&& final(warden).sonic_boom_cooldown == 200
        },
        old(warden).roar_target is None || candidate is None || !may ==> final(warden).target == old(warden).target,
{
}

/// Law: a warden looks into a noise while it strikes no one and is not about to roar. It goes there at
/// 0.7 and watches the place from within 2 blocks.
pub proof fn law_warden_looks_into_noises(
    goal: InvestigateDisturbanceGoal,
    warden: WardenEntity,
    distance_sq: Rank64,
    has_work: bool,
    starts: bool,
    goes_on: bool,
    r: Investigation,
)
    requires
        call_ensures(InvestigateDisturbanceGoal::has_work, (&warden,), has_work),
        call_ensures(InvestigateDisturbanceGoal::can_start, (&goal, Some(&warden)), starts),
        call_ensures(InvestigateDisturbanceGoal::should_continue, (&goal, Some(&warden)), goes_on),
        call_ensures(InvestigateDisturbanceGoal::tick, (&goal, Some(&warden), distance_sq), r),
    ensures
        has_work <==> warden.target is None && warden.roar_target is None
            && warden.disturbance_location is Some,
        starts == has_work,
        goes_on == has_work,
        warden.disturbance_location is None ==> r == Investigation::Nothing,
        warden.disturbance_location is Some && distance_sq <= 0x4010_0000_0000_0000 ==> r == (
        Investigation::Watch { block: warden.disturbance_location->0 }),
        warden.disturbance_location is Some && distance_sq > 0x4010_0000_0000_0000 ==> r == (
        Investigation::Approach {
            block: warden.disturbance_location->0,
            speed: 0x3FE6_6666_6666_6666,
        }),
{
}

/// Law: a warden that has nothing else to do sniffs for 84 ticks, and then lets 100 chances pass.
pub proof fn law_when_a_warden_sniffs(
    asked: &mut SniffGoal,
    warden: WardenEntity,
    starts: bool,
    begun: &mut SniffGoal,
    sniffing: &mut WardenEntity,
    ticked: &mut SniffGoal,
    goes_on: bool,
)
    requires
        call_ensures(SniffGoal::can_start, (asked, Some(&warden)), starts),
        call_ensures(SniffGoal::start, (begun, sniffing), ()),
        call_ensures(SniffGoal::tick, (ticked,), ()),
        call_ensures(SniffGoal::should_continue, (&*final(ticked),), goes_on),
        old(ticked).ticks < i32::MAX,
    ensures
        starts <==> old(asked).cooldown <= 0 && warden.target is None && warden.roar_target is None
            && warden.disturbance_location is None,
        old(asked).cooldown > 0 ==> final(asked).cooldown == old(asked).cooldown - 1,
        old(asked).cooldown <= 0 ==> final(asked).cooldown == old(asked).cooldown,
        final(begun).ticks == 0,
        final(sniffing).pose == WardenPose::Sniffing,
        final(sniffing).anger_management == old(sniffing).anger_management,
        final(ticked).ticks == old(ticked).ticks + 1,
        goes_on <==> old(ticked).ticks < 83,
{
}

/// Law: what a warden smells is within 6 blocks sideways and 20 up or down and may be struck. Of those
/// it grows 35 angrier at the nearest sideways; smelling no one it just stands up.
pub proof fn law_warden_smells_the_nearest(
    goal: &mut SniffGoal,
    warden: &mut WardenEntity,
    scents: Vec<Scent>,
    sound: Option<WardenSound>,
    i: int,
    may: bool,
)
    requires
        call_ensures(SniffGoal::stop, (goal, warden, &scents), sound),
    ensures
        final(goal).cooldown == 100,
        final(warden).pose != WardenPose::Sniffing,
        scents@.len() == 0 ==> sound is None && final(warden).anger_management == old(warden).anger_management && final(warden).disturbance_location == old(warden).disturbance_location,
        scents@.len() == 1 && (scents@[0].horizontal_sq > 0x4042_0000_0000_0000
            || scents@[0].vertical > 0x4034_0000_0000_0000) ==> final(warden).anger_management
            == old(warden).anger_management,
        scents@.len() == 1 && call_ensures(
            WardenEntity::can_target_entity,
            (&*old(warden), &scents@[0].candidate),
            true,
        ) && scents@[0].horizontal_sq <= 0x4042_0000_0000_0000 && scents@[0].vertical
            <= 0x4034_0000_0000_0000 && !old(warden).no_ai ==> {
            let uuid = scents@[0].uuid;
            let before = old(warden).anger_management.anger();
            let after = final(warden).anger_management.anger();
            let had = if before.contains_key(uuid) {
                before[uuid] as int
            } else {
                0
            };
            &&& after.contains_key(uuid)
            &&& had + 35 <= 150 ==> after[uuid] == had + 35
            &&& had + 35 > 150 ==> after[uuid] == 150
        },
{
    let standing = old(warden).spec_standing();
    assert(standing.border == old(warden).border);
    reveal_with_fuel(WardenEntity::spec_nearest, 2);
    if scents@.len() > 0 {
        assert(scents@.last() == scents@[scents@.len() - 1]);
    }
    if let Some(scent) = old(warden).spec_nearest(scents@) {
        let angered = choose|angered: WardenEntity|
            {
                &&& #[trigger] standing.spec_angered(
                    angered,
                    scent.uuid,
                    super::DEFAULT_ANGER,
                    Some(scent.candidate),
                )
                &&& *final(warden) == angered.spec_disturbed(
                    scent.block,
                    scent.within_border && old(warden).disturbance_location is None,
                )
                &&& sound == (if standing.spec_notes(Some(scent.candidate)) {
                    angered.spec_listening_sound()
                } else {
                    None
                })
            };
        assert(angered.pose == standing.pose);
    }
}

/// Law: a roar holds the legs and the eyes of the warden, in every tick, and lets it swim.
pub proof fn law_roar_holds_the_warden(goal: RoarGoal, controls: Controls, every_tick: bool)
    requires
        call_ensures(RoarGoal::controls, (&goal,), controls),
        call_ensures(RoarGoal::should_run_every_tick, (&goal,), every_tick),
    ensures
        controls.moves == true,
        controls.looks == true,
        controls.jumps == false,
        !controls.targets,
        every_tick,
{
    assert(controls.has(Control::Move) == true);
    assert(controls.has(Control::Look) == true);
    assert(controls.has(Control::Jump) == false);
    assert(!controls.has(Control::Target));
}

/// Law: whoever looks into a noise moves and looks for that alone, in every tick.
pub proof fn law_search_holds_the_warden(goal: InvestigateDisturbanceGoal, controls: Controls, every_tick: bool)
    requires
        call_ensures(InvestigateDisturbanceGoal::controls, (&goal,), controls),
        call_ensures(InvestigateDisturbanceGoal::should_run_every_tick, (&goal,), every_tick),
    ensures
        controls.moves == true,
        controls.looks == true,
        controls.jumps == false,
        !controls.targets,
        every_tick,
{
    assert(controls.has(Control::Move) == true);
    assert(controls.has(Control::Look) == true);
    assert(controls.has(Control::Jump) == false);
    assert(!controls.has(Control::Target));
}

/// Law: sniffing holds the legs and the eyes of the warden, in every tick.
pub proof fn law_sniffing_holds_the_warden(goal: SniffGoal, controls: Controls, every_tick: bool)
    requires
        call_ensures(SniffGoal::controls, (&goal,), controls),
        call_ensures(SniffGoal::should_run_every_tick, (&goal,), every_tick),
    ensures
        controls.moves == true,
        controls.looks == true,
        controls.jumps == false,
        !controls.targets,
        every_tick,
{
    assert(controls.has(Control::Move) == true);
    assert(controls.has(Control::Look) == true);
    assert(controls.has(Control::Jump) == false);
    assert(!controls.has(Control::Target));
}

/// Whom the warden smells best is smelled, and no one that is smelled is nearer sideways.
proof fn lemma_nearest_scent(warden: WardenEntity, scents: Seq<Scent>, i: int)
    ensures
        warden.spec_nearest(scents) matches Some(best) ==> scents.contains(best)
            && warden.spec_smells(best),
        0 <= i < scents.len() && warden.spec_smells(scents[i]) ==> {
            &&& warden.spec_nearest(scents) matches Some(best)
            &&& best.horizontal_sq <= scents[i].horizontal_sq
        },
    decreases scents.len(),
{
    if scents.len() > 0 {
        let before = scents.drop_last();
        lemma_nearest_scent(warden, before, i);
        if 0 <= i < before.len() {
            assert(before[i] == scents[i]);
        }
        if let Some(best) = warden.spec_nearest(before) {
            let k = choose|k: int| 0 <= k < before.len() && before[k] == best;
            assert(scents[k] == best);
        }
        assert(scents[scents.len() - 1] == scents.last());
    }
}

/// Law: of all whom a warden smells it grows angrier at one than whom none is nearer sideways, by 35 and
/// up to 150.
pub proof fn law_warden_minds_the_nearest_scent(
    goal: &mut SniffGoal,
    warden: &mut WardenEntity,
    scents: Vec<Scent>,
    sound: Option<WardenSound>,
    i: int,
)
    requires
        call_ensures(SniffGoal::stop, (goal, warden, &scents), sound),
        0 <= i < scents@.len(),
        call_ensures(
            WardenEntity::can_target_entity,
            (&*old(warden), &scents@[i].candidate),
            true,
        ),
        scents@[i].horizontal_sq <= 0x4042_0000_0000_0000,
        scents@[i].vertical <= 0x4034_0000_0000_0000,
        !old(warden).no_ai,
    ensures
        exists|k: int|
            {
                let uuid = scents@[k].uuid;
                let before = old(warden).anger_management.anger();
                let after = final(warden).anger_management.anger();
                let had = if before.contains_key(uuid) {
                    before[uuid] as int
                } else {
                    0
                };
                &&& 0 <= k < scents@.len()
                &&& (#[trigger] scents@[k]).horizontal_sq <= scents@[i].horizontal_sq
                &&& scents@[k].horizontal_sq <= 0x4042_0000_0000_0000
                &&& scents@[k].vertical <= 0x4034_0000_0000_0000
                &&& after.contains_key(uuid)
                &&& had + 35 <= 150 ==> after[uuid] == had + 35
                &&& had + 35 > 150 ==> after[uuid] == 150
                &&& forall|other: u128|
                    other != uuid && #[trigger] before.contains_key(other) ==> after.contains_key(
                        other,
                    ) && after[other] == before[other]
            },
{
    let standing = old(warden).spec_standing();
    assert(standing.border == old(warden).border);
    lemma_nearest_scent(*old(warden), scents@, i);
    let scent = old(warden).spec_nearest(scents@)->0;
    let k = choose|k: int| 0 <= k < scents@.len() && scents@[k] == scent;
    let angered = choose|angered: WardenEntity|
        {
            &&& #[trigger] standing.spec_angered(
                angered,
                scent.uuid,
                super::DEFAULT_ANGER,
                Some(scent.candidate),
            )
            &&& *final(warden) == angered.spec_disturbed(
                scent.block,
                scent.within_border && old(warden).disturbance_location is None,
            )
            &&& sound == (if standing.spec_notes(Some(scent.candidate)) {
                angered.spec_listening_sound()
            } else {
                None
            })
        };
    assert(final(warden).anger_management == angered.anger_management);
    assert(scents@[k].uuid == scent.uuid);
}

/// Law: the goals of a warden are its own and begin at nothing: no roar has sounded, and nothing stands in
/// the way of sniffing.
pub proof fn law_new_goals_begin_at_nothing(
    warden: i32,
    roar: RoarGoal,
    search: InvestigateDisturbanceGoal,
    sniff: SniffGoal,
)
    requires
        call_ensures(RoarGoal::new, (warden,), roar),
        call_ensures(InvestigateDisturbanceGoal::new, (warden,), search),
        call_ensures(SniffGoal::new, (warden,), sniff),
    ensures
        roar.warden == warden,
        roar.ticks == 0,
        !roar.played_sound,
        search.warden == warden,
        sniff.warden == warden,
        sniff.ticks == 0,
        sniff.cooldown == 0,
{
}

} // verus!
