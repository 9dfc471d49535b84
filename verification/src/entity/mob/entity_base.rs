//! The life of a mob, tick by tick.

use vstd::prelude::*;

use super::MobEntity;
use crate::data::rank::Rank32;
use crate::entity::living::effects::is_multiple;
use crate::plan::{only_if, push_if, push_step};

verus! {

/// Every how many ticks a mob in love shows a heart.
pub const HEART_INTERVAL: i32 = 10;

/// What a tick of a mob asks the world to do.
#[derive(Clone, Copy, Debug, PartialEq, Eq, Structural)]
pub enum MobStep {
    TickLeash,
    TickSunBurn,
    /// Looks whether the mob leaves the world for being far from all players.
    CheckDespawn,
    ShowHeart,
    /// What only mobs of this kind do.
    MobTick,
    /// Goes through both lists of goals, the one for targets first: all of them, or only
    /// those that run in every tick.
    TickGoals { all: bool },
    TickNavigator,
    TickLookControl,
    TickMoveControl,
    TickLiving,
    PostTick,
    SendRotation { yaw: u8, pitch: u8 },
    SendHeadRotation { head_yaw: u8 },
}

/// A phase of a tick.
#[derive(Clone, Copy, Debug, PartialEq, Eq, Structural)]
pub enum MobPhase {
    Begin,
    /// After it is known whether the mob leaves the world.
    Counters,
    /// After what only mobs of its kind do.
    Mind,
    /// After everything else.
    Rotation,
}

/// What a tick reads of the world.
#[derive(Clone, Copy, Debug, PartialEq, Eq, Structural)]
pub struct MobView {
    /// Whether the mob never leaves the world by itself.
    pub persistent: bool,
    /// Whether the mob has left the world for being far from all players.
    pub despawned: bool,
    /// The directions that the mob faces, in 256 steps around.
    pub yaw: u8,
    pub pitch: u8,
    pub head_yaw: u8,
}

impl MobEntity {
    /// A heart is shown in this tick.
    pub open spec fn spec_shows_heart(self) -> bool {
        self.love_ticks > 0 && self.love_ticks as int % (HEART_INTERVAL as int) == 0
    }

    /// The mob with love and breeding counted down.
    pub open spec fn spec_counted(self) -> MobEntity {
        MobEntity {
            breeding_cooldown: if self.breeding_cooldown > 0 {
                (self.breeding_cooldown - 1) as i32
            } else {
                self.breeding_cooldown
            },
            love_ticks: if self.love_ticks > 0 {
                (self.love_ticks - 1) as i32
            } else {
                self.love_ticks
            },
            ..self
        }
    }

    /// The mob thinks in full in this tick: it does so in every other one, in turns that
    /// differ from mob to mob, and in its first.
    pub open spec fn spec_thinks_in_full(self) -> bool {
        (self.living_entity.age + self.living_entity.entity_id) % 2 == 0 || self.living_entity.age
            <= 1
    }

    /// The body of the mob has turned since it was last sent.
    pub open spec fn spec_turned(self, view: MobView) -> bool {
        view.yaw != self.last_sent_yaw || view.pitch != self.last_sent_pitch
    }

    /// The head of the mob has turned since it was last sent.
    pub open spec fn spec_head_turned(self, view: MobView) -> bool {
        view.head_yaw != self.last_sent_head_yaw
    }

    /// What each phase of a tick asks for.
    pub open spec fn mob_steps(self, phase: MobPhase, view: MobView) -> Seq<MobStep> {
        match phase {
            MobPhase::Begin => seq![MobStep::TickLeash] + seq![MobStep::TickSunBurn] + only_if(
                !view.persistent,
                MobStep::CheckDespawn,
            ),
            MobPhase::Counters => if !view.persistent && view.despawned {
                Seq::empty()
            } else {
                Seq::<MobStep>::empty() + only_if(self.spec_shows_heart(), MobStep::ShowHeart)
                    + seq![MobStep::MobTick]
            },
            MobPhase::Mind => if self.living_entity.removal_reason is Some {
                Seq::empty()
            } else {
                seq![
                    MobStep::TickGoals { all: self.spec_thinks_in_full() },
                    MobStep::TickNavigator,
                    MobStep::TickLookControl,
                    MobStep::TickMoveControl,
                    MobStep::TickLiving,
                    MobStep::PostTick,
                ]
            },
            MobPhase::Rotation => Seq::<MobStep>::empty() + only_if(
                self.spec_turned(view),
                (MobStep::SendRotation { yaw: view.yaw, pitch: view.pitch }),
            ) + only_if(
                self.spec_head_turned(view),
                (MobStep::SendHeadRotation { head_yaw: view.head_yaw }),
            ),
        }
    }

    /// The phase that comes next.
    pub open spec fn next_phase(self, phase: MobPhase, view: MobView) -> Option<MobPhase> {
        match phase {
            MobPhase::Begin => Some(MobPhase::Counters),
            MobPhase::Counters => if !view.persistent && view.despawned {
                None
            } else {
                Some(MobPhase::Mind)
            },
            MobPhase::Mind => if self.living_entity.removal_reason is Some {
                None
            } else {
                Some(MobPhase::Rotation)
            },
            MobPhase::Rotation => None,
        }
    }

    /// The mob after a phase of a tick.
    pub open spec fn after_phase(self, phase: MobPhase, view: MobView) -> MobEntity {
        match phase {
            MobPhase::Counters => if !view.persistent && view.despawned {
                self
            } else {
                self.spec_counted()
            },
            MobPhase::Rotation => MobEntity {
                last_sent_yaw: view.yaw,
                last_sent_pitch: view.pitch,
                last_sent_head_yaw: view.head_yaw,
                ..self
            },
            _ => self,
        }
    }

    /// Lets one phase of a tick go by. Returns what to do now, and the phase that comes
    /// once that is done.
    pub fn tick(&mut self, phase: MobPhase, view: &MobView) -> (r: (
        Vec<MobStep>,
        Option<MobPhase>,
    ))
        ensures
            r.0@ == old(self).mob_steps(phase, *view),
            r.1 == old(self).next_phase(phase, *view),
            *final(self) == old(self).after_phase(phase, *view),
    {
        let mut steps: Vec<MobStep> = Vec::new();
        match phase {
            MobPhase::Begin => {
                steps.push(MobStep::TickLeash);
                assert(steps@ =~= seq![MobStep::TickLeash]);
                push_step(&mut steps, MobStep::TickSunBurn);
                push_if(&mut steps, !view.persistent, MobStep::CheckDespawn);
                (steps, Some(MobPhase::Counters))
            },
            MobPhase::Counters => {
                if !view.persistent && view.despawned {
                    return (steps, None);
                }
                if self.breeding_cooldown > 0 {
                    self.breeding_cooldown = self.breeding_cooldown - 1;
                }
                if self.love_ticks > 0 {
                    let ticks: i32 = self.love_ticks;
                    self.love_ticks = ticks - 1;
                    push_if(&mut steps, is_multiple(ticks, HEART_INTERVAL), MobStep::ShowHeart);
                }
                push_step(&mut steps, MobStep::MobTick);
                assert(steps@ =~= old(self).mob_steps(phase, *view));
                (steps, Some(MobPhase::Mind))
            },
            MobPhase::Mind => {
                if self.living_entity.removal_reason.is_some() {
                    return (steps, None);
                }
                let sum: i64 = self.living_entity.age as i64 + self.living_entity.entity_id as i64;
                let even: bool = if sum >= 0 {
                    sum % 2 == 0
                } else {
                    (-sum) % 2 == 0
                };
                let all: bool = even || self.living_entity.age <= 1;
                steps.push(MobStep::TickGoals { all });
                steps.push(MobStep::TickNavigator);
                steps.push(MobStep::TickLookControl);
                steps.push(MobStep::TickMoveControl);
                steps.push(MobStep::TickLiving);
                steps.push(MobStep::PostTick);
                assert(steps@ =~= old(self).mob_steps(phase, *view));
                (steps, Some(MobPhase::Rotation))
            },
            MobPhase::Rotation => {
                let turned: bool = view.yaw != self.last_sent_yaw || view.pitch
                    != self.last_sent_pitch;
                push_if(
                    &mut steps,
                    turned,
                    MobStep::SendRotation { yaw: view.yaw, pitch: view.pitch },
                );
                let head_turned: bool = view.head_yaw != self.last_sent_head_yaw;
                push_if(
                    &mut steps,
                    head_turned,
                    MobStep::SendHeadRotation { head_yaw: view.head_yaw },
                );
                self.last_sent_yaw = view.yaw;
                self.last_sent_pitch = view.pitch;
                self.last_sent_head_yaw = view.head_yaw;
                (steps, None)
            },
        }
    }

    /// The traits that a mob is born with: whether it breaks doors, which a saved value
    /// decides where there is one, and whether it picks up what lies about, where its kind
    /// may. Returns the flags to send, if they changed.
    pub fn roll_traits(
        &mut self,
        may_break_doors: bool,
        door_roll: Rank32,
        door_chance: Rank32,
        may_pick_up: bool,
        loot_roll: Rank32,
        loot_chance: Rank32,
    ) -> (r: Option<u8>)
        ensures
            final(self).can_break_doors == (if may_break_doors && !old(
                self,
            ).can_break_doors_loaded {
                door_roll < door_chance
            } else {
                old(self).can_break_doors
            }),
            final(self).mob_flags == (if may_pick_up {
                super::with_flag(
                    old(self).mob_flags,
                    super::CAN_PICK_UP_LOOT_FLAG,
                    loot_roll < loot_chance,
                )
            } else {
                old(self).mob_flags
            }),
            final(self).navigator == (if may_break_doors && !old(self).can_break_doors_loaded {
                super::Navigator {
                    can_open_doors: Some(door_roll < door_chance),
                    ..old(self).navigator
                }
            } else {
                old(self).navigator
            }),
            *final(self) == (MobEntity {
                can_break_doors: final(self).can_break_doors,
                navigator: final(self).navigator,
                mob_flags: final(self).mob_flags,
                ..*old(self)
            }),
            r is Some <==> final(self).mob_flags != old(self).mob_flags,
            r matches Some(flags) ==> flags == final(self).mob_flags,
    {
        if may_break_doors && !self.can_break_doors_loaded() {
            self.set_can_break_doors(door_roll < door_chance);
        }
        if may_pick_up {
            self.set_can_pick_up_loot(loot_roll < loot_chance)
        } else {
            None
        }
    }

    /// What the mob is worth in experience: nothing while it is a baby.
    pub fn get_experience_reward(&self, base: u32) -> (r: u32)
        ensures
            r == (if self.living_entity.age < 0 {
                0
            } else {
                base
            }),
    {
        if self.living_entity.age < 0 {
            0
        } else {
            base
        }
    }
}

/// What a hit on a mob comes to at each turn.
#[derive(Clone, Copy, Debug, PartialEq, Eq, Structural)]
pub enum MobHit {
    /// The mob dodged it.
    Dodged,
    /// The hit counts, as the mob's kind changes it.
    Apply,
    /// The mob was hurt and is told so.
    Hurt,
    /// The hit did not hurt.
    Unhurt,
}

/// What a hit on a mob comes to: a mob may dodge it first, and is told of it last, if it
/// hurt.
pub fn mob_hit(allowed: bool, damaged: Option<bool>) -> (r: MobHit)
    ensures
        r == (if !allowed {
            MobHit::Dodged
        } else {
            match damaged {
                None => MobHit::Apply,
                Some(true) => MobHit::Hurt,
                Some(false) => MobHit::Unhurt,
            }
        }),
{
    if !allowed {
        return MobHit::Dodged;
    }
    match damaged {
        None => MobHit::Apply,
        Some(damaged) => if damaged {
            MobHit::Hurt
        } else {
            MobHit::Unhurt
        },
    }
}

/// Law: nothing is sent twice. After a tick, the same directions are not sent again.
pub proof fn law_rotation_is_sent_once(mob: MobEntity, view: MobView)
    ensures
        mob.after_phase(MobPhase::Rotation, view).mob_steps(MobPhase::Rotation, view) == Seq::<
            MobStep,
        >::empty(),
{
    let after = mob.after_phase(MobPhase::Rotation, view);
    assert(after.mob_steps(MobPhase::Rotation, view) =~= Seq::<MobStep>::empty());
}

/// Law: from the second tick on, a mob thinks in full in every other tick.
pub proof fn law_mob_thinks_every_other_tick(mob: MobEntity, later: MobEntity)
    requires
        mob.living_entity.age > 1,
        later.living_entity.age == mob.living_entity.age + 1,
        later.living_entity.entity_id == mob.living_entity.entity_id,
    ensures
        later.spec_thinks_in_full() == !mob.spec_thinks_in_full(),
{
}

/// Law: a tick of a mob goes through its phases in order and ends early where the mob has left the
/// world. At first leash and sun see to the mob, and whether it leaves the world is asked only of
/// mobs that may.
pub proof fn law_phases_of_a_mob(
    mob: &mut MobEntity,
    phase: MobPhase,
    view: MobView,
    r: (Vec<MobStep>, Option<MobPhase>),
)
    requires
        call_ensures(MobEntity::tick, (mob, phase, &view), r),
    ensures
        phase == MobPhase::Begin ==> {
            &&& r.1 == Some(MobPhase::Counters)
            &&& r.0@[0] == MobStep::TickLeash
            &&& r.0@[1] == MobStep::TickSunBurn
            &&& r.0@.len() == (if view.persistent {
                2int
            } else {
                3
            })
            &&& !view.persistent ==> r.0@[2] == MobStep::CheckDespawn
            &&& *final(mob) == *old(mob)
        },
        phase == MobPhase::Counters && !view.persistent && view.despawned ==> r.1 is None
            && r.0@.len() == 0 && *final(mob) == *old(mob),
        phase == MobPhase::Counters && (view.persistent || !view.despawned) ==> {
            &&& r.1 == Some(MobPhase::Mind)
            &&& r.0@.last() == MobStep::MobTick
            &&& r.0@.contains(MobStep::ShowHeart) <==> old(mob).love_ticks > 0 && old(mob).love_ticks as int % 10 == 0
            &&& final(mob).love_ticks == (if old(mob).love_ticks > 0 {
                old(mob).love_ticks - 1
            } else {
                old(mob).love_ticks as int
            })
            &&& final(mob).breeding_cooldown == (if old(mob).breeding_cooldown > 0 {
                old(mob).breeding_cooldown - 1
            } else {
                old(mob).breeding_cooldown as int
            })
        },
        phase == MobPhase::Mind && old(mob).living_entity.removal_reason is Some ==> r.1 is None
            && r.0@.len() == 0,
        phase == MobPhase::Mind && old(mob).living_entity.removal_reason is None ==> {
            &&& r.1 == Some(MobPhase::Rotation)
            &&& r.0@.len() == 6
            &&& r.0@[0] is TickGoals
            &&& r.0@[0]->all <==> (old(mob).living_entity.age + old(mob).living_entity.entity_id)
                % 2 == 0 || old(mob).living_entity.age <= 1
            &&& r.0@[1] == MobStep::TickNavigator
            &&& r.0@[2] == MobStep::TickLookControl
            &&& r.0@[3] == MobStep::TickMoveControl
            &&& r.0@[4] == MobStep::TickLiving
            &&& r.0@[5] == MobStep::PostTick
            &&& *final(mob) == *old(mob)
        },
        phase == MobPhase::Rotation ==> r.1 is None,
{
    broadcast use crate::plan::lemma_plan_contains;
    broadcast use crate::plan::lemma_only_if_contains;
    broadcast use crate::plan::lemma_single_contains;

}

/// Law: a mob that turned is sent as it faces now, its body and its head each on their own, and what
/// was sent is remembered.
pub proof fn law_turned_mob_is_sent(
    mob: &mut MobEntity,
    view: MobView,
    r: (Vec<MobStep>, Option<MobPhase>),
    yaw: u8,
    pitch: u8,
    head_yaw: u8,
)
    requires
        call_ensures(MobEntity::tick, (mob, MobPhase::Rotation, &view), r),
    ensures
        r.0@.contains((MobStep::SendRotation { yaw, pitch })) <==> yaw == view.yaw && pitch
            == view.pitch && (view.yaw != old(mob).last_sent_yaw || view.pitch != old(mob).last_sent_pitch),
        r.0@.contains((MobStep::SendHeadRotation { head_yaw })) <==> head_yaw == view.head_yaw
            && view.head_yaw != old(mob).last_sent_head_yaw,
        final(mob).last_sent_yaw == view.yaw,
        final(mob).last_sent_pitch == view.pitch,
        final(mob).last_sent_head_yaw == view.head_yaw,
        final(mob).love_ticks == old(mob).love_ticks,
{
    broadcast use crate::plan::lemma_plan_contains;
    broadcast use crate::plan::lemma_only_if_contains;

}

/// Law: a mob is born to break doors where its kind may, by its roll, unless that was saved with it;
/// and to pick things up where its kind may, by its roll.
pub proof fn law_traits_are_rolled(
    mob: &mut MobEntity,
    may_break_doors: bool,
    door_roll: Rank32,
    door_chance: Rank32,
    may_pick_up: bool,
    loot_roll: Rank32,
    loot_chance: Rank32,
    r: Option<u8>,
)
    requires
        call_ensures(
            MobEntity::roll_traits,
            (mob, may_break_doors, door_roll, door_chance, may_pick_up, loot_roll, loot_chance),
            r,
        ),
    ensures
        may_break_doors && !old(mob).can_break_doors_loaded ==> (final(mob).can_break_doors
            <==> door_roll < door_chance) && final(mob).navigator.can_open_doors == Some(
            final(mob).can_break_doors,
        ),
        !may_break_doors || old(mob).can_break_doors_loaded ==> final(mob).can_break_doors == old(mob).can_break_doors && final(mob).navigator == old(mob).navigator,
        may_pick_up ==> (final(mob).mob_flags & 8 != 0 <==> loot_roll < loot_chance),
        !may_pick_up ==> final(mob).mob_flags == old(mob).mob_flags && r is None,
        r is Some ==> r->0 == final(mob).mob_flags,
{
    super::law_flags_are_independent(old(mob).mob_flags, 8, 1, loot_roll < loot_chance);
}

/// Law: a baby is worth no experience and any other mob what its kind is worth; a dodged hit does
/// nothing, and one that hurt is told.
pub proof fn law_worth_and_hits(
    mob: MobEntity,
    base: u32,
    worth: u32,
    allowed: bool,
    damaged: Option<bool>,
    hit: MobHit,
)
    requires
        call_ensures(MobEntity::get_experience_reward, (&mob, base), worth),
        call_ensures(mob_hit, (allowed, damaged), hit),
    ensures
        mob.living_entity.age < 0 ==> worth == 0,
        mob.living_entity.age >= 0 ==> worth == base,
        hit == MobHit::Dodged <==> !allowed,
        hit == MobHit::Apply <==> allowed && damaged is None,
        hit == MobHit::Hurt <==> allowed && damaged == Some(true),
{
}

} // verus!
