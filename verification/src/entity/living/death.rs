//! How a living entity dies: what may save it, what becomes of it, and what its
//! death leaves behind.

use vstd::arithmetic::power2::{lemma2_to64, lemma_pow2_strictly_increases, pow2};
use vstd::prelude::*;

use super::effects::{add_effect_steps, clamp_health, effect_map, EffectStep, ONE_POINT};
use super::{holds_effect, LivingEntity, RemovalReason};
use crate::data::damage_type::DamageType;
use crate::data::effect::{Effect, StatusEffect};
use crate::data::entity_type::{Difficulty, EntityType};
use crate::data::equipment::{EquipmentSlot, Hand};
use crate::data::rank::{
    digits32, exponent32, min32, quarter_of, rank_max, rank_min, whole_quarters, Rank32,
};
use crate::plan::{only_if, push_if, push_plan, push_step};
use crate::random::{draw_bool, draw_range};
use crate::text::{join, join_pair};

verus! {

// ---------------------------------------------------------------------------
// What may save the entity.
// ---------------------------------------------------------------------------

/// An effect of a totem: seen by its particles and its icon.
pub open spec fn totem_effect(kind: StatusEffect, duration: i32, amplifier: u8) -> Effect {
    Effect {
        effect_type: kind,
        duration,
        amplifier,
        ambient: false,
        show_particles: true,
        show_icon: true,
        blend: false,
    }
}

/// An effect of a totem.
fn make_totem_effect(kind: StatusEffect, duration: i32, amplifier: u8) -> (r: Effect)
    ensures
        r == totem_effect(kind, duration, amplifier),
{
    Effect {
        effect_type: kind,
        duration,
        amplifier,
        ambient: false,
        show_particles: true,
        show_icon: true,
        blend: false,
    }
}

/// The absorption that a totem gives.
pub open spec fn totem_absorption() -> Effect {
    totem_effect(StatusEffect::Absorption, 100, 1)
}

/// The regeneration that a totem gives.
pub open spec fn totem_regeneration() -> Effect {
    totem_effect(StatusEffect::Regeneration, 900, 1)
}

/// The fire resistance that a totem gives.
pub open spec fn totem_fire_resistance() -> Effect {
    totem_effect(StatusEffect::FireResistance, 800, 0)
}

/// What using a totem asks the world to do.
pub struct TotemUse {
    /// The hand that held it: its stack is used up.
    pub hand: Hand,
    /// The health to send.
    pub health: Rank32,
    /// What the effects of the totem ask for, after the players around have been
    /// shown that the entity was protected.
    pub steps: Vec<EffectStep>,
}

/// The place in `hands` of the first hand that protects.
pub open spec fn first_protecting(hands: Seq<(Hand, bool)>) -> Option<int>
    decreases hands.len(),
{
    if hands.len() == 0 {
        None
    } else {
        match first_protecting(hands.drop_last()) {
            Some(i) => Some(i),
            None => if hands.last().1 {
                Some(hands.len() - 1)
            } else {
                None
            },
        }
    }
}

impl LivingEntity {
    /// Uses the first item in the hands that protects from death, if there is one.
    /// Each hand comes with whether the stack in it protects. The entity is left
    /// with one point of health and with three effects.
    pub fn try_use_death_protector(&mut self, hands: &Vec<(Hand, bool)>, in_world: bool) -> (r:
        Option<TotemUse>)
        requires
            old(self).wf(),
        ensures
            final(self).wf(),
            r is Some <==> first_protecting(hands@) is Some,
            r is None ==> *final(self) == *old(self),
            r matches Some(used) ==> {
                &&& used.hand == hands@[first_protecting(hands@)->0].0
                &&& used.health == clamp_health(ONE_POINT, old(self).max_health)
                &&& effect_map(final(self).active_effects@) == effect_map(
                    old(self).active_effects@,
                ).insert(StatusEffect::Absorption, totem_absorption()).insert(
                    StatusEffect::Regeneration,
                    totem_regeneration(),
                ).insert(StatusEffect::FireResistance, totem_fire_resistance())
                &&& *final(self) == (LivingEntity {
                    health: used.health,
                    active_effects: final(self).active_effects,
                    ..*old(self)
                })
                &&& used.steps@ == add_effect_steps(totem_absorption(), in_world)
                    + add_effect_steps(totem_regeneration(), in_world) + add_effect_steps(
                    totem_fire_resistance(),
                    in_world,
                )
            },
    {
        let mut i: usize = 0;
        while i < hands.len()
            invariant
                i <= hands@.len(),
                first_protecting(hands@.take(i as int)) is None,
                self.wf(),
                *self == *old(self),
            decreases hands.len() - i,
        {
            assert(hands@.take(i as int + 1).drop_last() =~= hands@.take(i as int));
            if hands[i].1 {
                let hand: Hand = hands[i].0;
                proof {
                    lemma_first_protecting_stays(hands@, i as int + 1);
                }
                let health: Rank32 = self.set_health(ONE_POINT);
                let mut steps: Vec<EffectStep> = self.add_effect(
                    make_totem_effect(StatusEffect::Absorption, 100, 1),
                    in_world,
                );
                let more: Vec<EffectStep> = self.add_effect(
                    make_totem_effect(StatusEffect::Regeneration, 900, 1),
                    in_world,
                );
                push_plan(&mut steps, more);
                let more: Vec<EffectStep> = self.add_effect(
                    make_totem_effect(StatusEffect::FireResistance, 800, 0),
                    in_world,
                );
                push_plan(&mut steps, more);
                return Some(TotemUse { hand, health, steps });
            }
            i = i + 1;
        }
        assert(hands@.take(i as int) =~= hands@);
        None
    }
}

/// A hand that protects first among some of the hands protects first among all.
proof fn lemma_first_protecting_stays(hands: Seq<(Hand, bool)>, k: int)
    requires
        0 <= k <= hands.len(),
        first_protecting(hands.take(k)) is Some,
    ensures
        first_protecting(hands) == first_protecting(hands.take(k)),
    decreases hands.len() - k,
{
    if k == hands.len() {
        assert(hands.take(k) =~= hands);
    } else {
        assert(hands.take(k + 1).drop_last() =~= hands.take(k));
        lemma_first_protecting_stays(hands, k + 1);
    }
}

// ---------------------------------------------------------------------------
// A villager that a zombie kills.
// ---------------------------------------------------------------------------

/// The kinds of entities that turn villagers.
pub open spec fn turns_villagers(killer: EntityType) -> bool {
    killer == EntityType::Zombie || killer == EntityType::Husk || killer == EntityType::Drowned
        || killer == EntityType::ZombieVillager || killer == EntityType::ZombifiedPiglin
}

/// What becomes of an entity that a zombie may turn.
#[derive(Clone, Copy, Debug, PartialEq, Eq, Structural)]
pub enum Conversion {
    /// It does not turn: it dies.
    Dies,
    /// Another hit is already seeing to its end.
    AlreadyHandled,
    /// It turns into a zombie villager, which takes its place.
    Converted,
}

/// Whether a killed villager turns: always in a hard game, by lot in a normal one.
pub fn villager_turns(difficulty: Difficulty, lot: bool) -> (r: bool)
    ensures
        r == (difficulty == Difficulty::Hard || difficulty == Difficulty::Normal && lot),
{
    match difficulty {
        Difficulty::Hard => true,
        Difficulty::Normal => lot,
        Difficulty::Peaceful | Difficulty::Easy => false,
    }
}

impl LivingEntity {
    /// The entity is a villager, and what killed it turns villagers.
    pub open spec fn spec_may_turn(self, killer: Option<EntityType>) -> bool {
        self.entity_type == EntityType::Villager && match killer {
            Some(killer) => turns_villagers(killer),
            None => false,
        }
    }

    /// Decides whether a killed villager turns into a zombie villager, once the lot
    /// is known. `killer` is the cause of the death, or else its source.
    /// `in_world` says whether the world still holds the villager. Only one of
    /// several deadly hits turns it.
    pub fn convert_villager(
        &mut self,
        killer: Option<EntityType>,
        difficulty: Difficulty,
        lot: bool,
        in_world: bool,
    ) -> (r: Conversion)
        ensures
            r == (if !old(self).spec_may_turn(killer) || !(difficulty == Difficulty::Hard
                || difficulty == Difficulty::Normal && lot) || !in_world {
                Conversion::Dies
            } else if old(self).dead {
                Conversion::AlreadyHandled
            } else {
                Conversion::Converted
            }),
            *final(self) == (LivingEntity {
                dead: old(self).dead || r == Conversion::Converted,
                ..*old(self)
            }),
    {
        if self.entity_type != EntityType::Villager {
            return Conversion::Dies;
        }
        let turns: bool = match killer {
            Some(killer) => killer == EntityType::Zombie || killer == EntityType::Husk || killer
                == EntityType::Drowned || killer == EntityType::ZombieVillager || killer
                == EntityType::ZombifiedPiglin,
            None => false,
        };
        if !turns || !villager_turns(difficulty, lot) || !in_world {
            return Conversion::Dies;
        }
        if self.dead {
            return Conversion::AlreadyHandled;
        }
        self.dead = true;
        Conversion::Converted
    }

    /// Decides whether a killed villager turns into a zombie villager, drawing the
    /// lot itself.
    pub fn try_convert_villager_on_zombie_kill(
        &mut self,
        killer: Option<EntityType>,
        difficulty: Difficulty,
        in_world: bool,
    ) -> (r: Conversion)
        ensures
            r == Conversion::Dies || r == (if old(self).dead {
                Conversion::AlreadyHandled
            } else {
                Conversion::Converted
            }),
            !(old(self).spec_may_turn(killer) && in_world) ==> r == Conversion::Dies,
            difficulty == Difficulty::Peaceful || difficulty == Difficulty::Easy ==> r
                == Conversion::Dies,
            difficulty == Difficulty::Hard && old(self).spec_may_turn(killer) && in_world ==> r
                != Conversion::Dies,
            *final(self) == (LivingEntity {
                dead: old(self).dead || r == Conversion::Converted,
                ..*old(self)
            }),
    {
        let lot: bool = match difficulty {
            Difficulty::Normal => draw_bool(),
            _ => false,
        };
        self.convert_villager(killer, difficulty, lot, in_world)
    }
}

// ---------------------------------------------------------------------------
// Dying.
// ---------------------------------------------------------------------------

/// What the rules on a death read of who caused it.
#[derive(Clone, Copy, Debug, PartialEq, Eq, Structural)]
pub struct Killer {
    pub entity_type: EntityType,
    pub is_player: bool,
    /// Whether there is an item in the main hand.
    pub holds_item: bool,
    /// The level of looting on the item in the main hand.
    pub looting: i32,
    pub holds_crossbow: bool,
    /// Whether the killer is at least 50 blocks away.
    pub far_away: bool,
}

/// What the rules on a death read of the world.
#[derive(Clone, Copy, Debug, PartialEq, Eq, Structural)]
pub struct DeathScene {
    /// Whether the world still holds the entity.
    pub in_world: bool,
    pub victim_is_player: bool,
    pub damage_type: DamageType,
    /// What dealt the deadly damage.
    pub source: Option<EntityType>,
    /// Who is behind it.
    pub cause: Option<Killer>,
    pub on_fire: bool,
    pub raining: bool,
    pub thundering: bool,
    pub day_time: u64,
    /// Whether mobs leave anything behind.
    pub mob_drops: bool,
    /// Whether deaths of players are announced.
    pub show_death_messages: bool,
    /// What the entity is worth in experience.
    pub experience: i32,
}

/// What decides on the loot.
#[derive(Clone, Copy, Debug, PartialEq, Eq, Structural)]
pub struct LootScene {
    pub killed_by_player: Option<bool>,
    pub this_entity: EntityType,
    pub killer_entity: Option<EntityType>,
    pub direct_killer_entity: Option<EntityType>,
    pub damage_type: DamageType,
    pub world_time: u64,
    /// Whether the item in the killer's main hand counts.
    pub with_tool: bool,
    pub raining: bool,
    pub thundering: bool,
    pub on_fire: bool,
}

/// The statistics on deaths.
#[derive(Clone, Copy, Debug, PartialEq, Eq, Structural)]
pub enum DeathStat {
    Deaths,
    KilledBy(EntityType),
    PlayerKills,
    MobKills,
    Killed(EntityType),
}

/// What a death asks the world to do.
#[derive(Clone, Copy, Debug, PartialEq, Eq, Structural)]
pub enum DeathStep {
    /// Lets those who listen sense the death.
    EmitDeathVibration,
    ClearMovementInput,
    /// Adds 1 to a statistic of the player who died.
    CountForVictim(DeathStat),
    ResetTimeSinceDeath,
    /// Adds 1 to a statistic of the player who killed.
    CountForKiller(DeathStat),
    /// The advancement for killing an entity of this kind.
    TriggerKilledEntity(EntityType),
    /// The advancement for a skeleton killed from far away.
    TriggerSniperDuel,
    /// The advancement for a phantom.
    TriggerTwoBirdsOneArrow,
    /// The advancement for a crossbow.
    TriggerArbalistic,
    ShowDeath,
    DropLoot(LootScene),
    SpawnExperience { amount: i32 },
    TakeDyingPose,
    DropEquipment { looting: u32 },
    AnnounceDeath,
    ResetEffects,
}

impl DeathScene {
    /// The killer, where it is a player.
    pub open spec fn spec_killing_player(self) -> Option<Killer> {
        match self.cause {
            Some(killer) => if killer.is_player {
                Some(killer)
            } else {
                None
            },
            None => None,
        }
    }

    /// The killer, where it is a player.
    fn killing_player(&self) -> (r: Option<Killer>)
        ensures
            r == self.spec_killing_player(),
    {
        match self.cause {
            Some(killer) => if killer.is_player {
                Some(killer)
            } else {
                None
            },
            None => None,
        }
    }

    /// What is counted for the player who died.
    pub open spec fn victim_steps(self) -> Seq<DeathStep> {
        Seq::<DeathStep>::empty() + only_if(
            self.victim_is_player,
            DeathStep::CountForVictim(DeathStat::Deaths),
        ) + only_if(self.victim_is_player, DeathStep::ResetTimeSinceDeath) + only_if(
            self.victim_is_player && self.cause is Some,
            DeathStep::CountForVictim(DeathStat::KilledBy(self.cause->0.entity_type)),
        )
    }

    /// What is counted for the player who killed an entity of the kind.
    pub open spec fn killer_steps(self, victim: EntityType) -> Seq<DeathStep> {
        let by_player = self.spec_killing_player() is Some;
        let killer = self.spec_killing_player()->0;
        let mob = by_player && !self.victim_is_player;
        Seq::<DeathStep>::empty() + only_if(
            by_player && self.victim_is_player,
            DeathStep::CountForKiller(DeathStat::PlayerKills),
        ) + only_if(mob, DeathStep::CountForKiller(DeathStat::MobKills)) + only_if(
            mob,
            DeathStep::TriggerKilledEntity(victim),
        ) + only_if(
            mob && victim == EntityType::Skeleton && killer.far_away,
            DeathStep::TriggerSniperDuel,
        ) + only_if(
            mob && victim == EntityType::Phantom,
            DeathStep::TriggerTwoBirdsOneArrow,
        ) + only_if(mob && killer.holds_crossbow, DeathStep::TriggerArbalistic) + only_if(
            by_player,
            DeathStep::CountForKiller(DeathStat::Killed(victim)),
        )
    }

    /// What decides on the loot of an entity of the kind.
    pub open spec fn spec_loot_scene(self, victim: EntityType) -> LootScene {
        LootScene {
            killed_by_player: match self.cause {
                Some(killer) => Some(killer.entity_type == EntityType::Player),
                None => None,
            },
            this_entity: victim,
            killer_entity: match self.cause {
                Some(killer) => Some(killer.entity_type),
                None => None,
            },
            direct_killer_entity: self.source,
            damage_type: self.damage_type,
            world_time: self.day_time,
            with_tool: match self.spec_killing_player() {
                Some(killer) => killer.holds_item,
                None => false,
            },
            raining: self.raining,
            thundering: self.thundering,
            on_fire: self.on_fire,
        }
    }

    /// The level of looting that counts: that of a player, and never below 0.
    pub open spec fn spec_looting(self) -> int {
        match self.spec_killing_player() {
            Some(killer) => rank_max(killer.looting as int, 0),
            None => 0,
        }
    }

    /// All that the death of an entity of the kind asks for, in order.
    pub open spec fn death_steps(self, victim: EntityType) -> Seq<DeathStep> {
        let by_player = match self.cause {
            Some(killer) => killer.entity_type == EntityType::Player,
            None => false,
        };
        seq![DeathStep::EmitDeathVibration] + seq![DeathStep::ClearMovementInput]
            + self.victim_steps() + self.killer_steps(victim) + seq![DeathStep::ShowDeath] + seq![
            DeathStep::DropLoot(self.spec_loot_scene(victim)),
        ] + only_if(
            by_player && self.mob_drops && self.experience > 0,
            (DeathStep::SpawnExperience { amount: self.experience }),
        ) + seq![DeathStep::TakeDyingPose] + seq![
            DeathStep::DropEquipment { looting: self.spec_looting() as u32 },
        ] + only_if(
            victim == EntityType::Player && self.show_death_messages,
            DeathStep::AnnounceDeath,
        ) + seq![DeathStep::ResetEffects]
    }
}

impl LivingEntity {
    /// What a death counts for, for the one who died and for the one who killed.
    pub fn update_death_stats(&self, scene: &DeathScene) -> (steps: Vec<DeathStep>)
        ensures
            steps@ == scene.victim_steps() + scene.killer_steps(self.entity_type),
    {
        let victim: EntityType = self.entity_type;
        let player: bool = scene.victim_is_player;
        let mut steps: Vec<DeathStep> = Vec::new();
        push_if(&mut steps, player, DeathStep::CountForVictim(DeathStat::Deaths));
        push_if(&mut steps, player, DeathStep::ResetTimeSinceDeath);
        if let Some(killer) = scene.cause {
            push_if(
                &mut steps,
                player,
                DeathStep::CountForVictim(DeathStat::KilledBy(killer.entity_type)),
            );
        }
        assert(steps@ =~= scene.victim_steps());
        let mut credit: Vec<DeathStep> = Vec::new();
        if let Some(killer) = scene.killing_player() {
            push_if(&mut credit, player, DeathStep::CountForKiller(DeathStat::PlayerKills));
            push_if(&mut credit, !player, DeathStep::CountForKiller(DeathStat::MobKills));
            push_if(&mut credit, !player, DeathStep::TriggerKilledEntity(victim));
            push_if(
                &mut credit,
                !player && victim == EntityType::Skeleton && killer.far_away,
                DeathStep::TriggerSniperDuel,
            );
            push_if(
                &mut credit,
                !player && victim == EntityType::Phantom,
                DeathStep::TriggerTwoBirdsOneArrow,
            );
            push_if(&mut credit, !player && killer.holds_crossbow, DeathStep::TriggerArbalistic);
            push_step(&mut credit, DeathStep::CountForKiller(DeathStat::Killed(victim)));
        }
        assert(credit@ =~= scene.killer_steps(victim));
        push_plan(&mut steps, credit);
        steps
    }

    /// What decides on the loot of the entity.
    fn loot_scene(&self, scene: &DeathScene) -> (r: LootScene)
        ensures
            r == scene.spec_loot_scene(self.entity_type),
    {
        let killer_entity: Option<EntityType> = match scene.cause {
            Some(killer) => Some(killer.entity_type),
            None => None,
        };
        LootScene {
            killed_by_player: match killer_entity {
                Some(killer) => Some(killer == EntityType::Player),
                None => None,
            },
            this_entity: self.entity_type,
            killer_entity,
            direct_killer_entity: scene.source,
            damage_type: scene.damage_type,
            world_time: scene.day_time,
            with_tool: match scene.killing_player() {
                Some(killer) => killer.holds_item,
                None => false,
            },
            raining: scene.raining,
            thundering: scene.thundering,
            on_fire: scene.on_fire,
        }
    }

    /// What handling the death asks for: nothing where it has been handled, or where
    /// the world no longer holds the entity.
    pub open spec fn spec_death_plan(self, scene: DeathScene) -> Seq<DeathStep> {
        if scene.in_world && !self.dead {
            scene.death_steps(self.entity_type)
        } else {
            Seq::empty()
        }
    }

    /// The entity once its death has been handled.
    pub open spec fn spec_after_death(self, scene: DeathScene) -> LivingEntity {
        if !scene.in_world {
            LivingEntity {
                dead: true,
                removed: true,
                removal_reason: if self.removed {
                    self.removal_reason
                } else {
                    Some(RemovalReason::Discarded)
                },
                ..self
            }
        } else if !self.dead {
            LivingEntity { dead: true, jumping: false, ..self }
        } else {
            self
        }
    }

    /// Handles the death of the entity, at most once. One that the world no longer
    /// holds only counts as dead and removed.
    pub fn on_death(&mut self, scene: &DeathScene) -> (steps: Vec<DeathStep>)
        ensures
            steps@ == old(self).spec_death_plan(*scene),
            *final(self) == old(self).spec_after_death(*scene),
    {
        if !scene.in_world {
            self.dead = true;
            if !self.removed {
                self.removed = true;
                self.removal_reason = Some(RemovalReason::Discarded);
            }
            return Vec::new();
        }
        if self.dead {
            return Vec::new();
        }
        self.dead = true;
        self.jumping = false;
        let mut steps: Vec<DeathStep> = Vec::new();
        push_step(&mut steps, DeathStep::EmitDeathVibration);
        push_step(&mut steps, DeathStep::ClearMovementInput);
        let stats: Vec<DeathStep> = self.update_death_stats(scene);
        push_plan(&mut steps, stats);
        push_step(&mut steps, DeathStep::ShowDeath);
        let loot: LootScene = self.loot_scene(scene);
        push_step(&mut steps, DeathStep::DropLoot(loot));
        let by_player: bool = match loot.killed_by_player {
            Some(by_player) => by_player,
            None => false,
        };
        push_if(
            &mut steps,
            by_player && scene.mob_drops && scene.experience > 0,
            DeathStep::SpawnExperience { amount: scene.experience },
        );
        push_step(&mut steps, DeathStep::TakeDyingPose);
        let looting: u32 = match scene.killing_player() {
            Some(killer) => if killer.looting > 0 {
                killer.looting as u32
            } else {
                0
            },
            None => 0,
        };
        push_step(&mut steps, DeathStep::DropEquipment { looting });
        push_if(
            &mut steps,
            self.entity_type == EntityType::Player && scene.show_death_messages,
            DeathStep::AnnounceDeath,
        );
        push_step(&mut steps, DeathStep::ResetEffects);
        assert(steps@ =~= scene.death_steps(self.entity_type));
        steps
    }
}

/// Law: a death is handled once. After it the entity is dead, and whatever deadly
/// hit comes next asks for nothing; in the world it changes nothing either.
pub proof fn law_death_is_handled_once(entity: LivingEntity, first: DeathScene, next: DeathScene)
    ensures
        entity.spec_after_death(first).dead,
        entity.spec_after_death(first).spec_death_plan(next) == Seq::<DeathStep>::empty(),
        next.in_world ==> entity.spec_after_death(first).spec_after_death(next)
            == entity.spec_after_death(first),
{
}

/// Law: experience is left behind only for a kill by a player, where mobs leave
/// anything behind, and only if it is worth something.
pub proof fn law_experience_needs_a_player(scene: DeathScene, victim: EntityType, amount: i32)
    requires
        scene.death_steps(victim).contains((DeathStep::SpawnExperience { amount })),
    ensures
        scene.mob_drops,
        amount == scene.experience,
        amount > 0,
        scene.cause is Some,
        scene.cause->0.entity_type == EntityType::Player,
{
    broadcast use crate::plan::lemma_plan_contains;
    broadcast use crate::plan::lemma_only_if_contains;
    broadcast use crate::plan::lemma_single_contains;

    lemma_stats_hold_no_experience(scene, victim, amount);
}

/// Counting a death leaves no experience behind.
proof fn lemma_stats_hold_no_experience(scene: DeathScene, victim: EntityType, amount: i32)
    ensures
        !scene.victim_steps().contains((DeathStep::SpawnExperience { amount })),
        !scene.killer_steps(victim).contains((DeathStep::SpawnExperience { amount })),
{
    broadcast use crate::plan::lemma_plan_contains;
    broadcast use crate::plan::lemma_only_if_contains;

}

// ---------------------------------------------------------------------------
// What a death leaves behind.
// ---------------------------------------------------------------------------

/// The places whose items a death may leave behind: all that the entity has for
/// equipment, and then the main hand.
pub fn slots_to_drop(equipment: &Vec<EquipmentSlot>) -> (slots: Vec<EquipmentSlot>)
    ensures
        slots@ == equipment@.push(EquipmentSlot::MainHand),
{
    let mut slots: Vec<EquipmentSlot> = Vec::new();
    let mut i: usize = 0;
    while i < equipment.len()
        invariant
            i <= equipment@.len(),
            slots@ == equipment@.take(i as int),
        decreases equipment.len() - i,
    {
        slots.push(equipment[i]);
        i = i + 1;
        assert(slots@ =~= equipment@.take(i as int));
    }
    assert(equipment@.take(i as int) =~= equipment@);
    slots.push(EquipmentSlot::MainHand);
    slots
}

/// A place whose item a death may leave behind.
#[derive(Clone, Copy, Debug, PartialEq, Eq, Structural)]
pub struct DropCandidate {
    pub slot: EquipmentSlot,
    /// The chance that the item stays behind, with what looting adds to it.
    pub chance: Rank32,
    /// A number drawn from 0.0 up to 1.0.
    pub roll: Rank32,
    /// Whether there is nothing in the place.
    pub empty: bool,
    /// How much damage the item can take, where it can be damaged.
    pub max_damage: Option<i32>,
}

/// An item that a death leaves behind.
#[derive(Clone, Copy, Debug, PartialEq, Eq, Structural)]
pub struct EquipmentDrop {
    pub slot: EquipmentSlot,
    /// The damage it has from now on, where it can be damaged.
    pub damage: Option<i32>,
}

impl DropCandidate {
    /// The item stays behind: there is one, and the roll is below the chance, which
    /// counts for 1.0 at most.
    pub open spec fn spec_drops(self) -> bool {
        !self.empty && self.roll < rank_min(self.chance as int, ONE_POINT as int)
    }

    /// Whether the item stays behind.
    pub fn drops(&self) -> (r: bool)
        ensures
            r == self.spec_drops(),
    {
        self.roll < min32(self.chance, ONE_POINT) && !self.empty
    }
}

/// The candidates that stay behind.
pub open spec fn dropped(candidates: Seq<DropCandidate>) -> Seq<DropCandidate> {
    candidates.filter(|candidate: DropCandidate| candidate.spec_drops())
}

/// The damage of an item that stays behind: what it can take, less what was drawn,
/// but not below 0.
pub fn dropped_damage(max_damage: i32, drawn: i32) -> (r: i32)
    requires
        0 <= drawn,
        max_damage - drawn >= i32::MIN,
    ensures
        r == rank_max(max_damage - drawn, 0),
{
    let left: i32 = max_damage - drawn;
    if left > 0 {
        left
    } else {
        0
    }
}

/// What two draws, the second below the first, can take off the damage of an item
/// that stays behind. An item that can take more than 3 keeps at least 4; any
/// other keeps all.
pub open spec fn possible_dropped_damage(max_damage: i32, damage: int) -> bool {
    if max_damage > 3 {
        4 <= damage <= max_damage
    } else {
        damage == rank_max(max_damage as int, 0)
    }
}

/// Draws the damage of an item that stays behind.
fn draw_dropped_damage(max_damage: i32) -> (r: i32)
    requires
        max_damage >= i32::MIN + 3,
    ensures
        possible_dropped_damage(max_damage, r as int),
{
    let bound: i32 = if max_damage - 3 > 1 {
        max_damage - 3
    } else {
        1
    };
    let inner: i32 = draw_range(0, bound);
    let outer: i32 = draw_range(0, inner + 1);
    dropped_damage(max_damage, outer)
}

/// The drop is that of the candidate.
pub open spec fn drop_of(drop: EquipmentDrop, candidate: DropCandidate) -> bool {
    &&& drop.slot == candidate.slot
    &&& drop.damage is Some <==> candidate.max_damage is Some
    &&& drop.damage matches Some(damage) ==> possible_dropped_damage(
        candidate.max_damage->0,
        damage as int,
    )
}

impl LivingEntity {
    /// The items that a death leaves behind, in the order of the candidates, each
    /// with the damage drawn for it.
    pub fn drop_equipment(candidates: &Vec<DropCandidate>) -> (drops: Vec<EquipmentDrop>)
        requires
            forall|i: int|
                0 <= i < candidates@.len() ==> ((#[trigger] candidates@[i]).max_damage matches Some(
                    max_damage,
                ) ==> max_damage >= i32::MIN + 3),
        ensures
            drops@.len() == dropped(candidates@).len(),
            forall|i: int|
                0 <= i < drops@.len() ==> drop_of(#[trigger] drops@[i], dropped(candidates@)[i]),
    {
        let mut drops: Vec<EquipmentDrop> = Vec::new();
        let mut i: usize = 0;
        while i < candidates.len()
            invariant
                i <= candidates@.len(),
                forall|i: int|
                    0 <= i < candidates@.len() ==> ((
                    #[trigger] candidates@[i]).max_damage matches Some(max_damage) ==> max_damage
                        >= i32::MIN + 3),
                drops@.len() == dropped(candidates@.take(i as int)).len(),
                forall|j: int|
                    0 <= j < drops@.len() ==> drop_of(
                        #[trigger] drops@[j],
                        dropped(candidates@.take(i as int))[j],
                    ),
            decreases candidates.len() - i,
        {
            let candidate: DropCandidate = candidates[i];
            let ghost before = candidates@.take(i as int);
            let ghost after = candidates@.take(i as int + 1);
            proof {
                reveal(Seq::filter);
                assert(after.drop_last() =~= before);
                assert(after.last() == candidate);
            }
            if candidate.drops() {
                assert(dropped(after) == dropped(before).push(candidate));
                let damage: Option<i32> = match candidate.max_damage {
                    Some(max_damage) => Some(draw_dropped_damage(max_damage)),
                    None => None,
                };
                drops.push(EquipmentDrop { slot: candidate.slot, damage });
            } else {
                assert(dropped(after) == dropped(before));
            }
            i = i + 1;
        }
        assert(candidates@.take(i as int) =~= candidates@);
        drops
    }

    /// How many silverfish come out of the entity when it is hurt, from the roll and
    /// the number drawn: none unless it is infested, can be, and the roll is at
    /// most 0.1.
    pub fn silverfish_count(&self, roll: Rank32, drawn: i32) -> (r: i32)
        ensures
            r == (if self.spec_releases_silverfish(roll) {
                drawn
            } else {
                0
            }),
    {
        if self.releases_silverfish(roll) {
            drawn
        } else {
            0
        }
    }

    /// Silverfish come out of the entity when it is hurt.
    pub open spec fn spec_releases_silverfish(self, roll: Rank32) -> bool {
        &&& holds_effect(self.active_effects@, StatusEffect::Infested)
        &&& self.entity_type != EntityType::Wither
        &&& self.entity_type != EntityType::EnderDragon
        &&& self.entity_type != EntityType::Silverfish
        &&& roll <= SILVERFISH_CHANCE
    }

    /// Whether silverfish come out of the entity when it is hurt.
    fn releases_silverfish(&self, roll: Rank32) -> (r: bool)
        ensures
            r == self.spec_releases_silverfish(roll),
    {
        self.has_effect(StatusEffect::Infested) && self.entity_type != EntityType::Wither
            && self.entity_type != EntityType::EnderDragon && self.entity_type
            != EntityType::Silverfish && roll <= SILVERFISH_CHANCE
    }

    /// How many silverfish come out of the entity when it is hurt: one or two, where
    /// the roll lets any out.
    pub fn try_spawn_infested_silverfish(&self, roll: Rank32) -> (r: i32)
        ensures
            self.spec_releases_silverfish(roll) ==> 1 <= r <= 2,
            !self.spec_releases_silverfish(roll) ==> r == 0,
    {
        if self.releases_silverfish(roll) {
            let drawn: i32 = draw_range(1, 3);
            self.silverfish_count(roll, drawn)
        } else {
            0
        }
    }
}

/// The chance (0.1) that silverfish come out of an infested entity.
pub const SILVERFISH_CHANCE: Rank32 = 0x3DCC_CCCD;

// ---------------------------------------------------------------------------
// Wear on armour.
// ---------------------------------------------------------------------------

/// What became of an item that was to take damage.
#[derive(Clone, Copy, Debug, PartialEq, Eq, Structural)]
pub enum DamageResult {
    Untouched,
    Damaged,
    Broken,
}

/// A piece of armour after a hit.
#[derive(Clone, Copy, Debug, PartialEq, Eq, Structural)]
pub struct ArmorWear {
    /// The place in the inventory.
    pub slot_index: i32,
    pub slot: EquipmentSlot,
    pub result: DamageResult,
}

/// What wear on armour asks the world to do.
#[derive(Clone, Copy, Debug, PartialEq, Eq, Structural)]
pub enum ArmorStep {
    /// Shows that the piece broke.
    ShowBreak { slot: EquipmentSlot },
    /// Sends the piece to the player who wears it.
    SendSlot { slot_index: i32, slot: EquipmentSlot },
}

/// The wear of a hit on each piece of armour: a quarter of the amount of the hit, rounded
/// down, but at least 1.
pub open spec fn wear_of(amount: Rank32) -> int {
    if amount > 0 {
        rank_max(rank_min(quarter_of(amount), i32::MAX as int), 1)
    } else {
        1
    }
}

/// The wear of a hit on each piece of armour: a quarter of the amount of the hit, rounded
/// down, but at least 1.
pub fn armor_wear(amount: Rank32) -> (r: i32)
    ensures
        r == wear_of(amount),
{
    if amount <= 0 {
        return 1;
    }
    let quarters: i32 = whole_quarters(amount);
    if quarters > 1 {
        quarters
    } else {
        1
    }
}

/// Whether a hit wears the item: not an empty place, and not an item that says it
/// takes no damage when its wearer is hurt.
pub fn armor_takes_wear(empty: bool, damage_on_hurt: Option<bool>) -> (r: bool)
    ensures
        r == (!empty && damage_on_hurt != Some(false)),
{
    !empty && match damage_on_hurt {
        Some(damage_on_hurt) => damage_on_hurt,
        None => true,
    }
}

/// The places whose pieces changed, in order.
pub open spec fn worn_slots(wear: Seq<ArmorWear>) -> Seq<EquipmentSlot>
    decreases wear.len(),
{
    if wear.len() == 0 {
        Seq::empty()
    } else {
        worn_slots(wear.drop_last()) + only_if(
            wear.last().result != DamageResult::Untouched,
            wear.last().slot,
        )
    }
}

/// What the wear asks for, piece by piece.
pub open spec fn wear_steps(wear: Seq<ArmorWear>, is_player: bool) -> Seq<ArmorStep>
    decreases wear.len(),
{
    if wear.len() == 0 {
        Seq::empty()
    } else {
        let last = wear.last();
        wear_steps(wear.drop_last(), is_player) + only_if(
            last.result == DamageResult::Broken,
            (ArmorStep::ShowBreak { slot: last.slot }),
        ) + only_if(
            last.result != DamageResult::Untouched && is_player,
            (ArmorStep::SendSlot { slot_index: last.slot_index, slot: last.slot }),
        )
    }
}

impl LivingEntity {
    /// What is left to do once a hit has worn the armour: the steps, and the places
    /// whose pieces are then sent to the players around, where there are any.
    pub fn damage_armor_items(wear: &Vec<ArmorWear>, is_player: bool) -> (r: (
        Vec<ArmorStep>,
        Vec<EquipmentSlot>,
    ))
        ensures
            r.0@ == wear_steps(wear@, is_player),
            r.1@ == worn_slots(wear@),
    {
        let mut steps: Vec<ArmorStep> = Vec::new();
        let mut slots: Vec<EquipmentSlot> = Vec::new();
        let mut i: usize = 0;
        while i < wear.len()
            invariant
                i <= wear@.len(),
                steps@ == wear_steps(wear@.take(i as int), is_player),
                slots@ == worn_slots(wear@.take(i as int)),
            decreases wear.len() - i,
        {
            let piece: ArmorWear = wear[i];
            assert(wear@.take(i as int + 1).drop_last() =~= wear@.take(i as int));
            let changed: bool = piece.result != DamageResult::Untouched;
            push_if(
                &mut steps,
                piece.result == DamageResult::Broken,
                ArmorStep::ShowBreak { slot: piece.slot },
            );
            push_if(&mut slots, changed, piece.slot);
            push_if(
                &mut steps,
                changed && is_player,
                ArmorStep::SendSlot { slot_index: piece.slot_index, slot: piece.slot },
            );
            i = i + 1;
        }
        assert(wear@.take(i as int) =~= wear@);
        (steps, slots)
    }
}

// ---------------------------------------------------------------------------
// The announcement of a death.
// ---------------------------------------------------------------------------

/// How the announcement of a death is worded, by the kind of damage.
#[derive(Clone, Copy, Debug, PartialEq, Eq, Structural)]
pub enum DeathMessageType {
    Default,
    FallVariants,
    IntentionalGameDesign,
}

/// The announcement of a death: a translated text about the one who died.
pub struct DeathMessage {
    pub key: String,
    /// Whether the text also names who is behind the death.
    pub names_cause: bool,
    /// Whether the text stands in square brackets.
    pub in_brackets: bool,
}

impl LivingEntity {
    /// The announcement of a death by damage with the given name.
    pub fn get_death_message(
        message_type: DeathMessageType,
        message_id: &str,
        has_source: bool,
        has_cause: bool,
    ) -> (r: DeathMessage)
        ensures
            r.names_cause == (message_type == DeathMessageType::Default && has_cause && has_source),
            r.in_brackets == (message_type == DeathMessageType::IntentionalGameDesign),
            r.key@ == match message_type {
                DeathMessageType::Default => if has_cause && has_source {
                    "death.attack."@ + message_id@ + ".player"@
                } else {
                    "death.attack."@ + message_id@
                },
                DeathMessageType::FallVariants => "death.fell.accident.generic"@,
                DeathMessageType::IntentionalGameDesign => "death.attack."@ + message_id@
                    + ".message"@,
            },
    {
        match message_type {
            DeathMessageType::Default => {
                if has_cause && has_source {
                    DeathMessage {
                        key: join("death.attack.", message_id, ".player"),
                        names_cause: true,
                        in_brackets: false,
                    }
                } else {
                    DeathMessage {
                        key: join_pair("death.attack.", message_id),
                        names_cause: false,
                        in_brackets: false,
                    }
                }
            },
            DeathMessageType::FallVariants => DeathMessage {
                key: "death.fell.accident.generic".to_owned(),
                names_cause: false,
                in_brackets: false,
            },
            DeathMessageType::IntentionalGameDesign => DeathMessage {
                key: join("death.attack.", message_id, ".message"),
                names_cause: false,
                in_brackets: true,
            },
        }
    }
}

// ---------------------------------------------------------------------------
// Laws.
// ---------------------------------------------------------------------------

/// A hand protects first exactly when it protects and none before it does.
proof fn lemma_first_hand_protects(hands: Seq<(Hand, bool)>, k: int)
    requires
        0 <= k < hands.len(),
        hands[k].1,
        forall|i: int| 0 <= i < k ==> !(#[trigger] hands[i]).1,
    ensures
        first_protecting(hands) == Some(k),
    decreases hands.len(),
{
    let before = hands.drop_last();
    if k < hands.len() - 1 {
        assert(before[k] == hands[k]);
        assert forall|i: int| 0 <= i < k implies !(#[trigger] before[i]).1 by {
            assert(before[i] == hands[i]);
        }
        lemma_first_hand_protects(before, k);
    } else {
        assert forall|i: int| 0 <= i < before.len() implies !(#[trigger] before[i]).1 by {
            assert(before[i] == hands[i]);
        }
        lemma_some_hand_protects(before);
    }
}

/// There is a hand that protects first exactly when some hand protects.
pub proof fn lemma_some_hand_protects(hands: Seq<(Hand, bool)>)
    ensures
        first_protecting(hands) is Some <==> exists|i: int|
            0 <= i < hands.len() && (#[trigger] hands[i]).1,
        first_protecting(hands) matches Some(i) ==> 0 <= i < hands.len() && hands[i].1,
    decreases hands.len(),
{
    if hands.len() > 0 {
        let before = hands.drop_last();
        lemma_some_hand_protects(before);
        if first_protecting(before) is Some {
            let i = first_protecting(before)->0;
            assert(before[i] == hands[i]);
        }
        if exists|i: int| 0 <= i < hands.len() && (#[trigger] hands[i]).1 {
            let i = choose|i: int| 0 <= i < hands.len() && (#[trigger] hands[i]).1;
            if i < before.len() {
                assert(before[i] == hands[i]);
            }
        }
        if first_protecting(hands) is Some && first_protecting(before) is None {
            assert(hands[hands.len() - 1].1);
        }
    }
}

/// Wear is never less than 1, and below 8 points of damage it is no more.
pub proof fn lemma_small_wear(amount: Rank32)
    ensures
        wear_of(amount) >= 1,
        amount < 0x4100_0000 ==> wear_of(amount) == 1,
{
    if 0 < amount < 0x4100_0000 {
        let power = (2 - exponent32(amount)) as nat;
        lemma2_to64();
        if power > 23 {
            lemma_pow2_strictly_increases(23, power);
        }
        let digits = digits32(amount);
        let unit = pow2(power) as int;
        assert(digits / unit < 2) by (nonlinear_arith)
            requires
                0 <= digits < 0x100_0000,
                unit >= 0x80_0000,
        ;
    }
}

/// Law: the first hand that protects is the one that saves, with one point of health, 900 ticks
/// of regeneration, 100 of absorption and 800 of fire resistance. Where no hand protects nothing
/// happens.
pub proof fn law_first_totem_saves(
    entity: &mut LivingEntity,
    hands: Vec<(Hand, bool)>,
    in_world: bool,
    r: Option<TotemUse>,
    k: int,
)
    requires
        call_ensures(LivingEntity::try_use_death_protector, (entity, &hands, in_world), r),
    ensures
        (forall|i: int| 0 <= i < hands@.len() ==> !(#[trigger] hands@[i]).1) ==> r is None
            && *final(entity) == *old(entity),
        0 <= k < hands@.len() && hands@[k].1 && (forall|i: int|
            0 <= i < k ==> !(#[trigger] hands@[i]).1) ==> {
            let effects = effect_map(final(entity).active_effects@);
            &&& r is Some
            &&& r->0.hand == hands@[k].0
            &&& r->0.health == final(entity).health
            &&& old(entity).max_health >= 0x3F80_0000 ==> final(entity).health == 0x3F80_0000
            &&& final(entity).dead == old(entity).dead
            &&& effects.contains_key(StatusEffect::Regeneration)
            &&& effects[StatusEffect::Regeneration].duration == 900
            &&& effects[StatusEffect::Regeneration].amplifier == 1
            &&& effects.contains_key(StatusEffect::Absorption)
            &&& effects[StatusEffect::Absorption].duration == 100
            &&& effects[StatusEffect::Absorption].amplifier == 1
            &&& effects.contains_key(StatusEffect::FireResistance)
            &&& effects[StatusEffect::FireResistance].duration == 800
            &&& effects[StatusEffect::FireResistance].amplifier == 0
            &&& forall|kind: StatusEffect|
                kind != StatusEffect::Regeneration && kind != StatusEffect::Absorption && kind
                    != StatusEffect::FireResistance ==> #[trigger] effects.contains_key(kind)
                    == effect_map(old(entity).active_effects@).contains_key(kind)
        },
{
    lemma_some_hand_protects(hands@);
    if 0 <= k < hands@.len() && hands@[k].1 && (forall|i: int|
        0 <= i < k ==> !(#[trigger] hands@[i]).1) {
        lemma_first_hand_protects(hands@, k);
    }
}

/// Law: only a villager turns into a zombie villager, and only where a zombie, a husk, a
/// drowned, a zombie villager or a zombified piglin killed it in its world: always in a hard
/// game, by lot in a normal one, and never in an easier one.
pub proof fn law_who_turns(
    entity: &mut LivingEntity,
    killer: Option<EntityType>,
    difficulty: Difficulty,
    lot: bool,
    in_world: bool,
    r: Conversion,
)
    requires
        call_ensures(
            LivingEntity::convert_villager,
            (entity, killer, difficulty, lot, in_world),
            r,
        ),
    ensures
        r != Conversion::Dies <==> old(entity).entity_type == EntityType::Villager && in_world && (
        killer == Some(EntityType::Zombie) || killer == Some(EntityType::Husk) || killer == Some(
            EntityType::Drowned,
        ) || killer == Some(EntityType::ZombieVillager) || killer == Some(
            EntityType::ZombifiedPiglin,
        )) && (difficulty == Difficulty::Hard || difficulty == Difficulty::Normal && lot),
        r == Conversion::Converted ==> !old(entity).dead && final(entity).dead,
        r == Conversion::AlreadyHandled ==> old(entity).dead,
        r == Conversion::Dies ==> *final(entity) == *old(entity),
        *final(entity) == (LivingEntity { dead: final(entity).dead, ..*old(entity) }),
{
}

/// Law: the death of an entity in its world leaves its loot behind, exactly once, right after
/// the death is shown. The loot is that of the entity, and it counts who killed it, by what
/// means and in what weather.
pub proof fn law_death_drops_loot_once(
    entity: &mut LivingEntity,
    scene: DeathScene,
    steps: Vec<DeathStep>,
) -> (at: int)
    requires
        call_ensures(LivingEntity::on_death, (entity, &scene), steps),
        scene.in_world,
        !old(entity).dead,
    ensures
        1 <= at < steps@.len(),
        steps@[at - 1] == DeathStep::ShowDeath,
        steps@[at] is DropLoot,
        forall|i: int|
            0 <= i < steps@.len() && i != at ==> !((#[trigger] steps@[i]) is DropLoot),
        steps@[at]->DropLoot_0.this_entity == old(entity).entity_type,
        scene.cause is Some ==> steps@[at]->DropLoot_0.killer_entity == Some(
            scene.cause->0.entity_type,
        ),
        scene.cause is Some ==> steps@[at]->DropLoot_0.killed_by_player == Some(
            scene.cause->0.entity_type == EntityType::Player,
        ),
        scene.cause is None ==> steps@[at]->DropLoot_0.killer_entity is None
            && steps@[at]->DropLoot_0.killed_by_player is None,
        steps@[at]->DropLoot_0.direct_killer_entity == scene.source,
        steps@[at]->DropLoot_0.damage_type == scene.damage_type,
        steps@[at]->DropLoot_0.world_time == scene.day_time,
        steps@[at]->DropLoot_0.raining == scene.raining,
        steps@[at]->DropLoot_0.thundering == scene.thundering,
        steps@[at]->DropLoot_0.on_fire == scene.on_fire,
        steps@[at]->DropLoot_0.with_tool <==> scene.cause is Some && scene.cause->0.is_player
            && scene.cause->0.holds_item,
{
    let victim = old(entity).entity_type;
    let by_player = scene.cause is Some && scene.cause->0.entity_type == EntityType::Player;
    let loot = DeathStep::DropLoot(scene.spec_loot_scene(victim));
    let before = seq![DeathStep::EmitDeathVibration] + seq![DeathStep::ClearMovementInput]
        + scene.victim_steps() + scene.killer_steps(victim) + seq![DeathStep::ShowDeath];
    let after = only_if(
        by_player && scene.mob_drops && scene.experience > 0,
        (DeathStep::SpawnExperience { amount: scene.experience }),
    ) + seq![DeathStep::TakeDyingPose] + seq![
        DeathStep::DropEquipment { looting: scene.spec_looting() as u32 },
    ] + only_if(
        victim == EntityType::Player && scene.show_death_messages,
        DeathStep::AnnounceDeath,
    ) + seq![DeathStep::ResetEffects];
    assert(steps@ =~= before + seq![loot] + after);
    let at = before.len() as int;
    assert(steps@[at] == loot);
    assert(steps@[at - 1] == before[at - 1]);
    assert forall|i: int| 0 <= i < steps@.len() && i != at implies !((
    #[trigger] steps@[i]) is DropLoot) by {
        broadcast use crate::plan::lemma_plan_contains;
        broadcast use crate::plan::lemma_only_if_contains;
        broadcast use crate::plan::lemma_single_contains;

        if i < at {
            assert(before[i] == steps@[i]);
            assert(before.contains(before[i]));
        } else {
            assert(after[i - at - 1] == steps@[i]);
            assert(after.contains(after[i - at - 1]));
        }
    }
    at
}

/// Law: a player's death is counted, with what killed it. A kill is counted for the player behind
/// it, as that of a player or of a mob, with the advancements for a skeleton from afar, for a
/// phantom and for a crossbow. All that is part of what the death asks for.
pub proof fn law_death_is_counted(
    entity: LivingEntity,
    scene: DeathScene,
    steps: Vec<DeathStep>,
    kind: EntityType,
)
    requires
        call_ensures(LivingEntity::update_death_stats, (&entity, &scene), steps),
    ensures
        ({
            let by_player = scene.cause is Some && scene.cause->0.is_player;
            let mob_kill = by_player && !scene.victim_is_player;
            &&& steps@.contains(DeathStep::CountForVictim(DeathStat::Deaths))
                <==> scene.victim_is_player
            &&& steps@.contains(DeathStep::ResetTimeSinceDeath) <==> scene.victim_is_player
            &&& steps@.contains(DeathStep::CountForVictim(DeathStat::KilledBy(kind)))
                <==> scene.victim_is_player && scene.cause is Some && scene.cause->0.entity_type
                == kind
            &&& steps@.contains(DeathStep::CountForKiller(DeathStat::PlayerKills)) <==> by_player
                && scene.victim_is_player
            &&& steps@.contains(DeathStep::CountForKiller(DeathStat::MobKills)) <==> mob_kill
            &&& steps@.contains(DeathStep::CountForKiller(DeathStat::Killed(kind))) <==> by_player
                && kind == entity.entity_type
            &&& steps@.contains(DeathStep::TriggerKilledEntity(kind)) <==> mob_kill && kind == entity.entity_type
            &&& steps@.contains(DeathStep::TriggerSniperDuel) <==> mob_kill && entity.entity_type == EntityType::Skeleton && scene.cause->0.far_away
            &&& steps@.contains(DeathStep::TriggerTwoBirdsOneArrow) <==> mob_kill && entity.entity_type == EntityType::Phantom
            &&& steps@.contains(DeathStep::TriggerArbalistic) <==> mob_kill
                && scene.cause->0.holds_crossbow
        }),
        forall|step: DeathStep| #[trigger]
            steps@.contains(step) && scene.in_world && !entity.dead ==> entity.spec_death_plan(
                scene,
            ).contains(step),
{
    broadcast use crate::plan::lemma_plan_contains;
    broadcast use crate::plan::lemma_only_if_contains;
    broadcast use crate::plan::lemma_single_contains;

}

/// Law: what the death of an entity in its world asks for. The death of a player is told.
/// Experience comes of a kill by a player alone, where mobs leave anything behind. Equipment is
/// left with the looting of a player, and in the end all effects are gone.
#[verifier::rlimit(80)]
pub proof fn law_steps_of_a_death(
    entity: &mut LivingEntity,
    scene: DeathScene,
    steps: Vec<DeathStep>,
    amount: i32,
    looting: u32,
)
    requires
        call_ensures(LivingEntity::on_death, (entity, &scene), steps),
        scene.in_world,
        !old(entity).dead,
    ensures
        ({
            let by_player = scene.cause is Some && scene.cause->0.is_player;
            &&& steps@[0] == DeathStep::EmitDeathVibration
            &&& steps@[1] == DeathStep::ClearMovementInput
            &&& steps@.contains(DeathStep::SpawnExperience { amount }) <==> scene.cause is Some
                && scene.cause->0.entity_type == EntityType::Player && scene.mob_drops && amount
                == scene.experience && amount > 0
            &&& steps@.contains(DeathStep::TakeDyingPose)
            &&& steps@.contains(DeathStep::DropEquipment { looting }) <==> looting == (if by_player
                && scene.cause->0.looting > 0 {
                scene.cause->0.looting as int
            } else {
                0
            })
            &&& steps@.contains(DeathStep::AnnounceDeath) <==> old(entity).entity_type
                == EntityType::Player && scene.show_death_messages
            &&& steps@.last() == DeathStep::ResetEffects
        }),
{
    broadcast use crate::plan::lemma_plan_contains;
    broadcast use crate::plan::lemma_only_if_contains;
    broadcast use crate::plan::lemma_single_contains;

}

/// Law: after its death an entity counts as dead. In its world it no longer jumps and stays for
/// now; outside it is removed at once, as discarded unless it had been removed before. Its health
/// and all else stay as they were.
pub proof fn law_what_a_death_leaves_of_the_entity(
    entity: &mut LivingEntity,
    scene: DeathScene,
    steps: Vec<DeathStep>,
)
    requires
        call_ensures(LivingEntity::on_death, (entity, &scene), steps),
    ensures
        final(entity).dead,
        scene.in_world ==> final(entity).removed == old(entity).removed && final(entity).removal_reason == old(entity).removal_reason,
        scene.in_world && !old(entity).dead ==> !final(entity).jumping,
        !scene.in_world ==> final(entity).removed && steps@.len() == 0,
        !scene.in_world && !old(entity).removed ==> final(entity).removal_reason == Some(
            RemovalReason::Discarded,
        ),
        !scene.in_world && old(entity).removed ==> final(entity).removal_reason == old(entity).removal_reason,
        old(entity).dead ==> steps@.len() == 0,
        *final(entity) == (LivingEntity {
            dead: true,
            jumping: final(entity).jumping,
            removed: final(entity).removed,
            removal_reason: final(entity).removal_reason,
            ..*old(entity)
        }),
{
}

/// Law: what a death counts for is the same whoever asks: a player's death for the player, and a
/// kill for the player behind it, once each.
pub proof fn law_death_is_counted_for_players_alone(
    entity: LivingEntity,
    scene: DeathScene,
    steps: Vec<DeathStep>,
)
    requires
        call_ensures(LivingEntity::update_death_stats, (&entity, &scene), steps),
    ensures
        !scene.victim_is_player && !(scene.cause is Some && scene.cause->0.is_player)
            ==> steps@.len() == 0,
        scene.victim_is_player && scene.cause is None ==> steps@.len() == 2,
        scene.victim_is_player ==> steps@.len() >= 2 && steps@[0] == DeathStep::CountForVictim(
            DeathStat::Deaths,
        ),
        scene.cause is Some && scene.cause->0.is_player ==> steps@.len() >= 2 && steps@.last()
            == DeathStep::CountForKiller(DeathStat::Killed(entity.entity_type)),
        scene.victim_is_player && scene.cause is Some && scene.cause->0.is_player ==> steps@.len()
            == 5,
{
}

/// Law: every item that a death leaves behind was in one of the places, and won its roll against
/// its chance, which counts for 1 at most. An item that can take more than 3 damage has some of
/// it left to take.
pub proof fn law_dropped_items_won_their_roll(
    candidates: Vec<DropCandidate>,
    drops: Vec<EquipmentDrop>,
    k: int,
)
    requires
        call_ensures(LivingEntity::drop_equipment, (&candidates,), drops),
    ensures
        0 <= k < drops@.len() ==> exists|i: int|
            {
                &&& 0 <= i < candidates@.len()
                &&& (#[trigger] candidates@[i]).slot == drops@[k].slot
                &&& !candidates@[i].empty
                &&& candidates@[i].roll < candidates@[i].chance
                &&& candidates@[i].roll < 0x3F80_0000
                &&& candidates@[i].max_damage is Some <==> drops@[k].damage is Some
                &&& candidates@[i].max_damage is Some && candidates@[i].max_damage->0 > 3 ==> 4
                    <= drops@[k].damage->0 <= candidates@[i].max_damage->0
                &&& candidates@[i].max_damage is Some && 0 <= candidates@[i].max_damage->0 <= 3
                    ==> drops@[k].damage == candidates@[i].max_damage
            },
        drops@.len() <= candidates@.len(),
        (forall|i: int|
            0 <= i < candidates@.len() ==> !(#[trigger] candidates@[i]).empty && candidates@[i].roll
                < candidates@[i].chance && candidates@[i].roll < 0x3F80_0000) ==> drops@.len()
            == candidates@.len(),
{
    lemma_dropped_are_candidates(candidates@);
    if 0 <= k < drops@.len() {
        assert(drop_of(drops@[k], dropped(candidates@)[k]));
        assert(candidates@.contains(dropped(candidates@)[k]));
        let i = choose|i: int|
            0 <= i < candidates@.len() && candidates@[i] == dropped(candidates@)[k];
        assert(candidates@[i].slot == drops@[k].slot);
    }
}

/// What stays behind is some of the candidates, each of which drops; it is all of them where all
/// drop.
proof fn lemma_dropped_are_candidates(candidates: Seq<DropCandidate>)
    ensures
        dropped(candidates).len() <= candidates.len(),
        forall|k: int|
            0 <= k < dropped(candidates).len() ==> candidates.contains(
                #[trigger] dropped(candidates)[k],
            ) && dropped(candidates)[k].spec_drops(),
        (forall|i: int| 0 <= i < candidates.len() ==> (#[trigger] candidates[i]).spec_drops())
            ==> dropped(candidates).len() == candidates.len(),
    decreases candidates.len(),
{
    reveal(Seq::filter);
    if candidates.len() > 0 {
        let before = candidates.drop_last();
        lemma_dropped_are_candidates(before);
        let rest = dropped(before);
        assert(dropped(candidates) == if candidates.last().spec_drops() {
            rest.push(candidates.last())
        } else {
            rest
        });
        assert forall|k: int| 0 <= k < dropped(candidates).len() implies candidates.contains(
            #[trigger] dropped(candidates)[k],
        ) && dropped(candidates)[k].spec_drops() by {
            if k < rest.len() {
                assert(rest[k] == dropped(candidates)[k]);
                let i = choose|i: int| 0 <= i < before.len() && before[i] == rest[k];
                assert(candidates[i] == rest[k]);
            } else {
                assert(candidates[candidates.len() - 1] == dropped(candidates)[k]);
            }
        }
        if forall|i: int| 0 <= i < candidates.len() ==> (#[trigger] candidates[i]).spec_drops() {
            assert(candidates[candidates.len() - 1].spec_drops());
            assert forall|i: int| 0 <= i < before.len() implies (
            #[trigger] before[i]).spec_drops() by {
                assert(candidates[i] == before[i]);
            }
        }
    }
}

/// Law: silverfish come out of an infested entity alone, in one hurt of ten, and never out of a
/// wither, an ender dragon or another silverfish.
pub proof fn law_silverfish_come_out_of_the_infested(
    entity: LivingEntity,
    roll: Rank32,
    drawn: i32,
    r: i32,
)
    requires
        call_ensures(LivingEntity::silverfish_count, (&entity, roll, drawn), r),
        drawn != 0,
    ensures
        r != 0 <==> roll <= 0x3DCC_CCCD && entity.entity_type != EntityType::Wither
            && entity.entity_type != EntityType::EnderDragon && entity.entity_type
            != EntityType::Silverfish && exists|i: int|
            0 <= i < entity.active_effects@.len() && (
            #[trigger] entity.active_effects@[i]).effect_type == StatusEffect::Infested,
        r != 0 ==> r == drawn,
{
}

/// Law: a hit on armour breaks what it breaks in the sight of the players around, tells a player
/// of each piece that it wore, and sends just the places of the pieces that it wore.
pub proof fn law_worn_pieces_are_shown(
    wear: Vec<ArmorWear>,
    is_player: bool,
    r: (Vec<ArmorStep>, Vec<EquipmentSlot>),
    slot: EquipmentSlot,
    slot_index: i32,
)
    requires
        call_ensures(LivingEntity::damage_armor_items, (&wear, is_player), r),
    ensures
        r.1@.contains(slot) <==> exists|i: int|
            0 <= i < wear@.len() && (#[trigger] wear@[i]).slot == slot && wear@[i].result
                != DamageResult::Untouched,
        r.0@.contains((ArmorStep::ShowBreak { slot })) <==> exists|i: int|
            0 <= i < wear@.len() && (#[trigger] wear@[i]).slot == slot && wear@[i].result
                == DamageResult::Broken,
        r.0@.contains((ArmorStep::SendSlot { slot_index, slot })) <==> is_player && exists|i: int|
            0 <= i < wear@.len() && (#[trigger] wear@[i]).slot == slot && wear@[i].slot_index
                == slot_index && wear@[i].result != DamageResult::Untouched,
{
    lemma_wear_is_shown(wear@, is_player, slot, slot_index);
}

/// What the wear asks for is what its pieces ask for.
proof fn lemma_wear_is_shown(
    wear: Seq<ArmorWear>,
    is_player: bool,
    slot: EquipmentSlot,
    slot_index: i32,
)
    ensures
        worn_slots(wear).contains(slot) <==> exists|i: int|
            0 <= i < wear.len() && (#[trigger] wear[i]).slot == slot && wear[i].result
                != DamageResult::Untouched,
        wear_steps(wear, is_player).contains((ArmorStep::ShowBreak { slot })) <==> exists|i: int|
            0 <= i < wear.len() && (#[trigger] wear[i]).slot == slot && wear[i].result
                == DamageResult::Broken,
        wear_steps(wear, is_player).contains((ArmorStep::SendSlot { slot_index, slot }))
            <==> is_player && exists|i: int|
            0 <= i < wear.len() && (#[trigger] wear[i]).slot == slot && wear[i].slot_index
                == slot_index && wear[i].result != DamageResult::Untouched,
    decreases wear.len(),
{
    broadcast use crate::plan::lemma_plan_contains;
    broadcast use crate::plan::lemma_only_if_contains;

    if wear.len() > 0 {
        let before = wear.drop_last();
        lemma_wear_is_shown(before, is_player, slot, slot_index);
        assert forall|i: int| 0 <= i < before.len() implies before[i] == #[trigger] wear[i] by {}
        assert(wear[wear.len() - 1] == wear.last());
        assert forall|i: int| 0 <= i < before.len() implies wear[i] == #[trigger] before[i] by {}
    }
}

/// Law: the hand armour of a hit is worn by 1 at least, by 1 alone below 8 points of damage, and
/// else by a quarter of the damage: of the digits of the number that tells it, as many as are
/// left once two more binary places are cut off.
pub proof fn law_armor_wears_by_a_quarter(amount: Rank32, r: i32)
    requires
        call_ensures(armor_wear, (amount,), r),
    ensures
        r >= 1,
        amount < 0x4100_0000 ==> r == 1,
        0x4100_0000 <= amount < 0x4B80_0000 ==> {
            let digits = amount as int % 0x80_0000 + 0x80_0000;
            let unit = pow2((152 - amount as int / 0x80_0000) as nat) as int;
            r * unit <= digits < (r + 1) * unit
        },
{
    lemma_small_wear(amount);
    if 0x4100_0000 <= amount < 0x4B80_0000 {
        let digits = digits32(amount);
        let power = (2 - exponent32(amount)) as nat;
        let unit = pow2(power) as int;
        lemma2_to64();
        assert(1 <= power <= 22);
        if power < 22 {
            lemma_pow2_strictly_increases(power, 22);
        }
        if power > 1 {
            lemma_pow2_strictly_increases(1, power);
        }
        assert(digits / unit * unit <= digits < (digits / unit + 1) * unit && digits / unit >= 1
            && digits / unit <= digits) by (nonlinear_arith)
            requires
                unit > 0,
                unit <= 0x40_0000,
                digits >= 0x80_0000,
        ;
    }
}

/// Law: a death by a fall is told as an accident, one by design in brackets, and one with
/// somebody behind it names that somebody; these are the only differences.
pub proof fn law_announcement_names_the_killer(
    message_type: DeathMessageType,
    message_id: &str,
    has_source: bool,
    has_cause: bool,
    r: DeathMessage,
)
    requires
        call_ensures(
            LivingEntity::get_death_message,
            (message_type, message_id, has_source, has_cause),
            r,
        ),
    ensures
        r.names_cause ==> has_cause && has_source && message_type == DeathMessageType::Default,
        message_type == DeathMessageType::Default && has_cause && has_source ==> r.names_cause
            && r.key@ == "death.attack."@ + message_id@ + ".player"@,
        message_type == DeathMessageType::Default && !(has_cause && has_source) ==> r.key@
            == "death.attack."@ + message_id@,
        message_type == DeathMessageType::FallVariants ==> r.key@
            == "death.fell.accident.generic"@,
        message_type == DeathMessageType::IntentionalGameDesign <==> r.in_brackets,
        r.in_brackets ==> r.key@ == "death.attack."@ + message_id@ + ".message"@,
{
}

/// Law: a killed villager turns always in a hard game, by lot in a normal one, and never in another.
pub proof fn law_lots_turn_villagers(difficulty: Difficulty, lot: bool, r: bool)
    requires
        call_ensures(villager_turns, (difficulty, lot), r),
    ensures
        difficulty == Difficulty::Hard ==> r,
        difficulty == Difficulty::Normal ==> r == lot,
        difficulty == Difficulty::Easy || difficulty == Difficulty::Peaceful ==> !r,
{
}

/// Law: whoever draws the lot, only a villager that a zombie killed in its world turns, in every case in
/// a hard game and never in an easy or peaceful one; it then is dead.
pub proof fn law_drawn_lots_turn_villagers(
    entity: &mut LivingEntity,
    killer: Option<EntityType>,
    difficulty: Difficulty,
    in_world: bool,
    r: Conversion,
)
    requires
        call_ensures(
            LivingEntity::try_convert_villager_on_zombie_kill,
            (entity, killer, difficulty, in_world),
            r,
        ),
    ensures
        r != Conversion::Dies ==> old(entity).entity_type == EntityType::Villager && in_world && (
        killer == Some(EntityType::Zombie) || killer == Some(EntityType::Husk) || killer == Some(
            EntityType::Drowned,
        ) || killer == Some(EntityType::ZombieVillager) || killer == Some(
            EntityType::ZombifiedPiglin,
        )) && (difficulty == Difficulty::Hard || difficulty == Difficulty::Normal),
        difficulty == Difficulty::Hard && old(entity).entity_type == EntityType::Villager
            && in_world && (killer == Some(EntityType::Zombie) || killer == Some(EntityType::Husk)
            || killer == Some(EntityType::Drowned) || killer == Some(EntityType::ZombieVillager)
            || killer == Some(EntityType::ZombifiedPiglin)) ==> r != Conversion::Dies,
        r == Conversion::Converted ==> !old(entity).dead && final(entity).dead,
        r == Conversion::AlreadyHandled ==> old(entity).dead,
        *final(entity) == (LivingEntity { dead: final(entity).dead, ..*old(entity) }),
        r == Conversion::Dies ==> *final(entity) == *old(entity),
{
}

/// Law: all that is worn may stay behind, in its order, and the main hand comes last.
pub proof fn law_main_hand_drops_last(
    equipment: Vec<EquipmentSlot>,
    slots: Vec<EquipmentSlot>,
    i: int,
)
    requires
        call_ensures(slots_to_drop, (&equipment,), slots),
    ensures
        slots@.len() == equipment@.len() + 1,
        0 <= i < equipment@.len() ==> slots@[i] == equipment@[i],
        slots@[equipment@.len() as int] == EquipmentSlot::MainHand,
{
}

/// Law: an item stays behind just where there is one, and where its roll is below both its chance and 1.
/// Its damage is what the draw leaves of what it can take, and not below 0.
pub proof fn law_items_stay_behind_by_their_chance(
    candidate: DropCandidate,
    r: bool,
    max_damage: i32,
    drawn: i32,
    damage: i32,
)
    requires
        call_ensures(DropCandidate::drops, (&candidate,), r),
        call_ensures(dropped_damage, (max_damage, drawn), damage),
    ensures
        r <==> !candidate.empty && candidate.roll < candidate.chance && candidate.roll
            < 0x3F80_0000,
        damage >= 0,
        max_damage >= drawn ==> damage + drawn == max_damage,
        max_damage < drawn ==> damage == 0,
{
}

/// Law: one or two silverfish come out of an infested entity, in one hurt of ten, and none out of any
/// other, out of a wither, an ender dragon or another silverfish.
pub proof fn law_one_or_two_silverfish_come_out(entity: LivingEntity, roll: Rank32, r: i32)
    requires
        call_ensures(LivingEntity::try_spawn_infested_silverfish, (&entity, roll), r),
    ensures
        0 <= r <= 2,
        r != 0 <==> roll <= 0x3DCC_CCCD && entity.entity_type != EntityType::Wither
            && entity.entity_type != EntityType::EnderDragon && entity.entity_type
            != EntityType::Silverfish && exists|i: int|
            0 <= i < entity.active_effects@.len() && (
            #[trigger] entity.active_effects@[i]).effect_type == StatusEffect::Infested,
{
}

/// Law: a hit wears every item that is there, but for one that says that it takes no damage so.
pub proof fn law_what_a_hit_wears(empty: bool, damage_on_hurt: Option<bool>, r: bool)
    requires
        call_ensures(armor_takes_wear, (empty, damage_on_hurt), r),
    ensures
        empty ==> !r,
        !empty && damage_on_hurt is None ==> r,
        !empty && damage_on_hurt is Some ==> r == damage_on_hurt->0,
{
}

} // verus!
