//! The life of a living entity, tick by tick.
//!
//! A tick goes through phases. In each one [`LivingEntity::tick`] reads the
//! entity as the phases before have left it, and returns what to do before the
//! next phase.

use vstd::prelude::*;

use super::effects::{acting_effects, aged, expired_kinds, removal_steps, EffectStep};
use super::equipment::{active_hand_flags, HandSync};
use super::{LivingEntity, RemovalReason};
use crate::data::damage_type::DamageType;
use crate::data::effect::{Effect, StatusEffect};
use crate::data::entity_type::EntityType;
use crate::data::equipment::Hand;
use crate::data::position::BlockPos;
use crate::data::rank::Rank32;
use crate::plan::{only_if, push_if, push_plan, push_step};

verus! {

/// The tick of its death animation at which a dead entity is removed.
pub const DEATH_ANIMATION_TICKS: u8 = 20;

/// What the void does each tick: 4.0 of damage.
pub const VOID_DAMAGE: Rank32 = 0x4080_0000;

/// How many ticks an entity is spared after it came back to life.
pub const RESPAWN_GRACE: i32 = 20;

impl LivingEntity {
    /// The number of the entity.
    pub fn entity_id(&self) -> (r: i32)
        ensures
            r == self.entity_id,
    {
        self.entity_id
    }

    /// The entity has some health, has not died and has not left the world.
    pub open spec fn spec_is_alive(self) -> bool {
        self.health > 0 && !self.dead && self.removal_reason is None
    }

    /// Whether the entity is alive. A corpse stays in the world for its death
    /// animation, but it is not alive.
    pub fn is_alive(&self) -> (r: bool)
        ensures
            r == self.spec_is_alive(),
    {
        self.health > 0 && !self.dead && self.removal_reason.is_none()
    }

    /// Whether the entity takes part in the game: alive, and no spectator.
    pub fn is_part_of_game(&self) -> (r: bool)
        ensures
            r == (!self.spectator && self.spec_is_alive()),
    {
        !self.spectator && self.is_alive()
    }

    /// Whether the entity can take damage.
    pub fn can_take_damage(&self) -> (r: bool)
        ensures
            r == (!self.invulnerable && !self.spectator && self.spec_is_alive()),
    {
        !self.invulnerable && self.is_part_of_game()
    }

    /// Whether other entities can push the entity.
    pub fn is_pushable(&self) -> (r: bool)
        ensures
            r == (self.health > 0 && !self.dead),
    {
        self.health > 0 && !self.dead
    }

    /// What the void does to the entity each tick.
    pub fn tick_in_void(&self) -> (r: (Rank32, DamageType))
        ensures
            r == (VOID_DAMAGE, DamageType::OutOfWorld),
    {
        (VOID_DAMAGE, DamageType::OutOfWorld)
    }
}

// ---------------------------------------------------------------------------
// Coming back to life.
// ---------------------------------------------------------------------------

impl LivingEntity {
    /// Brings the entity back to life, with all its health and without effects.
    /// Returns the health to send, twice, and then what the lost effects ask for;
    /// what follows is to forget portals, fire and all motion, and to start the
    /// hunger of a player anew.
    pub fn reset_state(&mut self) -> (r: (Rank32, Vec<EffectStep>))
        requires
            old(self).wf(),
        ensures
            final(self).wf(),
            r.0 == old(self).max_health,
            r.1@ == removal_steps(old(self).active_effects@),
            final(self).active_effects@ == Seq::<Effect>::empty(),
            *final(self) == (LivingEntity {
                health: old(self).max_health,
                absorption: 0,
                active_effects: final(self).active_effects,
                hurt_cooldown: RESPAWN_GRACE,
                last_damage_taken: 0,
                fall_distance: 0,
                death_time: 0,
                jumping: false,
                dead: false,
                ..*old(self)
            }),
    {
        let max_health: Rank32 = self.get_max_health();
        let sent: Rank32 = self.set_health(max_health);
        self.absorption = 0;
        let steps: Vec<EffectStep> = self.reset_effects_and_attributes();
        self.hurt_cooldown = RESPAWN_GRACE;
        self.last_damage_taken = 0;
        self.fall_distance = 0;
        self.death_time = 0;
        self.jumping = false;
        self.dead = false;
        (sent, steps)
    }
}

/// Law: an entity with some health to have, that has not left the world, is alive
/// once it has been brought back to life, whatever it died of.
pub proof fn law_reset_entity_is_alive(before: LivingEntity, after: LivingEntity)
    requires
        before.max_health > 0,
        before.removal_reason is None,
        after == (LivingEntity {
            health: before.max_health,
            absorption: 0,
            active_effects: after.active_effects,
            hurt_cooldown: RESPAWN_GRACE,
            last_damage_taken: 0,
            fall_distance: 0,
            death_time: 0,
            jumping: false,
            dead: false,
            ..before
        }),
    ensures
        after.spec_is_alive(),
{
}

// ---------------------------------------------------------------------------
// The end of using an item.
// ---------------------------------------------------------------------------

/// Foods with effects of their own.
#[derive(Clone, Copy, Debug, PartialEq, Eq, Structural)]
pub enum FoodKind {
    GoldenApple,
    EnchantedGoldenApple,
    Ordinary,
}

/// What the rules read of an item whose use is over.
#[derive(Clone, Copy, Debug, PartialEq, Eq, Structural)]
pub struct UsedItem {
    /// What kind of food it is, where it is food.
    pub food: Option<FoodKind>,
    pub potion: bool,
    /// Whether the stack in the main hand is of the item.
    pub in_main_hand: bool,
    /// Whether the stack in the off hand is of the item.
    pub in_off_hand: bool,
    /// Whether using the item keeps a player from using it again for some time.
    pub has_cooldown: bool,
}

/// An effect of food: seen by its particles and its icon.
pub open spec fn food_effect(kind: StatusEffect, amplifier: u8, duration: i32) -> Effect {
    Effect {
        effect_type: kind,
        duration,
        amplifier,
        ambient: false,
        show_particles: true,
        show_icon: true,
        blend: false,
    }
}

/// The effects of a kind of food.
pub open spec fn food_effects(food: FoodKind) -> Seq<Effect> {
    match food {
        FoodKind::GoldenApple => seq![
            food_effect(StatusEffect::Regeneration, 1, 100),
            food_effect(StatusEffect::Absorption, 0, 2400),
        ],
        FoodKind::EnchantedGoldenApple => seq![
            food_effect(StatusEffect::Regeneration, 1, 400),
            food_effect(StatusEffect::Absorption, 3, 2400),
            food_effect(StatusEffect::Resistance, 0, 6000),
            food_effect(StatusEffect::FireResistance, 0, 6000),
        ],
        FoodKind::Ordinary => Seq::empty(),
    }
}

/// What a tick asks the world to do.
#[derive(Clone, Copy, Debug, PartialEq, Eq, Structural)]
pub enum TickStep {
    /// Lets the tick go by for what all entities have in common.
    TickEntity,
    TickMovement,
    TickFrozen,
    PushEntities,
    SendPosition,
    /// Tells a block that the entity stands on it.
    StepOn { pos: BlockPos, below: bool },
    RemoveEffect { kind: StatusEffect },
    ApplyEffect { kind: StatusEffect, amplifier: u8 },
    /// Feeds the player with the item.
    Eat,
    AddEffect { effect: Effect },
    /// Gives the entity the effects of the potion.
    DrinkPotion,
    /// The advancement for using up an item.
    TriggerConsumeItem,
    /// Takes one item off the stack in the hand. A potion leaves a glass bottle in
    /// the place of its last one.
    TakeOne { hand: Hand, leaves_bottle: bool },
    StartCooldown,
    SyncHand { sync: HandSync },
    ShowDeath,
    RemoveEntity,
}

/// Each effect as a step.
pub open spec fn add_steps(effects: Seq<Effect>) -> Seq<TickStep> {
    effects.map_values(|effect: Effect| TickStep::AddEffect { effect })
}

/// An effect of food.
fn make_food_effect(kind: StatusEffect, amplifier: u8, duration: i32) -> (r: TickStep)
    ensures
        r == (TickStep::AddEffect { effect: food_effect(kind, amplifier, duration) }),
{
    TickStep::AddEffect {
        effect: Effect {
            effect_type: kind,
            duration,
            amplifier,
            ambient: false,
            show_particles: true,
            show_icon: true,
            blend: false,
        },
    }
}

/// The effects of a kind of food, as steps.
fn food_steps(food: FoodKind) -> (steps: Vec<TickStep>)
    ensures
        steps@ == add_steps(food_effects(food)),
{
    let mut steps: Vec<TickStep> = Vec::new();
    match food {
        FoodKind::GoldenApple => {
            steps.push(make_food_effect(StatusEffect::Regeneration, 1, 100));
            steps.push(make_food_effect(StatusEffect::Absorption, 0, 2400));
        },
        FoodKind::EnchantedGoldenApple => {
            steps.push(make_food_effect(StatusEffect::Regeneration, 1, 400));
            steps.push(make_food_effect(StatusEffect::Absorption, 3, 2400));
            steps.push(make_food_effect(StatusEffect::Resistance, 0, 6000));
            steps.push(make_food_effect(StatusEffect::FireResistance, 0, 6000));
        },
        FoodKind::Ordinary => {},
    }
    assert(steps@ =~= add_steps(food_effects(food)));
    steps
}

/// The hand that an item is taken from: the main hand if it holds the item, else
/// the off hand if that does, else the active hand, and else the main hand.
pub open spec fn consuming_hand(item: UsedItem, active_hand: Option<Hand>) -> Hand {
    if item.in_main_hand {
        Hand::Right
    } else if item.in_off_hand {
        Hand::Left
    } else {
        match active_hand {
            Some(hand) => hand,
            None => Hand::Right,
        }
    }
}

/// What using up the item asks for, before the hand is free again.
pub open spec fn consume_steps(
    item: UsedItem,
    is_player: bool,
    creative: bool,
    active_hand: Option<Hand>,
) -> Seq<TickStep> {
    let eaten = is_player && item.food is Some;
    only_if(eaten, TickStep::Eat) + (if eaten {
        add_steps(food_effects(item.food->0))
    } else {
        Seq::empty()
    }) + only_if(item.potion, TickStep::DrinkPotion) + only_if(
        is_player,
        TickStep::TriggerConsumeItem,
    ) + only_if(
        is_player && !creative,
        (TickStep::TakeOne {
            hand: consuming_hand(item, active_hand),
            leaves_bottle: item.potion,
        }),
    ) + only_if(is_player && item.has_cooldown, TickStep::StartCooldown)
}

/// What using up the item asks for.
fn consume(item: &UsedItem, is_player: bool, creative: bool, active_hand: Option<Hand>) -> (steps:
    Vec<TickStep>)
    ensures
        steps@ == consume_steps(*item, is_player, creative, active_hand),
{
    let mut steps: Vec<TickStep> = Vec::new();
    if let Some(food) = item.food {
        if is_player {
            push_step(&mut steps, TickStep::Eat);
            let effects: Vec<TickStep> = food_steps(food);
            push_plan(&mut steps, effects);
        }
    }
    push_if(&mut steps, item.potion, TickStep::DrinkPotion);
    push_if(&mut steps, is_player, TickStep::TriggerConsumeItem);
    let hand: Hand = if item.in_main_hand {
        Hand::Right
    } else if item.in_off_hand {
        Hand::Left
    } else {
        match active_hand {
            Some(hand) => hand,
            None => Hand::Right,
        }
    };
    push_if(
        &mut steps,
        is_player && !creative,
        TickStep::TakeOne { hand, leaves_bottle: item.potion },
    );
    push_if(&mut steps, is_player && item.has_cooldown, TickStep::StartCooldown);
    assert(steps@ =~= consume_steps(*item, is_player, creative, active_hand));
    steps
}

// ---------------------------------------------------------------------------
// The phases of a tick.
// ---------------------------------------------------------------------------

/// A phase of a tick.
#[derive(Clone, Copy, Debug, PartialEq, Eq, Structural)]
pub enum TickPhase {
    /// What all entities have in common.
    Begin,
    /// Motion, frost and pushing.
    Motion,
    /// The blocks underfoot.
    Ground,
    /// Status effects.
    Effects,
    /// The item in use.
    Item,
    /// The counters.
    Counters,
}

/// The block that carries an entity.
#[derive(Clone, Copy, Debug, PartialEq, Eq, Structural)]
pub struct Support {
    pub pos: BlockPos,
    pub solid: bool,
}

/// What a tick reads of the world.
#[derive(Clone, Copy, Debug, PartialEq, Eq, Structural)]
pub struct TickView {
    pub is_player: bool,
    pub creative: bool,
    pub support: Option<Support>,
    /// The item in use.
    pub used: UsedItem,
}

/// The kinds of effects to remove and the effects to apply, as steps.
pub open spec fn effect_tick_steps(
    expired: Seq<StatusEffect>,
    acting: Seq<(StatusEffect, u8)>,
) -> Seq<TickStep> {
    expired.map_values(|kind: StatusEffect| TickStep::RemoveEffect { kind }) + acting.map_values(
        |act: (StatusEffect, u8)| TickStep::ApplyEffect { kind: act.0, amplifier: act.1 },
    )
}

/// The block below.
pub open spec fn below(pos: BlockPos) -> BlockPos {
    BlockPos { y: (pos.y - 1) as i32, ..pos }
}

impl LivingEntity {
    /// The entity moves: it lives, or it is in its death animation and no player.
    pub open spec fn spec_moves(self) -> bool {
        ||| !self.dead && self.health > 0
        ||| self.health <= 0 && self.death_time < DEATH_ANIMATION_TICKS && self.entity_type
            != EntityType::Player
    }

    /// What the phase for the blocks underfoot asks for.
    pub open spec fn ground_steps(self, view: TickView) -> Seq<TickStep> {
        only_if(!view.is_player, TickStep::SendPosition) + only_if(
            view.support is Some,
            (TickStep::StepOn { pos: view.support->0.pos, below: false }),
        ) + only_if(
            view.support is Some && !view.support->0.solid,
            (TickStep::StepOn { pos: below(view.support->0.pos), below: true }),
        )
    }

    /// The use of the item in use is over.
    pub open spec fn spec_use_is_over(self) -> bool {
        self.item_in_use is Some && self.item_use_time <= 0
    }

    /// The entity after the phase for the item in use.
    pub open spec fn spec_after_item(self) -> LivingEntity {
        if self.spec_use_is_over() {
            LivingEntity {
                item_use_time: 0,
                item_in_use: None,
                active_hand: None,
                livings_flags: active_hand_flags(self.livings_flags, None),
                ..self
            }
        } else if self.item_in_use is Some {
            LivingEntity { item_use_time: (self.item_use_time - 1) as i32, ..self }
        } else {
            self
        }
    }

    /// What the phase for the item in use asks for.
    pub open spec fn item_steps(self, view: TickView) -> Seq<TickStep> {
        if self.spec_use_is_over() {
            consume_steps(view.used, view.is_player, view.creative, self.active_hand).push(
                TickStep::SyncHand {
                    sync: HandSync {
                        send: true,
                        flags: active_hand_flags(self.livings_flags, None),
                        using_item: false,
                    },
                },
            )
        } else {
            Seq::empty()
        }
    }

    /// The entity is removed in this tick: its death animation is over.
    pub open spec fn spec_is_cleared_away(self) -> bool {
        self.health <= 0 && self.death_time == DEATH_ANIMATION_TICKS && !self.removed
    }

    /// The entity after the phase for the counters.
    pub open spec fn spec_after_counters(self) -> LivingEntity {
        LivingEntity {
            hurt_cooldown: if self.hurt_cooldown > 0 {
                (self.hurt_cooldown - 1) as i32
            } else {
                self.hurt_cooldown
            },
            death_time: if self.health > 0 {
                self.death_time
            } else if self.death_time == u8::MAX {
                0
            } else {
                (self.death_time + 1) as u8
            },
            removed: self.removed || self.spec_is_cleared_away(),
            removal_reason: if self.spec_is_cleared_away() {
                Some(RemovalReason::Killed)
            } else {
                self.removal_reason
            },
            ..self
        }
    }

    /// The entity after the phase for its effects.
    pub open spec fn spec_after_effects(self, after: LivingEntity) -> bool {
        &&& after.active_effects@ == self.active_effects@.map_values(|effect: Effect| aged(effect))
        &&& after == (LivingEntity { active_effects: after.active_effects, ..self })
    }

    /// What each phase of a tick asks for.
    pub open spec fn phase_steps(self, phase: TickPhase, view: TickView) -> Seq<TickStep> {
        match phase {
            TickPhase::Begin => seq![TickStep::TickEntity],
            TickPhase::Motion => if self.spec_moves() {
                seq![TickStep::TickMovement, TickStep::TickFrozen, TickStep::PushEntities]
            } else {
                Seq::empty()
            },
            TickPhase::Ground => self.ground_steps(view),
            TickPhase::Effects => effect_tick_steps(
                expired_kinds(self.active_effects@),
                acting_effects(self.active_effects@, self.age),
            ),
            TickPhase::Item => self.item_steps(view),
            TickPhase::Counters => if self.spec_is_cleared_away() {
                seq![TickStep::ShowDeath, TickStep::RemoveEntity]
            } else {
                Seq::empty()
            },
        }
    }

    /// The phase for status effects.
    fn tick_effects_phase(&mut self) -> (steps: Vec<TickStep>)
        requires
            old(self).wf(),
            forall|i: int|
                0 <= i < old(self).active_effects@.len() ==> #[trigger] old(
                    self,
                ).active_effects@[i].duration > i32::MIN,
        ensures
            final(self).wf(),
            old(self).spec_after_effects(*final(self)),
            steps@ == effect_tick_steps(
                expired_kinds(old(self).active_effects@),
                acting_effects(old(self).active_effects@, old(self).age),
            ),
    {
        let (expired, acting) = self.tick_effects();
        let mut steps: Vec<TickStep> = Vec::new();
        let mut i: usize = 0;
        while i < expired.len()
            invariant
                i <= expired@.len(),
                steps@ == expired@.take(i as int).map_values(
                    |kind: StatusEffect| TickStep::RemoveEffect { kind },
                ),
            decreases expired.len() - i,
        {
            steps.push(TickStep::RemoveEffect { kind: expired[i] });
            i = i + 1;
            assert(steps@ =~= expired@.take(i as int).map_values(
                |kind: StatusEffect| TickStep::RemoveEffect { kind },
            ));
        }
        assert(expired@.take(i as int) =~= expired@);
        let ghost removals = steps@;
        let mut k: usize = 0;
        assert(steps@ =~= removals + acting@.take(0).map_values(
            |act: (StatusEffect, u8)| TickStep::ApplyEffect { kind: act.0, amplifier: act.1 },
        ));
        while k < acting.len()
            invariant
                k <= acting@.len(),
                steps@ == removals + acting@.take(k as int).map_values(
                    |act: (StatusEffect, u8)| TickStep::ApplyEffect {
                        kind: act.0,
                        amplifier: act.1,
                    },
                ),
            decreases acting.len() - k,
        {
            let act: (StatusEffect, u8) = acting[k];
            steps.push(TickStep::ApplyEffect { kind: act.0, amplifier: act.1 });
            k = k + 1;
            assert(steps@ =~= removals + acting@.take(k as int).map_values(
                |act: (StatusEffect, u8)| TickStep::ApplyEffect { kind: act.0, amplifier: act.1 },
            ));
        }
        assert(acting@.take(k as int) =~= acting@);
        steps
    }

    /// The phase for the item in use.
    fn tick_item_phase(&mut self, view: &TickView) -> (steps: Vec<TickStep>)
        ensures
            *final(self) == old(self).spec_after_item(),
            steps@ == old(self).item_steps(*view),
    {
        let mut steps: Vec<TickStep> = Vec::new();
        if self.item_in_use.is_some() {
            if self.item_use_time <= 0 {
                steps = consume(&view.used, view.is_player, view.creative, self.active_hand);
                let sync: HandSync = self.clear_active_hand();
                steps.push(TickStep::SyncHand { sync });
            } else {
                self.item_use_time = self.item_use_time - 1;
            }
        }
        steps
    }

    /// The phase for the counters.
    fn tick_counters_phase(&mut self) -> (steps: Vec<TickStep>)
        ensures
            *final(self) == old(self).spec_after_counters(),
            steps@ == old(self).phase_steps(TickPhase::Counters, arbitrary()),
    {
        let mut steps: Vec<TickStep> = Vec::new();
        if self.hurt_cooldown > 0 {
            self.hurt_cooldown = self.hurt_cooldown - 1;
        }
        if self.health <= 0 {
            let time: u8 = self.death_time;
            self.death_time = time.wrapping_add(1);
            if time == DEATH_ANIMATION_TICKS && !self.removed {
                self.removed = true;
                self.removal_reason = Some(RemovalReason::Killed);
                steps.push(TickStep::ShowDeath);
                steps.push(TickStep::RemoveEntity);
            }
        }
        assert(steps@ =~= old(self).phase_steps(TickPhase::Counters, arbitrary()));
        steps
    }

    /// Lets one phase of a tick go by. Returns what to do now, and the phase that
    /// comes once that is done.
    pub fn tick(&mut self, phase: TickPhase, view: &TickView) -> (r: (
        Vec<TickStep>,
        Option<TickPhase>,
    ))
        requires
            old(self).wf(),
            phase == TickPhase::Ground ==> (view.support matches Some(support) ==> support.solid
                || support.pos.y > i32::MIN),
            phase == TickPhase::Effects ==> forall|i: int|
                0 <= i < old(self).active_effects@.len() ==> #[trigger] old(
                    self,
                ).active_effects@[i].duration > i32::MIN,
        ensures
            final(self).wf(),
            r.0@ == old(self).phase_steps(phase, *view),
            r.1 == match phase {
                TickPhase::Begin => Some(TickPhase::Motion),
                TickPhase::Motion => Some(TickPhase::Ground),
                TickPhase::Ground => Some(TickPhase::Effects),
                TickPhase::Effects => Some(TickPhase::Item),
                TickPhase::Item => Some(TickPhase::Counters),
                TickPhase::Counters => None,
            },
            match phase {
                TickPhase::Effects => old(self).spec_after_effects(*final(self)),
                TickPhase::Item => *final(self) == old(self).spec_after_item(),
                TickPhase::Counters => *final(self) == old(self).spec_after_counters(),
                _ => *final(self) == *old(self),
            },
    {
        let mut steps: Vec<TickStep> = Vec::new();
        match phase {
            TickPhase::Begin => {
                steps.push(TickStep::TickEntity);
                assert(steps@ =~= seq![TickStep::TickEntity]);
                (steps, Some(TickPhase::Motion))
            },
            TickPhase::Motion => {
                let alive: bool = !self.dead && self.health > 0;
                let dying: bool = self.health <= 0 && self.death_time < DEATH_ANIMATION_TICKS;
                if alive || (dying && self.entity_type != EntityType::Player) {
                    steps.push(TickStep::TickMovement);
                    steps.push(TickStep::TickFrozen);
                    steps.push(TickStep::PushEntities);
                }
                assert(steps@ =~= old(self).phase_steps(phase, *view));
                (steps, Some(TickPhase::Ground))
            },
            TickPhase::Ground => {
                push_if(&mut steps, !view.is_player, TickStep::SendPosition);
                if let Some(support) = view.support {
                    push_step(&mut steps, TickStep::StepOn { pos: support.pos, below: false });
                    if !support.solid {
                        let under: BlockPos = BlockPos {
                            x: support.pos.x,
                            y: support.pos.y - 1,
                            z: support.pos.z,
                        };
                        push_step(&mut steps, TickStep::StepOn { pos: under, below: true });
                    }
                }
                assert(steps@ =~= old(self).ground_steps(*view));
                (steps, Some(TickPhase::Effects))
            },
            TickPhase::Effects => (self.tick_effects_phase(), Some(TickPhase::Item)),
            TickPhase::Item => (self.tick_item_phase(view), Some(TickPhase::Counters)),
            TickPhase::Counters => (self.tick_counters_phase(), None),
        }
    }
}

// ---------------------------------------------------------------------------
// Laws.
// ---------------------------------------------------------------------------

/// The entity after its counters have gone on for some ticks.
pub open spec fn counters_after(entity: LivingEntity, ticks: nat) -> LivingEntity
    decreases ticks,
{
    if ticks == 0 {
        entity
    } else {
        counters_after(entity, (ticks - 1) as nat).spec_after_counters()
    }
}

/// Law: an entity that has just died is removed after its death animation, in the
/// twenty-first tick, and not before.
pub proof fn law_corpse_stays_for_its_animation(entity: LivingEntity, ticks: nat)
    requires
        entity.health <= 0,
        !entity.removed,
        entity.death_time == 0,
        ticks <= 21,
    ensures
        counters_after(entity, ticks).removed <==> ticks == 21,
        counters_after(entity, ticks).death_time == ticks,
        counters_after(entity, ticks).health == entity.health,
    decreases ticks,
{
    if ticks > 0 {
        law_corpse_stays_for_its_animation(entity, (ticks - 1) as nat);
    }
}

/// Law: an entity is removed at most once. Once it counts as removed it stays so,
/// and no tick asks for its removal again.
pub proof fn law_entity_is_removed_once(entity: LivingEntity, ticks: nat)
    requires
        entity.removed,
    ensures
        counters_after(entity, ticks).removed,
        !counters_after(entity, ticks).spec_is_cleared_away(),
        counters_after(entity, ticks).removal_reason == entity.removal_reason,
    decreases ticks,
{
    if ticks > 0 {
        law_entity_is_removed_once(entity, (ticks - 1) as nat);
    }
}

/// Law: a hurt cooldown of some ticks is over after as many ticks, and never falls
/// below 0.
pub proof fn law_hurt_cooldown_runs_down(entity: LivingEntity, ticks: nat)
    requires
        entity.hurt_cooldown >= 0,
    ensures
        counters_after(entity, ticks).hurt_cooldown == (if ticks >= entity.hurt_cooldown {
            0
        } else {
            entity.hurt_cooldown - ticks
        }),
    decreases ticks,
{
    if ticks > 0 {
        law_hurt_cooldown_runs_down(entity, (ticks - 1) as nat);
    }
}

/// Law: an entity is alive while it has health, has not died and has not left the world; a
/// spectator takes no part, an invulnerable one takes no damage, and nobody is pushed once dead.
pub proof fn law_who_is_alive(
    entity: LivingEntity,
    alive: bool,
    part: bool,
    damage: bool,
    pushable: bool,
)
    requires
        call_ensures(LivingEntity::is_alive, (&entity,), alive),
        call_ensures(LivingEntity::is_part_of_game, (&entity,), part),
        call_ensures(LivingEntity::can_take_damage, (&entity,), damage),
        call_ensures(LivingEntity::is_pushable, (&entity,), pushable),
    ensures
        alive <==> entity.health > 0 && !entity.dead && entity.removal_reason is None,
        part <==> alive && !entity.spectator,
        damage <==> part && !entity.invulnerable,
        alive ==> pushable,
        pushable ==> entity.health > 0 && !entity.dead,
{
}

/// Law: the void costs 4 points a tick, as damage that nothing protects from.
pub proof fn law_void_hurts(entity: LivingEntity, r: (Rank32, DamageType))
    requires
        call_ensures(LivingEntity::tick_in_void, (&entity,), r),
    ensures
        r.0 == 0x4080_0000,
        r.1 == DamageType::OutOfWorld,
{
}

/// Law: who comes back to life has all its health, no effects and no absorption, has forgotten its
/// fall and its last hit, and is spared for 20 ticks.
pub proof fn law_return_to_life(entity: &mut LivingEntity, r: (Rank32, Vec<EffectStep>))
    requires
        call_ensures(LivingEntity::reset_state, (entity,), r),
    ensures
        final(entity).health == old(entity).max_health,
        r.0 == old(entity).max_health,
        !final(entity).dead,
        final(entity).death_time == 0,
        final(entity).active_effects@.len() == 0,
        final(entity).absorption == 0,
        final(entity).fall_distance == 0,
        final(entity).last_damage_taken == 0,
        final(entity).hurt_cooldown == 20,
        !final(entity).jumping,
        final(entity).removal_reason == old(entity).removal_reason,
        final(entity).entity_id == old(entity).entity_id,
{
}

/// Law: a tick goes through its phases in their order: what all entities share, motion, the ground,
/// effects, the item in use, and the counters in the end.
pub proof fn law_phases_of_a_tick(
    entity: &mut LivingEntity,
    phase: TickPhase,
    view: TickView,
    r: (Vec<TickStep>, Option<TickPhase>),
)
    requires
        call_ensures(LivingEntity::tick, (entity, phase, &view), r),
    ensures
        phase == TickPhase::Begin ==> r.1 == Some(TickPhase::Motion) && r.0@ == seq![
            TickStep::TickEntity,
        ],
        phase == TickPhase::Motion ==> r.1 == Some(TickPhase::Ground),
        phase == TickPhase::Ground ==> r.1 == Some(TickPhase::Effects),
        phase == TickPhase::Effects ==> r.1 == Some(TickPhase::Item),
        phase == TickPhase::Item ==> r.1 == Some(TickPhase::Counters),
        phase == TickPhase::Counters ==> r.1 is None,
        phase == TickPhase::Begin || phase == TickPhase::Motion || phase == TickPhase::Ground
            ==> *final(entity) == *old(entity),
        final(entity).health == old(entity).health,
        phase == TickPhase::Motion ==> {
            let moves = old(entity).health > 0 && !old(entity).dead || old(entity).health <= 0
                && old(entity).death_time < 20 && old(entity).entity_type != EntityType::Player;
            &&& moves ==> r.0@ == seq![
                TickStep::TickMovement,
                TickStep::TickFrozen,
                TickStep::PushEntities,
            ]
            &&& !moves ==> r.0@.len() == 0
        },
{
}

/// Law: on the ground all but players tell where they are, and the block underfoot is told that it
/// is stepped on; where it is not solid the one below it is told too.
pub proof fn law_block_underfoot_is_told(
    entity: &mut LivingEntity,
    view: TickView,
    r: (Vec<TickStep>, Option<TickPhase>),
    pos: BlockPos,
    below: bool,
)
    requires
        call_ensures(LivingEntity::tick, (entity, TickPhase::Ground, &view), r),
    ensures
        r.0@.contains(TickStep::SendPosition) <==> !view.is_player,
        view.support is None ==> !r.0@.contains((TickStep::StepOn { pos, below })),
        view.support is Some ==> (r.0@.contains((TickStep::StepOn { pos, below: false })) <==> pos
            == view.support->0.pos),
        view.support is Some && view.support->0.solid ==> !r.0@.contains(
            (TickStep::StepOn { pos, below: true }),
        ),
        view.support is Some && !view.support->0.solid && view.support->0.pos.y > i32::MIN ==> (
        r.0@.contains((TickStep::StepOn { pos, below: true })) <==> pos.x == view.support->0.pos.x
            && pos.z == view.support->0.pos.z && pos.y == view.support->0.pos.y - 1),
{
    broadcast use crate::plan::lemma_plan_contains;
    broadcast use crate::plan::lemma_only_if_contains;

}

/// Law: an item in use is used up tick by tick. When its time is over the hand is free again and
/// the flags say so; until then only the time goes down, and nothing is asked for.
pub proof fn law_item_is_used_up(
    entity: &mut LivingEntity,
    view: TickView,
    r: (Vec<TickStep>, Option<TickPhase>),
)
    requires
        call_ensures(LivingEntity::tick, (entity, TickPhase::Item, &view), r),
    ensures
        old(entity).item_in_use is None ==> *final(entity) == *old(entity) && r.0@.len() == 0,
        old(entity).item_in_use is Some && old(entity).item_use_time > 0 ==> {
            &&& final(entity).item_use_time == old(entity).item_use_time - 1
            &&& final(entity).item_in_use == old(entity).item_in_use
            &&& final(entity).active_hand == old(entity).active_hand
            &&& r.0@.len() == 0
        },
        old(entity).item_in_use is Some && old(entity).item_use_time <= 0 ==> {
            &&& final(entity).item_in_use is None
            &&& final(entity).active_hand is None
            &&& final(entity).item_use_time == 0
            &&& r.0@.len() > 0
            &&& r.0@.last() is SyncHand
            &&& r.0@.last()->sync.send
            &&& !r.0@.last()->sync.using_item
            &&& r.0@.last()->sync.flags == final(entity).livings_flags
        },
{
}

/// Law: what using up an item asks for. A player eats food and drinks potions, one item is taken
/// unless it plays in creative mode, from the main hand before the off hand, a potion leaves its
/// bottle, and a cooldown starts where the item has one. Nobody else eats or loses the item.
pub proof fn law_used_item_is_taken(
    entity: &mut LivingEntity,
    view: TickView,
    r: (Vec<TickStep>, Option<TickPhase>),
    hand: Hand,
    leaves_bottle: bool,
)
    requires
        call_ensures(LivingEntity::tick, (entity, TickPhase::Item, &view), r),
        old(entity).item_in_use is Some,
        old(entity).item_use_time <= 0,
        view.used.food is None || view.used.food == Some(FoodKind::Ordinary),
    ensures
        r.0@.contains(TickStep::Eat) <==> view.is_player && view.used.food is Some,
        r.0@.contains(TickStep::DrinkPotion) <==> view.used.potion,
        r.0@.contains(TickStep::TriggerConsumeItem) <==> view.is_player,
        r.0@.contains(TickStep::StartCooldown) <==> view.is_player && view.used.has_cooldown,
        r.0@.contains((TickStep::TakeOne { hand, leaves_bottle })) <==> view.is_player
            && !view.creative && leaves_bottle == view.used.potion && hand == (
        if view.used.in_main_hand {
            Hand::Right
        } else if view.used.in_off_hand {
            Hand::Left
        } else if old(entity).active_hand is Some {
            old(entity).active_hand->0
        } else {
            Hand::Right
        }),
{
    broadcast use crate::plan::lemma_plan_contains;
    broadcast use crate::plan::lemma_only_if_contains;

    let steps = consume_steps(view.used, view.is_player, view.creative, old(entity).active_hand);
    let none = add_steps(Seq::<Effect>::empty());
    assert(none =~= Seq::<TickStep>::empty());
    lemma_pushed_step_is_last(steps, r.0@.last());
    assert(r.0@ =~= steps.push(r.0@.last()));
}

/// A step more is that step and all before it.
proof fn lemma_pushed_step_is_last(steps: Seq<TickStep>, last: TickStep)
    ensures
        forall|step: TickStep| #[trigger]
            steps.push(last).contains(step) <==> steps.contains(step) || step == last,
{
    let all = steps.push(last);
    assert(all[steps.len() as int] == last);
    assert forall|step: TickStep| #[trigger] all.contains(step) <==> steps.contains(step) || step
        == last by {
        if steps.contains(step) {
            let i = choose|i: int| 0 <= i < steps.len() && steps[i] == step;
            assert(all[i] == step);
        }
        if all.contains(step) {
            let i = choose|i: int| 0 <= i < all.len() && all[i] == step;
            if i < steps.len() {
                assert(steps[i] == step);
            }
        }
    }
}

/// Law: a golden apple gives a player 100 ticks of the second level of regeneration and 2400 ticks
/// of absorption. An enchanted one gives 400 and 2400 ticks of them, the absorption at the fourth
/// level, and 6000 ticks of resistance and of fire resistance.
pub proof fn law_golden_apples_help(
    entity: &mut LivingEntity,
    view: TickView,
    r: (Vec<TickStep>, Option<TickPhase>),
)
    requires
        call_ensures(LivingEntity::tick, (entity, TickPhase::Item, &view), r),
        old(entity).item_in_use is Some,
        old(entity).item_use_time <= 0,
        view.is_player,
    ensures
        view.used.food == Some(FoodKind::GoldenApple) ==> {
            &&& r.0@.len() >= 3
            &&& r.0@[0] == TickStep::Eat
            &&& r.0@[1] is AddEffect
            &&& r.0@[1]->effect.effect_type == StatusEffect::Regeneration
            &&& r.0@[1]->effect.amplifier == 1
            &&& r.0@[1]->effect.duration == 100
            &&& r.0@[2] is AddEffect
            &&& r.0@[2]->effect.effect_type == StatusEffect::Absorption
            &&& r.0@[2]->effect.amplifier == 0
            &&& r.0@[2]->effect.duration == 2400
            &&& r.0@.len() >= 4 ==> !(r.0@[3] is AddEffect)
        },
        view.used.food == Some(FoodKind::EnchantedGoldenApple) ==> {
            &&& r.0@.len() >= 5
            &&& r.0@[0] == TickStep::Eat
            &&& r.0@[1] is AddEffect
            &&& r.0@[1]->effect.effect_type == StatusEffect::Regeneration
            &&& r.0@[1]->effect.amplifier == 1
            &&& r.0@[1]->effect.duration == 400
            &&& r.0@[2] is AddEffect
            &&& r.0@[2]->effect.effect_type == StatusEffect::Absorption
            &&& r.0@[2]->effect.amplifier == 3
            &&& r.0@[2]->effect.duration == 2400
            &&& r.0@[3] is AddEffect
            &&& r.0@[3]->effect.effect_type == StatusEffect::Resistance
            &&& r.0@[3]->effect.amplifier == 0
            &&& r.0@[3]->effect.duration == 6000
            &&& r.0@[4] is AddEffect
            &&& r.0@[4]->effect.effect_type == StatusEffect::FireResistance
            &&& r.0@[4]->effect.amplifier == 0
            &&& r.0@[4]->effect.duration == 6000
        },
        view.used.food == Some(FoodKind::Ordinary) ==> r.0@[0] == TickStep::Eat && !(
        r.0@[1] is AddEffect),
{
    let eaten = add_steps(food_effects(view.used.food->0));
    if view.used.food is Some {
        assert(r.0@[0] == TickStep::Eat);
        assert forall|i: int| 0 <= i < eaten.len() implies #[trigger] eaten[i] == r.0@[i + 1] by {}
        if view.used.food == Some(FoodKind::GoldenApple) {
            assert(eaten[0] == r.0@[1]);
            assert(eaten[1] == r.0@[2]);
        }
        if view.used.food == Some(FoodKind::EnchantedGoldenApple) {
            assert(eaten[0] == r.0@[1]);
            assert(eaten[1] == r.0@[2]);
            assert(eaten[2] == r.0@[3]);
            assert(eaten[3] == r.0@[4]);
        }
    }
}

/// Law: each tick takes one off a hurt cooldown. A corpse counts the ticks of its animation and is
/// shown and removed in the one that finds 20 of them counted; the living count none.
pub proof fn law_counters_of_a_tick(
    entity: &mut LivingEntity,
    view: TickView,
    r: (Vec<TickStep>, Option<TickPhase>),
)
    requires
        call_ensures(LivingEntity::tick, (entity, TickPhase::Counters, &view), r),
    ensures
        old(entity).hurt_cooldown > 0 ==> final(entity).hurt_cooldown == old(entity).hurt_cooldown
            - 1,
        old(entity).hurt_cooldown <= 0 ==> final(entity).hurt_cooldown == old(entity).hurt_cooldown,
        old(entity).health > 0 ==> final(entity).death_time == old(entity).death_time && final(entity).removed == old(entity).removed && r.0@.len() == 0,
        old(entity).health <= 0 && old(entity).death_time < 255 ==> final(entity).death_time == old(entity).death_time + 1,
        old(entity).health <= 0 && old(entity).death_time == 20 && !old(entity).removed ==> {
            &&& final(entity).removed
            &&& final(entity).removal_reason == Some(RemovalReason::Killed)
            &&& r.0@ == seq![TickStep::ShowDeath, TickStep::RemoveEntity]
        },
        old(entity).death_time != 20 || old(entity).removed ==> r.0@.len() == 0 && final(entity).removed == old(entity).removed && final(entity).removal_reason == old(entity).removal_reason,
{
}

} // verus!
