//! Status effects, health and absorption.

use vstd::arithmetic::power2::{lemma2_to64, lemma_pow2_strictly_increases, pow2};
use vstd::prelude::*;

use super::attributes::{attribute_values, dirty_flags, rebased_values, AttributeInstance};
use super::{effects_distinct, holds_effect, LivingEntity};
use crate::data::effect::{Effect, StatusEffect};
use crate::data::entity_type::EntityType;
use crate::data::rank::{max32, min32, rank_max, rank_min, Rank32, Rank64};
use crate::plan::{only_if, push_if, push_step};

verus! {

/// One hit point.
pub const ONE_POINT: Rank32 = 0x3F80_0000;

/// The duration of an effect that never ends.
pub const ENDLESS: i32 = -1;

// ---------------------------------------------------------------------------
// Health and absorption.
// ---------------------------------------------------------------------------

/// `health` kept between nothing and `max_health`.
pub open spec fn clamp_health(health: Rank32, max_health: Rank32) -> int {
    rank_min(rank_max(health as int, 0), max_health as int)
}

/// What a change of absorption asks the world to do.
#[derive(Clone, Copy, Debug, PartialEq, Eq, Structural)]
pub enum AbsorptionStep {
    /// Sends the attribute for the greatest absorption.
    SendMaxAbsorption,
    /// Sends the yellow hearts of a player.
    SendHearts { absorption: Rank32 },
}

/// What a change of the greatest health asks the world to do.
#[derive(Clone, Copy, Debug, PartialEq, Eq, Structural)]
pub enum HealthStep {
    /// Sends the attribute with the number.
    SendAttribute { attribute: u8 },
    /// Sends the health.
    SendHealth { health: Rank32 },
}

impl LivingEntity {
    /// Sets the health, kept between nothing and the greatest health, and returns
    /// what to send to the players around.
    pub fn set_health(&mut self, health: Rank32) -> (sent: Rank32)
        ensures
            sent == clamp_health(health, old(self).max_health),
            *final(self) == (LivingEntity { health: sent, ..*old(self) }),
    {
        let clamped: Rank32 = min32(max32(health, 0), self.max_health);
        self.health = clamped;
        clamped
    }

    /// Heals the entity to `raised`, which is its health and what is added to it.
    pub fn heal(&mut self, added: Rank32, raised: Rank32) -> (sent: Rank32)
        requires
            added > 0,
        ensures
            sent == clamp_health(raised, old(self).max_health),
            *final(self) == (LivingEntity { health: sent, ..*old(self) }),
    {
        self.set_health(raised)
    }

    /// The greatest health of the entity.
    pub fn get_max_health(&self) -> (r: Rank32)
        ensures
            r == self.max_health,
    {
        self.max_health
    }

    /// Sets the base of the greatest health, in single and in double precision. Health
    /// above the base is cut back. `worth` tells what an attribute is worth in single
    /// precision.
    pub fn set_max_health<F: Fn(&AttributeInstance) -> Rank32>(
        &mut self,
        base: Rank32,
        wide_base: Rank64,
        worth: &F,
    ) -> (steps: Vec<HealthStep>)
        requires
            forall|instance: AttributeInstance| #[trigger] worth.requires((&instance,)),
        ensures
            attribute_values(final(self).attributes@) == rebased_values(
                attribute_values(old(self).attributes@),
                old(self).max_health_attribute,
                wide_base,
            ),
            dirty_flags(final(self).attributes@) == dirty_flags(old(self).attributes@).insert(
                old(self).max_health_attribute,
                true,
            ),
            old(self).spec_max_health_follows(*final(self), true, worth),
            final(self).health == (if old(self).health > base {
                clamp_health(base, final(self).max_health)
            } else {
                old(self).health as int
            }),
            *final(self) == (LivingEntity {
                attributes: final(self).attributes,
                max_health: final(self).max_health,
                health: final(self).health,
                ..*old(self)
            }),
            steps@ == seq![
                HealthStep::SendAttribute { attribute: old(self).max_health_attribute },
            ] + only_if(
                old(self).health > base,
                (HealthStep::SendHealth { health: final(self).health }),
            ),
    {
        let attribute: u8 = self.max_health_attribute;
        self.set_attribute_base(attribute, wide_base, worth);
        let mut steps: Vec<HealthStep> = Vec::new();
        push_step(&mut steps, HealthStep::SendAttribute { attribute });
        assert(steps@ =~= seq![HealthStep::SendAttribute { attribute }]);
        if self.health > base {
            let health: Rank32 = self.set_health(base);
            push_step(&mut steps, HealthStep::SendHealth { health });
        }
        steps
    }

    /// The absorption of the entity.
    pub fn get_absorption(&self) -> (r: Rank32)
        ensures
            r == self.absorption,
    {
        self.absorption
    }

    /// Sets the absorption, which is never below nothing.
    pub fn set_absorption(&mut self, absorption: Rank32) -> (steps: Vec<AbsorptionStep>)
        ensures
            final(self).absorption == rank_max(absorption as int, 0),
            *final(self) == (LivingEntity {
                absorption: final(self).absorption,
                ..*old(self)
            }),
            steps@ == seq![AbsorptionStep::SendMaxAbsorption] + only_if(
                old(self).entity_type == EntityType::Player,
                (AbsorptionStep::SendHearts { absorption: final(self).absorption }),
            ),
    {
        let kept: Rank32 = max32(absorption, 0);
        self.absorption = kept;
        let mut steps: Vec<AbsorptionStep> = Vec::new();
        push_step(&mut steps, AbsorptionStep::SendMaxAbsorption);
        assert(steps@ =~= seq![AbsorptionStep::SendMaxAbsorption]);
        push_if(
            &mut steps,
            self.entity_type == EntityType::Player,
            AbsorptionStep::SendHearts { absorption: kept },
        );
        steps
    }
}

impl LivingEntity {
    /// Raises the absorption to `raised`, which is the absorption and what an effect
    /// adds to it, but no higher than `max_absorption`.
    pub fn raise_absorption(&mut self, raised: Rank32, max_absorption: Rank32) -> (steps: Vec<
        AbsorptionStep,
    >)
        ensures
            final(self).absorption == rank_max(rank_min(raised as int, max_absorption as int), 0),
            *final(self) == (LivingEntity {
                absorption: final(self).absorption,
                ..*old(self)
            }),
            steps@ == seq![AbsorptionStep::SendMaxAbsorption] + only_if(
                old(self).entity_type == EntityType::Player,
                (AbsorptionStep::SendHearts { absorption: final(self).absorption }),
            ),
    {
        self.set_absorption(min32(raised, max_absorption))
    }
}

/// Law: whatever is asked for, health ends up between nothing and the greatest
/// health, health in that range is kept as it is, and setting it twice is
/// setting it once.
pub proof fn law_health_is_clamped(health: Rank32, max_health: Rank32)
    requires
        max_health >= 0,
    ensures
        0 <= clamp_health(health, max_health) <= max_health,
        0 <= health <= max_health ==> clamp_health(health, max_health) == health,
        clamp_health(clamp_health(health, max_health) as i32, max_health) == clamp_health(
            health,
            max_health,
        ),
{
}

// ---------------------------------------------------------------------------
// The effects on an entity.
// ---------------------------------------------------------------------------

/// Where the effect of the kind stands in the list.
pub open spec fn effect_index(effects: Seq<Effect>, kind: StatusEffect) -> int {
    choose|i: int| 0 <= i < effects.len() && #[trigger] effects[i].effect_type == kind
}

/// The effects by their kinds.
pub open spec fn effect_map(effects: Seq<Effect>) -> Map<StatusEffect, Effect> {
    Map::new(
        |kind: StatusEffect| holds_effect(effects, kind),
        |kind: StatusEffect| effects[effect_index(effects, kind)],
    )
}

/// The effect at a place is the effect of its kind.
proof fn lemma_effect_at(effects: Seq<Effect>, i: int)
    requires
        effects_distinct(effects),
        0 <= i < effects.len(),
    ensures
        effect_map(effects).contains_key(effects[i].effect_type),
        effect_map(effects)[effects[i].effect_type] == effects[i],
{
    let kind = effects[i].effect_type;
    let j = effect_index(effects, kind);
    assert(effects[i].effect_type == kind);
    assert(0 <= j < effects.len() && effects[j].effect_type == kind);
    if i < j {
        assert(effects[i].effect_type != effects[j].effect_type);
    } else if j < i {
        assert(effects[j].effect_type != effects[i].effect_type);
    }
}

/// Putting another effect of the same kind in a place changes that kind alone.
proof fn lemma_effect_replaced(effects: Seq<Effect>, i: int, effect: Effect)
    requires
        effects_distinct(effects),
        0 <= i < effects.len(),
        effects[i].effect_type == effect.effect_type,
    ensures
        effects_distinct(effects.update(i, effect)),
        effect_map(effects.update(i, effect)) == effect_map(effects).insert(
            effect.effect_type,
            effect,
        ),
{
    let after = effects.update(i, effect);
    assert forall|a: int, b: int| 0 <= a < b < after.len() implies #[trigger] after[a].effect_type
        != #[trigger] after[b].effect_type by {
        assert(after[a].effect_type == effects[a].effect_type);
        assert(after[b].effect_type == effects[b].effect_type);
    }
    let expected = effect_map(effects).insert(effect.effect_type, effect);
    assert forall|kind: StatusEffect| #[trigger]
        effect_map(after).contains_key(kind) == expected.contains_key(kind) by {
        if holds_effect(after, kind) {
            let j = effect_index(after, kind);
            assert(effects[j].effect_type == kind);
        }
        if holds_effect(effects, kind) {
            let j = effect_index(effects, kind);
            assert(after[j].effect_type == kind);
        }
        if kind == effect.effect_type {
            assert(after[i].effect_type == kind);
        }
    }
    assert forall|kind: StatusEffect| #[trigger]
        effect_map(after).contains_key(kind) implies effect_map(after)[kind] == expected[kind] by {
        let j = effect_index(after, kind);
        assert(after[j].effect_type == kind);
        lemma_effect_at(after, j);
        if j != i {
            assert(effects[j] == after[j]);
            lemma_effect_at(effects, j);
            assert(kind != effect.effect_type) by {
                assert(after[i].effect_type == effect.effect_type);
                if i < j {
                    assert(after[i].effect_type != after[j].effect_type);
                } else {
                    assert(after[j].effect_type != after[i].effect_type);
                }
            }
        }
    }
    assert(effect_map(after) =~= expected);
}

/// Adding an effect of a new kind adds that kind alone.
pub(super) proof fn lemma_effect_pushed(effects: Seq<Effect>, effect: Effect)
    requires
        effects_distinct(effects),
        !holds_effect(effects, effect.effect_type),
    ensures
        effects_distinct(effects.push(effect)),
        effect_map(effects.push(effect)) == effect_map(effects).insert(effect.effect_type, effect),
{
    let after = effects.push(effect);
    let last = effects.len() as int;
    assert forall|a: int, b: int| 0 <= a < b < after.len() implies #[trigger] after[a].effect_type
        != #[trigger] after[b].effect_type by {
        assert(after[a] == effects[a]);
        if b < last {
            assert(after[b] == effects[b]);
        } else {
            assert(effects[a].effect_type != effect.effect_type);
        }
    }
    let expected = effect_map(effects).insert(effect.effect_type, effect);
    assert forall|kind: StatusEffect| #[trigger]
        effect_map(after).contains_key(kind) == expected.contains_key(kind) by {
        if holds_effect(after, kind) {
            let j = effect_index(after, kind);
            if j < last {
                assert(effects[j].effect_type == kind);
            }
        }
        if holds_effect(effects, kind) {
            let j = effect_index(effects, kind);
            assert(after[j].effect_type == kind);
        }
        if kind == effect.effect_type {
            assert(after[last].effect_type == kind);
        }
    }
    assert forall|kind: StatusEffect| #[trigger]
        effect_map(after).contains_key(kind) implies effect_map(after)[kind] == expected[kind] by {
        let j = effect_index(after, kind);
        assert(after[j].effect_type == kind);
        lemma_effect_at(after, j);
        if j < last {
            assert(effects[j] == after[j]);
            lemma_effect_at(effects, j);
        }
    }
    assert(effect_map(after) =~= expected);
}

/// Taking the effect at a place out takes its kind out, and no other.
proof fn lemma_effect_removed(effects: Seq<Effect>, i: int)
    requires
        effects_distinct(effects),
        0 <= i < effects.len(),
    ensures
        effects_distinct(effects.remove(i)),
        effect_map(effects.remove(i)) == effect_map(effects).remove(effects[i].effect_type),
{
    let after = effects.remove(i);
    assert forall|a: int, b: int| 0 <= a < b < after.len() implies #[trigger] after[a].effect_type
        != #[trigger] after[b].effect_type by {
        let a2 = if a < i {
            a
        } else {
            a + 1
        };
        let b2 = if b < i {
            b
        } else {
            b + 1
        };
        assert(after[a] == effects[a2]);
        assert(after[b] == effects[b2]);
    }
    let gone = effects[i].effect_type;
    let expected = effect_map(effects).remove(gone);
    assert forall|kind: StatusEffect| #[trigger]
        effect_map(after).contains_key(kind) == expected.contains_key(kind) by {
        if holds_effect(after, kind) {
            let j = effect_index(after, kind);
            let j2 = if j < i {
                j
            } else {
                j + 1
            };
            assert(effects[j2].effect_type == kind);
            if i < j2 {
                assert(effects[i].effect_type != effects[j2].effect_type);
            } else {
                assert(effects[j2].effect_type != effects[i].effect_type);
            }
        }
        if holds_effect(effects, kind) && kind != gone {
            let j = effect_index(effects, kind);
            let j2 = if j < i {
                j
            } else {
                j - 1
            };
            assert(after[j2].effect_type == kind);
        }
    }
    assert forall|kind: StatusEffect| #[trigger]
        effect_map(after).contains_key(kind) implies effect_map(after)[kind] == expected[kind] by {
        let j = effect_index(after, kind);
        assert(after[j].effect_type == kind);
        lemma_effect_at(after, j);
        let j2 = if j < i {
            j
        } else {
            j + 1
        };
        assert(effects[j2] == after[j]);
        lemma_effect_at(effects, j2);
    }
    assert(effect_map(after) =~= expected);
}

impl LivingEntity {
    /// Where the effect of the kind stands, if the entity has one.
    fn find_effect(&self, kind: StatusEffect) -> (r: Option<usize>)
        ensures
            r matches Some(i) ==> i < self.active_effects@.len()
                && self.active_effects@[i as int].effect_type == kind,
            r is None ==> !holds_effect(self.active_effects@, kind),
    {
        let mut i: usize = 0;
        while i < self.active_effects.len()
            invariant
                i <= self.active_effects.len(),
                forall|j: int|
                    0 <= j < i ==> #[trigger] self.active_effects@[j].effect_type != kind,
            decreases self.active_effects.len() - i,
        {
            if self.active_effects[i].effect_type == kind {
                return Some(i);
            }
            i = i + 1;
        }
        None
    }

    /// Whether the entity has an effect of the kind.
    pub fn has_effect(&self, kind: StatusEffect) -> (r: bool)
        ensures
            r == holds_effect(self.active_effects@, kind),
            r == effect_map(self.active_effects@).contains_key(kind),
    {
        self.find_effect(kind).is_some()
    }

    /// The effect of the kind, if the entity has one.
    pub fn get_effect(&self, kind: StatusEffect) -> (r: Option<Effect>)
        requires
            self.wf(),
        ensures
            r is Some <==> effect_map(self.active_effects@).contains_key(kind),
            r matches Some(effect) ==> effect == effect_map(self.active_effects@)[kind],
    {
        match self.find_effect(kind) {
            Some(i) => {
                proof {
                    lemma_effect_at(self.active_effects@, i as int);
                }
                Some(self.active_effects[i])
            },
            None => None,
        }
    }

    /// Gives the entity the effect, in place of any other of its kind.
    pub(super) fn insert_effect(&mut self, effect: Effect)
        requires
            old(self).wf(),
        ensures
            final(self).wf(),
            effect_map(final(self).active_effects@) == effect_map(
                old(self).active_effects@,
            ).insert(effect.effect_type, effect),
            *final(self) == (LivingEntity {
                active_effects: final(self).active_effects,
                ..*old(self)
            }),
    {
        match self.find_effect(effect.effect_type) {
            Some(i) => {
                proof {
                    lemma_effect_replaced(self.active_effects@, i as int, effect);
                }
                self.active_effects.set(i, effect);
            },
            None => {
                proof {
                    lemma_effect_pushed(self.active_effects@, effect);
                }
                self.active_effects.push(effect);
            },
        }
    }
}

// ---------------------------------------------------------------------------
// Gaining and losing an effect.
// ---------------------------------------------------------------------------

/// What a change of effects asks the world to do.
#[derive(Clone, Copy, Debug, PartialEq, Eq, Structural)]
pub enum EffectStep {
    /// Heals by whole points.
    Heal { points: i64 },
    /// Hurts by whole points of magic.
    HurtByMagic { points: i64 },
    /// Puts the modifiers of the effect on the attributes and sends those.
    ApplyModifiers { kind: StatusEffect, amplifier: u8 },
    /// Takes the modifiers of the effect off the attributes and sends those.
    DropModifiers { kind: StatusEffect },
    /// Adds whole points of absorption, up to the greatest absorption.
    RaiseAbsorption { points: i64 },
    /// Absorption is gone.
    SendNoAbsorption,
    /// Cuts health back to the greatest health.
    CutHealth,
    SetInvisible { invisible: bool },
    SetGlowing { glowing: bool },
    /// Tells the players around of the effect.
    SendEffect { effect: Effect, flags: i8 },
    /// Tells the players around that the effect is over.
    SendEffectRemoved { kind: StatusEffect },
}

/// A 1 shifted left in 32 bits: a power of two, but for the last place, where it is
/// the smallest number.
pub open spec fn shifted_one(places: u8) -> int {
    if places == 31 {
        -0x8000_0000
    } else {
        pow2(places as nat) as int
    }
}

/// The flags of an effect: ambient, particles, icon and blend, from the lowest bit up.
pub open spec fn effect_flags(effect: Effect) -> int {
    (if effect.ambient {
        1int
    } else {
        0
    }) + (if effect.show_particles {
        2int
    } else {
        0
    }) + (if effect.show_icon {
        4int
    } else {
        0
    }) + (if effect.blend {
        8int
    } else {
        0
    })
}

/// The effect acts at once and is not kept.
pub open spec fn is_instant(kind: StatusEffect) -> bool {
    kind == StatusEffect::InstantHealth || kind == StatusEffect::InstantDamage
}

/// What gaining the effect asks for. Instant damage needs the entity in its world.
pub open spec fn add_effect_steps(effect: Effect, in_world: bool) -> Seq<EffectStep> {
    let kind = effect.effect_type;
    let lasting = !is_instant(kind);
    Seq::<EffectStep>::empty() + only_if(
        kind == StatusEffect::InstantHealth,
        (EffectStep::Heal { points: (4 * shifted_one(effect.amplifier)) as i64 }),
    ) + only_if(
        kind == StatusEffect::InstantDamage && in_world,
        (EffectStep::HurtByMagic { points: (6 * shifted_one(effect.amplifier)) as i64 }),
    ) + only_if(
        lasting,
        (EffectStep::ApplyModifiers { kind, amplifier: effect.amplifier }),
    ) + only_if(
        kind == StatusEffect::Absorption,
        (EffectStep::RaiseAbsorption { points: (4 * (effect.amplifier + 1)) as i64 }),
    ) + only_if(
        kind == StatusEffect::Invisibility,
        (EffectStep::SetInvisible { invisible: true }),
    ) + only_if(kind == StatusEffect::Glowing, (EffectStep::SetGlowing { glowing: true })) + seq![
        EffectStep::SendEffect { effect, flags: effect_flags(effect) as i8 },
    ]
}

/// What losing the effect asks for.
pub open spec fn remove_effect_steps(kind: StatusEffect) -> Seq<EffectStep> {
    Seq::<EffectStep>::empty() + seq![EffectStep::SendEffectRemoved { kind }] + seq![
        EffectStep::DropModifiers { kind },
    ] + only_if(kind == StatusEffect::Absorption, EffectStep::SendNoAbsorption) + only_if(
        kind == StatusEffect::HealthBoost,
        EffectStep::CutHealth,
    ) + only_if(
        kind == StatusEffect::Invisibility,
        (EffectStep::SetInvisible { invisible: false }),
    ) + only_if(kind == StatusEffect::Glowing, (EffectStep::SetGlowing { glowing: false }))
}

/// A 1 shifted left in 32 bits.
fn shift_one(places: u8) -> (r: i64)
    requires
        places < 32,
    ensures
        r == shifted_one(places),
        -0x8000_0000 <= r <= 0x4000_0000,
{
    if places == 31 {
        return -0x8000_0000;
    }
    proof {
        vstd::arithmetic::power2::lemma2_to64();
        if places < 30 {
            vstd::arithmetic::power2::lemma_pow2_strictly_increases(places as nat, 30);
        }
        assert(pow2(places as nat) <= 0x4000_0000);
        vstd::bits::lemma_u64_shl_is_mul(1, places as u64);
    }
    let power: u64 = 1u64 << (places as u64);
    power as i64
}

/// The flags of an effect.
fn flags_of(effect: &Effect) -> (r: i8)
    ensures
        r == effect_flags(*effect),
        0 <= r < 16,
{
    let mut flags: i8 = 0;
    if effect.ambient {
        flags = flags + 1;
    }
    if effect.show_particles {
        flags = flags + 2;
    }
    if effect.show_icon {
        flags = flags + 4;
    }
    if effect.blend {
        flags = flags + 8;
    }
    flags
}

impl LivingEntity {
    /// Gives the entity the effect. An instant one acts at once and is not kept;
    /// any other takes the place of the one of its kind.
    pub fn add_effect(&mut self, effect: Effect, in_world: bool) -> (steps: Vec<EffectStep>)
        requires
            old(self).wf(),
            effect.effect_type == StatusEffect::InstantHealth ==> effect.amplifier < 31,
            effect.effect_type == StatusEffect::InstantDamage ==> effect.amplifier < 32,
        ensures
            final(self).wf(),
            effect_map(final(self).active_effects@) == if is_instant(effect.effect_type) {
                effect_map(old(self).active_effects@)
            } else {
                effect_map(old(self).active_effects@).insert(effect.effect_type, effect)
            },
            *final(self) == (LivingEntity {
                active_effects: final(self).active_effects,
                ..*old(self)
            }),
            steps@ == add_effect_steps(effect, in_world),
    {
        let kind: StatusEffect = effect.effect_type;
        let health: bool = kind == StatusEffect::InstantHealth;
        let damage: bool = kind == StatusEffect::InstantDamage;
        let power: i64 = if health || damage {
            shift_one(effect.amplifier)
        } else {
            0
        };
        if !health && !damage {
            self.insert_effect(effect);
        }
        let mut steps: Vec<EffectStep> = Vec::new();
        push_if(&mut steps, health, EffectStep::Heal { points: 4 * power });
        push_if(&mut steps, damage && in_world, EffectStep::HurtByMagic { points: 6 * power });
        push_if(
            &mut steps,
            !health && !damage,
            EffectStep::ApplyModifiers { kind, amplifier: effect.amplifier },
        );
        push_if(
            &mut steps,
            kind == StatusEffect::Absorption,
            EffectStep::RaiseAbsorption { points: 4 * (effect.amplifier as i64 + 1) },
        );
        push_if(
            &mut steps,
            kind == StatusEffect::Invisibility,
            EffectStep::SetInvisible { invisible: true },
        );
        push_if(
            &mut steps,
            kind == StatusEffect::Glowing,
            EffectStep::SetGlowing { glowing: true },
        );
        push_step(&mut steps, EffectStep::SendEffect { effect, flags: flags_of(&effect) });
        steps
    }

    /// Takes the effect of the kind off the entity, and says whether there was one.
    pub fn remove_effect(&mut self, kind: StatusEffect) -> (r: (bool, Vec<EffectStep>))
        requires
            old(self).wf(),
        ensures
            final(self).wf(),
            r.0 == effect_map(old(self).active_effects@).contains_key(kind),
            effect_map(final(self).active_effects@) == effect_map(
                old(self).active_effects@,
            ).remove(kind),
            *final(self) == (LivingEntity {
                active_effects: final(self).active_effects,
                absorption: if kind == StatusEffect::Absorption {
                    0
                } else {
                    old(self).absorption
                },
                ..*old(self)
            }),
            r.1@ == remove_effect_steps(kind),
            final(self).active_effects@.len() == old(self).active_effects@.len() - (if r.0 {
                1int
            } else {
                0
            }),
    {
        let found: Option<usize> = self.find_effect(kind);
        let succeeded: bool = found.is_some();
        match found {
            Some(i) => {
                proof {
                    lemma_effect_removed(self.active_effects@, i as int);
                    lemma_effect_at(self.active_effects@, i as int);
                }
                self.active_effects.remove(i);
            },
            None => {
                proof {
                    assert(effect_map(self.active_effects@).remove(kind) =~= effect_map(
                        self.active_effects@,
                    ));
                }
            },
        }
        if kind == StatusEffect::Absorption {
            self.absorption = 0;
        }
        let mut steps: Vec<EffectStep> = Vec::new();
        push_step(&mut steps, EffectStep::SendEffectRemoved { kind });
        push_step(&mut steps, EffectStep::DropModifiers { kind });
        push_if(&mut steps, kind == StatusEffect::Absorption, EffectStep::SendNoAbsorption);
        push_if(&mut steps, kind == StatusEffect::HealthBoost, EffectStep::CutHealth);
        push_if(
            &mut steps,
            kind == StatusEffect::Invisibility,
            EffectStep::SetInvisible { invisible: false },
        );
        push_if(
            &mut steps,
            kind == StatusEffect::Glowing,
            EffectStep::SetGlowing { glowing: false },
        );
        (succeeded, steps)
    }

    /// Cuts health back to the greatest health, which a lost effect has lowered. Health
    /// that is within it stays, and nothing is sent.
    pub fn cut_health(&mut self) -> (sent: Option<Rank32>)
        ensures
            old(self).health <= old(self).max_health ==> sent is None && *final(self) == *old(
                self,
            ),
            old(self).health > old(self).max_health ==> {
                &&& sent is Some && sent->0 == clamp_health(
                    rank_max(old(self).max_health as int, 0) as i32,
                    old(self).max_health,
                )
                &&& *final(self) == (LivingEntity { health: sent->0, ..*old(self) })
            },
    {
        let max_health: Rank32 = self.get_max_health();
        if self.health > max_health {
            Some(self.set_health(max32(max_health, 0)))
        } else {
            None
        }
    }
}

/// Law: an effect that was just gained is there, with its own amplifier and
/// duration, and once it is lost again every other effect is as it was.
pub proof fn law_gained_effect_is_there_and_goes_alone(
    before: Seq<Effect>,
    gained: Seq<Effect>,
    lost: Seq<Effect>,
    effect: Effect,
)
    requires
        !is_instant(effect.effect_type),
        effect_map(gained) == effect_map(before).insert(effect.effect_type, effect),
        effect_map(lost) == effect_map(gained).remove(effect.effect_type),
    ensures
        effect_map(gained)[effect.effect_type] == effect,
        !effect_map(lost).contains_key(effect.effect_type),
        effect_map(lost) == effect_map(before).remove(effect.effect_type),
{
    assert(effect_map(lost) =~= effect_map(before).remove(effect.effect_type));
}

// ---------------------------------------------------------------------------
// Effects as time goes by.
// ---------------------------------------------------------------------------

/// Every how many ticks an effect acts: `base` halved for each of the first four
/// amplifier levels, rounded down.
pub open spec fn halved_rate(base: int, amplifier: u8) -> int {
    if amplifier == 0 {
        base
    } else if amplifier == 1 {
        base / 2
    } else if amplifier == 2 {
        base / 4
    } else if amplifier == 3 {
        base / 8
    } else {
        base / 16
    }
}

/// The effect acts in a tick in which `duration` ticks are left of it.
pub open spec fn acts_at(kind: StatusEffect, amplifier: u8, duration: i32) -> bool {
    match kind {
        StatusEffect::BadOmen => true,
        StatusEffect::RaidOmen => duration == 1,
        StatusEffect::Regeneration => duration > 0 && duration as int % halved_rate(50, amplifier)
            == 0,
        StatusEffect::Poison => duration > 0 && duration as int % halved_rate(25, amplifier) == 0,
        StatusEffect::Wither => duration > 0 && duration as int % halved_rate(40, amplifier) == 0,
        StatusEffect::Hunger => duration as int % 20 == 0,
        StatusEffect::Saturation => true,
        _ => false,
    }
}

/// What is left of an effect for the rhythm in which it acts: an endless effect
/// goes by the age of its entity.
pub open spec fn rhythm(effect: Effect, age: i32) -> i32 {
    if effect.duration == ENDLESS {
        age
    } else {
        effect.duration
    }
}

/// The effect a tick later: one tick less, unless it is over or endless.
pub open spec fn aged(effect: Effect) -> Effect {
    if effect.duration == 0 || effect.duration == ENDLESS {
        effect
    } else {
        Effect { duration: (effect.duration - 1) as i32, ..effect }
    }
}

/// The kinds of the effects that are over.
pub open spec fn expired_kinds(effects: Seq<Effect>) -> Seq<StatusEffect>
    decreases effects.len(),
{
    if effects.len() == 0 {
        Seq::empty()
    } else {
        expired_kinds(effects.drop_last()) + only_if(
            effects.last().duration == 0,
            effects.last().effect_type,
        )
    }
}

/// The effects that act in this tick, in the order in which the entity holds them.
pub open spec fn acting_effects(effects: Seq<Effect>, age: i32) -> Seq<(StatusEffect, u8)>
    decreases effects.len(),
{
    if effects.len() == 0 {
        Seq::empty()
    } else {
        let last = effects.last();
        acting_effects(effects.drop_last(), age) + only_if(
            last.duration != 0 && acts_at(last.effect_type, last.amplifier, rhythm(last, age)),
            (last.effect_type, last.amplifier),
        )
    }
}

/// Every how many ticks an effect acts.
fn tick_rate(base: i32, amplifier: u8) -> (r: i32)
    requires
        base == 50 || base == 25 || base == 40,
    ensures
        r == halved_rate(base as int, amplifier),
        r > 0,
{
    if amplifier == 0 {
        base
    } else if amplifier == 1 {
        base / 2
    } else if amplifier == 2 {
        base / 4
    } else if amplifier == 3 {
        base / 8
    } else {
        base / 16
    }
}

/// A number is a multiple of a period exactly when its negative is.
proof fn lemma_multiple_of_either_sign(number: int, period: int)
    requires
        period > 0,
    ensures
        number % period == 0 <==> (-number) % period == 0,
{
    vstd::arithmetic::div_mod::lemma_fundamental_div_mod(number, period);
    vstd::arithmetic::div_mod::lemma_fundamental_div_mod(-number, period);
    let up = number / period;
    let down = (-number) / period;
    vstd::arithmetic::div_mod::lemma_mod_multiples_basic(-up, period);
    vstd::arithmetic::div_mod::lemma_mod_multiples_basic(-down, period);
    assert((-up) * period == -(period * up) && (-down) * period == -(period * down))
        by (nonlinear_arith);
}

/// Whether `duration` is a whole number of periods.
pub fn is_multiple(duration: i32, period: i32) -> (r: bool)
    requires
        period > 0,
    ensures
        r == (duration as int % period as int == 0),
{
    let wide: i64 = duration as i64;
    let rest: i64 = if wide >= 0 {
        wide % (period as i64)
    } else {
        (-wide) % (period as i64)
    };
    proof {
        if duration < 0 {
            lemma_multiple_of_either_sign(duration as int, period as int);
        }
    }
    rest == 0
}

/// What an effect does to its entity in a tick in which it acts.
#[derive(Clone, Copy, Debug, PartialEq, Eq, Structural)]
pub enum EffectTick {
    Nothing,
    /// Heals one point.
    HealOne,
    /// Hurts by one point of magic, but leaves one point of health.
    PoisonOne,
    /// Hurts by one point of withering.
    WitherOne,
    /// Tires a player by so many tenths.
    Exhaust { tenths: i32 },
    /// Feeds a player so many points, and twice as much saturation.
    Feed { points: u8 },
    /// Lets a bad omen turn into a raid omen.
    ConvertBadOmen { amplifier: u8 },
    /// Lets a raid omen start its raid.
    TriggerRaid,
}

impl LivingEntity {
    /// Whether the effect acts in a tick in which `duration` ticks are left of it.
    pub fn should_apply_effect_tick(kind: StatusEffect, amplifier: u8, duration: i32) -> (r: bool)
        ensures
            r == acts_at(kind, amplifier, duration),
    {
        match kind {
            StatusEffect::BadOmen => true,
            StatusEffect::RaidOmen => duration == 1,
            StatusEffect::Regeneration => duration > 0 && is_multiple(
                duration,
                tick_rate(50, amplifier),
            ),
            StatusEffect::Poison => duration > 0 && is_multiple(duration, tick_rate(25, amplifier)),
            StatusEffect::Wither => duration > 0 && is_multiple(duration, tick_rate(40, amplifier)),
            StatusEffect::Hunger => is_multiple(duration, 20),
            StatusEffect::Saturation => true,
            _ => false,
        }
    }

    /// Lets a tick go by for every effect. Returns the kinds that are over, which
    /// the caller then removes, and the effects that act in this tick.
    pub fn tick_effects(&mut self) -> (r: (Vec<StatusEffect>, Vec<(StatusEffect, u8)>))
        requires
            old(self).wf(),
            forall|i: int|
                0 <= i < old(self).active_effects@.len() ==> #[trigger] old(
                    self,
                ).active_effects@[i].duration > i32::MIN,
        ensures
            final(self).wf(),
            final(self).active_effects@ == old(self).active_effects@.map_values(
                |effect: Effect| aged(effect),
            ),
            *final(self) == (LivingEntity {
                active_effects: final(self).active_effects,
                ..*old(self)
            }),
            r.0@ == expired_kinds(old(self).active_effects@),
            r.1@ == acting_effects(old(self).active_effects@, old(self).age),
    {
        let mut expired: Vec<StatusEffect> = Vec::new();
        let mut acting: Vec<(StatusEffect, u8)> = Vec::new();
        let ghost before = self.active_effects@;
        let age: i32 = self.age;
        let mut i: usize = 0;
        while i < self.active_effects.len()
            invariant
                before == old(self).active_effects@,
                age == old(self).age,
                i <= self.active_effects.len(),
                self.active_effects@.len() == before.len(),
                forall|j: int|
                    0 <= j < i ==> #[trigger] self.active_effects@[j] == aged(before[j]),
                forall|j: int|
                    i <= j < before.len() ==> #[trigger] self.active_effects@[j] == before[j],
                forall|j: int|
                    0 <= j < before.len() ==> #[trigger] before[j].duration > i32::MIN,
                *self == (LivingEntity { active_effects: self.active_effects, ..*old(self) }),
                expired@ == expired_kinds(before.take(i as int)),
                acting@ == acting_effects(before.take(i as int), age),
            decreases self.active_effects.len() - i,
        {
            let effect: Effect = self.active_effects[i];
            assert(before.take(i as int + 1).drop_last() =~= before.take(i as int));
            assert(before.take(i as int + 1).last() == effect);
            assert(before[i as int].duration > i32::MIN);
            let over: bool = effect.duration == 0;
            push_if(&mut expired, over, effect.effect_type);
            let duration: i32 = if effect.duration == ENDLESS {
                age
            } else {
                effect.duration
            };
            let acts: bool = Self::should_apply_effect_tick(
                effect.effect_type,
                effect.amplifier,
                duration,
            );
            push_if(&mut acting, !over && acts, (effect.effect_type, effect.amplifier));
            if !over && effect.duration != ENDLESS {
                let mut later: Effect = effect;
                later.duration = effect.duration - 1;
                self.active_effects.set(i, later);
            }
            i = i + 1;
        }
        assert(before.take(i as int) =~= before);
        assert(self.active_effects@ =~= before.map_values(|effect: Effect| aged(effect)));
        assert forall|a: int, b: int|
            0 <= a < b < self.active_effects@.len() implies #[trigger] self.active_effects@[a].effect_type
            != #[trigger] self.active_effects@[b].effect_type by {
            assert(self.active_effects@[a] == aged(before[a]));
            assert(self.active_effects@[b] == aged(before[b]));
            assert(before[a].effect_type != before[b].effect_type);
        }
        (expired, acting)
    }

    /// What an effect does to the entity in a tick in which it acts. Poison and
    /// withering need the entity in its world; hunger, saturation and omens are for
    /// players.
    pub fn apply_effect_tick(
        &self,
        kind: StatusEffect,
        amplifier: u8,
        in_world: bool,
        is_player: bool,
    ) -> (r: EffectTick)
        requires
            kind == StatusEffect::Saturation && is_player ==> amplifier < 255,
        ensures
            r == match kind {
                StatusEffect::Regeneration => if 0 < self.health && self.health < self.max_health {
                    EffectTick::HealOne
                } else {
                    EffectTick::Nothing
                },
                StatusEffect::Poison => if self.health > ONE_POINT && in_world {
                    EffectTick::PoisonOne
                } else {
                    EffectTick::Nothing
                },
                StatusEffect::Wither => if in_world {
                    EffectTick::WitherOne
                } else {
                    EffectTick::Nothing
                },
                StatusEffect::Hunger => if is_player {
                    EffectTick::Exhaust { tenths: (amplifier + 1) as i32 }
                } else {
                    EffectTick::Nothing
                },
                StatusEffect::Saturation => if is_player {
                    EffectTick::Feed { points: (amplifier + 1) as u8 }
                } else {
                    EffectTick::Nothing
                },
                StatusEffect::BadOmen => if is_player {
                    EffectTick::ConvertBadOmen { amplifier }
                } else {
                    EffectTick::Nothing
                },
                StatusEffect::RaidOmen => if is_player {
                    EffectTick::TriggerRaid
                } else {
                    EffectTick::Nothing
                },
                _ => EffectTick::Nothing,
            },
    {
        match kind {
            StatusEffect::Regeneration if self.health < self.max_health && self.health > 0 => {
                EffectTick::HealOne
            },
            StatusEffect::Poison if self.health > ONE_POINT && in_world => EffectTick::PoisonOne,
            StatusEffect::Wither if in_world => EffectTick::WitherOne,
            StatusEffect::Hunger if is_player => EffectTick::Exhaust {
                tenths: amplifier as i32 + 1,
            },
            StatusEffect::Saturation if is_player => EffectTick::Feed { points: amplifier + 1 },
            StatusEffect::BadOmen if is_player => EffectTick::ConvertBadOmen { amplifier },
            StatusEffect::RaidOmen if is_player => EffectTick::TriggerRaid,
            _ => EffectTick::Nothing,
        }
    }

    /// Takes every effect off the entity, and returns what that asks the world to do.
    pub fn reset_effects_and_attributes(&mut self) -> (steps: Vec<EffectStep>)
        requires
            old(self).wf(),
        ensures
            final(self).wf(),
            final(self).active_effects@ == Seq::<Effect>::empty(),
            *final(self) == (LivingEntity {
                active_effects: final(self).active_effects,
                absorption: if holds_effect(old(self).active_effects@, StatusEffect::Absorption) {
                    0
                } else {
                    old(self).absorption
                },
                ..*old(self)
            }),
            steps@ == removal_steps(old(self).active_effects@),
    {
        let mut kinds: Vec<StatusEffect> = Vec::new();
        let ghost before = self.active_effects@;
        let mut i: usize = 0;
        while i < self.active_effects.len()
            invariant
                i <= self.active_effects@.len(),
                self.active_effects@ == before,
                kinds@.len() == i,
                forall|j: int| 0 <= j < i ==> #[trigger] kinds@[j] == before[j].effect_type,
            decreases self.active_effects.len() - i,
        {
            kinds.push(self.active_effects[i].effect_type);
            i = i + 1;
        }
        let mut steps: Vec<EffectStep> = Vec::new();
        proof {
            assert(before.skip(0) =~= before);
            assert(before.take(0) =~= Seq::<Effect>::empty());
        }
        let mut k: usize = 0;
        while k < kinds.len()
            invariant
                k <= kinds@.len(),
                kinds@.len() == before.len(),
                forall|j: int|
                    0 <= j < before.len() ==> #[trigger] kinds@[j] == before[j].effect_type,
                effects_distinct(before),
                before == old(self).active_effects@,
                self.wf(),
                self.active_effects@.len() == before.len() - k,
                effect_map(self.active_effects@) == effect_map(before.skip(k as int)),
                *self == (LivingEntity {
                    active_effects: self.active_effects,
                    absorption: if holds_effect(before.take(k as int), StatusEffect::Absorption) {
                        0
                    } else {
                        old(self).absorption
                    },
                    ..*old(self)
                }),
                steps@ == removal_steps(before.take(k as int)),
            decreases kinds.len() - k,
        {
            let kind: StatusEffect = kinds[k];
            let ghost rest = before.skip(k as int);
            proof {
                assert(rest[0] == before[k as int]);
                assert forall|a: int, b: int| 0 <= a < b < rest.len() implies #[trigger] rest[a].effect_type
                    != #[trigger] rest[b].effect_type by {
                    assert(rest[a] == before[a + k]);
                    assert(rest[b] == before[b + k]);
                }
                lemma_effect_at(rest, 0);
                lemma_effect_removed(rest, 0);
                assert(rest.remove(0) =~= before.skip(k as int + 1));
                assert(before.take(k as int + 1).drop_last() =~= before.take(k as int));
                lemma_holds_effect_pushed(before.take(k as int), before[k as int]);
                assert(before.take(k as int + 1) =~= before.take(k as int).push(before[k as int]));
            }
            let (_, mut removal) = self.remove_effect(kind);
            steps.append(&mut removal);
            k = k + 1;
        }
        assert(before.take(k as int) =~= before);
        assert(self.active_effects@ =~= Seq::<Effect>::empty());
        steps
    }
}

/// What losing all the effects, one after the other, asks for.
pub open spec fn removal_steps(effects: Seq<Effect>) -> Seq<EffectStep>
    decreases effects.len(),
{
    if effects.len() == 0 {
        Seq::empty()
    } else {
        removal_steps(effects.drop_last()) + remove_effect_steps(effects.last().effect_type)
    }
}

/// An effect more in the list is a kind more in it.
proof fn lemma_holds_effect_pushed(effects: Seq<Effect>, effect: Effect)
    ensures
        forall|kind: StatusEffect|
            holds_effect(effects.push(effect), kind) <==> holds_effect(effects, kind) || kind
                == effect.effect_type,
{
    let after = effects.push(effect);
    assert forall|kind: StatusEffect|
        holds_effect(after, kind) <==> holds_effect(effects, kind) || kind
            == effect.effect_type by {
        if holds_effect(effects, kind) {
            let i = effect_index(effects, kind);
            assert(after[i].effect_type == kind);
        }
        if kind == effect.effect_type {
            assert(after[effects.len() as int].effect_type == kind);
        }
        if holds_effect(after, kind) {
            let i = effect_index(after, kind);
            if i < effects.len() {
                assert(effects[i].effect_type == kind);
            }
        }
    }
}

/// Law: each tick takes one tick off what is left of an effect, down to none, and
/// nothing else of it changes; an endless effect never changes.
pub proof fn law_effect_runs_down(effect: Effect, ticks: nat)
    requires
        effect.duration == ENDLESS || effect.duration >= 0,
    ensures
        effect.duration == ENDLESS ==> aged_by(effect, ticks) == effect,
        effect.duration >= 0 ==> aged_by(effect, ticks).duration == (if ticks >= effect.duration {
            0
        } else {
            effect.duration - ticks
        }),
        aged_by(effect, ticks).effect_type == effect.effect_type,
        aged_by(effect, ticks).amplifier == effect.amplifier,
    decreases ticks,
{
    if ticks > 0 {
        law_effect_runs_down(effect, (ticks - 1) as nat);
    }
}

/// The effect after some ticks.
pub open spec fn aged_by(effect: Effect, ticks: nat) -> Effect
    decreases ticks,
{
    if ticks == 0 {
        effect
    } else {
        aged(aged_by(effect, (ticks - 1) as nat))
    }
}

/// Law: what is over and what acts are never the same effect. An effect whose
/// time is up only goes.
pub proof fn law_expired_effects_do_not_act(effects: Seq<Effect>, age: i32, i: int)
    requires
        effects_distinct(effects),
        0 <= i < effects.len(),
        effects[i].duration == 0,
    ensures
        expired_kinds(effects).contains(effects[i].effect_type),
        forall|amplifier: u8|
            !(#[trigger] acting_effects(effects, age).contains(
                (effects[i].effect_type, amplifier),
            )),
{
    let kind = effects[i].effect_type;
    lemma_expired_kinds(effects, kind);
    lemma_acting_effects_are_held(effects, age);
    assert forall|amplifier: u8|
        !(#[trigger] acting_effects(effects, age).contains((effects[i].effect_type, amplifier))) by {
        lemma_acting_effects(effects, age, kind, amplifier);
    }
}

/// What acts is held.
proof fn lemma_acting_effects_are_held(effects: Seq<Effect>, age: i32)
    ensures
        forall|kind: StatusEffect, amplifier: u8| #[trigger]
            acting_effects(effects, age).contains((kind, amplifier)) ==> holds_effect(
                effects,
                kind,
            ),
    decreases effects.len(),
{
    if effects.len() > 0 {
        let rest = effects.drop_last();
        lemma_acting_effects_are_held(rest, age);
        broadcast use crate::plan::lemma_plan_contains, crate::plan::lemma_only_if_contains;

        assert forall|kind: StatusEffect, amplifier: u8| #[trigger]
            acting_effects(effects, age).contains((kind, amplifier)) implies holds_effect(
            effects,
            kind,
        ) by {
            if acting_effects(rest, age).contains((kind, amplifier)) {
                let j = effect_index(rest, kind);
                assert(effects[j].effect_type == kind);
            } else {
                assert(effects[effects.len() - 1].effect_type == kind);
            }
        }
    }
}

// ---------------------------------------------------------------------------
// Laws.
// ---------------------------------------------------------------------------

/// Law: the rhythm of the effects that act again and again. Poison acts every 25 ticks,
/// regeneration every 50 and withering every 40; each of the first four levels above the first
/// halves that, rounded down. They act only while something is left of them. Hunger acts every 20
/// ticks, a bad omen and saturation in every tick, a raid omen in its last one, and no other
/// effect ever.
pub proof fn law_rhythm_of_the_effects(
    kind: StatusEffect,
    amplifier: u8,
    duration: i32,
    r: bool,
)
    requires
        call_ensures(LivingEntity::should_apply_effect_tick, (kind, amplifier, duration), r),
    ensures
        kind == StatusEffect::Poison || kind == StatusEffect::Regeneration || kind
            == StatusEffect::Wither ==> (duration <= 0 ==> !r),
        kind == StatusEffect::Poison && duration > 0 ==> {
            &&& amplifier == 0 ==> (r <==> duration as int % 25 == 0)
            &&& amplifier == 1 ==> (r <==> duration as int % 12 == 0)
            &&& amplifier == 2 ==> (r <==> duration as int % 6 == 0)
            &&& amplifier == 3 ==> (r <==> duration as int % 3 == 0)
            &&& amplifier >= 4 ==> r
        },
        kind == StatusEffect::Regeneration && duration > 0 ==> {
            &&& amplifier == 0 ==> (r <==> duration as int % 50 == 0)
            &&& amplifier == 1 ==> (r <==> duration as int % 25 == 0)
            &&& amplifier == 2 ==> (r <==> duration as int % 12 == 0)
            &&& amplifier == 3 ==> (r <==> duration as int % 6 == 0)
            &&& amplifier >= 4 ==> (r <==> duration as int % 3 == 0)
        },
        kind == StatusEffect::Wither && duration > 0 ==> {
            &&& amplifier == 0 ==> (r <==> duration as int % 40 == 0)
            &&& amplifier == 1 ==> (r <==> duration as int % 20 == 0)
            &&& amplifier == 2 ==> (r <==> duration as int % 10 == 0)
            &&& amplifier == 3 ==> (r <==> duration as int % 5 == 0)
            &&& amplifier >= 4 ==> (r <==> duration as int % 2 == 0)
        },
        kind == StatusEffect::Hunger ==> (r <==> duration as int % 20 == 0),
        kind == StatusEffect::BadOmen || kind == StatusEffect::Saturation ==> r,
        kind == StatusEffect::RaidOmen ==> (r <==> duration == 1),
        r ==> kind == StatusEffect::Poison || kind == StatusEffect::Regeneration || kind
            == StatusEffect::Wither || kind == StatusEffect::Hunger || kind
            == StatusEffect::BadOmen || kind == StatusEffect::Saturation || kind
            == StatusEffect::RaidOmen,
{
}

/// Law: a tick takes one tick off every effect that has one to lose, and an effect that is over
/// or endless stays as it is. Just those are over of which nothing was left. No effect is lost
/// and none is gained, and the entity does not change in any other way.
pub proof fn law_tick_ages_every_effect(
    entity: &mut LivingEntity,
    r: (Vec<StatusEffect>, Vec<(StatusEffect, u8)>),
    i: int,
    kind: StatusEffect,
)
    requires
        call_ensures(LivingEntity::tick_effects, (entity,), r),
        forall|j: int|
            0 <= j < old(entity).active_effects@.len() ==> (#[trigger] old(entity).active_effects@[j]).duration > i32::MIN,
    ensures
        final(entity).active_effects@.len() == old(entity).active_effects@.len(),
        0 <= i < old(entity).active_effects@.len() ==> {
            let before = old(entity).active_effects@[i];
            let after = final(entity).active_effects@[i];
            &&& after.effect_type == before.effect_type
            &&& after.amplifier == before.amplifier
            &&& after.ambient == before.ambient
            &&& after.show_particles == before.show_particles
            &&& after.show_icon == before.show_icon
            &&& after.duration == (if before.duration == 0 || before.duration == -1 {
                before.duration as int
            } else {
                before.duration - 1
            })
        },
        r.0@.contains(kind) <==> exists|j: int|
            0 <= j < old(entity).active_effects@.len() && (#[trigger] old(entity).active_effects@[j]).effect_type == kind && old(entity).active_effects@[j].duration
                == 0,
        final(entity).health == old(entity).health,
        final(entity).absorption == old(entity).absorption,
        final(entity).age == old(entity).age,
{
    lemma_expired_kinds(old(entity).active_effects@, kind);
}

/// The kinds that are over are those of the effects of which nothing is left.
proof fn lemma_expired_kinds(effects: Seq<Effect>, kind: StatusEffect)
    ensures
        expired_kinds(effects).contains(kind) <==> exists|j: int|
            0 <= j < effects.len() && (#[trigger] effects[j]).effect_type == kind
                && effects[j].duration == 0,
    decreases effects.len(),
{
    broadcast use crate::plan::lemma_plan_contains;
    broadcast use crate::plan::lemma_only_if_contains;

    if effects.len() > 0 {
        let before = effects.drop_last();
        lemma_expired_kinds(before, kind);
        assert forall|j: int| 0 <= j < before.len() implies before[j] == #[trigger] effects[j] by {}
        assert forall|j: int| 0 <= j < before.len() implies effects[j] == #[trigger] before[j] by {}
        assert(effects[effects.len() - 1] == effects.last());
    }
}

/// What acts are the effects that are not over and whose rhythm it is; an endless one goes by
/// the age.
proof fn lemma_acting_effects(effects: Seq<Effect>, age: i32, kind: StatusEffect, amplifier: u8)
    ensures
        acting_effects(effects, age).contains((kind, amplifier)) <==> exists|j: int|
            0 <= j < effects.len() && (#[trigger] effects[j]).effect_type == kind
                && effects[j].amplifier == amplifier && effects[j].duration != 0 && acts_at(
                kind,
                amplifier,
                if effects[j].duration == -1 {
                    age
                } else {
                    effects[j].duration
                },
            ),
    decreases effects.len(),
{
    broadcast use crate::plan::lemma_plan_contains;
    broadcast use crate::plan::lemma_only_if_contains;

    if effects.len() > 0 {
        let before = effects.drop_last();
        lemma_acting_effects(before, age, kind, amplifier);
        assert forall|j: int| 0 <= j < before.len() implies before[j] == #[trigger] effects[j] by {}
        assert forall|j: int| 0 <= j < before.len() implies effects[j] == #[trigger] before[j] by {}
        assert(effects[effects.len() - 1] == effects.last());
    }
}

/// Law: an effect acts in a tick exactly when it is not over and its rhythm says so for the ticks
/// that are left of it, or for the age of the entity where it is endless.
pub proof fn law_effects_act_in_their_rhythm(
    entity: &mut LivingEntity,
    r: (Vec<StatusEffect>, Vec<(StatusEffect, u8)>),
    kind: StatusEffect,
    amplifier: u8,
)
    requires
        call_ensures(LivingEntity::tick_effects, (entity,), r),
    ensures
        r.1@.contains((kind, amplifier)) <==> exists|j: int|
            0 <= j < old(entity).active_effects@.len() && (#[trigger] old(entity).active_effects@[j]).effect_type == kind && old(entity).active_effects@[j].amplifier
                == amplifier && old(entity).active_effects@[j].duration != 0 && acts_at(
                kind,
                amplifier,
                if old(entity).active_effects@[j].duration == -1 {
                    old(entity).age
                } else {
                    old(entity).active_effects@[j].duration
                },
            ),
{
    lemma_acting_effects(old(entity).active_effects@, old(entity).age, kind, amplifier);
}

/// Powers of two that an amplifier can ask for fit into 32 bits.
proof fn lemma_amplified_points(amplifier: u8)
    requires
        amplifier < 31,
    ensures
        1 <= pow2(amplifier as nat) <= 0x4000_0000,
{
    lemma2_to64();
    if amplifier > 0 {
        lemma_pow2_strictly_increases(0, amplifier as nat);
    }
    if amplifier < 30 {
        lemma_pow2_strictly_increases(amplifier as nat, 30);
    }
}

/// Law: what gaining an effect asks for. Instant health heals 4 points and instant damage hurts by
/// 6, doubled for each level above the first; absorption adds 4 points for each level. Any effect
/// that lasts puts its modifiers on. The players around are told of every effect, in the end, with
/// its four flags.
pub proof fn law_steps_of_a_gained_effect(
    entity: &mut LivingEntity,
    effect: Effect,
    in_world: bool,
    steps: Vec<EffectStep>,
    points: i64,
    amplifier: u8,
    kind: StatusEffect,
)
    requires
        call_ensures(LivingEntity::add_effect, (entity, effect, in_world), steps),
        effect.amplifier < 31,
    ensures
        ({
            let instant = effect.effect_type == StatusEffect::InstantHealth || effect.effect_type
                == StatusEffect::InstantDamage;
            &&& steps@.contains(EffectStep::Heal { points }) <==> effect.effect_type
                == StatusEffect::InstantHealth && points == 4 * pow2(effect.amplifier as nat)
            &&& steps@.contains(EffectStep::HurtByMagic { points }) <==> effect.effect_type
                == StatusEffect::InstantDamage && in_world && points == 6 * pow2(
                effect.amplifier as nat,
            )
            &&& steps@.contains(EffectStep::RaiseAbsorption { points }) <==> effect.effect_type
                == StatusEffect::Absorption && points == 4 * effect.amplifier + 4
            &&& steps@.contains(EffectStep::ApplyModifiers { kind, amplifier }) <==> !instant
                && kind == effect.effect_type && amplifier == effect.amplifier
            &&& steps@.contains(EffectStep::SetInvisible { invisible: true }) <==> effect.effect_type
                == StatusEffect::Invisibility
            &&& steps@.contains(EffectStep::SetGlowing { glowing: true }) <==> effect.effect_type
                == StatusEffect::Glowing
            &&& !steps@.contains(EffectStep::SetInvisible { invisible: false })
            &&& !steps@.contains(EffectStep::SetGlowing { glowing: false })
            &&& steps@.last() is SendEffect
            &&& steps@.last()->effect == effect
            &&& steps@.last()->flags == (if effect.ambient {
                1int
            } else {
                0
            }) + (if effect.show_particles {
                2int
            } else {
                0
            }) + (if effect.show_icon {
                4int
            } else {
                0
            }) + (if effect.blend {
                8int
            } else {
                0
            })
            &&& instant ==> effect_map(final(entity).active_effects@) == effect_map(
                old(entity).active_effects@,
            )
            &&& !instant ==> effect_map(final(entity).active_effects@).contains_key(
                effect.effect_type,
            ) && effect_map(final(entity).active_effects@)[effect.effect_type] == effect
        }),
{
    broadcast use crate::plan::lemma_plan_contains;
    broadcast use crate::plan::lemma_only_if_contains;
    broadcast use crate::plan::lemma_single_contains;

    lemma_amplified_points(effect.amplifier);
}

/// Law: what losing an effect asks for. The players around are told, its modifiers go, absorption
/// goes with its hearts, a lost boost of health cuts the health back, and nothing stays invisible
/// or glowing of it. Every other effect stays.
pub proof fn law_steps_of_a_lost_effect(
    entity: &mut LivingEntity,
    kind: StatusEffect,
    r: (bool, Vec<EffectStep>),
    other: StatusEffect,
)
    requires
        call_ensures(LivingEntity::remove_effect, (entity, kind), r),
    ensures
        r.1@.contains((EffectStep::SendEffectRemoved { kind: other })) <==> other == kind,
        r.1@.contains((EffectStep::DropModifiers { kind: other })) <==> other == kind,
        r.1@.contains(EffectStep::SendNoAbsorption) <==> kind == StatusEffect::Absorption,
        r.1@.contains(EffectStep::CutHealth) <==> kind == StatusEffect::HealthBoost,
        r.1@.contains((EffectStep::SetInvisible { invisible: false })) <==> kind
            == StatusEffect::Invisibility,
        r.1@.contains((EffectStep::SetGlowing { glowing: false })) <==> kind
            == StatusEffect::Glowing,
        !r.1@.contains((EffectStep::SetInvisible { invisible: true })),
        !r.1@.contains((EffectStep::SetGlowing { glowing: true })),
        kind == StatusEffect::Absorption ==> final(entity).absorption == 0,
        kind != StatusEffect::Absorption ==> final(entity).absorption == old(entity).absorption,
        r.0 <==> effect_map(old(entity).active_effects@).contains_key(kind),
        !effect_map(final(entity).active_effects@).contains_key(kind),
        other != kind ==> effect_map(final(entity).active_effects@).contains_key(other)
            == effect_map(old(entity).active_effects@).contains_key(other),
        other != kind && effect_map(old(entity).active_effects@).contains_key(other) ==> effect_map(
            final(entity).active_effects@,
        )[other] == effect_map(old(entity).active_effects@)[other],
        final(entity).health == old(entity).health,
{
    broadcast use crate::plan::lemma_plan_contains;
    broadcast use crate::plan::lemma_only_if_contains;
    broadcast use crate::plan::lemma_single_contains;

}

/// Law: health that is set is what was asked for, as far as it is between nothing and the greatest
/// health, and else the nearer end; that is what is sent.
pub proof fn law_health_is_set_within_its_bounds(
    entity: &mut LivingEntity,
    health: Rank32,
    sent: Rank32,
)
    requires
        call_ensures(LivingEntity::set_health, (entity, health), sent),
        old(entity).max_health >= 0,
    ensures
        sent == final(entity).health,
        0 <= health <= old(entity).max_health ==> final(entity).health == health,
        health < 0 ==> final(entity).health == 0,
        health > old(entity).max_health ==> final(entity).health == old(entity).max_health,
        *final(entity) == (LivingEntity { health: final(entity).health, ..*old(entity) }),
{
}

/// Law: absorption that is set is what was asked for, but never below nothing. The greatest
/// absorption is sent, and a player also sees its hearts.
pub proof fn law_absorption_is_never_negative(
    entity: &mut LivingEntity,
    absorption: Rank32,
    steps: Vec<AbsorptionStep>,
)
    requires
        call_ensures(LivingEntity::set_absorption, (entity, absorption), steps),
    ensures
        absorption >= 0 ==> final(entity).absorption == absorption,
        absorption < 0 ==> final(entity).absorption == 0,
        steps@[0] == AbsorptionStep::SendMaxAbsorption,
        steps@.len() == (if old(entity).entity_type == EntityType::Player {
            2int
        } else {
            1
        }),
        old(entity).entity_type == EntityType::Player ==> steps@[1] == (AbsorptionStep::SendHearts {
            absorption: final(entity).absorption,
        }),
        final(entity).health == old(entity).health,
{
}

/// Law: absorption that is raised ends at what it is raised to, or at the greatest absorption
/// where that is less.
pub proof fn law_absorption_is_raised_to_its_limit(
    entity: &mut LivingEntity,
    raised: Rank32,
    max_absorption: Rank32,
    steps: Vec<AbsorptionStep>,
)
    requires
        call_ensures(LivingEntity::raise_absorption, (entity, raised, max_absorption), steps),
        raised >= 0,
        max_absorption >= 0,
    ensures
        final(entity).absorption <= max_absorption,
        raised <= max_absorption ==> final(entity).absorption == raised,
        raised > max_absorption ==> final(entity).absorption == max_absorption,
        steps@.len() == (if old(entity).entity_type == EntityType::Player {
            2int
        } else {
            1
        }),
{
}

/// Law: a lost boost cuts the health back to the greatest health, and only what is above it.
pub proof fn law_health_is_cut_back(entity: &mut LivingEntity, sent: Option<Rank32>)
    requires
        call_ensures(LivingEntity::cut_health, (entity,), sent),
        old(entity).max_health >= 0,
    ensures
        final(entity).health <= old(entity).max_health,
        old(entity).health <= old(entity).max_health ==> final(entity).health == old(entity).health
            && sent is None,
        old(entity).health > old(entity).max_health ==> final(entity).health == old(entity).max_health && sent == Some(final(entity).health),
        final(entity).max_health == old(entity).max_health,
{
}

/// Law: poison never kills: it hurts only while there is more than one point of health.
/// Regeneration heals only the living, up to their greatest health. Hunger, saturation and omens
/// do nothing to anyone but players, and poison and withering nothing outside the world.
pub proof fn law_what_an_acting_effect_does(
    entity: LivingEntity,
    kind: StatusEffect,
    amplifier: u8,
    in_world: bool,
    is_player: bool,
    r: EffectTick,
)
    requires
        call_ensures(
            LivingEntity::apply_effect_tick,
            (&entity, kind, amplifier, in_world, is_player),
            r,
        ),
        amplifier < 255,
    ensures
        r == EffectTick::PoisonOne <==> kind == StatusEffect::Poison && in_world && entity.health
            > 0x3F80_0000,
        r == EffectTick::HealOne <==> kind == StatusEffect::Regeneration && entity.health > 0
            && entity.health < entity.max_health,
        r == EffectTick::WitherOne <==> kind == StatusEffect::Wither && in_world,
        r is Exhaust <==> kind == StatusEffect::Hunger && is_player,
        r is Exhaust ==> r->tenths == amplifier + 1,
        r is Feed <==> kind == StatusEffect::Saturation && is_player,
        r is Feed ==> r->points == amplifier + 1,
        r is ConvertBadOmen <==> kind == StatusEffect::BadOmen && is_player,
        r is ConvertBadOmen ==> r->amplifier == amplifier,
        r == EffectTick::TriggerRaid <==> kind == StatusEffect::RaidOmen && is_player,
{
}

/// What losing all the effects asks for is that each of them is lost.
proof fn lemma_all_effects_are_lost(effects: Seq<Effect>, kind: StatusEffect)
    ensures
        removal_steps(effects).contains((EffectStep::SendEffectRemoved { kind })) <==> holds_effect(
            effects,
            kind,
        ),
        removal_steps(effects).contains((EffectStep::DropModifiers { kind })) <==> holds_effect(
            effects,
            kind,
        ),
    decreases effects.len(),
{
    broadcast use crate::plan::lemma_plan_contains;
    broadcast use crate::plan::lemma_only_if_contains;
    broadcast use crate::plan::lemma_single_contains;

    if effects.len() > 0 {
        let before = effects.drop_last();
        lemma_all_effects_are_lost(before, kind);
        assert(effects =~= before.push(effects.last()));
        lemma_holds_effect_pushed(before, effects.last());
    }
}

/// Law: an entity that is made anew loses all its effects, each of them told to the players
/// around, and its modifiers go; its health stays.
pub proof fn law_reset_loses_every_effect(
    entity: &mut LivingEntity,
    steps: Vec<EffectStep>,
    kind: StatusEffect,
)
    requires
        call_ensures(LivingEntity::reset_effects_and_attributes, (entity,), steps),
    ensures
        final(entity).active_effects@.len() == 0,
        steps@.contains((EffectStep::SendEffectRemoved { kind })) <==> exists|i: int|
            0 <= i < old(entity).active_effects@.len() && (#[trigger] old(entity).active_effects@[i]).effect_type == kind,
        steps@.contains((EffectStep::DropModifiers { kind })) <==> exists|i: int|
            0 <= i < old(entity).active_effects@.len() && (#[trigger] old(entity).active_effects@[i]).effect_type == kind,
        final(entity).health == old(entity).health,
{
    lemma_all_effects_are_lost(old(entity).active_effects@, kind);
}

/// Law: who is healed has what it is raised to, but no more than it can and no less than nothing, and is
/// otherwise as it was.
pub proof fn law_healing_keeps_within_the_greatest_health(
    entity: &mut LivingEntity,
    added: Rank32,
    raised: Rank32,
    sent: Rank32,
)
    requires
        call_ensures(LivingEntity::heal, (entity, added, raised), sent),
        old(entity).max_health >= 0,
    ensures
        final(entity).health == sent,
        0 <= sent <= old(entity).max_health,
        0 <= raised <= old(entity).max_health ==> sent == raised,
        raised > old(entity).max_health ==> sent == old(entity).max_health,
        *final(entity) == (LivingEntity { health: sent, ..*old(entity) }),
{
}

/// Law: an entity tells its greatest health, its absorption and its effects as they are: an effect is
/// there just where one of its kind is held, and is then one that is held.
pub proof fn law_entity_tells_what_it_has(
    entity: LivingEntity,
    kind: StatusEffect,
    max_health: Rank32,
    absorption: Rank32,
    has: bool,
    effect: Option<Effect>,
)
    requires
        call_ensures(LivingEntity::get_max_health, (&entity,), max_health),
        call_ensures(LivingEntity::get_absorption, (&entity,), absorption),
        call_ensures(LivingEntity::has_effect, (&entity, kind), has),
        call_ensures(LivingEntity::get_effect, (&entity, kind), effect),
    ensures
        max_health == entity.max_health,
        absorption == entity.absorption,
        has <==> exists|i: int|
            0 <= i < entity.active_effects@.len() && (
            #[trigger] entity.active_effects@[i]).effect_type == kind,
        effect is Some <==> has,
        effect is Some ==> effect->0.effect_type == kind && entity.active_effects@.contains(
            effect->0,
        ),
{
}

/// Law: a new greatest health is sent, and health that exceeds it is cut back and sent after that. The
/// attribute has the new base and its modifiers, and all others stay.
pub proof fn law_new_greatest_health_is_sent<F: Fn(&AttributeInstance) -> Rank32>(
    entity: &mut LivingEntity,
    base: Rank32,
    wide_base: Rank64,
    worth: F,
    steps: Vec<HealthStep>,
    other: u8,
)
    requires
        call_ensures(
            LivingEntity::set_max_health::<F>,
            (entity, base, wide_base, &worth),
            steps,
        ),
    ensures
        steps@.len() >= 1,
        steps@[0] == (HealthStep::SendAttribute { attribute: old(entity).max_health_attribute }),
        old(entity).health <= base ==> steps@.len() == 1 && final(entity).health == old(entity).health,
        old(entity).health > base ==> steps@.len() == 2 && steps@[1] == (HealthStep::SendHealth {
            health: final(entity).health,
        }),
        old(entity).health > base && 0 <= base <= final(entity).max_health ==> final(entity).health == base,
        attribute_values(final(entity).attributes@)[old(entity).max_health_attribute].0
            == wide_base,
        other != old(entity).max_health_attribute && old(entity).attributes@.contains_key(other)
            ==> attribute_values(final(entity).attributes@)[other] == attribute_values(
            old(entity).attributes@,
        )[other],
{
}

/// Law: a number of ticks is a whole number of periods just where some whole number of them makes it up.
pub proof fn law_multiples_are_whole_periods(duration: i32, period: i32, r: bool, times: int)
    requires
        call_ensures(is_multiple, (duration, period), r),
        period > 0,
    ensures
        duration == times * period ==> r,
        r ==> duration == (duration as int / period as int) * period,
{
    if duration == times * period {
        vstd::arithmetic::div_mod::lemma_mod_multiples_basic(times, period as int);
    }
    vstd::arithmetic::div_mod::lemma_fundamental_div_mod(duration as int, period as int);
    assert(period as int * (duration as int / period as int) == (duration as int / period as int)
        * period as int) by (nonlinear_arith);
}

} // verus!
