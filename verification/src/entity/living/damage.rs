//! How a living entity takes a hit: what stops it, what softens it, what a
//! shield does to it, and what is left for absorption and health.
//!
//! A hit is settled in three calls. [`LivingEntity::refuses_hit`] and
//! [`reductions`] say whether it counts and what softens it; the caller then
//! works out the amounts. [`LivingEntity::damage_with_context_impl`] decides
//! whether the hit lands, and [`LivingEntity::settle_damage`] what it costs.

use vstd::prelude::*;

use super::death::{
    armor_wear, first_protecting, lemma_small_wear, lemma_some_hand_protects, totem_absorption,
    totem_fire_resistance, totem_regeneration, wear_of, Conversion, DamageResult, DeathScene,
    DeathStep, TotemUse,
};
use super::effects::{add_effect_steps, clamp_health, effect_map, AbsorptionStep, ONE_POINT};
use super::{holds_effect, LivingEntity};
use crate::data::damage_type::{bypasses_armor_durability, DamageType};
use crate::data::effect::StatusEffect;
use crate::data::entity_type::{Difficulty, EntityType};
use crate::data::equipment::{Enchantment, EnchantmentLevel, EquipmentSlot, Hand};
use crate::data::rank::{max32, min32, rank_max, rank_min, Rank32, Rank64};
use crate::plan::{only_if, push_if, push_step};

verus! {

/// No hit is softened by more than this much enchantment protection.
pub const MAX_PROTECTION_FACTOR: i32 = 20;

/// The hurt cooldown that a hit taken in full starts.
pub const HURT_COOLDOWN: i32 = 20;

/// While the hurt cooldown is above this, only the excess over the last hit counts.
pub const HURT_COOLDOWN_GRACE: i32 = 10;

/// A blocked hit below this amount (3.0) costs the shield no durability.
pub const SHIELD_DAMAGE_THRESHOLD: Rank32 = 0x4040_0000;

/// The chance (0.25) that an axe disables a shield.
pub const AXE_DISABLE_CHANCE: Rank32 = 0x3E80_0000;

/// The chance (1.0) that a sprinting attacker's axe disables a shield.
pub const SPRINTING_DISABLE_CHANCE: Rank32 = 0x3F80_0000;

/// How many ticks a disabled shield stays out of use.
pub const SHIELD_COOLDOWN: i32 = 100;

/// With this much knockback resistance (1.0) nothing pushes the entity.
pub const FULL_KNOCKBACK_RESISTANCE: Rank64 = 0x3FF0_0000_0000_0000;

/// The entity status that shows a disabled shield.
pub const SHIELD_DISABLED_STATUS: u8 = 30;

// ---------------------------------------------------------------------------
// What softens a hit.
// ---------------------------------------------------------------------------

/// What softens a hit of one kind of damage.
#[derive(Clone, Copy, Debug, PartialEq, Eq, Structural)]
pub struct Reductions {
    /// Armour and its toughness.
    pub armor: bool,
    /// Protective enchantments on armour.
    pub enchantments: bool,
    /// The resistance effect.
    pub resistance: bool,
}

/// What softens a hit of the kind of damage.
pub fn reductions(damage_type: DamageType) -> (r: Reductions)
    ensures
        r.armor == !damage_type.spec_bypasses_armor(),
        r.enchantments == (damage_type != DamageType::OutOfWorld),
        r.resistance == (damage_type != DamageType::GenericKill && damage_type
            != DamageType::OutOfWorld && damage_type != DamageType::Starve),
{
    Reductions {
        armor: !bypasses_armor_durability(&damage_type),
        enchantments: damage_type != DamageType::OutOfWorld,
        resistance: !damage_type.bypasses_cooldown() && damage_type != DamageType::Starve,
    }
}

/// Whether freezing hurts the entity five times as much: it does for the kinds of
/// entities in `freeze_hurts_extra_types`.
pub fn freezing_hurts_extra(damage_type: DamageType, in_freeze_hurts_extra_types: bool) -> (r: bool)
    ensures
        r == (damage_type == DamageType::Freeze && in_freeze_hurts_extra_types),
{
    damage_type == DamageType::Freeze && in_freeze_hurts_extra_types
}

/// How much each level of an enchantment protects from the kind of damage.
pub open spec fn protection_weight(enchantment: Enchantment, damage_type: DamageType) -> int {
    match enchantment {
        Enchantment::Protection => if damage_type == DamageType::Drown || damage_type
            == DamageType::Starve || damage_type == DamageType::GenericKill {
            0
        } else {
            1
        },
        Enchantment::FireProtection => if damage_type.spec_is_fire() {
            2
        } else {
            0
        },
        Enchantment::BlastProtection => if damage_type == DamageType::Explosion || damage_type
            == DamageType::PlayerExplosion {
            2
        } else {
            0
        },
        Enchantment::ProjectileProtection => if damage_type == DamageType::Arrow || damage_type
            == DamageType::MobProjectile || damage_type == DamageType::Thrown {
            2
        } else {
            0
        },
        Enchantment::FeatherFalling => if damage_type == DamageType::Fall {
            4
        } else {
            0
        },
        _ => 0,
    }
}

/// The protection of one enchantment at its level.
pub open spec fn protection_of(enchanted: EnchantmentLevel, damage_type: DamageType) -> int {
    protection_weight(enchanted.enchantment, damage_type) * enchanted.level
}

/// The protection of all the enchantments together.
pub open spec fn protection_sum(enchantments: Seq<EnchantmentLevel>, damage_type: DamageType) -> int
    decreases enchantments.len(),
{
    if enchantments.len() == 0 {
        0
    } else {
        protection_sum(enchantments.drop_last(), damage_type) + protection_of(
            enchantments.last(),
            damage_type,
        )
    }
}

/// Every single protection, and every sum on the way, is a number of 32 bits.
pub open spec fn protection_fits(
    enchantments: Seq<EnchantmentLevel>,
    damage_type: DamageType,
) -> bool {
    &&& forall|i: int|
        0 <= i < enchantments.len() ==> i32::MIN <= #[trigger] protection_of(
            enchantments[i],
            damage_type,
        ) <= i32::MAX
    &&& forall|k: int|
        0 <= k <= enchantments.len() ==> i32::MIN <= #[trigger] protection_sum(
            enchantments.take(k),
            damage_type,
        ) <= i32::MAX
}

/// How much each level of an enchantment protects from the kind of damage.
fn protection_per_level(enchantment: Enchantment, damage_type: DamageType) -> (r: i32)
    ensures
        r == protection_weight(enchantment, damage_type),
        0 <= r <= 4,
{
    match enchantment {
        Enchantment::Protection => if damage_type != DamageType::Drown && damage_type
            != DamageType::Starve && damage_type != DamageType::GenericKill {
            1
        } else {
            0
        },
        Enchantment::FireProtection => if damage_type.is_fire() {
            2
        } else {
            0
        },
        Enchantment::BlastProtection => if damage_type == DamageType::Explosion || damage_type
            == DamageType::PlayerExplosion {
            2
        } else {
            0
        },
        Enchantment::ProjectileProtection => if damage_type == DamageType::Arrow || damage_type
            == DamageType::MobProjectile || damage_type == DamageType::Thrown {
            2
        } else {
            0
        },
        Enchantment::FeatherFalling => if damage_type == DamageType::Fall {
            4
        } else {
            0
        },
        _ => 0,
    }
}

/// The protection that the enchantments on the armour worn give from the kind of
/// damage: the sum over all of them, but no more than 20.
pub fn enchantment_protection(
    enchantments: &Vec<EnchantmentLevel>,
    damage_type: DamageType,
) -> (r: i32)
    requires
        protection_fits(enchantments@, damage_type),
    ensures
        r == rank_min(protection_sum(enchantments@, damage_type), MAX_PROTECTION_FACTOR as int),
{
    let mut sum: i32 = 0;
    let mut i: usize = 0;
    while i < enchantments.len()
        invariant
            i <= enchantments.len(),
            protection_fits(enchantments@, damage_type),
            sum == protection_sum(enchantments@.take(i as int), damage_type),
        decreases enchantments.len() - i,
    {
        let enchanted: EnchantmentLevel = enchantments[i];
        let weight: i32 = protection_per_level(enchanted.enchantment, damage_type);
        assert(weight * enchanted.level == protection_of(enchantments@[i as int], damage_type));
        let factor: i32 = weight * enchanted.level;
        assert(enchantments@.take(i as int + 1).drop_last() =~= enchantments@.take(i as int));
        assert(protection_sum(enchantments@.take(i as int + 1), damage_type) == sum + factor);
        sum = sum + factor;
        i = i + 1;
    }
    assert(enchantments@.take(i as int) =~= enchantments@);
    min32(sum, MAX_PROTECTION_FACTOR)
}

/// Law: armour whose enchantments do not speak of a kind of damage does not
/// soften it, and with levels of 0 or more no enchantment makes a hit worse.
pub proof fn law_protection_is_never_negative(
    enchantments: Seq<EnchantmentLevel>,
    damage_type: DamageType,
)
    requires
        forall|i: int| 0 <= i < enchantments.len() ==> #[trigger] enchantments[i].level >= 0,
    ensures
        protection_sum(enchantments, damage_type) >= 0,
        (forall|i: int|
            0 <= i < enchantments.len() ==> protection_weight(
                #[trigger] enchantments[i].enchantment,
                damage_type,
            ) == 0) ==> protection_sum(enchantments, damage_type) == 0,
    decreases enchantments.len(),
{
    if enchantments.len() > 0 {
        let rest = enchantments.drop_last();
        assert forall|i: int| 0 <= i < rest.len() implies #[trigger] rest[i].level >= 0 by {
            assert(rest[i] == enchantments[i]);
        }
        law_protection_is_never_negative(rest, damage_type);
        let last = enchantments.last();
        assert(last == enchantments[enchantments.len() - 1]);
        let weight = protection_weight(last.enchantment, damage_type);
        assert(weight * last.level >= 0) by (nonlinear_arith)
            requires
                weight >= 0,
                last.level >= 0,
        ;
        if forall|i: int|
            0 <= i < enchantments.len() ==> protection_weight(
                #[trigger] enchantments[i].enchantment,
                damage_type,
            ) == 0 {
            assert forall|i: int| 0 <= i < rest.len() implies protection_weight(
                #[trigger] rest[i].enchantment,
                damage_type,
            ) == 0 by {
                assert(rest[i] == enchantments[i]);
            }
            assert(weight * last.level == 0) by (nonlinear_arith)
                requires
                    weight == 0,
            ;
        }
    }
}

// ---------------------------------------------------------------------------
// Whether a hit lands.
// ---------------------------------------------------------------------------

/// What a rule reads of an entity that deals damage.
#[derive(Clone, Copy, Debug, PartialEq, Eq, Structural)]
pub struct Attacker {
    pub entity_id: i32,
    pub entity_type: EntityType,
    pub is_player: bool,
    pub holds_axe: bool,
    pub sprinting: bool,
}

/// A hit on a living entity, with the amounts that it comes to.
#[derive(Clone, Copy, Debug, PartialEq, Eq, Structural)]
pub struct Hit {
    pub damage_type: DamageType,
    /// Whether the entity is invulnerable to the kind of damage.
    pub invulnerable: bool,
    /// Whether fire hurts players.
    pub fire_damage_rule: bool,
    /// The amount, with what freezing adds to it.
    pub amount: Rank32,
    /// The amount after armour, enchantments and resistance.
    pub effective_amount: Rank32,
    /// The effective amount in tenths, for statistics.
    pub effective_tenths: i32,
    /// The share that the resistance effect takes off.
    pub resistance: Rank32,
    /// What the resistance effect takes off, in tenths.
    pub resisted_tenths: i32,
    /// Whether the entity hit is a player.
    pub victim_is_player: bool,
    /// What deals the damage, such as an arrow.
    pub source: Option<Attacker>,
    /// Who is behind it, such as the archer.
    pub cause: Option<Attacker>,
    /// Whether the kind of damage goes through shields.
    pub bypasses_shield: bool,
    /// Whether the damage comes from in front of the entity. None where it comes
    /// from no place.
    pub from_front: Option<bool>,
    /// A number drawn from 0.0 up to 1.0, for an axe on a shield.
    pub disable_roll: Rank32,
    /// What a block costs the shield: the amount and 1, rounded down.
    pub block_durability: i32,
    /// Whether hits are shown by the hurt animation.
    pub hurt_animation: bool,
    /// What the attribute for knockback resistance is worth.
    pub knockback_resistance: Rank64,
}

/// Who a statistic is counted for.
#[derive(Clone, Copy, Debug, PartialEq, Eq, Structural)]
pub enum Party {
    Victim,
    Attacker,
}

/// The statistics on damage.
#[derive(Clone, Copy, Debug, PartialEq, Eq, Structural)]
pub enum DamageStat {
    DamageResisted,
    DamageDealtResisted,
    DamageBlockedByShield,
    DamageAbsorbed,
    DamageDealtAbsorbed,
    DamageTaken,
    DamageDealt,
}

/// What a hit asks the world to do.
#[derive(Clone, Copy, Debug, PartialEq, Eq, Structural)]
pub enum HitStep {
    /// Adds to a player's statistic.
    AddStat { party: Party, stat: DamageStat, tenths: i32 },
    PlayShieldBlock,
    /// The advancement for damage stopped with a shield.
    TriggerDeflectedDamage,
    /// Keeps the player from using a shield for some ticks.
    StartShieldCooldown { ticks: i32 },
    ClearActiveHand,
    ShowStatus { status: u8 },
    /// Takes durability off the item in the slot.
    DamageShield { slot: EquipmentSlot, durability: i32 },
    ShowHurtAnimation,
    SendDamageEvent,
    TrySpawnSilverfish,
    PlayHurtSound,
    /// Pushes the entity away from the source.
    Knockback,
    /// Counts the broken item for the player.
    CountBroken { slot: EquipmentSlot },
    ShowBreak { slot: EquipmentSlot },
    /// Empties the place and shows that to the players around.
    EmptySlot { slot: EquipmentSlot },
}

/// How a hit ended.
#[derive(Clone, Copy, Debug, PartialEq, Eq, Structural)]
pub enum HitOutcome {
    /// The hit does not count at all.
    Refused,
    /// A shield stopped it.
    Blocked,
    /// It came too soon after one at least as hard.
    TooSoon,
    /// It lands with what it exceeds the last hit by.
    LandsExcess,
    /// It lands in full.
    LandsInFull,
}

/// The damage that a hit which lands deals, from its effective amount and what
/// that exceeds the last hit by.
pub fn landed_damage(outcome: HitOutcome, effective: Rank32, excess: Rank32) -> (r: Rank32)
    ensures
        r == match outcome {
            HitOutcome::LandsInFull => rank_max(effective as int, 0),
            HitOutcome::LandsExcess => rank_max(excess as int, 0),
            _ => 0,
        },
{
    match outcome {
        HitOutcome::LandsInFull => max32(effective, 0),
        HitOutcome::LandsExcess => max32(excess, 0),
        _ => 0,
    }
}

/// The chance that the attacker's axe disables a shield.
pub open spec fn disable_chance(attacker: Attacker) -> Rank32 {
    if attacker.sprinting {
        SPRINTING_DISABLE_CHANCE
    } else {
        AXE_DISABLE_CHANCE
    }
}

impl Hit {
    /// The attacker, where it is a player.
    pub open spec fn spec_attacking_player(self) -> Option<Attacker> {
        match self.cause {
            Some(cause) => if cause.is_player {
                Some(cause)
            } else {
                None
            },
            None => None,
        }
    }

    /// The attacker, where it is a player.
    fn attacking_player(&self) -> (r: Option<Attacker>)
        ensures
            r == self.spec_attacking_player(),
    {
        match self.cause {
            Some(cause) => if cause.is_player {
                Some(cause)
            } else {
                None
            },
            None => None,
        }
    }

    /// The hit disables the shield that stops it: a player struck a player with an
    /// axe, and the roll is below the chance.
    pub open spec fn spec_disables_shield(self) -> bool {
        self.victim_is_player && match self.spec_attacking_player() {
            Some(attacker) => attacker.holds_axe && self.disable_roll < disable_chance(attacker),
            None => false,
        }
    }

    /// What is counted where resistance takes something off.
    pub open spec fn resistance_steps(self) -> Seq<HitStep> {
        Seq::<HitStep>::empty() + only_if(
            self.resistance > 0 && self.victim_is_player,
            (HitStep::AddStat {
                party: Party::Victim,
                stat: DamageStat::DamageResisted,
                tenths: self.resisted_tenths,
            }),
        ) + only_if(
            self.resistance > 0 && self.spec_attacking_player() is Some,
            (HitStep::AddStat {
                party: Party::Attacker,
                stat: DamageStat::DamageDealtResisted,
                tenths: self.resisted_tenths,
            }),
        )
    }

    /// What follows the steps so far where a shield held in `hand` stops the hit. The
    /// shield wears only where it stays in use and the amount is at least 3.
    pub open spec fn shield_steps(self, so_far: Seq<HitStep>, hand: Option<Hand>) -> Seq<HitStep> {
        so_far + seq![HitStep::PlayShieldBlock] + only_if(
            self.victim_is_player,
            (HitStep::AddStat {
                party: Party::Victim,
                stat: DamageStat::DamageBlockedByShield,
                tenths: self.effective_tenths,
            }),
        ) + only_if(self.victim_is_player, HitStep::TriggerDeflectedDamage) + only_if(
            self.spec_disables_shield(),
            (HitStep::StartShieldCooldown { ticks: SHIELD_COOLDOWN }),
        ) + only_if(self.spec_disables_shield(), HitStep::ClearActiveHand) + only_if(
            self.spec_disables_shield(),
            (HitStep::ShowStatus { status: SHIELD_DISABLED_STATUS }),
        ) + only_if(
            !self.spec_disables_shield() && hand is Some && self.amount >= SHIELD_DAMAGE_THRESHOLD,
            (HitStep::DamageShield {
                slot: shield_slot(hand),
                durability: self.block_durability,
            }),
        )
    }

    /// What follows the steps so far where the hit lands.
    pub open spec fn landing_steps(self, so_far: Seq<HitStep>, in_full: bool) -> Seq<HitStep> {
        so_far + only_if(self.hurt_animation, HitStep::ShowHurtAnimation) + seq![
            HitStep::SendDamageEvent,
        ] + seq![HitStep::TrySpawnSilverfish] + only_if(in_full, HitStep::PlayHurtSound) + only_if(
            in_full && self.source is Some && self.source->0.entity_type != EntityType::IronGolem
                && self.knockback_resistance < FULL_KNOCKBACK_RESISTANCE,
            HitStep::Knockback,
        )
    }

    /// The entity that is remembered as the attacker: the cause, or else the source.
    pub open spec fn spec_blamed(self) -> Option<Attacker> {
        if self.cause is Some {
            self.cause
        } else {
            self.source
        }
    }
}

/// The slot of the shield that is held in the hand: the left hand is the off hand.
pub open spec fn shield_slot(hand: Option<Hand>) -> EquipmentSlot {
    if hand == Some(Hand::Left) {
        EquipmentSlot::OffHand
    } else {
        EquipmentSlot::MainHand
    }
}

impl LivingEntity {
    /// The hit does not count: the entity is invulnerable, gone, dead or dying, the
    /// amount is negative, or it is fire that cannot hurt the entity.
    pub open spec fn spec_refuses_hit(self, hit: Hit) -> bool {
        ||| hit.invulnerable
        ||| self.removed || self.removal_reason is Some
        ||| self.spec_dying()
        ||| hit.amount < 0
        ||| hit.damage_type.spec_is_fire() && self.entity_type == EntityType::Player
            && !hit.fire_damage_rule
        ||| hit.damage_type.spec_is_fire() && holds_effect(
            self.active_effects@,
            StatusEffect::FireResistance,
        )
    }

    /// A raised shield faces the hit, which does not go through shields.
    pub open spec fn spec_blocks_hit(self, hit: Hit) -> bool {
        self.spec_is_blocking() && !hit.bypasses_shield && hit.from_front == Some(true)
    }

    /// The entity was hurt a moment ago, and the kind of damage minds that.
    pub open spec fn spec_in_grace(self, hit: Hit) -> bool {
        self.hurt_cooldown > HURT_COOLDOWN_GRACE && !hit.damage_type.spec_bypasses_cooldown()
    }

    /// How the hit ends.
    pub open spec fn spec_outcome(self, hit: Hit) -> HitOutcome {
        if self.spec_refuses_hit(hit) {
            HitOutcome::Refused
        } else if self.spec_blocks_hit(hit) {
            HitOutcome::Blocked
        } else if !self.spec_in_grace(hit) {
            HitOutcome::LandsInFull
        } else if hit.effective_amount <= self.last_damage_taken {
            HitOutcome::TooSoon
        } else {
            HitOutcome::LandsExcess
        }
    }

    /// The entity after the hit. One that does not land changes nothing.
    pub open spec fn spec_after_hit(self, hit: Hit) -> LivingEntity {
        let outcome = self.spec_outcome(hit);
        if outcome == HitOutcome::LandsInFull || outcome == HitOutcome::LandsExcess {
            LivingEntity {
                hurt_cooldown: if outcome == HitOutcome::LandsInFull {
                    HURT_COOLDOWN
                } else {
                    self.hurt_cooldown
                },
                last_damage_taken: hit.amount,
                last_attacker_id: match hit.spec_blamed() {
                    Some(attacker) => attacker.entity_id,
                    None => self.last_attacker_id,
                },
                last_attacked_time: if hit.spec_blamed() is Some {
                    self.age
                } else {
                    self.last_attacked_time
                },
                ..self
            }
        } else {
            self
        }
    }

    /// Whether the hit does not count at all.
    pub fn refuses_hit(&self, hit: &Hit) -> (r: bool)
        ensures
            r == self.spec_refuses_hit(*hit),
    {
        if hit.invulnerable || self.removed || self.removal_reason.is_some() || self.health <= 0
            || self.dead || hit.amount < 0 {
            return true;
        }
        if hit.damage_type.is_fire() {
            if self.entity_type == EntityType::Player && !hit.fire_damage_rule {
                return true;
            }
            return self.has_effect(StatusEffect::FireResistance);
        }
        false
    }

    /// Adds to the plan what follows where a shield stops the hit.
    fn block_hit(&self, hit: &Hit, steps: &mut Vec<HitStep>)
        ensures
            final(steps)@ == hit.shield_steps(old(steps)@, self.active_hand),
    {
        let victim: bool = hit.victim_is_player;
        push_step(steps, HitStep::PlayShieldBlock);
        push_if(
            steps,
            victim,
            HitStep::AddStat {
                party: Party::Victim,
                stat: DamageStat::DamageBlockedByShield,
                tenths: hit.effective_tenths,
            },
        );
        push_if(steps, victim, HitStep::TriggerDeflectedDamage);
        let disables: bool = match hit.attacking_player() {
            Some(attacker) => {
                let chance: Rank32 = if attacker.sprinting {
                    SPRINTING_DISABLE_CHANCE
                } else {
                    AXE_DISABLE_CHANCE
                };
                attacker.holds_axe && hit.disable_roll < chance && victim
            },
            None => false,
        };
        push_if(steps, disables, HitStep::StartShieldCooldown { ticks: SHIELD_COOLDOWN });
        push_if(steps, disables, HitStep::ClearActiveHand);
        push_if(steps, disables, HitStep::ShowStatus { status: SHIELD_DISABLED_STATUS });
        let slot: EquipmentSlot = match self.active_hand {
            Some(Hand::Left) => EquipmentSlot::OffHand,
            _ => EquipmentSlot::MainHand,
        };
        push_if(
            steps,
            !disables && self.active_hand.is_some() && hit.amount >= SHIELD_DAMAGE_THRESHOLD,
            HitStep::DamageShield { slot, durability: hit.block_durability },
        );
    }

    /// Takes the hit as far as the question whether it lands. The plan comes back in
    /// the order in which it has to be carried out.
    pub fn damage_with_context_impl(&mut self, hit: &Hit) -> (r: (HitOutcome, Vec<HitStep>))
        requires
            !old(self).spec_refuses_hit(*hit) ==> (old(self).item_in_use matches Some(item)
                ==> i32::MIN <= item.max_use_time - old(self).item_use_time <= i32::MAX),
        ensures
            r.0 == old(self).spec_outcome(*hit),
            *final(self) == old(self).spec_after_hit(*hit),
            r.1@ == match r.0 {
                HitOutcome::Refused => Seq::<HitStep>::empty(),
                HitOutcome::Blocked => hit.shield_steps(
                    hit.resistance_steps(),
                    old(self).active_hand,
                ),
                HitOutcome::TooSoon => hit.resistance_steps(),
                HitOutcome::LandsExcess => hit.landing_steps(hit.resistance_steps(), false),
                HitOutcome::LandsInFull => hit.landing_steps(hit.resistance_steps(), true),
            },
    {
        let mut steps: Vec<HitStep> = Vec::new();
        if self.refuses_hit(hit) {
            return (HitOutcome::Refused, steps);
        }
        let resisted: bool = hit.resistance > 0;
        push_if(
            &mut steps,
            resisted && hit.victim_is_player,
            HitStep::AddStat {
                party: Party::Victim,
                stat: DamageStat::DamageResisted,
                tenths: hit.resisted_tenths,
            },
        );
        let by_player: bool = hit.attacking_player().is_some();
        push_if(
            &mut steps,
            resisted && by_player,
            HitStep::AddStat {
                party: Party::Attacker,
                stat: DamageStat::DamageDealtResisted,
                tenths: hit.resisted_tenths,
            },
        );
        let from_front: bool = match hit.from_front {
            Some(from_front) => from_front,
            None => false,
        };
        if self.is_blocking() && !hit.bypasses_shield && from_front {
            self.block_hit(hit, &mut steps);
            return (HitOutcome::Blocked, steps);
        }
        let in_full: bool = !(self.hurt_cooldown > HURT_COOLDOWN_GRACE
            && !hit.damage_type.bypasses_cooldown());
        if in_full {
            self.hurt_cooldown = HURT_COOLDOWN;
        } else if hit.effective_amount <= self.last_damage_taken {
            return (HitOutcome::TooSoon, steps);
        }
        self.last_damage_taken = hit.amount;
        push_if(&mut steps, hit.hurt_animation, HitStep::ShowHurtAnimation);
        push_step(&mut steps, HitStep::SendDamageEvent);
        push_step(&mut steps, HitStep::TrySpawnSilverfish);
        push_if(&mut steps, in_full, HitStep::PlayHurtSound);
        let pushed: bool = match hit.source {
            Some(source) => source.entity_type != EntityType::IronGolem && hit.knockback_resistance
                < FULL_KNOCKBACK_RESISTANCE,
            None => false,
        };
        push_if(&mut steps, in_full && pushed, HitStep::Knockback);
        let blamed: Option<Attacker> = if hit.cause.is_some() {
            hit.cause
        } else {
            hit.source
        };
        if let Some(attacker) = blamed {
            self.last_attacker_id = attacker.entity_id;
            self.last_attacked_time = self.age;
        }
        if in_full {
            (HitOutcome::LandsInFull, steps)
        } else {
            (HitOutcome::LandsExcess, steps)
        }
    }
}

/// What a block asks for once the shield has taken its wear: a shield that broke
/// is gone, and the hand that held it is free.
pub fn settle_shield_wear(
    result: DamageResult,
    slot: EquipmentSlot,
    victim_is_player: bool,
) -> (steps: Vec<HitStep>)
    ensures
        steps@ == (if result == DamageResult::Broken {
            only_if(victim_is_player, (HitStep::CountBroken { slot })) + seq![
                HitStep::ShowBreak { slot },
                HitStep::EmptySlot { slot },
                HitStep::ClearActiveHand,
            ]
        } else {
            Seq::empty()
        }),
{
    let mut steps: Vec<HitStep> = Vec::new();
    if result == DamageResult::Broken {
        push_if(&mut steps, victim_is_player, HitStep::CountBroken { slot });
        steps.push(HitStep::ShowBreak { slot });
        steps.push(HitStep::EmptySlot { slot });
        steps.push(HitStep::ClearActiveHand);
        assert(steps@ =~= only_if(victim_is_player, (HitStep::CountBroken { slot })) + seq![
            HitStep::ShowBreak { slot },
            HitStep::EmptySlot { slot },
            HitStep::ClearActiveHand,
        ]);
    }
    steps
}

/// Law: right after a hit that landed in full, the same hit does not land again,
/// unless the damage ignores the hurt cooldown.
pub proof fn law_same_hit_twice_lands_once(entity: LivingEntity, hit: Hit)
    requires
        entity.spec_outcome(hit) == HitOutcome::LandsInFull,
        hit.effective_amount <= hit.amount,
        !hit.damage_type.spec_bypasses_cooldown(),
    ensures
        entity.spec_after_hit(hit).spec_outcome(hit) == HitOutcome::TooSoon,
        entity.spec_after_hit(hit).spec_after_hit(hit) == entity.spec_after_hit(hit),
{
}

/// Law: a hit that is refused, blocked or too soon changes nothing of the entity.
pub proof fn law_hit_that_does_not_land_changes_nothing(entity: LivingEntity, hit: Hit)
    requires
        entity.spec_outcome(hit) != HitOutcome::LandsInFull,
        entity.spec_outcome(hit) != HitOutcome::LandsExcess,
    ensures
        entity.spec_after_hit(hit) == entity,
{
}

/// Law: the dead are not hurt, whatever the hit.
pub proof fn law_dead_entity_refuses_every_hit(entity: LivingEntity, hit: Hit)
    requires
        entity.health <= 0 || entity.dead || entity.removed,
    ensures
        entity.spec_outcome(hit) == HitOutcome::Refused,
{
}

// ---------------------------------------------------------------------------
// What a hit that lands costs.
// ---------------------------------------------------------------------------

/// The damage of a hit that landed, set against the absorption of the entity.
#[derive(Clone, Copy, Debug, PartialEq, Eq, Structural)]
pub struct AbsorptionSum {
    /// The damage.
    pub damage: Rank32,
    /// The absorption less the damage.
    pub absorption_left: Rank32,
    /// The damage less the absorption.
    pub damage_left: Rank32,
    /// The smaller of the two in tenths, for statistics.
    pub absorbed_tenths: i32,
}

/// The damage that absorption has left over, set against the health of the entity.
#[derive(Clone, Copy, Debug, PartialEq, Eq, Structural)]
pub struct HealthSum {
    /// The damage that is left.
    pub remaining: Rank32,
    /// The health less that damage.
    pub health_left: Rank32,
    /// That damage in tenths, for statistics.
    pub remaining_tenths: i32,
}

/// What the cost of a hit asks the world to do.
#[derive(Clone, Copy, Debug, PartialEq, Eq, Structural)]
pub enum CostStep {
    /// Adds to a player's statistic.
    AddStat { party: Party, stat: DamageStat, tenths: i32 },
    /// Tells of the absorption.
    Absorption(AbsorptionStep),
    /// Sends the health to the players around.
    SendHealth { health: Rank32 },
}

/// The two statistics on a part of the damage, for the one hit and the attacker.
pub open spec fn stat_steps(
    hit: Hit,
    counted: bool,
    taken: DamageStat,
    dealt: DamageStat,
    tenths: i32,
) -> Seq<CostStep> {
    only_if(
        counted && hit.victim_is_player,
        (CostStep::AddStat { party: Party::Victim, stat: taken, tenths }),
    ) + only_if(
        counted && hit.spec_attacking_player() is Some,
        (CostStep::AddStat { party: Party::Attacker, stat: dealt, tenths }),
    )
}

impl LivingEntity {
    /// The absorption that the hit leaves.
    pub open spec fn spec_absorption_left(self, sum: AbsorptionSum) -> int {
        if self.absorption <= 0 {
            self.absorption as int
        } else if self.absorption >= sum.damage {
            rank_max(sum.absorption_left as int, 0)
        } else {
            0
        }
    }

    /// The damage that absorption leaves over.
    pub open spec fn spec_remaining(self, sum: AbsorptionSum) -> Rank32 {
        if self.absorption <= 0 {
            sum.damage
        } else if self.absorption >= sum.damage {
            0
        } else {
            sum.damage_left
        }
    }

    /// Lets absorption take what it can of the damage. Returns the damage that is
    /// left over.
    pub fn absorb_damage(&mut self, hit: &Hit, sum: &AbsorptionSum) -> (r: (Rank32, Vec<CostStep>))
        ensures
            r.0 == old(self).spec_remaining(*sum),
            *final(self) == (LivingEntity {
                absorption: old(self).spec_absorption_left(*sum) as i32,
                ..*old(self)
            }),
            r.1@ == stat_steps(
                *hit,
                old(self).absorption > 0,
                DamageStat::DamageAbsorbed,
                DamageStat::DamageDealtAbsorbed,
                sum.absorbed_tenths,
            ) + only_if(
                old(self).absorption > 0,
                CostStep::Absorption(AbsorptionStep::SendMaxAbsorption),
            ) + only_if(
                old(self).absorption > 0 && old(self).entity_type == EntityType::Player,
                CostStep::Absorption(
                    AbsorptionStep::SendHearts {
                        absorption: old(self).spec_absorption_left(*sum) as i32,
                    },
                ),
            ),
    {
        let current: Rank32 = self.absorption;
        let counted: bool = current > 0;
        let mut steps: Vec<CostStep> = Vec::new();
        push_if(
            &mut steps,
            counted && hit.victim_is_player,
            CostStep::AddStat {
                party: Party::Victim,
                stat: DamageStat::DamageAbsorbed,
                tenths: sum.absorbed_tenths,
            },
        );
        push_if(
            &mut steps,
            counted && hit.attacking_player().is_some(),
            CostStep::AddStat {
                party: Party::Attacker,
                stat: DamageStat::DamageDealtAbsorbed,
                tenths: sum.absorbed_tenths,
            },
        );
        assert(steps@ =~= stat_steps(
            *hit,
            counted,
            DamageStat::DamageAbsorbed,
            DamageStat::DamageDealtAbsorbed,
            sum.absorbed_tenths,
        ));
        let mut remaining: Rank32 = sum.damage;
        if counted {
            let left: Rank32 = if current >= sum.damage {
                remaining = 0;
                max32(sum.absorption_left, 0)
            } else {
                remaining = sum.damage_left;
                0
            };
            self.set_absorption(left);
        }
        push_if(&mut steps, counted, CostStep::Absorption(AbsorptionStep::SendMaxAbsorption));
        push_if(
            &mut steps,
            counted && self.entity_type == EntityType::Player,
            CostStep::Absorption(AbsorptionStep::SendHearts { absorption: self.absorption }),
        );
        (remaining, steps)
    }

    /// Takes the damage that is left from the health of the entity. Returns whether
    /// none of it is left.
    pub fn settle_damage(&mut self, hit: &Hit, sum: &HealthSum) -> (r: (bool, Vec<CostStep>))
        ensures
            r.0 == (clamp_health(sum.health_left, old(self).max_health) <= 0),
            *final(self) == (LivingEntity {
                health: if sum.remaining > 0 {
                    clamp_health(sum.health_left, old(self).max_health) as i32
                } else {
                    old(self).health
                },
                ..*old(self)
            }),
            r.1@ == only_if(
                sum.remaining > 0,
                (CostStep::SendHealth {
                    health: clamp_health(sum.health_left, old(self).max_health) as i32,
                }),
            ) + stat_steps(
                *hit,
                sum.remaining > 0,
                DamageStat::DamageTaken,
                DamageStat::DamageDealt,
                sum.remaining_tenths,
            ),
    {
        let clamped: Rank32 = min32(max32(sum.health_left, 0), self.max_health);
        let counted: bool = sum.remaining > 0;
        if counted {
            self.set_health(clamped);
        }
        let mut steps: Vec<CostStep> = Vec::new();
        push_if(&mut steps, counted, CostStep::SendHealth { health: clamped });
        push_if(
            &mut steps,
            counted && hit.victim_is_player,
            CostStep::AddStat {
                party: Party::Victim,
                stat: DamageStat::DamageTaken,
                tenths: sum.remaining_tenths,
            },
        );
        push_if(
            &mut steps,
            counted && hit.attacking_player().is_some(),
            CostStep::AddStat {
                party: Party::Attacker,
                stat: DamageStat::DamageDealt,
                tenths: sum.remaining_tenths,
            },
        );
        assert(steps@ =~= only_if(counted, (CostStep::SendHealth { health: clamped }))
            + stat_steps(
            *hit,
            counted,
            DamageStat::DamageTaken,
            DamageStat::DamageDealt,
            sum.remaining_tenths,
        ));
        (clamped <= 0, steps)
    }
}

/// Law: absorption is used up before health is. While it covers the damage, nothing
/// of the damage is left over.
pub proof fn law_absorption_goes_first(entity: LivingEntity, sum: AbsorptionSum)
    requires
        entity.absorption > 0,
        entity.absorption >= sum.damage,
    ensures
        entity.spec_remaining(sum) == 0,
{
}

// ---------------------------------------------------------------------------
// A deadly hit.
// ---------------------------------------------------------------------------

/// How a deadly hit ended.
pub enum DeathOutcome {
    /// A totem saved the entity.
    Protected(TotemUse),
    /// A zombie villager takes the place of the entity, or another hit sees to its
    /// end; nothing more is done for this hit.
    Turned(Conversion),
    /// The entity died, or its death had been handled.
    Died(Vec<DeathStep>),
}

/// What killed the entity, for the rules on villagers.
pub open spec fn killer_type(hit: Hit) -> Option<EntityType> {
    match hit.spec_blamed() {
        Some(attacker) => Some(attacker.entity_type),
        None => None,
    }
}

/// The lot lets a killed villager turn.
pub open spec fn lot_turns(difficulty: Difficulty, lot: bool) -> bool {
    difficulty == Difficulty::Hard || difficulty == Difficulty::Normal && lot
}

/// How a deadly hit on the entity ends with the given lot.
pub open spec fn meets_death(
    before: LivingEntity,
    after: LivingEntity,
    hit: Hit,
    hands: Seq<(Hand, bool)>,
    difficulty: Difficulty,
    lot: bool,
    scene: DeathScene,
    outcome: DeathOutcome,
) -> bool {
    if !hit.damage_type.spec_bypasses_cooldown() && first_protecting(hands) is Some {
        &&& outcome matches DeathOutcome::Protected(used)
        &&& used.hand == hands[first_protecting(hands)->0].0
        &&& used.health == clamp_health(ONE_POINT, before.max_health)
        &&& used.steps@ == add_effect_steps(totem_absorption(), scene.in_world) + add_effect_steps(
            totem_regeneration(),
            scene.in_world,
        ) + add_effect_steps(totem_fire_resistance(), scene.in_world)
        &&& effect_map(after.active_effects@) == effect_map(before.active_effects@).insert(
            StatusEffect::Absorption,
            totem_absorption(),
        ).insert(StatusEffect::Regeneration, totem_regeneration()).insert(
            StatusEffect::FireResistance,
            totem_fire_resistance(),
        )
        &&& after == (LivingEntity {
            health: used.health,
            active_effects: after.active_effects,
            ..before
        })
    } else if before.spec_may_turn(killer_type(hit)) && lot_turns(difficulty, lot)
        && scene.in_world {
        &&& outcome == DeathOutcome::Turned(
            if before.dead {
                Conversion::AlreadyHandled
            } else {
                Conversion::Converted
            },
        )
        &&& after == (LivingEntity { dead: true, ..before })
    } else {
        &&& outcome matches DeathOutcome::Died(steps)
        &&& steps@ == before.spec_death_plan(scene)
        &&& after == before.spec_after_death(scene)
    }
}

impl LivingEntity {
    /// Lets the entity meet its death, once the lot for a villager is known: a totem
    /// may save it, unless the damage cannot be protected from; a zombie may turn
    /// it; else it dies.
    pub fn meet_death_with_lot(
        &mut self,
        hit: &Hit,
        hands: &Vec<(Hand, bool)>,
        difficulty: Difficulty,
        lot: bool,
        scene: &DeathScene,
    ) -> (outcome: DeathOutcome)
        requires
            old(self).wf(),
        ensures
            final(self).wf(),
            meets_death(
                *old(self),
                *final(self),
                *hit,
                hands@,
                difficulty,
                lot,
                *scene,
                outcome,
            ),
    {
        if !hit.damage_type.bypasses_cooldown() {
            if let Some(used) = self.try_use_death_protector(hands, scene.in_world) {
                return DeathOutcome::Protected(used);
            }
        }
        let blamed: Option<Attacker> = if hit.cause.is_some() {
            hit.cause
        } else {
            hit.source
        };
        let killer: Option<EntityType> = match blamed {
            Some(attacker) => Some(attacker.entity_type),
            None => None,
        };
        let conversion: Conversion = self.convert_villager(
            killer,
            difficulty,
            lot,
            scene.in_world,
        );
        if conversion != Conversion::Dies {
            return DeathOutcome::Turned(conversion);
        }
        DeathOutcome::Died(self.on_death(scene))
    }

    /// Lets the entity meet its death, drawing the lot for a villager.
    pub fn meet_death(
        &mut self,
        hit: &Hit,
        hands: &Vec<(Hand, bool)>,
        difficulty: Difficulty,
        scene: &DeathScene,
    ) -> (outcome: DeathOutcome)
        requires
            old(self).wf(),
        ensures
            final(self).wf(),
            exists|lot: bool|
                #[trigger] meets_death(
                    *old(self),
                    *final(self),
                    *hit,
                    hands@,
                    difficulty,
                    lot,
                    *scene,
                    outcome,
                ),
    {
        let lot: bool = crate::random::draw_bool();
        self.meet_death_with_lot(hit, hands, difficulty, lot, scene)
    }
}

/// Whether a hit that landed wears the armour of the entity: it did some damage,
/// the kind of damage does not bypass armour, and the entity was not turned.
pub fn hit_wears_armor(damage_type: DamageType, damage: Rank32, turned: bool) -> (r: bool)
    ensures
        r == (damage > 0 && !damage_type.spec_bypasses_armor() && !turned),
{
    damage > 0 && !bypasses_armor_durability(&damage_type) && !turned
}

/// The durability that each piece of armour loses to a hit that landed, where it wears armour
/// at all: that of the amount before armour, enchantments, resistance and absorption took
/// their part of it.
pub fn hit_armor_wear(hit: &Hit, damage: Rank32, turned: bool) -> (r: Option<i32>)
    ensures
        r is Some <==> damage > 0 && !hit.damage_type.spec_bypasses_armor() && !turned,
        r matches Some(wear) ==> wear == wear_of(hit.amount),
{
    if hit_wears_armor(hit.damage_type, damage, turned) {
        Some(armor_wear(hit.amount))
    } else {
        None
    }
}

// ---------------------------------------------------------------------------
// Laws.
// ---------------------------------------------------------------------------

/// The protection of two lists of enchantments one after the other is that of both
/// together.
proof fn lemma_protection_of_both(
    first: Seq<EnchantmentLevel>,
    second: Seq<EnchantmentLevel>,
    damage_type: DamageType,
)
    ensures
        protection_sum(first + second, damage_type) == protection_sum(first, damage_type)
            + protection_sum(second, damage_type),
    decreases second.len(),
{
    if second.len() == 0 {
        assert(first + second =~= first);
    } else {
        assert((first + second).drop_last() =~= first + second.drop_last());
        lemma_protection_of_both(first, second.drop_last(), damage_type);
    }
}

/// Law: each level of feather falling takes 4 points off a fall, each level of protection from
/// fire, blasts or projectiles takes 2 off damage of that kind, and each level of plain
/// protection takes 1 off all damage but drowning, starving and being killed outright. Against
/// anything else an enchantment does nothing.
pub proof fn law_enchantment_protects_by_its_level(
    enchantments: Vec<EnchantmentLevel>,
    damage_type: DamageType,
    r: i32,
)
    requires
        call_ensures(enchantment_protection, (&enchantments, damage_type), r),
        enchantments@.len() == 1,
        0 <= enchantments@[0].level <= 5,
    ensures
        enchantments@[0].enchantment == Enchantment::FeatherFalling ==> r == (if damage_type
            == DamageType::Fall {
            4 * enchantments@[0].level
        } else {
            0
        }),
        enchantments@[0].enchantment == Enchantment::FireProtection ==> r == (if damage_type
            == DamageType::InFire || damage_type == DamageType::OnFire || damage_type
            == DamageType::Lava || damage_type == DamageType::HotFloor {
            2 * enchantments@[0].level
        } else {
            0
        }),
        enchantments@[0].enchantment == Enchantment::BlastProtection ==> r == (if damage_type
            == DamageType::Explosion || damage_type == DamageType::PlayerExplosion {
            2 * enchantments@[0].level
        } else {
            0
        }),
        enchantments@[0].enchantment == Enchantment::ProjectileProtection ==> r == (if damage_type
            == DamageType::Arrow || damage_type == DamageType::MobProjectile || damage_type
            == DamageType::Thrown {
            2 * enchantments@[0].level
        } else {
            0
        }),
        enchantments@[0].enchantment == Enchantment::Protection ==> r == (if damage_type
            == DamageType::Drown || damage_type == DamageType::Starve || damage_type
            == DamageType::GenericKill {
            0
        } else {
            enchantments@[0].level as int
        }),
        enchantments@[0].enchantment == Enchantment::VanishingCurse || enchantments@[0].enchantment
            == Enchantment::Other ==> r == 0,
{
    assert(enchantments@.drop_last() =~= Seq::<EnchantmentLevel>::empty());
    assert(enchantments@.last() == enchantments@[0]);
    reveal_with_fuel(protection_sum, 2);
    let level = enchantments@[0].level as int;
    assert(0 * level == 0 && 1 * level == level) by (nonlinear_arith);
}

/// Law: the enchantments of two sets of armour protect together as much as each set does, added
/// up, but never by more than 20; none of them protects by nothing.
pub proof fn law_protection_adds_up_to_twenty(
    first: Vec<EnchantmentLevel>,
    second: Vec<EnchantmentLevel>,
    both: Vec<EnchantmentLevel>,
    damage_type: DamageType,
    of_first: i32,
    of_second: i32,
    of_both: i32,
)
    requires
        call_ensures(enchantment_protection, (&first, damage_type), of_first),
        call_ensures(enchantment_protection, (&second, damage_type), of_second),
        call_ensures(enchantment_protection, (&both, damage_type), of_both),
        both@ == first@ + second@,
        forall|i: int| 0 <= i < both@.len() ==> (#[trigger] both@[i]).level >= 0,
    ensures
        of_both == (if of_first + of_second < 20 {
            of_first + of_second
        } else {
            20
        }),
        0 <= of_first <= 20,
        0 <= of_second <= 20,
        first@.len() == 0 ==> of_first == 0,
{
    lemma_protection_of_both(first@, second@, damage_type);
    assert forall|i: int| 0 <= i < first@.len() implies (#[trigger] first@[i]).level >= 0 by {
        assert(both@[i] == first@[i]);
    }
    assert forall|i: int| 0 <= i < second@.len() implies (#[trigger] second@[i]).level >= 0 by {
        assert(both@[first@.len() + i] == second@[i]);
    }
    law_protection_is_never_negative(first@, damage_type);
    law_protection_is_never_negative(second@, damage_type);
}

/// Law: armour softens neither falls, drowning, freezing, starving, magic, withering nor what
/// comes from the edges of the world. Enchantments soften all but the void, and the resistance
/// effect all but the void, starving and being killed outright.
pub proof fn law_what_softens_a_hit(damage_type: DamageType, r: Reductions)
    requires
        call_ensures(reductions, (damage_type,), r),
    ensures
        damage_type == DamageType::Fall || damage_type == DamageType::Drown || damage_type
            == DamageType::Freeze || damage_type == DamageType::Starve || damage_type
            == DamageType::Magic || damage_type == DamageType::IndirectMagic || damage_type
            == DamageType::Wither || damage_type == DamageType::OutOfWorld || damage_type
            == DamageType::OutsideBorder || damage_type == DamageType::SonicBoom || damage_type
            == DamageType::OnFire || damage_type == DamageType::InWall || damage_type
            == DamageType::Cramming || damage_type == DamageType::GenericKill ==> !r.armor,
        damage_type == DamageType::PlayerAttack || damage_type == DamageType::MobAttack
            || damage_type == DamageType::Arrow || damage_type == DamageType::Explosion
            || damage_type == DamageType::PlayerExplosion || damage_type == DamageType::Lava
            || damage_type == DamageType::InFire || damage_type == DamageType::HotFloor
            || damage_type == DamageType::Trident || damage_type == DamageType::Thrown
            || damage_type == DamageType::Cactus || damage_type == DamageType::FallingAnvil
            || damage_type == DamageType::LightningBolt ==> r.armor,
        r.enchantments <==> damage_type != DamageType::OutOfWorld,
        r.resistance <==> damage_type != DamageType::OutOfWorld && damage_type
            != DamageType::GenericKill && damage_type != DamageType::Starve,
        r.resistance ==> r.enchantments,
{
}

/// Law: a hit counts for nothing exactly when it cannot hurt: the entity is invulnerable, gone,
/// dead or dying, the amount is negative, or it is fire that the rules or a fire resistance
/// keep off. It then asks for nothing and changes nothing.
pub proof fn law_hit_is_refused(
    entity: &mut LivingEntity,
    hit: Hit,
    r: (HitOutcome, Vec<HitStep>),
)
    requires
        call_ensures(LivingEntity::damage_with_context_impl, (entity, &hit), r),
    ensures
        hit.invulnerable ==> r.0 == HitOutcome::Refused,
        old(entity).removed || old(entity).removal_reason is Some ==> r.0 == HitOutcome::Refused,
        old(entity).health <= 0 || old(entity).dead ==> r.0 == HitOutcome::Refused,
        hit.amount < 0 ==> r.0 == HitOutcome::Refused,
        (hit.damage_type == DamageType::InFire || hit.damage_type == DamageType::OnFire
            || hit.damage_type == DamageType::Lava || hit.damage_type == DamageType::HotFloor) && ((
        old(entity).entity_type == EntityType::Player && !hit.fire_damage_rule) || exists|i: int|
            0 <= i < old(entity).active_effects@.len() && (#[trigger] old(
                entity,
            ).active_effects@[i]).effect_type == StatusEffect::FireResistance) ==> r.0
            == HitOutcome::Refused,
        r.0 == HitOutcome::Refused ==> hit.invulnerable || old(entity).removed || old(
            entity,
        ).removal_reason is Some || old(entity).health <= 0 || old(entity).dead || hit.amount < 0
            || hit.damage_type == DamageType::InFire || hit.damage_type == DamageType::OnFire
            || hit.damage_type == DamageType::Lava || hit.damage_type == DamageType::HotFloor,
        r.0 == HitOutcome::Refused && !hit.invulnerable && !old(entity).removed && old(
            entity,
        ).removal_reason is None && old(entity).health > 0 && !old(entity).dead && hit.amount >= 0
            ==> (old(entity).entity_type == EntityType::Player && !hit.fire_damage_rule)
            || exists|i: int|
            0 <= i < old(entity).active_effects@.len() && (#[trigger] old(
                entity,
            ).active_effects@[i]).effect_type == StatusEffect::FireResistance,
        r.0 == HitOutcome::Refused ==> r.1@.len() == 0 && *final(entity) == *old(entity),
{
}

/// Law: a shield that has been up for at least 5 ticks stops a hit from the front that does not
/// go through shields. A hit that is neither refused nor stopped lands in full unless the entity
/// was hurt within the last ticks, with more than 10 left of its hurt cooldown; then it lands
/// only if it is harder than the last one, and with what it exceeds that by.
pub proof fn law_how_a_hit_ends(entity: &mut LivingEntity, hit: Hit, r: (HitOutcome, Vec<HitStep>))
    requires
        call_ensures(LivingEntity::damage_with_context_impl, (entity, &hit), r),
        r.0 != HitOutcome::Refused,
    ensures
        r.0 == HitOutcome::Blocked <==> old(entity).item_in_use is Some && old(
            entity,
        ).item_in_use->0.blocks_attacks && old(entity).item_in_use->0.max_use_time - old(
            entity,
        ).item_use_time >= 5 && !hit.bypasses_shield && hit.from_front == Some(true),
        r.0 != HitOutcome::Blocked && old(entity).hurt_cooldown <= 10 ==> r.0
            == HitOutcome::LandsInFull,
        r.0 != HitOutcome::Blocked && (hit.damage_type == DamageType::GenericKill
            || hit.damage_type == DamageType::OutOfWorld) ==> r.0 == HitOutcome::LandsInFull,
        r.0 != HitOutcome::Blocked && old(entity).hurt_cooldown > 10 && hit.damage_type
            != DamageType::GenericKill && hit.damage_type != DamageType::OutOfWorld ==> r.0 == (
        if hit.effective_amount > old(entity).last_damage_taken {
            HitOutcome::LandsExcess
        } else {
            HitOutcome::TooSoon
        }),
{
}

/// Law: a hit that lands is remembered with its amount and with who is behind it, the cause
/// before the source. One that lands in full starts a hurt cooldown of 20 ticks; one that lands
/// with its excess leaves the cooldown as it is. Nothing else of the entity changes.
pub proof fn law_what_a_hit_leaves_on_the_entity(
    entity: &mut LivingEntity,
    hit: Hit,
    r: (HitOutcome, Vec<HitStep>),
)
    requires
        call_ensures(LivingEntity::damage_with_context_impl, (entity, &hit), r),
    ensures
        r.0 == HitOutcome::LandsInFull ==> final(entity).hurt_cooldown == 20,
        r.0 != HitOutcome::LandsInFull ==> final(entity).hurt_cooldown == old(
            entity,
        ).hurt_cooldown,
        r.0 == HitOutcome::LandsInFull || r.0 == HitOutcome::LandsExcess ==> {
            &&& final(entity).last_damage_taken == hit.amount
            &&& hit.cause is Some ==> final(entity).last_attacker_id == hit.cause->0.entity_id
                && final(entity).last_attacked_time == old(entity).age
            &&& hit.cause is None && hit.source is Some ==> final(entity).last_attacker_id
                == hit.source->0.entity_id && final(entity).last_attacked_time == old(entity).age
            &&& hit.cause is None && hit.source is None ==> final(entity).last_attacker_id == old(
                entity,
            ).last_attacker_id && final(entity).last_attacked_time == old(
                entity,
            ).last_attacked_time
        },
        r.0 == HitOutcome::Blocked || r.0 == HitOutcome::TooSoon ==> *final(entity) == *old(
            entity,
        ),
        *final(entity) == (LivingEntity {
            hurt_cooldown: final(entity).hurt_cooldown,
            last_damage_taken: final(entity).last_damage_taken,
            last_attacker_id: final(entity).last_attacker_id,
            last_attacked_time: final(entity).last_attacked_time,
            ..*old(entity)
        }),
{
}

/// Law: what a hit asks for when a shield stops it. The block is heard, counted for a player
/// and seen by the advancement. A player's axe puts another player's shield out of use for 100
/// ticks, in one of four blocks, or in every one where the attacker sprints.
#[verifier::rlimit(80)]
pub proof fn law_steps_of_a_block(
    entity: &mut LivingEntity,
    hit: Hit,
    r: (HitOutcome, Vec<HitStep>),
    ticks: i32,
    status: u8,
    tenths: i32,
)
    requires
        call_ensures(LivingEntity::damage_with_context_impl, (entity, &hit), r),
    ensures
        ({
            let blocked = r.0 == HitOutcome::Blocked;
            let axe = hit.victim_is_player && hit.cause is Some && hit.cause->0.is_player
                && hit.cause->0.holds_axe;
            let disabled = axe && hit.disable_roll < (if hit.cause->0.sprinting {
                0x3F80_0000int
            } else {
                0x3E80_0000int
            });
            &&& r.1@.contains(HitStep::PlayShieldBlock) <==> blocked
            &&& r.1@.contains(HitStep::TriggerDeflectedDamage) <==> blocked && hit.victim_is_player
            &&& r.1@.contains(
                HitStep::AddStat {
                    party: Party::Victim,
                    stat: DamageStat::DamageBlockedByShield,
                    tenths,
                },
            ) <==> blocked && hit.victim_is_player && tenths == hit.effective_tenths
            &&& r.1@.contains(HitStep::StartShieldCooldown { ticks }) <==> blocked && disabled
                && ticks == 100
            &&& r.1@.contains(HitStep::ClearActiveHand) <==> blocked && disabled
            &&& r.1@.contains(HitStep::ShowStatus { status }) <==> blocked && disabled && status
                == 30
        }),
{
    broadcast use crate::plan::lemma_plan_contains;
    broadcast use crate::plan::lemma_only_if_contains;
    broadcast use crate::plan::lemma_single_contains;

}

/// Law: a shield wears where it stops a hit of at least 3 and stays in use. It wears in the hand
/// that holds it, by what the block costs.
#[verifier::rlimit(80)]
pub proof fn law_shield_wears_in_its_hand(
    entity: &mut LivingEntity,
    hit: Hit,
    r: (HitOutcome, Vec<HitStep>),
    slot: EquipmentSlot,
    durability: i32,
)
    requires
        call_ensures(LivingEntity::damage_with_context_impl, (entity, &hit), r),
    ensures
        r.1@.contains((HitStep::DamageShield { slot, durability })) ==> {
            &&& r.0 == HitOutcome::Blocked
            &&& hit.amount >= 0x4040_0000
            &&& durability == hit.block_durability
            &&& old(entity).active_hand == Some(Hand::Left) ==> slot == EquipmentSlot::OffHand
            &&& old(entity).active_hand == Some(Hand::Right) ==> slot == EquipmentSlot::MainHand
            &&& old(entity).active_hand is Some
            &&& !r.1@.contains(HitStep::ClearActiveHand)
        },
        r.0 == HitOutcome::Blocked && hit.amount >= 0x4040_0000 && old(entity).active_hand is Some
            && !r.1@.contains(HitStep::ClearActiveHand) && durability == hit.block_durability
            && slot == (if old(entity).active_hand == Some(Hand::Left) {
            EquipmentSlot::OffHand
        } else {
            EquipmentSlot::MainHand
        }) ==> r.1@.contains((HitStep::DamageShield { slot, durability })),
{
    broadcast use crate::plan::lemma_plan_contains;
    broadcast use crate::plan::lemma_only_if_contains;
    broadcast use crate::plan::lemma_single_contains;

    let step = HitStep::DamageShield { slot, durability };
    assert(!hit.resistance_steps().contains(step));
    assert(!hit.resistance_steps().contains(HitStep::ClearActiveHand));
    match r.0 {
        HitOutcome::Blocked => {
            assert(r.1@ == hit.shield_steps(hit.resistance_steps(), old(entity).active_hand));
        },
        _ => {
            assert(!r.1@.contains(step));
        },
    }
}

/// Law: what a hit asks for when it lands. It is sent to the players around, shown where hits
/// are shown, and may free silverfish. Only one that lands in full is heard, and only that
/// pushes the entity, away from a source that is no iron golem, unless nothing can push it.
/// What resistance took off is counted for both players, whether the hit lands or not.
#[verifier::rlimit(80)]
pub proof fn law_steps_of_a_landing(
    entity: &mut LivingEntity,
    hit: Hit,
    r: (HitOutcome, Vec<HitStep>),
    tenths: i32,
)
    requires
        call_ensures(LivingEntity::damage_with_context_impl, (entity, &hit), r),
    ensures
        ({
            let in_full = r.0 == HitOutcome::LandsInFull;
            let lands = in_full || r.0 == HitOutcome::LandsExcess;
            let resisted = r.0 != HitOutcome::Refused && hit.resistance > 0 && tenths
                == hit.resisted_tenths;
            &&& r.1@.contains(HitStep::SendDamageEvent) <==> lands
            &&& r.1@.contains(HitStep::TrySpawnSilverfish) <==> lands
            &&& r.1@.contains(HitStep::ShowHurtAnimation) <==> lands && hit.hurt_animation
            &&& r.1@.contains(HitStep::PlayHurtSound) <==> in_full
            &&& r.1@.contains(HitStep::Knockback) <==> in_full && hit.source is Some
                && hit.source->0.entity_type != EntityType::IronGolem && hit.knockback_resistance
                < 0x3FF0_0000_0000_0000
            &&& r.1@.contains(
                HitStep::AddStat {
                    party: Party::Victim,
                    stat: DamageStat::DamageResisted,
                    tenths,
                },
            ) <==> resisted && hit.victim_is_player
            &&& r.1@.contains(
                HitStep::AddStat {
                    party: Party::Attacker,
                    stat: DamageStat::DamageDealtResisted,
                    tenths,
                },
            ) <==> resisted && hit.cause is Some && hit.cause->0.is_player
            &&& r.0 == HitOutcome::TooSoon && hit.resistance <= 0 ==> r.1@.len() == 0
        }),
{
    broadcast use crate::plan::lemma_plan_contains;
    broadcast use crate::plan::lemma_only_if_contains;
    broadcast use crate::plan::lemma_single_contains;

}

/// Law: no hit heals. A hit that lands deals its effective amount or what that exceeds the last
/// hit by, and one that does not land deals nothing.
pub proof fn law_damage_is_never_negative(
    outcome: HitOutcome,
    effective: Rank32,
    excess: Rank32,
    r: Rank32,
)
    requires
        call_ensures(landed_damage, (outcome, effective, excess), r),
    ensures
        r >= 0,
        outcome == HitOutcome::LandsInFull && effective >= 0 ==> r == effective,
        outcome == HitOutcome::LandsExcess && excess >= 0 ==> r == excess,
        r > 0 ==> outcome == HitOutcome::LandsInFull && r == effective || outcome
            == HitOutcome::LandsExcess && r == excess,
{
}

/// Law: a shield that broke is shown to break, leaves its place empty and frees the hand, and a
/// player's broken item is counted. One that holds asks for nothing.
pub proof fn law_broken_shield_is_gone(
    result: DamageResult,
    slot: EquipmentSlot,
    victim_is_player: bool,
    steps: Vec<HitStep>,
)
    requires
        call_ensures(settle_shield_wear, (result, slot, victim_is_player), steps),
    ensures
        result != DamageResult::Broken ==> steps@.len() == 0,
        result == DamageResult::Broken ==> {
            &&& steps@.len() == (if victim_is_player {
                4int
            } else {
                3
            })
            &&& victim_is_player ==> steps@[0] == (HitStep::CountBroken { slot })
            &&& steps@[steps@.len() - 3] == (HitStep::ShowBreak { slot })
            &&& steps@[steps@.len() - 2] == (HitStep::EmptySlot { slot })
            &&& steps@[steps@.len() - 1] == HitStep::ClearActiveHand
        },
{
}

/// Law: yellow hearts go before red ones. Damage within the absorption is all taken by it, damage
/// above it takes all of it and goes on with the rest, and without absorption all of the damage
/// goes on. The health does not change here. What was absorbed is counted for both players.
pub proof fn law_absorption_takes_what_it_can(
    entity: &mut LivingEntity,
    hit: Hit,
    sum: AbsorptionSum,
    r: (Rank32, Vec<CostStep>),
    tenths: i32,
    absorption: Rank32,
)
    requires
        call_ensures(LivingEntity::absorb_damage, (entity, &hit, &sum), r),
    ensures
        old(entity).absorption <= 0 ==> r.0 == sum.damage && r.1@.len() == 0 && *final(entity)
            == *old(entity),
        0 < old(entity).absorption && sum.damage <= old(entity).absorption ==> r.0 == 0,
        0 < old(entity).absorption && sum.damage <= old(entity).absorption && sum.absorption_left
            >= 0 ==> final(entity).absorption == sum.absorption_left,
        0 < old(entity).absorption && sum.damage > old(entity).absorption ==> r.0
            == sum.damage_left && final(entity).absorption == 0,
        old(entity).absorption > 0 ==> final(entity).absorption >= 0,
        *final(entity) == (LivingEntity { absorption: final(entity).absorption, ..*old(entity) }),
        r.1@.contains(
            (CostStep::AddStat { party: Party::Victim, stat: DamageStat::DamageAbsorbed, tenths }),
        ) <==> old(entity).absorption > 0 && hit.victim_is_player && tenths == sum.absorbed_tenths,
        r.1@.contains(
            (CostStep::AddStat {
                party: Party::Attacker,
                stat: DamageStat::DamageDealtAbsorbed,
                tenths,
            }),
        ) <==> old(entity).absorption > 0 && hit.cause is Some && hit.cause->0.is_player && tenths
            == sum.absorbed_tenths,
        r.1@.contains(CostStep::Absorption(AbsorptionStep::SendMaxAbsorption)) <==> old(
            entity,
        ).absorption > 0,
        r.1@.contains(CostStep::Absorption(AbsorptionStep::SendHearts { absorption })) <==> old(
            entity,
        ).absorption > 0 && old(entity).entity_type == EntityType::Player && absorption == final(entity).absorption,
{
    broadcast use crate::plan::lemma_plan_contains;
    broadcast use crate::plan::lemma_only_if_contains;

}

/// Law: damage that is left comes off the health, which stays between nothing and the greatest
/// health, and the health is sent. The hit is deadly exactly when none is left. Where no damage
/// is left the health stays, and nothing is sent or counted.
pub proof fn law_damage_comes_off_the_health(
    entity: &mut LivingEntity,
    hit: Hit,
    sum: HealthSum,
    r: (bool, Vec<CostStep>),
    tenths: i32,
    health: Rank32,
)
    requires
        call_ensures(LivingEntity::settle_damage, (entity, &hit, &sum), r),
        old(entity).max_health > 0,
    ensures
        r.0 <==> sum.health_left <= 0,
        sum.remaining <= 0 ==> *final(entity) == *old(entity) && r.1@.len() == 0,
        sum.remaining > 0 && 0 <= sum.health_left <= old(entity).max_health ==> final(entity).health == sum.health_left,
        sum.remaining > 0 && sum.health_left < 0 ==> final(entity).health == 0,
        sum.remaining > 0 && sum.health_left > old(entity).max_health ==> final(entity).health
            == old(entity).max_health,
        *final(entity) == (LivingEntity { health: final(entity).health, ..*old(entity) }),
        r.1@.contains((CostStep::SendHealth { health })) <==> sum.remaining > 0 && health == final(entity).health,
        r.1@.contains(
            (CostStep::AddStat { party: Party::Victim, stat: DamageStat::DamageTaken, tenths }),
        ) <==> sum.remaining > 0 && hit.victim_is_player && tenths == sum.remaining_tenths,
        r.1@.contains(
            (CostStep::AddStat { party: Party::Attacker, stat: DamageStat::DamageDealt, tenths }),
        ) <==> sum.remaining > 0 && hit.cause is Some && hit.cause->0.is_player && tenths
            == sum.remaining_tenths,
{
    broadcast use crate::plan::lemma_plan_contains;
    broadcast use crate::plan::lemma_only_if_contains;

}

/// Law: a totem in a hand saves from a deadly hit, unless the void dealt it or the entity is
/// killed outright. Only a villager turns, killed by a zombie of some kind, in its world, always
/// in a hard game and by lot in a normal one. Whoever is neither saved nor turned dies.
pub proof fn law_how_a_deadly_hit_ends(
    entity: &mut LivingEntity,
    hit: Hit,
    hands: Vec<(Hand, bool)>,
    difficulty: Difficulty,
    lot: bool,
    scene: DeathScene,
    outcome: DeathOutcome,
)
    requires
        call_ensures(
            LivingEntity::meet_death_with_lot,
            (entity, &hit, &hands, difficulty, lot, &scene),
            outcome,
        ),
    ensures
        ({
            let protected = hit.damage_type != DamageType::GenericKill && hit.damage_type
                != DamageType::OutOfWorld && exists|i: int|
                0 <= i < hands@.len() && (#[trigger] hands@[i]).1;
            let blamed = if hit.cause is Some {
                hit.cause
            } else {
                hit.source
            };
            let by_zombie = blamed is Some && (blamed->0.entity_type == EntityType::Zombie
                || blamed->0.entity_type == EntityType::Husk || blamed->0.entity_type
                == EntityType::Drowned || blamed->0.entity_type == EntityType::ZombieVillager
                || blamed->0.entity_type == EntityType::ZombifiedPiglin);
            let turns = old(entity).entity_type == EntityType::Villager && by_zombie
                && scene.in_world && (difficulty == Difficulty::Hard || difficulty
                == Difficulty::Normal && lot);
            &&& outcome is Protected <==> protected
            &&& outcome is Turned <==> !protected && turns
            &&& outcome is Died <==> !protected && !turns
            &&& outcome is Protected ==> final(entity).dead == old(entity).dead
            &&& outcome is Protected && old(entity).max_health >= 0x3F80_0000 ==> final(entity).health == 0x3F80_0000
            &&& !(outcome is Protected) ==> final(entity).dead && final(entity).health == old(
                entity,
            ).health
            &&& outcome is Turned ==> outcome->Turned_0 == (if old(entity).dead {
                Conversion::AlreadyHandled
            } else {
                Conversion::Converted
            })
            &&& outcome is Died && scene.in_world && old(entity).dead ==> outcome->Died_0@.len()
                == 0
            &&& outcome is Died && scene.in_world && !old(entity).dead ==> outcome->Died_0@.len()
                > 0
        }),
{
    lemma_some_hand_protects(hands@);
    assert(scene.in_world && !old(entity).dead ==> old(entity).spec_death_plan(scene)[0]
        == DeathStep::EmitDeathVibration);
}

/// Law: a hit wears armour where it did damage that armour minds, and each piece then loses at
/// least 1 of its durability, and only 1 where the amount was below 8.
pub proof fn law_hit_wears_armor_a_little(hit: Hit, damage: Rank32, turned: bool, r: Option<i32>)
    requires
        call_ensures(hit_armor_wear, (&hit, damage, turned), r),
    ensures
        r is Some ==> damage > 0 && !turned && r->0 >= 1,
        r is Some && hit.amount < 0x4100_0000 ==> r->0 == 1,
        damage > 0 && !turned && (hit.damage_type == DamageType::PlayerAttack || hit.damage_type
            == DamageType::MobAttack || hit.damage_type == DamageType::Arrow || hit.damage_type
            == DamageType::Explosion || hit.damage_type == DamageType::Lava) ==> r is Some,
        hit.damage_type == DamageType::Fall || hit.damage_type == DamageType::Drown
            || hit.damage_type == DamageType::Magic || hit.damage_type == DamageType::Starve
            || hit.damage_type == DamageType::OutOfWorld ==> r is None,
{
    lemma_small_wear(hit.amount);
}

/// Law: freezing, and nothing else, hurts more whoever freezes easily.
pub proof fn law_freezing_hurts_some_more(damage_type: DamageType, freezes_easily: bool, r: bool)
    requires
        call_ensures(freezing_hurts_extra, (damage_type, freezes_easily), r),
    ensures
        r ==> damage_type == DamageType::Freeze && freezes_easily,
        damage_type == DamageType::Freeze && freezes_easily ==> r,
{
}

/// Law: a hit is refused by itself just where it is refused as it is dealt.
pub proof fn law_refusal_is_that_of_the_hit(
    entity: &mut LivingEntity,
    hit: Hit,
    refused: bool,
    r: (HitOutcome, Vec<HitStep>),
)
    requires
        call_ensures(LivingEntity::refuses_hit, (&*old(entity), &hit), refused),
        call_ensures(LivingEntity::damage_with_context_impl, (entity, &hit), r),
    ensures
        refused <==> r.0 == HitOutcome::Refused,
{
}

/// Law: a deadly hit ends as with one of the two lots. Where no lot can turn a villager, it ends in death
/// unless a totem saves.
pub proof fn law_deadly_hit_ends_by_a_lot(
    entity: &mut LivingEntity,
    hit: Hit,
    hands: Vec<(Hand, bool)>,
    difficulty: Difficulty,
    scene: DeathScene,
    outcome: DeathOutcome,
)
    requires
        call_ensures(
            LivingEntity::meet_death,
            (entity, &hit, &hands, difficulty, &scene),
            outcome,
        ),
    ensures
        ({
            let protected = hit.damage_type != DamageType::GenericKill && hit.damage_type
                != DamageType::OutOfWorld && exists|i: int|
                0 <= i < hands@.len() && (#[trigger] hands@[i]).1;
            &&& outcome is Protected <==> protected
            &&& outcome is Turned ==> old(entity).entity_type == EntityType::Villager
                && scene.in_world && (difficulty == Difficulty::Hard || difficulty
                == Difficulty::Normal)
            &&& !(outcome is Protected) ==> final(entity).dead && final(entity).health == old(entity).health
            &&& old(entity).entity_type != EntityType::Villager && !protected ==> outcome is Died
        }),
{
    lemma_some_hand_protects(hands@);
}

/// Law: a hit that did nothing, or turned its victim, wears no armour, nor does what goes past armour; a
/// blow, a shot or a blast that did something does.
pub proof fn law_which_hits_wear_armor(
    damage_type: DamageType,
    damage: Rank32,
    turned: bool,
    r: bool,
)
    requires
        call_ensures(hit_wears_armor, (damage_type, damage, turned), r),
    ensures
        r ==> damage > 0 && !turned,
        damage > 0 && !turned && (damage_type == DamageType::PlayerAttack || damage_type
            == DamageType::MobAttack || damage_type == DamageType::Arrow || damage_type
            == DamageType::Explosion) ==> r,
        damage_type == DamageType::Fall || damage_type == DamageType::Drown || damage_type
            == DamageType::Magic || damage_type == DamageType::Starve || damage_type
            == DamageType::OutOfWorld ==> !r,
{
}

} // verus!
