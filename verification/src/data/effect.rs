//! Status effects.

use vstd::prelude::*;

verus! {

/// A kind of status effect: those that a rule names, and the others by number.
#[derive(Clone, Copy, Debug, PartialEq, Eq, Structural)]
pub enum StatusEffect {
    InstantHealth,
    InstantDamage,
    Regeneration,
    Poison,
    Wither,
    Hunger,
    Saturation,
    Absorption,
    HealthBoost,
    Invisibility,
    Glowing,
    Resistance,
    FireResistance,
    Infested,
    BadOmen,
    RaidOmen,
    Levitation,
    SlowFalling,
    JumpBoost,
    DolphinsGrace,
    Slowness,
    Darkness,
    Other(u8),
}

/// A status effect on an entity. A duration of -1 never ends.
#[derive(Clone, Copy, Debug, PartialEq, Eq, Structural)]
pub struct Effect {
    pub effect_type: StatusEffect,
    pub duration: i32,
    pub amplifier: u8,
    pub ambient: bool,
    pub show_particles: bool,
    pub show_icon: bool,
    pub blend: bool,
}

} // verus!
