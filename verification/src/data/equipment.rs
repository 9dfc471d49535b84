//! Hands, equipment slots and enchantments.

use vstd::prelude::*;

verus! {

/// A hand. The right one is the main hand, the left one the off hand.
#[derive(Clone, Copy, Debug, PartialEq, Eq, Structural)]
pub enum Hand {
    Left,
    Right,
}

/// A place on the body that holds one item stack.
#[derive(Clone, Copy, Debug, PartialEq, Eq, Structural)]
pub enum EquipmentSlot {
    MainHand,
    OffHand,
    Feet,
    Legs,
    Chest,
    Head,
    Body,
    Saddle,
}

/// The enchantments that a rule names.
#[derive(Clone, Copy, Debug, PartialEq, Eq, Structural)]
pub enum Enchantment {
    Protection,
    FireProtection,
    BlastProtection,
    ProjectileProtection,
    FeatherFalling,
    VanishingCurse,
    Other,
}

/// An enchantment on an item, with its level.
#[derive(Clone, Copy, Debug, PartialEq, Eq, Structural)]
pub struct EnchantmentLevel {
    pub enchantment: Enchantment,
    pub level: i32,
}

} // verus!
