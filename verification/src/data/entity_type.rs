//! Kinds of entities.

use vstd::prelude::*;

verus! {

/// A kind of entity: those that a rule names, and the others by number.
#[derive(Clone, Copy, Debug, PartialEq, Eq, Structural)]
pub enum EntityType {
    ArmorStand,
    Arrow,
    Bogged,
    Creeper,
    Drowned,
    EnderDragon,
    Enderman,
    FallingBlock,
    Husk,
    IronGolem,
    Item,
    Phantom,
    Player,
    PolarBear,
    Silverfish,
    Skeleton,
    SkeletonHorse,
    Slime,
    SpectralArrow,
    Stray,
    Villager,
    Warden,
    Wither,
    Zombie,
    ZombieVillager,
    ZombifiedPiglin,
    Other(u16),
}

/// How hard the game is.
#[derive(Clone, Copy, Debug, PartialEq, Eq, Structural)]
pub enum Difficulty {
    Peaceful,
    Easy,
    Normal,
    Hard,
}

/// How a player takes part in the game.
#[derive(Clone, Copy, Debug, PartialEq, Eq, Structural)]
pub enum GameMode {
    Survival,
    Creative,
    Adventure,
    Spectator,
}

} // verus!
