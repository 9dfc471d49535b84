//! Kinds of damage and the groups that the damage rules sort them into.

use vstd::prelude::*;

verus! {

/// A kind of damage.
#[derive(Clone, Copy, Debug, PartialEq, Eq, Structural)]
pub enum DamageType {
    Arrow,
    BadRespawnPoint,
    Cactus,
    Campfire,
    Cramming,
    DragonBreath,
    Drown,
    DryOut,
    EnderPearl,
    Explosion,
    Fall,
    FallingAnvil,
    FallingBlock,
    FallingStalactite,
    Fireball,
    Fireworks,
    FlyIntoWall,
    Freeze,
    Generic,
    GenericKill,
    HotFloor,
    InFire,
    InWall,
    IndirectMagic,
    Lava,
    LightningBolt,
    MaceSmash,
    Magic,
    MobAttack,
    MobAttackNoAggro,
    MobProjectile,
    OnFire,
    OutOfWorld,
    OutsideBorder,
    PlayerAttack,
    PlayerExplosion,
    SonicBoom,
    Spear,
    Spit,
    Stalagmite,
    Starve,
    Sting,
    SweetBerryBush,
    Thorns,
    Thrown,
    Trident,
    UnattributedFireball,
    WindCharge,
    Wither,
    WitherSkull,
}

impl DamageType {
    /// The number under which the kind is registered: kinds are numbered in the
    /// order of their names.
    pub open spec fn spec_id(self) -> u8 {
        match self {
            DamageType::Arrow => 0,
            DamageType::BadRespawnPoint => 1,
            DamageType::Cactus => 2,
            DamageType::Campfire => 3,
            DamageType::Cramming => 4,
            DamageType::DragonBreath => 5,
            DamageType::Drown => 6,
            DamageType::DryOut => 7,
            DamageType::EnderPearl => 8,
            DamageType::Explosion => 9,
            DamageType::Fall => 10,
            DamageType::FallingAnvil => 11,
            DamageType::FallingBlock => 12,
            DamageType::FallingStalactite => 13,
            DamageType::Fireball => 14,
            DamageType::Fireworks => 15,
            DamageType::FlyIntoWall => 16,
            DamageType::Freeze => 17,
            DamageType::Generic => 18,
            DamageType::GenericKill => 19,
            DamageType::HotFloor => 20,
            DamageType::InFire => 21,
            DamageType::InWall => 22,
            DamageType::IndirectMagic => 23,
            DamageType::Lava => 24,
            DamageType::LightningBolt => 25,
            DamageType::MaceSmash => 26,
            DamageType::Magic => 27,
            DamageType::MobAttack => 28,
            DamageType::MobAttackNoAggro => 29,
            DamageType::MobProjectile => 30,
            DamageType::OnFire => 31,
            DamageType::OutOfWorld => 32,
            DamageType::OutsideBorder => 33,
            DamageType::PlayerAttack => 34,
            DamageType::PlayerExplosion => 35,
            DamageType::SonicBoom => 36,
            DamageType::Spear => 37,
            DamageType::Spit => 38,
            DamageType::Stalagmite => 39,
            DamageType::Starve => 40,
            DamageType::Sting => 41,
            DamageType::SweetBerryBush => 42,
            DamageType::Thorns => 43,
            DamageType::Thrown => 44,
            DamageType::Trident => 45,
            DamageType::UnattributedFireball => 46,
            DamageType::WindCharge => 47,
            DamageType::Wither => 48,
            DamageType::WitherSkull => 49,
        }
    }

    /// The number under which the kind is registered.
    pub fn id(&self) -> (r: u8)
        ensures
            r == self.spec_id(),
            r < 64,
    {
        match self {
            DamageType::Arrow => 0,
            DamageType::BadRespawnPoint => 1,
            DamageType::Cactus => 2,
            DamageType::Campfire => 3,
            DamageType::Cramming => 4,
            DamageType::DragonBreath => 5,
            DamageType::Drown => 6,
            DamageType::DryOut => 7,
            DamageType::EnderPearl => 8,
            DamageType::Explosion => 9,
            DamageType::Fall => 10,
            DamageType::FallingAnvil => 11,
            DamageType::FallingBlock => 12,
            DamageType::FallingStalactite => 13,
            DamageType::Fireball => 14,
            DamageType::Fireworks => 15,
            DamageType::FlyIntoWall => 16,
            DamageType::Freeze => 17,
            DamageType::Generic => 18,
            DamageType::GenericKill => 19,
            DamageType::HotFloor => 20,
            DamageType::InFire => 21,
            DamageType::InWall => 22,
            DamageType::IndirectMagic => 23,
            DamageType::Lava => 24,
            DamageType::LightningBolt => 25,
            DamageType::MaceSmash => 26,
            DamageType::Magic => 27,
            DamageType::MobAttack => 28,
            DamageType::MobAttackNoAggro => 29,
            DamageType::MobProjectile => 30,
            DamageType::OnFire => 31,
            DamageType::OutOfWorld => 32,
            DamageType::OutsideBorder => 33,
            DamageType::PlayerAttack => 34,
            DamageType::PlayerExplosion => 35,
            DamageType::SonicBoom => 36,
            DamageType::Spear => 37,
            DamageType::Spit => 38,
            DamageType::Stalagmite => 39,
            DamageType::Starve => 40,
            DamageType::Sting => 41,
            DamageType::SweetBerryBush => 42,
            DamageType::Thorns => 43,
            DamageType::Thrown => 44,
            DamageType::Trident => 45,
            DamageType::UnattributedFireball => 46,
            DamageType::WindCharge => 47,
            DamageType::Wither => 48,
            DamageType::WitherSkull => 49,
        }
    }

    /// Damage by fire: it can be switched off for players, and fire resistance
    /// stops it.
    pub open spec fn spec_is_fire(self) -> bool {
        self == DamageType::InFire || self == DamageType::OnFire || self == DamageType::Lava || self
            == DamageType::HotFloor
    }

    /// Whether the damage is damage by fire.
    pub fn is_fire(&self) -> (r: bool)
        ensures
            r == self.spec_is_fire(),
    {
        *self == DamageType::InFire || *self == DamageType::OnFire || *self == DamageType::Lava
            || *self == DamageType::HotFloor
    }

    /// Damage that ignores the hurt cooldown and death protection.
    pub open spec fn spec_bypasses_cooldown(self) -> bool {
        self == DamageType::GenericKill || self == DamageType::OutOfWorld
    }

    /// Whether the damage ignores the hurt cooldown and death protection.
    pub fn bypasses_cooldown(&self) -> (r: bool)
        ensures
            r == self.spec_bypasses_cooldown(),
    {
        *self == DamageType::GenericKill || *self == DamageType::OutOfWorld
    }

    /// The group `bypasses_armor`: damage that armour neither softens nor suffers from.
    pub open spec fn spec_bypasses_armor(self) -> bool {
        match self {
            DamageType::OnFire
            | DamageType::InWall
            | DamageType::Cramming
            | DamageType::Drown
            | DamageType::FlyIntoWall
            | DamageType::Generic
            | DamageType::Wither
            | DamageType::DragonBreath
            | DamageType::Starve
            | DamageType::Fall
            | DamageType::EnderPearl
            | DamageType::Freeze
            | DamageType::Stalagmite
            | DamageType::Magic
            | DamageType::IndirectMagic
            | DamageType::OutOfWorld
            | DamageType::GenericKill
            | DamageType::SonicBoom
            | DamageType::OutsideBorder => true,
            _ => false,
        }
    }
}

/// One bit for each kind of damage that bypasses armour, at the place of its number.
const BYPASS_MASK: u64 = 0x1019388cf0570;

/// Whether the damage is in the group `bypasses_armor`: falls, drowning,
/// freezing, magic and the like.
pub fn bypasses_armor_durability(damage_type: &DamageType) -> (r: bool)
    ensures
        r == damage_type.spec_bypasses_armor(),
{
    let id: u8 = damage_type.id();
    proof {
        lemma_bypass_mask(*damage_type);
    }
    id < 64 && ((BYPASS_MASK >> id) & 1 == 1)
}

/// The mask has exactly the bits of the kinds in the group.
proof fn lemma_bypass_mask(damage_type: DamageType)
    ensures
        ((BYPASS_MASK >> damage_type.spec_id()) & 1 == 1) <==> damage_type.spec_bypasses_armor(),
{
    let id: u8 = damage_type.spec_id();
    assert(id < 64 ==> (((BYPASS_MASK >> id) & 1 == 1) <==> (
        id == 4 || id == 5 || id == 6 || id == 8 || id == 10 || id == 16
            || id == 17 || id == 18 || id == 19 || id == 22 || id == 23 || id == 27
            || id == 31 || id == 32 || id == 33 || id == 36 || id == 39 || id == 40
            || id == 48)))
        by (bit_vector);
}

/// The kinds of damage in the order of their names.
pub open spec fn kinds_in_order() -> Seq<DamageType> {
    seq![
        DamageType::Arrow,
        DamageType::BadRespawnPoint,
        DamageType::Cactus,
        DamageType::Campfire,
        DamageType::Cramming,
        DamageType::DragonBreath,
        DamageType::Drown,
        DamageType::DryOut,
        DamageType::EnderPearl,
        DamageType::Explosion,
        DamageType::Fall,
        DamageType::FallingAnvil,
        DamageType::FallingBlock,
        DamageType::FallingStalactite,
        DamageType::Fireball,
        DamageType::Fireworks,
        DamageType::FlyIntoWall,
        DamageType::Freeze,
        DamageType::Generic,
        DamageType::GenericKill,
        DamageType::HotFloor,
        DamageType::InFire,
        DamageType::InWall,
        DamageType::IndirectMagic,
        DamageType::Lava,
        DamageType::LightningBolt,
        DamageType::MaceSmash,
        DamageType::Magic,
        DamageType::MobAttack,
        DamageType::MobAttackNoAggro,
        DamageType::MobProjectile,
        DamageType::OnFire,
        DamageType::OutOfWorld,
        DamageType::OutsideBorder,
        DamageType::PlayerAttack,
        DamageType::PlayerExplosion,
        DamageType::SonicBoom,
        DamageType::Spear,
        DamageType::Spit,
        DamageType::Stalagmite,
        DamageType::Starve,
        DamageType::Sting,
        DamageType::SweetBerryBush,
        DamageType::Thorns,
        DamageType::Thrown,
        DamageType::Trident,
        DamageType::UnattributedFireball,
        DamageType::WindCharge,
        DamageType::Wither,
        DamageType::WitherSkull,
    ]
}

/// Law: the number of a kind of damage is its place among all of them in the order of their names,
/// so no two kinds share one.
pub proof fn law_kinds_are_numbered_in_order(kind: DamageType, r: u8)
    requires
        call_ensures(DamageType::id, (&kind,), r),
    ensures
        r < 50,
        kinds_in_order()[r as int] == kind,
{
}

/// Law: fire, lava and hot floors are damage by fire, and nothing else is; just the void and being
/// killed outright ignore the hurt cooldown and all protection.
pub proof fn law_groups_of_damage(kind: DamageType, fire: bool, certain: bool)
    requires
        call_ensures(DamageType::is_fire, (&kind,), fire),
        call_ensures(DamageType::bypasses_cooldown, (&kind,), certain),
    ensures
        fire <==> kind == DamageType::InFire || kind == DamageType::OnFire || kind
            == DamageType::Lava || kind == DamageType::HotFloor,
        certain <==> kind == DamageType::GenericKill || kind == DamageType::OutOfWorld,
        !(fire && certain),
{
}

/// Law: what comes from within or from nowhere goes through armour, and what strikes from outside
/// does not: of all kinds, just these nineteen go through it.
pub proof fn law_what_goes_through_armor(kind: DamageType, r: bool)
    requires
        call_ensures(bypasses_armor_durability, (&kind,), r),
    ensures
        r <==> kind == DamageType::Cramming || kind == DamageType::DragonBreath || kind
            == DamageType::Drown || kind == DamageType::EnderPearl || kind == DamageType::Fall
            || kind == DamageType::FlyIntoWall || kind == DamageType::Freeze || kind
            == DamageType::Generic || kind == DamageType::GenericKill || kind == DamageType::InWall
            || kind == DamageType::IndirectMagic || kind == DamageType::Magic || kind
            == DamageType::OnFire || kind == DamageType::OutOfWorld || kind
            == DamageType::OutsideBorder || kind == DamageType::SonicBoom || kind
            == DamageType::Stalagmite || kind == DamageType::Starve || kind == DamageType::Wither,
{
}

/// Law: these are the numbers by which clients know the kinds of damage.
pub proof fn law_numbers_of_the_kinds(kind: DamageType, r: u8)
    requires
        call_ensures(DamageType::id, (&kind,), r),
    ensures
        kind == DamageType::Arrow <==> r == 0,
        kind == DamageType::BadRespawnPoint <==> r == 1,
        kind == DamageType::Cactus <==> r == 2,
        kind == DamageType::Campfire <==> r == 3,
        kind == DamageType::Cramming <==> r == 4,
        kind == DamageType::DragonBreath <==> r == 5,
        kind == DamageType::Drown <==> r == 6,
        kind == DamageType::DryOut <==> r == 7,
        kind == DamageType::EnderPearl <==> r == 8,
        kind == DamageType::Explosion <==> r == 9,
        kind == DamageType::Fall <==> r == 10,
        kind == DamageType::FallingAnvil <==> r == 11,
        kind == DamageType::FallingBlock <==> r == 12,
        kind == DamageType::FallingStalactite <==> r == 13,
        kind == DamageType::Fireball <==> r == 14,
        kind == DamageType::Fireworks <==> r == 15,
        kind == DamageType::FlyIntoWall <==> r == 16,
        kind == DamageType::Freeze <==> r == 17,
        kind == DamageType::Generic <==> r == 18,
        kind == DamageType::GenericKill <==> r == 19,
        kind == DamageType::HotFloor <==> r == 20,
        kind == DamageType::InFire <==> r == 21,
        kind == DamageType::InWall <==> r == 22,
        kind == DamageType::IndirectMagic <==> r == 23,
        kind == DamageType::Lava <==> r == 24,
        kind == DamageType::LightningBolt <==> r == 25,
        kind == DamageType::MaceSmash <==> r == 26,
        kind == DamageType::Magic <==> r == 27,
        kind == DamageType::MobAttack <==> r == 28,
        kind == DamageType::MobAttackNoAggro <==> r == 29,
        kind == DamageType::MobProjectile <==> r == 30,
        kind == DamageType::OnFire <==> r == 31,
        kind == DamageType::OutOfWorld <==> r == 32,
        kind == DamageType::OutsideBorder <==> r == 33,
        kind == DamageType::PlayerAttack <==> r == 34,
        kind == DamageType::PlayerExplosion <==> r == 35,
        kind == DamageType::SonicBoom <==> r == 36,
        kind == DamageType::Spear <==> r == 37,
        kind == DamageType::Spit <==> r == 38,
        kind == DamageType::Stalagmite <==> r == 39,
        kind == DamageType::Starve <==> r == 40,
        kind == DamageType::Sting <==> r == 41,
        kind == DamageType::SweetBerryBush <==> r == 42,
        kind == DamageType::Thorns <==> r == 43,
        kind == DamageType::Thrown <==> r == 44,
        kind == DamageType::Trident <==> r == 45,
        kind == DamageType::UnattributedFireball <==> r == 46,
        kind == DamageType::WindCharge <==> r == 47,
        kind == DamageType::Wither <==> r == 48,
        kind == DamageType::WitherSkull <==> r == 49,
{
}

} // verus!
