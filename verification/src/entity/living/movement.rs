//! How a living entity falls, jumps, swims and climbs.

use vstd::prelude::*;

use super::effects::effect_map;
use super::{holds_effect, LivingEntity};
use crate::data::block::Block;
use crate::data::damage_type::DamageType;
use crate::data::effect::StatusEffect;
use crate::data::entity_type::EntityType;
use crate::data::rank::{rank_max, rank_min, Rank32, Rank64};

verus! {

/// The speed upward (0.3) of an entity that leaves a fluid.
pub const LEAVING_SPEED: Rank64 = 0x3FD3_3333_3333_3333;

/// The gravity (0.01) that slow falling leaves at most.
pub const SLOW_FALLING_GRAVITY: Rank64 = 0x3F84_7AE1_47AE_147B;

/// The greatest speed (0.15) sideways and down while climbing.
pub const CLIMBING_SPEED: Rank64 = 0x3FC3_3333_3333_3333;

/// How deep (0.4) an entity has to be in a fluid to swim.
pub const SWIM_HEIGHT: Rank64 = 0x3FD9_9999_9999_999A;

/// How many ticks pass between two jumps.
pub const JUMP_COOLDOWN: u8 = 10;

/// The damage (1.0) of being stuck in a wall for a tick.
pub const SUFFOCATION_DAMAGE: Rank32 = 0x3F80_0000;

/// Damage above this makes the sound of a big fall.
pub const BIG_FALL_DAMAGE: i32 = 4;

// ---------------------------------------------------------------------------
// Falling.
// ---------------------------------------------------------------------------

/// What the rules on falls read of the place the entity is in.
#[derive(Clone, Copy, Debug, PartialEq, Eq, Structural)]
pub struct FallScene {
    /// The block that the entity is in.
    pub block: Block,
    /// Whether that block is in `fall_damage_resetting`.
    pub resets_fall_damage: bool,
    pub sneaking: bool,
    /// Whether players go through portals without delay.
    pub instant_portals: bool,
    /// Whether the kind of entity is in `fall_damage_immune`.
    pub immune: bool,
}

/// A block around the feet of the entity.
#[derive(Clone, Copy, Debug, PartialEq, Eq, Structural)]
pub struct NearbyBlock {
    pub block: Block,
    /// Whether the middle of the block is no farther than a fall is safe.
    pub near: bool,
}

/// Blocks that soften a fall beside them.
pub open spec fn softens_nearby_fall(block: Block) -> bool {
    block == Block::Cobweb || block == Block::Ladder || block == Block::PowderSnow || block
        == Block::SlimeBlock
}

/// The first of the blocks that softens a fall beside it decides: it does so if it
/// is near.
pub open spec fn softened_by(blocks: Seq<NearbyBlock>) -> bool
    decreases blocks.len(),
{
    if blocks.len() == 0 {
        false
    } else if softens_nearby_fall(blocks.first().block) {
        blocks.first().near
    } else {
        softened_by(blocks.skip(1))
    }
}

/// What a fall comes to when it ends on the ground.
#[derive(Clone, Copy, Debug, PartialEq, Eq, Structural)]
pub enum Landing {
    /// Nothing happens.
    Harmless,
    /// The block that the entity lands on decides, or else the distance hurts.
    Lands { fall_distance: Rank32 },
}

/// The sounds of a fall.
#[derive(Clone, Copy, Debug, PartialEq, Eq, Structural)]
pub enum FallSound {
    PlayerBigFall,
    PlayerSmallFall,
    GenericBigFall,
    GenericSmallFall,
}

impl LivingEntity {
    /// Whether the block that the entity is in is one that ends falls, and the block.
    pub fn is_in_fall_damage_resetting(scene: &FallScene) -> (r: (bool, Block))
        ensures
            r == (scene.resets_fall_damage, scene.block),
    {
        (scene.resets_fall_damage, scene.block)
    }

    /// Whether the block that the entity is in is water.
    pub fn is_in_water(scene: &FallScene) -> (r: bool)
        ensures
            r == (scene.block == Block::Water),
    {
        scene.block == Block::Water
    }

    /// Whether the block that the entity is in is powder snow.
    pub fn is_in_powder_snow(scene: &FallScene) -> (r: bool)
        ensures
            r == (scene.block == Block::PowderSnow),
    {
        scene.block == Block::PowderSnow
    }

    /// Whether falls do not hurt the kind of entity.
    pub fn is_immune_to_fall_damage(scene: &FallScene) -> (r: bool)
        ensures
            r == scene.immune,
    {
        scene.immune
    }

    /// The block that the entity is in keeps a fall from hurting.
    pub open spec fn spec_prevents_fall_damage(self, scene: FallScene) -> bool {
        if scene.block == Block::Scaffolding && !scene.sneaking {
            false
        } else if scene.block == Block::Water {
            true
        } else if self.entity_type == EntityType::Player && (scene.block == Block::EndGateway
            || scene.block == Block::EndPortal) {
            true
        } else if self.entity_type == EntityType::Player && scene.block == Block::NetherPortal {
            scene.instant_portals
        } else {
            scene.resets_fall_damage
        }
    }

    /// Whether the block that the entity is in keeps a fall from hurting.
    pub fn should_prevent_fall_damage(&self, scene: &FallScene) -> (r: bool)
        ensures
            r == self.spec_prevents_fall_damage(*scene),
    {
        let (prevents, block): (bool, Block) = Self::is_in_fall_damage_resetting(scene);
        if block == Block::Scaffolding && !scene.sneaking {
            return false;
        }
        if block == Block::Water {
            return true;
        }
        if self.entity_type == EntityType::Player {
            if block == Block::EndGateway || block == Block::EndPortal {
                return true;
            }
            if block == Block::NetherPortal {
                return scene.instant_portals;
            }
        }
        prevents
    }

    /// Whether a block around the feet keeps a fall from hurting. The blocks come in
    /// the order in which they are looked at.
    pub fn should_prevent_fall_damage_in_area(blocks: &Vec<NearbyBlock>) -> (r: bool)
        ensures
            r == softened_by(blocks@),
    {
        let mut i: usize = 0;
        assert(blocks@.skip(0) =~= blocks@);
        while i < blocks.len()
            invariant
                i <= blocks@.len(),
                softened_by(blocks@) == softened_by(blocks@.skip(i as int)),
            decreases blocks.len() - i,
        {
            let nearby: NearbyBlock = blocks[i];
            assert(blocks@.skip(i as int).skip(1) =~= blocks@.skip(i as int + 1));
            if nearby.block == Block::Cobweb || nearby.block == Block::Ladder || nearby.block
                == Block::PowderSnow || nearby.block == Block::SlimeBlock {
                return nearby.near;
            }
            i = i + 1;
        }
        false
    }

    /// The entity is in a place where a fall does not hurt.
    pub open spec fn spec_fall_is_softened(self, scene: FallScene, around: Seq<NearbyBlock>) -> bool {
        self.spec_prevents_fall_damage(scene) || softened_by(around)
    }

    /// How far the entity has fallen after a move, `longer` being the distance with
    /// the move added where it went down.
    pub open spec fn spec_fall_distance(
        self,
        scene: FallScene,
        around: Seq<NearbyBlock>,
        longer: Option<Rank32>,
    ) -> Rank32 {
        match longer {
            Some(longer) => if self.spec_fall_is_softened(scene, around) {
                0
            } else {
                longer
            },
            None => self.fall_distance,
        }
    }

    /// What the move comes to: a fall ends on the ground, and hurts unless something
    /// keeps it from doing so.
    pub open spec fn spec_landing(
        self,
        scene: FallScene,
        around: Seq<NearbyBlock>,
        longer: Option<Rank32>,
        ground: bool,
        dont_damage: bool,
    ) -> Landing {
        let distance = self.spec_fall_distance(scene, around, longer);
        if ground && distance > 0 && !dont_damage && !self.spec_fall_is_softened(scene, around)
            && !scene.immune {
            Landing::Lands { fall_distance: distance }
        } else {
            Landing::Harmless
        }
    }

    /// Notes a move up or down, and the end of a fall where the entity is on the
    /// ground. `longer` is the fall distance with the move added, where it went
    /// down; that move counts before the landing does.
    pub fn fall(
        &mut self,
        scene: &FallScene,
        around: &Vec<NearbyBlock>,
        longer: Option<Rank32>,
        ground: bool,
        dont_damage: bool,
    ) -> (r: Landing)
        ensures
            r == old(self).spec_landing(*scene, around@, longer, ground, dont_damage),
            *final(self) == (LivingEntity {
                fall_distance: if ground {
                    0
                } else {
                    old(self).spec_fall_distance(*scene, around@, longer)
                },
                ..*old(self)
            }),
    {
        let softened: bool = self.should_prevent_fall_damage(scene)
            || Self::should_prevent_fall_damage_in_area(around);
        if let Some(longer) = longer {
            self.fall_distance = if softened {
                0
            } else {
                longer
            };
        }
        if !ground {
            return Landing::Harmless;
        }
        let fall_distance: Rank32 = self.fall_distance;
        self.fall_distance = 0;
        if fall_distance <= 0 || dont_damage || softened || Self::is_immune_to_fall_damage(
            scene,
        ) {
            Landing::Harmless
        } else {
            Landing::Lands { fall_distance }
        }
    }

    /// Whether a fall hurts, from the damage that its distance comes to.
    pub fn handle_fall_damage(&self, immune: bool, damage: Rank32) -> (r: bool)
        ensures
            r == (!immune && damage > 0),
    {
        !immune && damage > 0
    }

    /// The sound of a fall that hurt.
    pub fn get_fall_sound(&self, damage: i32) -> (r: FallSound)
        ensures
            r == (if self.entity_type == EntityType::Player {
                if damage > BIG_FALL_DAMAGE {
                    FallSound::PlayerBigFall
                } else {
                    FallSound::PlayerSmallFall
                }
            } else {
                if damage > BIG_FALL_DAMAGE {
                    FallSound::GenericBigFall
                } else {
                    FallSound::GenericSmallFall
                }
            }),
    {
        let big: bool = damage > BIG_FALL_DAMAGE;
        if self.entity_type == EntityType::Player {
            if big {
                FallSound::PlayerBigFall
            } else {
                FallSound::PlayerSmallFall
            }
        } else if big {
            FallSound::GenericBigFall
        } else {
            FallSound::GenericSmallFall
        }
    }
}

/// Law: a fall ends with its landing. From the ground, a move that does not go
/// down does no harm, wherever the entity is.
pub proof fn law_landing_ends_the_fall(
    landed: LivingEntity,
    scene: FallScene,
    around: Seq<NearbyBlock>,
    ground: bool,
    dont_damage: bool,
)
    requires
        landed.fall_distance == 0,
    ensures
        landed.spec_landing(scene, around, None, ground, dont_damage) == Landing::Harmless,
{
}

// ---------------------------------------------------------------------------
// Motion.
// ---------------------------------------------------------------------------

/// What the rules on motion read of the entity's surroundings.
#[derive(Clone, Copy, Debug, PartialEq, Eq, Structural)]
pub struct MotionScene {
    /// Whether the entity is a player who flies.
    pub flying_player: bool,
    pub touching_water: bool,
    pub touching_lava: bool,
    pub on_ground: bool,
    /// Whether the fluid around (lava, where both are) is higher than the swim height.
    pub deep_in_fluid: bool,
    /// Whether the kind of entity walks on fluids.
    pub is_strider: bool,
}

/// What a jump comes to.
#[derive(Clone, Copy, Debug, PartialEq, Eq, Structural)]
pub enum Leap {
    Stay,
    /// Swims upward.
    SwimUp,
    /// Jumps off the ground.
    Jump,
}

/// How the entity travels.
#[derive(Clone, Copy, Debug, PartialEq, Eq, Structural)]
pub enum Travel {
    Air,
    Water,
    Lava,
}

impl LivingEntity {
    /// The ticks to the next jump, as this tick counts them down.
    pub open spec fn spec_counted_cooldown(self) -> int {
        if self.jumping_cooldown == 0 {
            0
        } else {
            self.jumping_cooldown - 1
        }
    }

    /// What the wish to jump comes to.
    pub open spec fn spec_leap(self, scene: MotionScene) -> Leap {
        let in_fluid = scene.touching_water || scene.touching_lava;
        if !self.jumping || scene.flying_player {
            Leap::Stay
        } else if in_fluid && (!scene.on_ground || scene.deep_in_fluid) {
            Leap::SwimUp
        } else if (scene.on_ground || scene.touching_water && !scene.deep_in_fluid)
            && self.spec_counted_cooldown() == 0 {
            Leap::Jump
        } else {
            Leap::Stay
        }
    }

    /// Lets a tick of motion go by: counts down to the next jump, decides on jumping
    /// and on the way to travel, and forgets a fall that an effect slows.
    pub fn tick_movement(&mut self, scene: &MotionScene) -> (r: (Leap, Travel))
        ensures
            r.0 == old(self).spec_leap(*scene),
            r.1 == (if (scene.touching_water || scene.touching_lava) && !scene.flying_player
                && !scene.is_strider {
                if scene.touching_water {
                    Travel::Water
                } else {
                    Travel::Lava
                }
            } else {
                Travel::Air
            }),
            *final(self) == (LivingEntity {
                jumping_cooldown: if !old(self).jumping || scene.flying_player {
                    0
                } else if r.0 == Leap::Jump {
                    JUMP_COOLDOWN
                } else {
                    old(self).spec_counted_cooldown() as u8
                },
                fall_distance: if holds_effect(
                    old(self).active_effects@,
                    StatusEffect::SlowFalling,
                ) || holds_effect(old(self).active_effects@, StatusEffect::Levitation) {
                    0
                } else {
                    old(self).fall_distance
                },
                ..*old(self)
            }),
    {
        if self.jumping_cooldown != 0 {
            self.jumping_cooldown = self.jumping_cooldown - 1;
        }
        let swims: bool = !scene.flying_player;
        let in_fluid: bool = scene.touching_water || scene.touching_lava;
        let mut leap: Leap = Leap::Stay;
        if self.jumping && swims {
            if in_fluid && (!scene.on_ground || scene.deep_in_fluid) {
                leap = Leap::SwimUp;
            } else if (scene.on_ground || scene.touching_water && !scene.deep_in_fluid)
                && self.jumping_cooldown == 0 {
                leap = Leap::Jump;
                self.jumping_cooldown = JUMP_COOLDOWN;
            }
        } else {
            self.jumping_cooldown = 0;
        }
        if self.has_effect(StatusEffect::SlowFalling) || self.has_effect(StatusEffect::Levitation) {
            self.fall_distance = 0;
        }
        let travel: Travel = if in_fluid && swims && !scene.is_strider {
            if scene.touching_water {
                Travel::Water
            } else {
                Travel::Lava
            }
        } else {
            Travel::Air
        };
        (leap, travel)
    }

    /// The gravity that pulls the entity: slow falling leaves little of it on the
    /// way down.
    pub open spec fn spec_effective_gravity(self, gravity: Rank64, velocity_y: Rank64) -> int {
        if velocity_y <= 0 && holds_effect(self.active_effects@, StatusEffect::SlowFalling) {
            rank_min(gravity as int, SLOW_FALLING_GRAVITY as int)
        } else {
            gravity as int
        }
    }

    /// The gravity that pulls the entity.
    pub fn get_effective_gravity(&self, gravity: Rank64, velocity_y: Rank64) -> (r: Rank64)
        ensures
            r == self.spec_effective_gravity(gravity, velocity_y),
    {
        if velocity_y <= 0 && self.has_effect(StatusEffect::SlowFalling) && gravity
            > SLOW_FALLING_GRAVITY {
            SLOW_FALLING_GRAVITY
        } else {
            gravity
        }
    }

    /// The entity does not climb, and forgets where it last did once it is on the
    /// ground.
    pub fn check_climbing(&mut self, on_ground: bool)
        ensures
            *final(self) == (LivingEntity {
                climbing: false,
                climbing_pos: if on_ground {
                    None
                } else {
                    old(self).climbing_pos
                },
                ..*old(self)
            }),
    {
        self.climbing = false;
        if on_ground {
            self.climbing_pos = None;
        }
    }

    /// The velocity of an entity that climbs: slow sideways and slow down, and
    /// climbing ends a fall. Any other entity keeps its own.
    pub fn apply_climbing_speed(&mut self, x: Rank64, y: Rank64, z: Rank64) -> (r: (
        Rank64,
        Rank64,
        Rank64,
    ))
        ensures
            *final(self) == (LivingEntity {
                fall_distance: if old(self).climbing {
                    0
                } else {
                    old(self).fall_distance
                },
                ..*old(self)
            }),
            !old(self).climbing ==> r == (x, y, z),
            old(self).climbing ==> {
                &&& r.0 == rank_min(rank_max(x as int, -CLIMBING_SPEED), CLIMBING_SPEED as int)
                &&& r.1 == rank_max(y as int, -CLIMBING_SPEED)
                &&& r.2 == rank_min(rank_max(z as int, -CLIMBING_SPEED), CLIMBING_SPEED as int)
            },
    {
        if !self.climbing {
            return (x, y, z);
        }
        self.fall_distance = 0;
        let down: Rank64 = if y > -CLIMBING_SPEED {
            y
        } else {
            -CLIMBING_SPEED
        };
        (keep_climbing_speed(x), down, keep_climbing_speed(z))
    }

    /// How deep the entity has to be in a fluid to swim: small ones swim at once, and
    /// a breeze from its eyes up.
    pub fn get_swim_height(is_breeze: bool, eye_height: Rank64) -> (r: Rank64)
        ensures
            r == (if is_breeze {
                eye_height
            } else if eye_height < SWIM_HEIGHT {
                0
            } else {
                SWIM_HEIGHT
            }),
    {
        if is_breeze {
            eye_height
        } else if eye_height < SWIM_HEIGHT {
            0
        } else {
            SWIM_HEIGHT
        }
    }
}

// ---------------------------------------------------------------------------
// Travel.
// ---------------------------------------------------------------------------

/// The strength (1.0e-5) that a jump has to exceed.
pub const LEAST_JUMP: Rank64 = 0x3EE4_F8B5_88E3_68F1;

/// What the rules on travel in the air read before the entity moves.
#[derive(Clone, Copy, Debug, PartialEq, Eq, Structural)]
pub struct AirScene {
    pub is_player: bool,
    /// The speed that the entity's own will has set.
    pub living_speed: Rank64,
    pub on_ground: bool,
    /// Whether the entity means to move sideways.
    pub sideways: bool,
}

/// Where the speed of travel in the air comes from.
#[derive(Clone, Copy, Debug, PartialEq, Eq, Structural)]
pub enum Pace {
    /// The attribute for the speed of movement.
    Attribute,
    /// The speed that the entity's own will has set.
    Own,
}

/// What the entity pushes off from.
#[derive(Clone, Copy, Debug, PartialEq, Eq, Structural)]
pub enum Footing {
    /// The ground, as slippery as its block is.
    Ground,
    /// Nothing: a player has a speed of its own for that.
    PlayerAloft,
    /// Nothing: a mob has a tenth of its speed.
    MobAloft,
}

/// How the entity pushes itself through the air.
#[derive(Clone, Copy, Debug, PartialEq, Eq, Structural)]
pub struct AirPush {
    pub pace: Pace,
    pub footing: Footing,
    /// Whether the push forward is the entity's own speed, in place of what it meant.
    pub forward_at_own_speed: bool,
}

/// What the rules on travel in the air read once the entity has moved.
#[derive(Clone, Copy, Debug, PartialEq, Eq, Structural)]
pub struct AirMoved {
    pub horizontal_collision: bool,
    /// Whether the entity was in powder snow and can walk on it.
    pub climbs_powder_snow: bool,
    pub gravity: Rank64,
    pub velocity_y: Rank64,
    /// Whether the kind of entity has a drag of its own up and down.
    pub own_drag: bool,
    pub flutters: bool,
}

/// What pulls the entity up or down in the air.
#[derive(Clone, Copy, Debug, PartialEq, Eq, Structural)]
pub enum Pull {
    Levitation { amplifier: u8 },
    Gravity { gravity: Rank64 },
}

/// What slows the entity up and down in the air.
#[derive(Clone, Copy, Debug, PartialEq, Eq, Structural)]
pub enum Drag {
    /// The drag of its kind.
    Own,
    /// The same as sideways.
    Friction,
    Air,
}

/// What becomes of the velocity after a move in the air.
#[derive(Clone, Copy, Debug, PartialEq, Eq, Structural)]
pub struct AirDrift {
    /// Whether the entity climbs what it is at.
    pub climbs: bool,
    pub pull: Pull,
    pub drag: Drag,
}

/// What the rules on travel in a fluid read before the entity moves.
#[derive(Clone, Copy, Debug, PartialEq, Eq, Structural)]
pub struct FluidScene {
    pub water: bool,
    pub sprinting: bool,
    pub on_ground: bool,
    /// The attribute for the ease of movement in water.
    pub water_efficiency: Rank64,
    pub gravity: Rank64,
    pub velocity_y: Rank64,
}

/// How much of its speed an entity keeps in water, before its ease there counts.
#[derive(Clone, Copy, Debug, PartialEq, Eq, Structural)]
pub enum WaterGrip {
    Sprint,
    /// The share of the entity's own.
    Own,
}

/// How far the ease of movement in water counts.
#[derive(Clone, Copy, Debug, PartialEq, Eq, Structural)]
pub enum WaterEase {
    Idle,
    Half,
    Whole,
}

/// How the entity pushes itself through a fluid.
#[derive(Clone, Copy, Debug, PartialEq, Eq, Structural)]
pub enum FluidPush {
    Water {
        grip: WaterGrip,
        ease: WaterEase,
        /// Whether a dolphin's grace sets what is kept, in place of grip and ease.
        graceful: bool,
    },
    Lava,
}

/// What the rules on travel in a fluid read once the entity has moved.
#[derive(Clone, Copy, Debug, PartialEq, Eq, Structural)]
pub struct FluidMoved {
    pub water: bool,
    pub horizontal_collision: bool,
    pub lava_height: Rank64,
    pub swim_height: Rank64,
    /// The gravity that pulls the entity.
    pub gravity: Rank64,
}

/// What becomes of the velocity after a move in a fluid.
#[derive(Clone, Copy, Debug, PartialEq, Eq, Structural)]
pub enum FluidDrift {
    Water {
        /// Whether the entity climbs what it is at.
        climbs: bool,
    },
    Lava {
        /// Whether the lava is no higher than the swim height.
        shallow: bool,
        /// Whether a quarter of the gravity pulls the entity down.
        weighs: bool,
    },
}

/// What becomes of the speed up or down of an entity that sinks.
#[derive(Clone, Copy, Debug, PartialEq, Eq, Structural)]
pub enum Sinking {
    /// It stays as it is.
    Keeps,
    /// It settles at a slow fall.
    Settles,
    /// It falls by a sixteenth of the gravity.
    Falls,
}

impl LivingEntity {
    /// Decides how the entity pushes itself through the air. A mob whose own will has
    /// set a speed goes by it; others go by the attribute.
    pub fn travel_in_air(scene: &AirScene) -> (r: AirPush)
        ensures
            r.pace == Pace::Own <==> !scene.is_player && scene.living_speed > 0,
            r.footing == (if scene.on_ground {
                Footing::Ground
            } else if scene.is_player {
                Footing::PlayerAloft
            } else {
                Footing::MobAloft
            }),
            r.forward_at_own_speed <==> !scene.is_player && scene.living_speed > 0
                && !scene.sideways,
    {
        let pace: Pace = if scene.is_player || scene.living_speed <= 0 {
            Pace::Attribute
        } else {
            Pace::Own
        };
        let footing: Footing = if scene.on_ground {
            Footing::Ground
        } else if scene.is_player {
            Footing::PlayerAloft
        } else {
            Footing::MobAloft
        };
        let forward_at_own_speed: bool = !scene.is_player && scene.living_speed > 0
            && !scene.sideways;
        AirPush { pace, footing, forward_at_own_speed }
    }

    /// Decides what becomes of the velocity after a move in the air.
    pub fn drift_in_air(&self, moved: &AirMoved) -> (r: AirDrift)
        requires
            self.wf(),
        ensures
            r.climbs <==> (moved.horizontal_collision || self.jumping) && (self.climbing
                || moved.climbs_powder_snow),
            r.pull == (if holds_effect(self.active_effects@, StatusEffect::Levitation) {
                Pull::Levitation {
                    amplifier: effect_map(
                        self.active_effects@,
                    )[StatusEffect::Levitation].amplifier,
                }
            } else {
                Pull::Gravity {
                    gravity: self.spec_effective_gravity(
                        moved.gravity,
                        moved.velocity_y,
                    ) as Rank64,
                }
            }),
            r.drag == (if moved.own_drag {
                Drag::Own
            } else if moved.flutters {
                Drag::Friction
            } else {
                Drag::Air
            }),
    {
        let pull: Pull = match self.get_effect(StatusEffect::Levitation) {
            Some(effect) => Pull::Levitation { amplifier: effect.amplifier },
            None => Pull::Gravity {
                gravity: self.get_effective_gravity(moved.gravity, moved.velocity_y),
            },
        };
        let drag: Drag = if moved.own_drag {
            Drag::Own
        } else if moved.flutters {
            Drag::Friction
        } else {
            Drag::Air
        };
        let climbs: bool = (moved.horizontal_collision || self.jumping) && (self.climbing
            || moved.climbs_powder_snow);
        AirDrift { climbs, pull, drag }
    }

    /// Decides how the entity pushes itself through a fluid, and gives the gravity that
    /// pulls it there. Whether it was falling counts from before the move.
    pub fn travel_in_fluid(&self, scene: &FluidScene) -> (r: (FluidPush, Rank64, bool))
        ensures
            r.0 == (if scene.water {
                FluidPush::Water {
                    grip: if scene.sprinting {
                        WaterGrip::Sprint
                    } else {
                        WaterGrip::Own
                    },
                    ease: if scene.water_efficiency <= 0 {
                        WaterEase::Idle
                    } else if scene.on_ground {
                        WaterEase::Whole
                    } else {
                        WaterEase::Half
                    },
                    graceful: holds_effect(self.active_effects@, StatusEffect::DolphinsGrace),
                }
            } else {
                FluidPush::Lava
            }),
            r.1 == self.spec_effective_gravity(scene.gravity, scene.velocity_y),
            r.2 == (scene.velocity_y <= 0),
    {
        let gravity: Rank64 = self.get_effective_gravity(scene.gravity, scene.velocity_y);
        let falling: bool = scene.velocity_y <= 0;
        if !scene.water {
            return (FluidPush::Lava, gravity, falling);
        }
        let grip: WaterGrip = if scene.sprinting {
            WaterGrip::Sprint
        } else {
            WaterGrip::Own
        };
        let ease: WaterEase = if scene.water_efficiency <= 0 {
            WaterEase::Idle
        } else if scene.on_ground {
            WaterEase::Whole
        } else {
            WaterEase::Half
        };
        let graceful: bool = self.has_effect(StatusEffect::DolphinsGrace);
        (FluidPush::Water { grip, ease, graceful }, gravity, falling)
    }

    /// Decides what becomes of the velocity after a move in a fluid.
    pub fn drift_in_fluid(&self, moved: &FluidMoved) -> (r: FluidDrift)
        ensures
            r == (if moved.water {
                FluidDrift::Water { climbs: moved.horizontal_collision && self.climbing }
            } else {
                FluidDrift::Lava {
                    shallow: moved.lava_height <= moved.swim_height,
                    weighs: moved.gravity != 0,
                }
            }),
    {
        if moved.water {
            FluidDrift::Water { climbs: moved.horizontal_collision && self.climbing }
        } else {
            FluidDrift::Lava {
                shallow: moved.lava_height <= moved.swim_height,
                weighs: moved.gravity != 0,
            }
        }
    }

    /// The speed upward after a move in a fluid: an entity that runs into something sideways,
    /// with no fluid where it would be next, is lifted.
    pub fn leave_fluid(horizontal_collision: bool, fluid_ahead: bool, velocity_y: Rank64) -> (r:
        Rank64)
        ensures
            r == (if horizontal_collision && !fluid_ahead {
                LEAVING_SPEED
            } else {
                velocity_y
            }),
    {
        if horizontal_collision && !fluid_ahead {
            LEAVING_SPEED
        } else {
            velocity_y
        }
    }

    /// Decides how an entity sinks. `settling` tells whether its speed is far enough
    /// from a slow rise and near enough to the pull of the fluid to settle.
    pub fn apply_fluid_moving_speed(
        gravity: Rank64,
        sprinting: bool,
        falling: bool,
        settling: bool,
    ) -> (r: Sinking)
        ensures
            r == (if gravity == 0 || sprinting {
                Sinking::Keeps
            } else if falling && settling {
                Sinking::Settles
            } else {
                Sinking::Falls
            }),
    {
        if gravity == 0 || sprinting {
            Sinking::Keeps
        } else if falling && settling {
            Sinking::Settles
        } else {
            Sinking::Falls
        }
    }

    /// The speed upward that a jump gives, and whether it also pushes the entity
    /// forward. A jump without strength does nothing.
    pub fn jump(strength: Rank64, velocity_y: Rank64, sprinting: bool) -> (r: Option<
        (Rank64, bool),
    >)
        ensures
            strength <= LEAST_JUMP ==> r is None,
            strength > LEAST_JUMP ==> {
                &&& r is Some
                &&& (r->0).0 == rank_max(strength as int, velocity_y as int)
                &&& (r->0).1 == sprinting
            },
    {
        if strength <= LEAST_JUMP {
            return None;
        }
        let upward: Rank64 = if strength >= velocity_y {
            strength
        } else {
            velocity_y
        };
        Some((upward, sprinting))
    }

    /// What being stuck in a wall does: a little damage.
    pub fn suffocation(suffocating: bool) -> (r: Option<(Rank32, DamageType)>)
        ensures
            r == (if suffocating {
                Some((SUFFOCATION_DAMAGE, DamageType::InWall))
            } else {
                None
            }),
    {
        if suffocating {
            Some((SUFFOCATION_DAMAGE, DamageType::InWall))
        } else {
            None
        }
    }
}

/// A speed, kept within the greatest speed of climbing either way.
fn keep_climbing_speed(speed: Rank64) -> (r: Rank64)
    ensures
        r == rank_min(rank_max(speed as int, -CLIMBING_SPEED), CLIMBING_SPEED as int),
{
    if speed < -CLIMBING_SPEED {
        -CLIMBING_SPEED
    } else if speed > CLIMBING_SPEED {
        CLIMBING_SPEED
    } else {
        speed
    }
}

/// Law: while more than one tick of the cooldown is left, the entity does not jump
/// off the ground, wherever it is.
pub proof fn law_jump_waits_for_its_cooldown(entity: LivingEntity, scene: MotionScene)
    requires
        entity.jumping_cooldown > 1,
    ensures
        entity.spec_leap(scene) != Leap::Jump,
{
}

/// A fall is softened exactly when the first block around that softens falls is near.
proof fn lemma_first_soft_block_decides(blocks: Seq<NearbyBlock>, k: int)
    requires
        0 <= k < blocks.len(),
        softens_nearby_fall(blocks[k].block),
        forall|i: int| 0 <= i < k ==> !softens_nearby_fall((#[trigger] blocks[i]).block),
    ensures
        softened_by(blocks) == blocks[k].near,
    decreases blocks.len(),
{
    if k > 0 {
        assert(!softens_nearby_fall(blocks[0].block));
        let rest = blocks.skip(1);
        assert(rest[k - 1] == blocks[k]);
        assert forall|i: int| 0 <= i < k - 1 implies !softens_nearby_fall((
        #[trigger] rest[i]).block) by {
            assert(rest[i] == blocks[i + 1]);
        }
        lemma_first_soft_block_decides(rest, k - 1);
    }
}

/// Without a block that softens falls none is softened.
proof fn lemma_hard_blocks_soften_nothing(blocks: Seq<NearbyBlock>)
    requires
        forall|i: int|
            0 <= i < blocks.len() ==> !softens_nearby_fall((#[trigger] blocks[i]).block),
    ensures
        !softened_by(blocks),
    decreases blocks.len(),
{
    if blocks.len() > 0 {
        assert(!softens_nearby_fall(blocks[0].block));
        let rest = blocks.skip(1);
        assert forall|i: int| 0 <= i < rest.len() implies !softens_nearby_fall((
        #[trigger] rest[i]).block) by {
            assert(rest[i] == blocks[i + 1]);
        }
        lemma_hard_blocks_soften_nothing(rest);
    }
}

/// Law: cobwebs, ladders, powder snow and slime soften a fall beside them. The first such block
/// around decides, by whether it is near; no other block softens anything.
pub proof fn law_first_soft_block_decides(blocks: Vec<NearbyBlock>, r: bool, k: int)
    requires
        call_ensures(LivingEntity::should_prevent_fall_damage_in_area, (&blocks,), r),
        0 <= k <= blocks@.len(),
        forall|i: int|
            0 <= i < k ==> (#[trigger] blocks@[i]).block != Block::Cobweb && blocks@[i].block
                != Block::Ladder && blocks@[i].block != Block::PowderSnow && blocks@[i].block
                != Block::SlimeBlock,
    ensures
        k == blocks@.len() ==> !r,
        k < blocks@.len() && (blocks@[k].block == Block::Cobweb || blocks@[k].block == Block::Ladder
            || blocks@[k].block == Block::PowderSnow || blocks@[k].block == Block::SlimeBlock)
            ==> r == blocks@[k].near,
{
    if k == blocks@.len() {
        lemma_hard_blocks_soften_nothing(blocks@);
    } else if softens_nearby_fall(blocks@[k].block) {
        lemma_first_soft_block_decides(blocks@, k);
    }
}

/// Law: water ends every fall without harm, the portals of the end do so for players, and a
/// nether portal for players that go through at once. Scaffolding does not unless one sneaks.
/// Any other block does so where it is one that resets falls.
pub proof fn law_where_falls_do_not_hurt(entity: LivingEntity, scene: FallScene, r: bool)
    requires
        call_ensures(LivingEntity::should_prevent_fall_damage, (&entity, &scene), r),
    ensures
        scene.block == Block::Water ==> r,
        scene.block == Block::Scaffolding && !scene.sneaking ==> !r,
        scene.block == Block::Scaffolding && scene.sneaking ==> r == scene.resets_fall_damage,
        entity.entity_type == EntityType::Player && (scene.block == Block::EndGateway || scene.block
            == Block::EndPortal) ==> r,
        entity.entity_type == EntityType::Player && scene.block == Block::NetherPortal ==> r
            == scene.instant_portals,
        entity.entity_type != EntityType::Player && scene.block != Block::Water && scene.block
            != Block::Scaffolding ==> r == scene.resets_fall_damage,
        scene.block is Other || scene.block == Block::Cobweb || scene.block == Block::Ladder
            || scene.block == Block::PowderSnow || scene.block == Block::SlimeBlock ==> r
            == scene.resets_fall_damage,
{
}

/// Law: on the ground a fall is over, and only there does it hurt: where it was a fall at all,
/// nothing softened it, damage was not ruled out, and the kind minds falls. It then hurts by all
/// of its way, the last move down with it. In the air the way adds up, but not where something
/// softens the fall.
pub proof fn law_fall_hurts_by_its_way(
    entity: &mut LivingEntity,
    scene: FallScene,
    around: Vec<NearbyBlock>,
    longer: Option<Rank32>,
    ground: bool,
    dont_damage: bool,
    r: Landing,
)
    requires
        call_ensures(
            LivingEntity::fall,
            (entity, &scene, &around, longer, ground, dont_damage),
            r,
        ),
    ensures
        ground ==> final(entity).fall_distance == 0,
        !ground ==> r == Landing::Harmless,
        dont_damage || scene.immune || scene.block == Block::Water ==> r == Landing::Harmless,
        !ground && longer is None ==> final(entity).fall_distance == old(entity).fall_distance,
        !ground && longer is Some && scene.block == Block::Water ==> final(entity).fall_distance
            == 0,
        around@.len() == 0 && scene.block is Other && !scene.resets_fall_damage ==> {
            let distance = if longer is Some {
                longer->0
            } else {
                old(entity).fall_distance
            };
            &&& !ground ==> final(entity).fall_distance == distance
            &&& ground && distance > 0 && !dont_damage && !scene.immune ==> r == (Landing::Lands {
                fall_distance: distance,
            })
            &&& distance <= 0 ==> r == Landing::Harmless
        },
        r is Lands ==> ground && r->fall_distance > 0 && !scene.immune && !dont_damage,
        *final(entity) == (LivingEntity {
            fall_distance: final(entity).fall_distance,
            ..*old(entity)
        }),
{
}

/// Law: a fall that costs more than 4 points sounds big, and a player's falls sound as a
/// player's.
pub proof fn law_hard_falls_sound_big(entity: LivingEntity, damage: i32, r: FallSound)
    requires
        call_ensures(LivingEntity::get_fall_sound, (&entity, damage), r),
    ensures
        r == FallSound::PlayerBigFall || r == FallSound::GenericBigFall <==> damage > 4,
        r == FallSound::PlayerBigFall || r == FallSound::PlayerSmallFall <==> entity.entity_type
            == EntityType::Player,
{
}

/// Law: who wants to jump swims up in a fluid, off the ground or deep in it, and jumps off the
/// ground, or out of shallow water, once the cooldown is over; a jump starts a cooldown of 10
/// ticks. Flying players do neither. Who swims travels through water, before lava, and striders
/// through neither. Slow falling and levitation end a fall.
pub proof fn law_motion_of_a_tick(
    entity: &mut LivingEntity,
    scene: MotionScene,
    r: (Leap, Travel),
)
    requires
        call_ensures(LivingEntity::tick_movement, (entity, &scene), r),
    ensures
        ({
            let wants = old(entity).jumping && !scene.flying_player;
            let swims = (scene.touching_water || scene.touching_lava) && (!scene.on_ground
                || scene.deep_in_fluid);
            let ready = old(entity).jumping_cooldown <= 1;
            &&& r.0 == Leap::SwimUp <==> wants && swims
            &&& r.0 == Leap::Jump <==> wants && !swims && ready && (scene.on_ground
                || scene.touching_water && !scene.deep_in_fluid)
            &&& !wants ==> final(entity).jumping_cooldown == 0
            &&& r.0 == Leap::Jump ==> final(entity).jumping_cooldown == 10
            &&& wants && r.0 != Leap::Jump ==> final(entity).jumping_cooldown == (if old(entity).jumping_cooldown == 0 {
                0
            } else {
                old(entity).jumping_cooldown - 1
            })
            &&& r.1 == Travel::Water <==> scene.touching_water && !scene.flying_player
                && !scene.is_strider
            &&& r.1 == Travel::Lava <==> scene.touching_lava && !scene.touching_water
                && !scene.flying_player && !scene.is_strider
            &&& (exists|i: int|
                0 <= i < old(entity).active_effects@.len() && ((#[trigger] old(entity).active_effects@[i]).effect_type == StatusEffect::SlowFalling || old(entity).active_effects@[i].effect_type == StatusEffect::Levitation)) ==> final(entity).fall_distance == 0
            &&& old(entity).active_effects@.len() == 0 ==> final(entity).fall_distance == old(entity).fall_distance
            &&& final(entity).jumping == old(entity).jumping
            &&& final(entity).health == old(entity).health
        }),
{
}

/// Law: slow falling leaves no more than a hundredth of gravity on the way down, and no effect
/// changes gravity on the way up.
pub proof fn law_slow_falling_is_slow(
    entity: LivingEntity,
    gravity: Rank64,
    velocity_y: Rank64,
    r: Rank64,
)
    requires
        call_ensures(LivingEntity::get_effective_gravity, (&entity, gravity, velocity_y), r),
    ensures
        velocity_y > 0 || entity.active_effects@.len() == 0 ==> r == gravity,
        r <= gravity,
        velocity_y <= 0 && (exists|i: int|
            0 <= i < entity.active_effects@.len() && (
            #[trigger] entity.active_effects@[i]).effect_type == StatusEffect::SlowFalling) ==> r
            <= 0x3F84_7AE1_47AE_147B,
        gravity <= 0x3F84_7AE1_47AE_147B ==> r == gravity,
        r == gravity || r == 0x3F84_7AE1_47AE_147B,
{
}

/// Law: who climbs goes at no more than 0.15 sideways and down, as fast as it likes up, and no
/// longer falls; others go as they go.
pub proof fn law_climbing_is_slow(
    entity: &mut LivingEntity,
    x: Rank64,
    y: Rank64,
    z: Rank64,
    r: (Rank64, Rank64, Rank64),
)
    requires
        call_ensures(LivingEntity::apply_climbing_speed, (entity, x, y, z), r),
    ensures
        !old(entity).climbing ==> r == (x, y, z) && *final(entity) == *old(entity),
        old(entity).climbing ==> {
            &&& -0x3FC3_3333_3333_3333 <= r.0 <= 0x3FC3_3333_3333_3333
            &&& -0x3FC3_3333_3333_3333 <= r.2 <= 0x3FC3_3333_3333_3333
            &&& r.1 >= -0x3FC3_3333_3333_3333
            &&& -0x3FC3_3333_3333_3333 <= x <= 0x3FC3_3333_3333_3333 ==> r.0 == x
            &&& -0x3FC3_3333_3333_3333 <= z <= 0x3FC3_3333_3333_3333 ==> r.2 == z
            &&& y >= -0x3FC3_3333_3333_3333 ==> r.1 == y
            &&& final(entity).fall_distance == 0
        },
        x > 0x3FC3_3333_3333_3333 && old(entity).climbing ==> r.0 == 0x3FC3_3333_3333_3333,
        z > 0x3FC3_3333_3333_3333 && old(entity).climbing ==> r.2 == 0x3FC3_3333_3333_3333,
{
}

/// Law: an entity swims from 0.4 of depth on, one whose eyes are lower at once, and a breeze from
/// its eyes up.
pub proof fn law_depth_to_swim(is_breeze: bool, eye_height: Rank64, r: Rank64)
    requires
        call_ensures(LivingEntity::get_swim_height, (is_breeze, eye_height), r),
    ensures
        is_breeze ==> r == eye_height,
        !is_breeze && eye_height >= 0x3FD9_9999_9999_999A ==> r == 0x3FD9_9999_9999_999A,
        !is_breeze && eye_height < 0x3FD9_9999_9999_999A ==> r == 0,
{
}

/// Law: who runs into something at the edge of a fluid is lifted at 0.3; anyone else keeps its
/// speed.
pub proof fn law_edge_of_a_fluid_lifts(
    horizontal_collision: bool,
    fluid_ahead: bool,
    velocity_y: Rank64,
    r: Rank64,
)
    requires
        call_ensures(
            LivingEntity::leave_fluid,
            (horizontal_collision, fluid_ahead, velocity_y),
            r,
        ),
    ensures
        horizontal_collision && !fluid_ahead ==> r == 0x3FD3_3333_3333_3333,
        !horizontal_collision || fluid_ahead ==> r == velocity_y,
{
}

/// Law: a jump never slows one that is already rising, and a sprinter's jump pushes it forward. A
/// jump of no more than 0.00001 is none.
pub proof fn law_jump_rises(
    strength: Rank64,
    velocity_y: Rank64,
    sprinting: bool,
    r: Option<(Rank64, bool)>,
)
    requires
        call_ensures(LivingEntity::jump, (strength, velocity_y, sprinting), r),
    ensures
        r is Some <==> strength > 0x3EE4_F8B5_88E3_68F1,
        r is Some ==> (r->0).0 >= strength && (r->0).0 >= velocity_y && ((r->0).0 == strength || (
        r->0).0 == velocity_y),
        r is Some ==> (r->0).1 == sprinting,
{
}

/// Law: being stuck in a wall costs one point a tick, as damage by a wall.
pub proof fn law_walls_suffocate(suffocating: bool, r: Option<(Rank32, DamageType)>)
    requires
        call_ensures(LivingEntity::suffocation, (suffocating,), r),
    ensures
        r is Some <==> suffocating,
        r is Some ==> (r->0).0 == 0x3F80_0000 && (r->0).1 == DamageType::InWall,
{
}

/// Law: a mob with a speed of its own goes by it, on the ground and in the air; players go by the
/// attribute.
pub proof fn law_push_through_the_air(scene: AirScene, r: AirPush)
    requires
        call_ensures(LivingEntity::travel_in_air, (&scene,), r),
    ensures
        scene.is_player ==> r.pace == Pace::Attribute && !r.forward_at_own_speed,
        !scene.is_player && scene.living_speed > 0 ==> r.pace == Pace::Own,
        r.forward_at_own_speed ==> r.pace == Pace::Own && !scene.sideways,
        r.pace == Pace::Own && !scene.sideways ==> r.forward_at_own_speed,
        r.footing == Footing::Ground <==> scene.on_ground,
        !scene.on_ground ==> (r.footing == Footing::PlayerAloft <==> scene.is_player),
{
}

/// Law: in the air levitation goes before gravity, which slow falling weakens on the way down. Who
/// runs into something or jumps at a place where it climbs climbs it.
pub proof fn law_drift_through_the_air(entity: LivingEntity, moved: AirMoved, r: AirDrift)
    requires
        call_ensures(LivingEntity::drift_in_air, (&entity, &moved), r),
    ensures
        r.climbs ==> (moved.horizontal_collision || entity.jumping) && (entity.climbing
            || moved.climbs_powder_snow),
        moved.horizontal_collision && entity.climbing ==> r.climbs,
        entity.jumping && moved.climbs_powder_snow ==> r.climbs,
        r.pull is Levitation <==> exists|i: int|
            0 <= i < entity.active_effects@.len() && (
            #[trigger] entity.active_effects@[i]).effect_type == StatusEffect::Levitation,
        entity.active_effects@.len() == 0 ==> r.pull == (Pull::Gravity { gravity: moved.gravity }),
        r.drag == Drag::Own <==> moved.own_drag,
        r.drag == Drag::Friction <==> !moved.own_drag && moved.flutters,
{
}

/// Law: in water a sprint and the ease there count, the ease by half off the ground, unless a
/// dolphin's grace stands in for both; in lava nothing of that counts.
pub proof fn law_push_through_a_fluid(
    entity: LivingEntity,
    scene: FluidScene,
    r: (FluidPush, Rank64, bool),
)
    requires
        call_ensures(LivingEntity::travel_in_fluid, (&entity, &scene), r),
    ensures
        r.0 is Water <==> scene.water,
        r.0 is Water ==> {
            &&& r.0->grip == WaterGrip::Sprint <==> scene.sprinting
            &&& r.0->ease == WaterEase::Idle <==> scene.water_efficiency <= 0
            &&& scene.water_efficiency > 0 ==> (r.0->ease == WaterEase::Whole <==> scene.on_ground)
            &&& r.0->graceful <==> exists|i: int|
                0 <= i < entity.active_effects@.len() && (
                #[trigger] entity.active_effects@[i]).effect_type == StatusEffect::DolphinsGrace
        },
        scene.velocity_y > 0 ==> r.1 == scene.gravity && !r.2,
        scene.velocity_y <= 0 ==> r.2,
        r.1 <= scene.gravity,
{
}

/// Law: a fall is held to the block that the entity is in, and hurts just where it comes to damage and the
/// kind of entity is not immune.
pub proof fn law_what_a_fall_meets(
    entity: LivingEntity,
    scene: FallScene,
    resetting: (bool, Block),
    water: bool,
    snow: bool,
    immune: bool,
    damage: Rank32,
    hurts: bool,
)
    requires
        call_ensures(LivingEntity::is_in_fall_damage_resetting, (&scene,), resetting),
        call_ensures(LivingEntity::is_in_water, (&scene,), water),
        call_ensures(LivingEntity::is_in_powder_snow, (&scene,), snow),
        call_ensures(LivingEntity::is_immune_to_fall_damage, (&scene,), immune),
        call_ensures(LivingEntity::handle_fall_damage, (&entity, immune, damage), hurts),
    ensures
        resetting.0 == scene.resets_fall_damage,
        resetting.1 == scene.block,
        water <==> scene.block == Block::Water,
        snow <==> scene.block == Block::PowderSnow,
        immune == scene.immune,
        hurts ==> !scene.immune && damage > 0,
        !scene.immune && damage > 0 ==> hurts,
{
}

/// Law: an entity that is looked at anew does not climb; on the ground it forgets where it last did, and
/// in the air it does not.
pub proof fn law_climbing_ends(entity: &mut LivingEntity, on_ground: bool)
    requires
        call_ensures(LivingEntity::check_climbing, (entity, on_ground), ()),
    ensures
        !final(entity).climbing,
        on_ground ==> final(entity).climbing_pos is None,
        !on_ground ==> final(entity).climbing_pos == old(entity).climbing_pos,
        final(entity).health == old(entity).health,
        final(entity).active_effects == old(entity).active_effects,
{
}

/// Law: after a move in water an entity climbs where it climbs and meets a wall; in lava it is in the
/// shallows up to the depth it swims from, and sinks where anything weighs on it.
pub proof fn law_drift_through_a_fluid(entity: LivingEntity, moved: FluidMoved, r: FluidDrift)
    requires
        call_ensures(LivingEntity::drift_in_fluid, (&entity, &moved), r),
    ensures
        r is Water <==> moved.water,
        r is Water ==> (r->climbs <==> moved.horizontal_collision && entity.climbing),
        r is Lava ==> (r->shallow <==> moved.lava_height <= moved.swim_height),
        r is Lava ==> (r->weighs <==> moved.gravity != 0),
{
}

/// Law: whoever sprints, or is weightless, keeps its speed in a fluid; anyone else settles where it falls
/// about as fast as the fluid pulls, and falls otherwise.
pub proof fn law_how_entities_sink(
    gravity: Rank64,
    sprinting: bool,
    falling: bool,
    settling: bool,
    r: Sinking,
)
    requires
        call_ensures(
            LivingEntity::apply_fluid_moving_speed,
            (gravity, sprinting, falling, settling),
            r,
        ),
    ensures
        r == Sinking::Keeps <==> gravity == 0 || sprinting,
        r == Sinking::Settles <==> gravity != 0 && !sprinting && falling && settling,
        r == Sinking::Falls <==> gravity != 0 && !sprinting && !(falling && settling),
{
}

} // verus!
