//! Arrows: how they fly, what they hit and who may pick them up.

use vstd::prelude::*;

use crate::data::effect::{Effect, StatusEffect};
use crate::data::entity_type::EntityType;
use crate::data::position::{BlockPos, Position};
use crate::data::rank::{Rank32, Rank64};
use crate::plan::{only_if, push_if, push_step};
use crate::random::draw_number;

verus! {

/// The damage of an arrow before its speed counts: 2.
pub const ARROW_BASE_DAMAGE: Rank64 = 4611686018427387904;

/// How many ticks an arrow lies about.
pub const DESPAWN_TIME: u32 = 1200;

/// How long an arrow trembles in the block that it has hit.
pub const SHAKE_TIME: u8 = 7;

/// How long whoever is hit by a burning arrow burns.
pub const BURN_TICKS: i32 = 100;

/// For how many ticks an arrow flies through its owner.
pub const OWNER_GRACE: i32 = 5;

/// The end of a tick, as a time along the way of the arrow: 1.
pub const END_OF_TICK: Rank64 = 4607182418800017408;

/// How near a point has to be to the near side of a block to lie on it: 0.0001.
pub const NEAR_SIDE: Rank64 = 4547007122018943789;

/// Where the far side of a block begins: at 1 less 0.0001.
pub const FAR_SIDE: Rank64 = 4607181518080091934;

/// Who may pick up an arrow.
#[derive(Clone, Copy, Debug, PartialEq, Eq, Structural)]
pub enum ArrowPickup {
    Disallowed,
    Allowed,
    CreativeOnly,
}

impl ArrowPickup {
    /// The rule that a byte stands for.
    pub open spec fn spec_from_byte(byte: u8) -> Self {
        if byte == 1 {
            ArrowPickup::Allowed
        } else if byte == 2 {
            ArrowPickup::CreativeOnly
        } else {
            ArrowPickup::Disallowed
        }
    }

    /// The byte that stands for the rule.
    pub open spec fn spec_to_byte(self) -> u8 {
        match self {
            ArrowPickup::Disallowed => 0,
            ArrowPickup::Allowed => 1,
            ArrowPickup::CreativeOnly => 2,
        }
    }

    /// The rule that a byte stands for.
    pub fn from_byte(byte: u8) -> (r: Self)
        ensures
            r == Self::spec_from_byte(byte),
    {
        match byte {
            1 => ArrowPickup::Allowed,
            2 => ArrowPickup::CreativeOnly,
            _ => ArrowPickup::Disallowed,
        }
    }

    /// The byte that stands for the rule.
    pub fn to_byte(self) -> (r: u8)
        ensures
            r == self.spec_to_byte(),
    {
        match self {
            ArrowPickup::Disallowed => 0,
            ArrowPickup::Allowed => 1,
            ArrowPickup::CreativeOnly => 2,
        }
    }
}

/// Law: a rule comes back from its byte, and a byte that stands for a rule of its own comes
/// back from that rule.
pub proof fn law_pickup_rule_comes_back(rule: ArrowPickup, byte: u8)
    ensures
        ArrowPickup::spec_from_byte(rule.spec_to_byte()) == rule,
        ArrowPickup::spec_from_byte(byte).spec_to_byte() == byte <==> byte <= 2,
{
}

/// An arrow.
#[derive(Clone, Copy, Debug, PartialEq, Eq, Structural)]
pub struct ArrowEntity {
    pub owner_id: Option<i32>,
    pub base_damage: Rank64,
    pub pickup: ArrowPickup,
    pub is_critical: bool,
    pub pierce_level: u8,
    pub punch_level: u8,
    pub is_flame: bool,
    pub in_ground: bool,
    pub in_ground_time: u32,
    pub life: u32,
    pub shake_time: u8,
    /// Whether the arrow has hit something.
    pub has_hit: bool,
    /// The block that the arrow has hit last.
    pub last_block_pos: Option<BlockPos>,
}

/// How a tick of an arrow begins.
#[derive(Clone, Copy, Debug, PartialEq, Eq, Structural)]
pub enum ArrowTick {
    /// It lies about; it may have done so for long enough.
    Lies { despawns: bool },
    /// It flies; it may leave a trail.
    Flies { trail: bool },
}

/// How much of its speed an arrow keeps.
#[derive(Clone, Copy, Debug, PartialEq, Eq, Structural)]
pub enum Inertia {
    /// 0.6 of it.
    Water,
    /// 0.99 of it.
    Air,
}

/// An entity in the way of an arrow.
#[derive(Clone, Copy, Debug, PartialEq, Eq, Structural)]
pub struct InTheWay {
    pub entity_id: i32,
    pub entity_type: EntityType,
    /// When the arrow meets it, if it does.
    pub time: Option<Rank64>,
}

/// What an arrow hits.
#[derive(Clone, Copy, Debug, PartialEq, Eq, Structural)]
pub enum ProjectileHit {
    Block { pos: BlockPos, time: Rank64 },
    Entity { entity_id: i32, time: Rank64 },
}

/// When an arrow hits something, at the latest, and what.
#[derive(Clone, Copy, Debug, PartialEq, Eq, Structural)]
pub struct Aim {
    pub nearest: Rank64,
    pub hit: Option<ProjectileHit>,
}

/// A side of a block.
#[derive(Clone, Copy, Debug, PartialEq, Eq, Structural)]
pub enum BlockDirection {
    Down,
    Up,
    North,
    South,
    West,
    East,
}

/// What an arrow that hits a block asks the world to do.
#[derive(Clone, Copy, Debug, PartialEq, Eq, Structural)]
pub enum BlockHitStep {
    /// Whoever listens hears a projectile land, shot by the owner.
    EmitLanding,
    PressButton { pos: BlockPos },
    /// The block is a target: it answers to the hit.
    HitTarget { pos: BlockPos },
    /// The player that shot the arrow has hit a target.
    CreditBullseye { player: i32 },
    /// The arrow stops where it hit.
    StopThere,
    PlaySound,
}

/// What an arrow that hits an entity asks the world to do, once the damage is dealt.
#[derive(Clone, Copy, Debug, PartialEq, Eq, Structural)]
pub enum EntityHitStep {
    AddEffect { effect: Effect },
    /// The owner knocks the target back, with 0.6 for each level.
    KnockBack { level: u8 },
    PlaySound,
    Remove,
}

/// What becomes of an arrow that a player touches.
#[derive(Clone, Copy, Debug, PartialEq, Eq, Structural)]
pub enum Touch {
    /// It stays.
    Stays,
    /// The player takes it without having it in hand afterwards.
    Taken,
    /// The player takes it if there is room for it.
    TakenIfRoom,
}

/// The block that a place in the list of met boxes belongs to: each block has some boxes,
/// one after the other.
pub open spec fn block_of(blocks: Seq<(usize, BlockPos)>, place: int) -> Option<BlockPos>
    decreases blocks.len(),
{
    if blocks.len() == 0 {
        None
    } else if place < blocks[0].0 {
        Some(blocks[0].1)
    } else {
        block_of(blocks.skip(1), place - blocks[0].0)
    }
}

/// What the arrow hits of the boxes of blocks: the one that it meets first.
pub open spec fn aim_at_blocks(
    times: Seq<Option<Rank64>>,
    blocks: Seq<(usize, BlockPos)>,
) -> Aim
    decreases times.len(),
{
    if times.len() == 0 {
        Aim { nearest: END_OF_TICK, hit: None }
    } else {
        let before = aim_at_blocks(times.drop_last(), blocks);
        match times.last() {
            Some(time) => if time < before.nearest {
                Aim {
                    nearest: time,
                    hit: match block_of(blocks, times.len() - 1) {
                        Some(pos) => Some(ProjectileHit::Block { pos, time }),
                        None => before.hit,
                    },
                }
            } else {
                before
            },
            None => before,
        }
    }
}

/// The block that a place in the list of met boxes belongs to.
fn find_block(blocks: &Vec<(usize, BlockPos)>, place: usize) -> (r: Option<BlockPos>)
    ensures
        r == block_of(blocks@, place as int),
{
    let mut rest: usize = place;
    let mut i: usize = 0;
    assert(blocks@.skip(0) =~= blocks@);
    while i < blocks.len()
        invariant
            i <= blocks@.len(),
            block_of(blocks@, place as int) == block_of(blocks@.skip(i as int), rest as int),
        decreases blocks.len() - i,
    {
        if rest < blocks[i].0 {
            return Some(blocks[i].1);
        }
        rest = rest - blocks[i].0;
        assert(blocks@.skip(i as int).skip(1) =~= blocks@.skip(i as int + 1));
        i = i + 1;
    }
    None
}

/// The side of a block that a point lies on, given by its place within the block.
pub open spec fn hit_face(local: Position) -> BlockDirection {
    if local.x <= NEAR_SIDE {
        BlockDirection::West
    } else if local.x >= FAR_SIDE {
        BlockDirection::East
    } else if local.y <= NEAR_SIDE {
        BlockDirection::Down
    } else if local.y >= FAR_SIDE {
        BlockDirection::Up
    } else if local.z <= NEAR_SIDE {
        BlockDirection::North
    } else {
        BlockDirection::South
    }
}

/// The side of a block that a point lies on, given by its place within the block.
pub fn get_hit_face(local: &Position) -> (r: BlockDirection)
    ensures
        r == hit_face(*local),
{
    if local.x <= NEAR_SIDE {
        BlockDirection::West
    } else if local.x >= FAR_SIDE {
        BlockDirection::East
    } else if local.y <= NEAR_SIDE {
        BlockDirection::Down
    } else if local.y >= FAR_SIDE {
        BlockDirection::Up
    } else if local.z <= NEAR_SIDE {
        BlockDirection::North
    } else {
        BlockDirection::South
    }
}

/// Half of the damage, rounded towards nothing, and two more: how many bonuses a critical
/// hit may have.
pub open spec fn bonus_range(damage: i32) -> int {
    if damage >= 0 {
        damage as int / 2 + 2
    } else {
        2 - (-damage) / 2
    }
}

/// The damage of a critical hit: a bonus is added, as far as a number can hold it.
pub open spec fn critical_damage(damage: i32, lot: u32) -> int {
    let bonus = (lot % (bonus_range(damage) as i32 as u32)) as i32;
    let sum = damage + bonus;
    if sum > i32::MAX {
        i32::MAX as int
    } else if sum < i32::MIN {
        i32::MIN as int
    } else {
        sum
    }
}

/// The effect that an arrow of the owner has on whom it hurts.
pub open spec fn effect_of_owner(owner: EntityType) -> Option<Effect> {
    match owner {
        EntityType::Bogged => Some(tip_effect(StatusEffect::Poison, 100)),
        EntityType::Stray => Some(tip_effect(StatusEffect::Slowness, 600)),
        _ => None,
    }
}

/// An effect of an arrow: seen by its particles and its icon.
pub open spec fn tip_effect(kind: StatusEffect, duration: i32) -> Effect {
    Effect {
        effect_type: kind,
        duration,
        amplifier: 0,
        ambient: false,
        show_particles: true,
        show_icon: true,
        blend: false,
    }
}

/// An effect of an arrow.
fn make_tip_effect(kind: StatusEffect, duration: i32) -> (r: Effect)
    ensures
        r == tip_effect(kind, duration),
{
    Effect {
        effect_type: kind,
        duration,
        amplifier: 0,
        ambient: false,
        show_particles: true,
        show_icon: true,
        blend: false,
    }
}

/// The number one greater, or 0 after the greatest.
pub open spec fn one_more(number: u32) -> u32 {
    if number == u32::MAX {
        0
    } else {
        (number + 1) as u32
    }
}

/// The number one greater, or 0 after the greatest.
fn count_up(number: u32) -> (r: u32)
    ensures
        r == one_more(number),
{
    if number == u32::MAX {
        0
    } else {
        number + 1
    }
}

impl ArrowEntity {
    /// An arrow as it comes into the world.
    pub open spec fn spec_new(owner_id: Option<i32>, pickup: ArrowPickup) -> Self {
        ArrowEntity {
            owner_id,
            base_damage: ARROW_BASE_DAMAGE,
            pickup,
            is_critical: false,
            pierce_level: 0,
            punch_level: 0,
            is_flame: false,
            in_ground: false,
            in_ground_time: 0,
            life: 0,
            shake_time: 0,
            has_hit: false,
            last_block_pos: None,
        }
    }

    /// An arrow that nobody may pick up.
    pub fn new(owner_id: Option<i32>) -> (r: Self)
        ensures
            r == Self::spec_new(owner_id, ArrowPickup::Disallowed),
    {
        ArrowEntity {
            owner_id,
            base_damage: ARROW_BASE_DAMAGE,
            pickup: ArrowPickup::Disallowed,
            is_critical: false,
            pierce_level: 0,
            punch_level: 0,
            is_flame: false,
            in_ground: false,
            in_ground_time: 0,
            life: 0,
            shake_time: 0,
            has_hit: false,
            last_block_pos: None,
        }
    }

    /// An arrow that someone has shot.
    pub fn new_shot(shooter_id: i32, pickup: ArrowPickup) -> (r: Self)
        ensures
            r == Self::spec_new(Some(shooter_id), pickup),
    {
        let mut arrow: ArrowEntity = ArrowEntity::new(Some(shooter_id));
        arrow.pickup = pickup;
        arrow
    }

    /// Makes the arrow critical, or no longer.
    pub fn set_critical(&mut self, critical: bool)
        ensures
            *final(self) == (ArrowEntity { is_critical: critical, ..*old(self) }),
    {
        self.is_critical = critical;
    }

    /// Sets how many entities the arrow goes through.
    pub fn set_pierce_level(&mut self, level: u8)
        ensures
            *final(self) == (ArrowEntity { pierce_level: level, ..*old(self) }),
    {
        self.pierce_level = level;
    }

    /// The base damage of an arrow is that of its kind: setting another changes nothing.
    pub fn set_base_damage(&mut self, _damage: Rank64)
        ensures
            *final(self) == *old(self),
    {
    }

    /// The arrow after the beginning of a tick.
    pub open spec fn spec_ticked(self) -> Self {
        ArrowEntity {
            shake_time: if self.shake_time > 0 {
                (self.shake_time - 1) as u8
            } else {
                0
            },
            in_ground_time: if self.in_ground {
                one_more(self.in_ground_time)
            } else {
                self.in_ground_time
            },
            life: if self.in_ground {
                one_more(self.life)
            } else {
                self.life
            },
            ..self
        }
    }

    /// Begins a tick. An arrow that lies about gets older and goes once it is old enough;
    /// another flies on.
    pub fn tick(&mut self) -> (r: ArrowTick)
        ensures
            *final(self) == old(self).spec_ticked(),
            r == (if old(self).in_ground {
                ArrowTick::Lies { despawns: old(self).life >= DESPAWN_TIME }
            } else {
                ArrowTick::Flies { trail: old(self).is_critical }
            }),
    {
        if self.shake_time > 0 {
            self.shake_time = self.shake_time - 1;
        }
        if self.in_ground {
            let life: u32 = self.life;
            self.in_ground_time = count_up(self.in_ground_time);
            self.life = count_up(life);
            return ArrowTick::Lies { despawns: life >= DESPAWN_TIME };
        }
        ArrowTick::Flies { trail: self.is_critical }
    }

    /// How much of its speed a flying arrow keeps.
    pub fn inertia(touching_water: bool) -> (r: Inertia)
        ensures
            r == (if touching_water {
                Inertia::Water
            } else {
                Inertia::Air
            }),
    {
        if touching_water {
            Inertia::Water
        } else {
            Inertia::Air
        }
    }

    /// The arrow flies through the entity: through itself, through its owner at first, and
    /// through arrows, items and falling blocks.
    pub open spec fn spec_skips(
        self,
        entity_id: i32,
        age: i32,
        other_id: i32,
        other_type: EntityType,
    ) -> bool {
        ||| other_id == entity_id
        ||| Some(other_id) == self.owner_id && age < OWNER_GRACE
        ||| other_type == EntityType::Arrow
        ||| other_type == EntityType::Item
        ||| other_type == EntityType::FallingBlock
    }

    /// Whether the arrow flies through the entity.
    pub fn should_skip_collision(
        &self,
        entity_id: i32,
        age: i32,
        other_id: i32,
        other_type: EntityType,
    ) -> (r: bool)
        ensures
            r == self.spec_skips(entity_id, age, other_id, other_type),
    {
        if other_id == entity_id {
            return true;
        }
        if let Some(owner) = self.owner_id {
            if owner == other_id && age < OWNER_GRACE {
                return true;
            }
        }
        other_type == EntityType::Arrow || other_type == EntityType::Item || other_type
            == EntityType::FallingBlock
    }

    /// What the arrow hits once the entities in its way are looked at as well.
    pub open spec fn spec_aim(
        self,
        entity_id: i32,
        age: i32,
        at_blocks: Aim,
        others: Seq<InTheWay>,
    ) -> Aim
        decreases others.len(),
    {
        if others.len() == 0 {
            at_blocks
        } else {
            let before = self.spec_aim(entity_id, age, at_blocks, others.drop_last());
            let other = others.last();
            match other.time {
                Some(time) => if time < before.nearest && !self.spec_skips(
                    entity_id,
                    age,
                    other.entity_id,
                    other.entity_type,
                ) {
                    Aim {
                        nearest: time,
                        hit: Some(ProjectileHit::Entity { entity_id: other.entity_id, time }),
                    }
                } else {
                    before
                },
                None => before,
            }
        }
    }

    /// What the arrow hits in this tick, if anything: of the boxes of blocks and of the
    /// entities that it meets before the end of the tick the one that it meets first. Each
    /// block comes with how many boxes it has.
    pub fn closest_hit(
        &self,
        entity_id: i32,
        age: i32,
        times: &Vec<Option<Rank64>>,
        blocks: &Vec<(usize, BlockPos)>,
        others: &Vec<InTheWay>,
    ) -> (r: Option<ProjectileHit>)
        ensures
            r == self.spec_aim(entity_id, age, aim_at_blocks(times@, blocks@), others@).hit,
    {
        let mut aim: Aim = Aim { nearest: END_OF_TICK, hit: None };
        let mut i: usize = 0;
        while i < times.len()
            invariant
                i <= times@.len(),
                aim == aim_at_blocks(times@.take(i as int), blocks@),
            decreases times.len() - i,
        {
            assert(times@.take(i as int + 1).drop_last() =~= times@.take(i as int));
            if let Some(time) = times[i] {
                if time < aim.nearest {
                    aim.nearest = time;
                    if let Some(pos) = find_block(blocks, i) {
                        aim.hit = Some(ProjectileHit::Block { pos, time });
                    }
                }
            }
            i = i + 1;
        }
        assert(times@.take(i as int) =~= times@);
        let ghost at_blocks = aim;
        let mut j: usize = 0;
        while j < others.len()
            invariant
                j <= others@.len(),
                aim == self.spec_aim(entity_id, age, at_blocks, others@.take(j as int)),
            decreases others.len() - j,
        {
            assert(others@.take(j as int + 1).drop_last() =~= others@.take(j as int));
            let other: InTheWay = others[j];
            if !self.should_skip_collision(entity_id, age, other.entity_id, other.entity_type) {
                if let Some(time) = other.time {
                    if time < aim.nearest {
                        aim.nearest = time;
                        aim.hit = Some(
                            ProjectileHit::Entity { entity_id: other.entity_id, time },
                        );
                    }
                }
            }
            j = j + 1;
        }
        assert(others@.take(j as int) =~= others@);
        aim.hit
    }

    /// Takes note that the arrow has hit something. Returns whether the hit counts: only
    /// the first does.
    pub fn take_hit(&mut self) -> (r: bool)
        ensures
            *final(self) == (ArrowEntity { has_hit: true, ..*old(self) }),
            r == !old(self).has_hit,
    {
        let counts: bool = !self.has_hit;
        self.has_hit = true;
        counts
    }

    /// Lets the arrow stick in the block that it has hit. `owner_player` is the player that
    /// shot the arrow, if a player did and is there.
    pub fn on_hit_block(
        &mut self,
        pos: BlockPos,
        is_target: bool,
        owner_player: Option<i32>,
    ) -> (r: Vec<BlockHitStep>)
        ensures
            *final(self) == (ArrowEntity {
                in_ground: true,
                shake_time: SHAKE_TIME,
                last_block_pos: Some(pos),
                is_critical: false,
                ..*old(self)
            }),
            r@ == seq![BlockHitStep::EmitLanding] + seq![BlockHitStep::PressButton { pos }]
                + only_if(is_target, BlockHitStep::HitTarget { pos }) + only_if(
                is_target && owner_player is Some,
                BlockHitStep::CreditBullseye { player: owner_player->0 },
            ) + seq![BlockHitStep::StopThere] + seq![BlockHitStep::PlaySound],
    {
        self.in_ground = true;
        self.shake_time = SHAKE_TIME;
        self.last_block_pos = Some(pos);
        self.is_critical = false;
        let mut plan: Vec<BlockHitStep> = Vec::new();
        push_step(&mut plan, BlockHitStep::EmitLanding);
        assert(plan@ =~= seq![BlockHitStep::EmitLanding]);
        push_step(&mut plan, BlockHitStep::PressButton { pos });
        push_if(&mut plan, is_target, BlockHitStep::HitTarget { pos });
        let ghost so_far = plan@;
        if let Some(player) = owner_player {
            push_if(&mut plan, is_target, BlockHitStep::CreditBullseye { player });
        }
        assert(plan@ =~= so_far + only_if(
            is_target && owner_player is Some,
            BlockHitStep::CreditBullseye { player: owner_player->0 },
        ));
        push_step(&mut plan, BlockHitStep::StopThere);
        push_step(&mut plan, BlockHitStep::PlaySound);
        plan
    }

    /// The damage that the arrow deals, where `lot` has been drawn for the bonus of a
    /// critical hit and `damage` is what its speed makes of its base damage.
    pub fn hit_damage_with_lot(&self, damage: i32, lot: u32) -> (r: i32)
        requires
            self.is_critical ==> bonus_range(damage) != 0,
        ensures
            r == (if self.is_critical {
                critical_damage(damage, lot)
            } else {
                damage as int
            }),
    {
        if !self.is_critical {
            return damage;
        }
        let range: i32 = if damage >= 0 {
            damage / 2 + 2
        } else {
            (2 - (-(damage as i64)) / 2) as i32
        };
        assert(range == bonus_range(damage));
        let divisor: u32 = #[verifier::truncate] (range as u32);
        proof {
            assert(range != 0 ==> range as u32 != 0) by (bit_vector);
        }
        let bonus: i32 = #[verifier::truncate] ((lot % divisor) as i32);
        let sum: i64 = damage as i64 + bonus as i64;
        if sum > i32::MAX as i64 {
            i32::MAX
        } else if sum < i32::MIN as i64 {
            i32::MIN
        } else {
            sum as i32
        }
    }

    /// The damage that the arrow deals, with a bonus drawn by lot where the hit is critical.
    pub fn hit_damage(&self, damage: i32) -> (r: i32)
        requires
            self.is_critical ==> bonus_range(damage) != 0,
        ensures
            !self.is_critical ==> r == damage,
            self.is_critical ==> exists|lot: u32| #[trigger] critical_damage(damage, lot) == r,
            self.is_critical && damage >= 0 ==> damage <= r <= damage + damage / 2 + 1,
    {
        let lot: u32 = draw_number();
        let r: i32 = self.hit_damage_with_lot(damage, lot);
        proof {
            law_critical_hit_adds(damage, lot);
        }
        r
    }

    /// For how many ticks the target burns, if it is set on fire.
    pub fn burn_ticks(&self) -> (r: Option<i32>)
        ensures
            r == (if self.is_flame {
                Some(BURN_TICKS)
            } else {
                None
            }),
    {
        if self.is_flame {
            Some(BURN_TICKS)
        } else {
            None
        }
    }

    /// What follows when the arrow has hit an entity, in order.
    pub open spec fn spec_after_hit(
        self,
        damaged: bool,
        owner: Option<EntityType>,
        target_lives: bool,
    ) -> Seq<EntityHitStep> {
        let tip = match owner {
            Some(kind) => effect_of_owner(kind),
            None => None,
        };
        only_if(
            damaged && target_lives && tip is Some,
            EntityHitStep::AddEffect { effect: tip->0 },
        ) + only_if(
            target_lives && self.punch_level > 0 && owner is Some,
            EntityHitStep::KnockBack { level: self.punch_level },
        ) + only_if(target_lives, EntityHitStep::PlaySound) + only_if(
            self.pierce_level == 0,
            EntityHitStep::Remove,
        )
    }

    /// What follows when the arrow has hit an entity: `damaged` says whether it was hurt,
    /// `owner` of what kind the owner is, where it is there, and `target_lives` whether a
    /// living entity was hit.
    pub fn on_hit_entity(&self, damaged: bool, owner: Option<EntityType>, target_lives: bool) -> (r:
        Vec<EntityHitStep>)
        ensures
            r@ == self.spec_after_hit(damaged, owner, target_lives),
    {
        let mut plan: Vec<EntityHitStep> = Vec::new();
        let tip: Option<Effect> = match owner {
            Some(EntityType::Bogged) => Some(make_tip_effect(StatusEffect::Poison, 100)),
            Some(EntityType::Stray) => Some(make_tip_effect(StatusEffect::Slowness, 600)),
            _ => None,
        };
        if let Some(effect) = tip {
            push_if(&mut plan, damaged && target_lives, EntityHitStep::AddEffect { effect });
        }
        assert(plan@ =~= only_if(
            damaged && target_lives && tip is Some,
            EntityHitStep::AddEffect { effect: tip->0 },
        ));
        push_if(
            &mut plan,
            target_lives && self.punch_level > 0 && owner.is_some(),
            EntityHitStep::KnockBack { level: self.punch_level },
        );
        push_if(&mut plan, target_lives, EntityHitStep::PlaySound);
        push_if(&mut plan, self.pierce_level == 0, EntityHitStep::Remove);
        plan
    }

    /// What becomes of the arrow when a player touches it: only a living player takes it,
    /// only from the ground, and only where the rule of the arrow lets it.
    pub open spec fn spec_touch(self, health: Rank32, creative: bool) -> Touch {
        if !self.in_ground || health <= 0 || self.pickup == ArrowPickup::Disallowed || (self.pickup
            == ArrowPickup::CreativeOnly && !creative) {
            Touch::Stays
        } else if creative {
            Touch::Taken
        } else {
            Touch::TakenIfRoom
        }
    }

    /// What becomes of the arrow when a player touches it.
    pub fn on_player_collision(&self, health: Rank32, creative: bool) -> (r: Touch)
        ensures
            r == self.spec_touch(health, creative),
    {
        if !self.in_ground {
            return Touch::Stays;
        }
        if health <= 0 {
            return Touch::Stays;
        }
        match self.pickup {
            ArrowPickup::Disallowed => {
                return Touch::Stays;
            },
            ArrowPickup::CreativeOnly => {
                if !creative {
                    return Touch::Stays;
                }
            },
            ArrowPickup::Allowed => {},
        }
        if creative {
            Touch::Taken
        } else {
            Touch::TakenIfRoom
        }
    }
}

/// Law: a critical hit with a damage that is not negative adds between nothing and half of
/// the damage and one more, as far as a number can hold it.
pub proof fn law_critical_hit_adds(damage: i32, lot: u32)
    ensures
        damage >= 0 ==> damage <= critical_damage(damage, lot) <= damage + damage / 2 + 1,
{
    if damage >= 0 {
        let range = bonus_range(damage) as i32;
        assert(range > 0 ==> range as u32 == range) by (bit_vector);
        let rest = lot % (range as u32);
        assert(rest < range);
        assert(rest < 0x8000_0000u32 ==> rest as i32 == rest) by (bit_vector);
    }
}

/// The arrow after some ticks.
pub open spec fn after_ticks(arrow: ArrowEntity, ticks: nat) -> ArrowEntity
    decreases ticks,
{
    if ticks == 0 {
        arrow
    } else {
        after_ticks(arrow, (ticks - 1) as nat).spec_ticked()
    }
}

/// Law: an arrow that has just come to lie lies still and gets one tick older with each
/// tick, so that it goes in the tick after the one in which it reaches its greatest age,
/// and not before. It trembles at first, and no longer than it should.
pub proof fn law_arrow_lies_its_time(arrow: ArrowEntity, ticks: nat)
    requires
        arrow.in_ground,
        arrow.life == 0,
        ticks <= u32::MAX,
    ensures
        after_ticks(arrow, ticks).in_ground,
        after_ticks(arrow, ticks).life == ticks,
        after_ticks(arrow, ticks).shake_time == (if ticks >= arrow.shake_time {
            0
        } else {
            arrow.shake_time - ticks
        }),
    decreases ticks,
{
    if ticks > 0 {
        law_arrow_lies_its_time(arrow, (ticks - 1) as nat);
    }
}

/// Law: once an arrow has hit something, no number of ticks makes it forget, so that no
/// later hit counts.
pub proof fn law_arrow_hits_once(arrow: ArrowEntity, ticks: nat)
    requires
        arrow.has_hit,
    ensures
        after_ticks(arrow, ticks).has_hit,
    decreases ticks,
{
    if ticks > 0 {
        law_arrow_hits_once(arrow, (ticks - 1) as nat);
    }
}

/// The time of a hit.
pub open spec fn hit_time(hit: ProjectileHit) -> Rank64 {
    match hit {
        ProjectileHit::Block { time, .. } => time,
        ProjectileHit::Entity { time, .. } => time,
    }
}

/// What is aimed at by a row of boxes is met first among them.
proof fn lemma_nearest_box(times: Seq<Option<Rank64>>, blocks: Seq<(usize, BlockPos)>)
    requires
        forall|i: int| 0 <= i < times.len() ==> #[trigger] block_of(blocks, i) is Some,
    ensures
        aim_at_blocks(times, blocks).nearest <= END_OF_TICK,
        aim_at_blocks(times, blocks).hit is None ==> aim_at_blocks(times, blocks).nearest
            == END_OF_TICK,
        aim_at_blocks(times, blocks).hit matches Some(hit) ==> {
            &&& hit_time(hit) == aim_at_blocks(times, blocks).nearest
            &&& hit_time(hit) < END_OF_TICK
        },
        forall|i: int|
            0 <= i < times.len() && (#[trigger] times[i]) is Some ==> aim_at_blocks(
                times,
                blocks,
            ).nearest <= times[i]->0,
    decreases times.len(),
{
    if times.len() > 0 {
        lemma_nearest_box(times.drop_last(), blocks);
        let before = times.drop_last();
        assert forall|i: int| 0 <= i < times.len() && (#[trigger] times[i]) is Some implies
            aim_at_blocks(times, blocks).nearest <= times[i]->0 by {
            if i < before.len() {
                assert(before[i] == times[i]);
            }
        }
        assert(block_of(blocks, times.len() - 1) is Some);
    }
}

/// Law: an arrow hits what it meets first. Nothing that it meets, of the boxes of blocks
/// and of the entities that it does not fly through, is met before what it hits; and where
/// it hits nothing, it meets nothing before the end of the tick.
pub proof fn law_arrow_hits_the_nearest(
    arrow: ArrowEntity,
    entity_id: i32,
    age: i32,
    times: Seq<Option<Rank64>>,
    blocks: Seq<(usize, BlockPos)>,
    others: Seq<InTheWay>,
)
    requires
        forall|i: int| 0 <= i < times.len() ==> #[trigger] block_of(blocks, i) is Some,
    ensures
        ({
            let aim = arrow.spec_aim(entity_id, age, aim_at_blocks(times, blocks), others);
            &&& aim.nearest <= END_OF_TICK
            &&& aim.hit is None ==> aim.nearest == END_OF_TICK
            &&& aim.hit matches Some(hit) ==> hit_time(hit) == aim.nearest && aim.nearest
                < END_OF_TICK
            &&& forall|i: int|
                0 <= i < times.len() && (#[trigger] times[i]) is Some ==> aim.nearest
                    <= times[i]->0
            &&& forall|i: int|
                0 <= i < others.len() && (#[trigger] others[i]).time is Some && !arrow.spec_skips(
                    entity_id,
                    age,
                    others[i].entity_id,
                    others[i].entity_type,
                ) ==> aim.nearest <= others[i].time->0
        }),
    decreases others.len(),
{
    let at_blocks = aim_at_blocks(times, blocks);
    if others.len() == 0 {
        lemma_nearest_box(times, blocks);
    } else {
        let before = others.drop_last();
        law_arrow_hits_the_nearest(arrow, entity_id, age, times, blocks, before);
        let aim = arrow.spec_aim(entity_id, age, at_blocks, others);
        assert forall|i: int|
            0 <= i < others.len() && (#[trigger] others[i]).time is Some && !arrow.spec_skips(
                entity_id,
                age,
                others[i].entity_id,
                others[i].entity_type,
            ) implies aim.nearest <= others[i].time->0 by {
            if i < before.len() {
                assert(before[i] == others[i]);
            }
        }
    }
}

/// Law: an arrow may be picked up by no one, by anyone, or in creative mode alone; the bytes for these
/// are 0, 1 and 2, and any other byte stands for no one.
pub proof fn law_bytes_of_the_pickup_rules(rule: ArrowPickup, byte: u8, sent: u8, read: ArrowPickup)
    requires
        call_ensures(ArrowPickup::to_byte, (rule,), sent),
        call_ensures(ArrowPickup::from_byte, (byte,), read),
    ensures
        sent == 0 <==> rule == ArrowPickup::Disallowed,
        sent == 1 <==> rule == ArrowPickup::Allowed,
        sent == 2 <==> rule == ArrowPickup::CreativeOnly,
        read == ArrowPickup::Allowed <==> byte == 1,
        read == ArrowPickup::CreativeOnly <==> byte == 2,
{
}

/// Law: a new arrow has a base damage of 2, flies, and has hit nothing. One that nobody shot is picked
/// up by no one; one that was shot belongs to its shooter.
pub proof fn law_new_arrow_flies(
    owner_id: Option<i32>,
    shooter_id: i32,
    pickup: ArrowPickup,
    made: ArrowEntity,
    shot: ArrowEntity,
    struck: &mut ArrowEntity,
    damage: Rank64,
)
    requires
        call_ensures(ArrowEntity::new, (owner_id,), made),
        call_ensures(ArrowEntity::new_shot, (shooter_id, pickup), shot),
        call_ensures(ArrowEntity::set_base_damage, (struck, damage), ()),
    ensures
        made.owner_id == owner_id,
        made.pickup == ArrowPickup::Disallowed,
        made.base_damage == 0x4000_0000_0000_0000,
        !made.in_ground && !made.has_hit && !made.is_critical && !made.is_flame,
        made.pierce_level == 0 && made.punch_level == 0 && made.life == 0 && made.shake_time == 0,
        made.last_block_pos is None,
        shot.owner_id == Some(shooter_id),
        shot.pickup == pickup,
        shot.base_damage == made.base_damage,
        !shot.in_ground && !shot.has_hit && !shot.is_critical,
        *final(struck) == *old(struck),
{
}

/// Law: an arrow that lies about gets older with each tick and goes once it was 1200 ticks old; one
/// that flies does not age, and leaves a trail where it is critical. What it trembles runs down.
pub proof fn law_tick_of_an_arrow(arrow: &mut ArrowEntity, r: ArrowTick)
    requires
        call_ensures(ArrowEntity::tick, (arrow,), r),
        old(arrow).life < u32::MAX,
        old(arrow).in_ground_time < u32::MAX,
    ensures
        r is Lies <==> old(arrow).in_ground,
        r is Lies ==> (r->despawns <==> old(arrow).life >= 1200),
        r is Flies ==> r->trail == old(arrow).is_critical,
        old(arrow).in_ground ==> final(arrow).life == old(arrow).life + 1 && final(arrow).in_ground_time == old(arrow).in_ground_time + 1,
        !old(arrow).in_ground ==> final(arrow).life == old(arrow).life && final(arrow).in_ground_time == old(arrow).in_ground_time,
        old(arrow).shake_time > 0 ==> final(arrow).shake_time == old(arrow).shake_time - 1,
        old(arrow).shake_time == 0 ==> final(arrow).shake_time == 0,
        final(arrow).has_hit == old(arrow).has_hit,
        final(arrow).owner_id == old(arrow).owner_id,
        final(arrow).in_ground == old(arrow).in_ground,
{
}

/// Law: an arrow flies through itself, through arrows, items and falling blocks, and for 5 ticks
/// through its owner, but through nothing else.
pub proof fn law_what_an_arrow_flies_through(
    arrow: ArrowEntity,
    entity_id: i32,
    age: i32,
    other_id: i32,
    other_type: EntityType,
    r: bool,
    touching_water: bool,
    inertia: Inertia,
)
    requires
        call_ensures(
            ArrowEntity::should_skip_collision,
            (&arrow, entity_id, age, other_id, other_type),
            r,
        ),
        call_ensures(ArrowEntity::inertia, (touching_water,), inertia),
    ensures
        other_type == EntityType::Arrow || other_type == EntityType::Item || other_type
            == EntityType::FallingBlock ==> r,
        other_id == entity_id ==> r,
        arrow.owner_id == Some(other_id) && age < 5 ==> r,
        r ==> other_type == EntityType::Arrow || other_type == EntityType::Item || other_type
            == EntityType::FallingBlock || other_id == entity_id || arrow.owner_id == Some(other_id)
            && age < 5,
        inertia == Inertia::Water <==> touching_water,
{
}

/// Law: an arrow hits the first entity that it meets before the end of the tick and before any block,
/// of those that it does not fly through; where it meets nothing it hits nothing.
pub proof fn law_arrow_hits_what_it_meets_first(
    arrow: ArrowEntity,
    entity_id: i32,
    age: i32,
    times: Vec<Option<Rank64>>,
    blocks: Vec<(usize, BlockPos)>,
    others: Vec<InTheWay>,
    r: Option<ProjectileHit>,
    k: int,
)
    requires
        call_ensures(
            ArrowEntity::closest_hit,
            (&arrow, entity_id, age, &times, &blocks, &others),
            r,
        ),
        forall|i: int| 0 <= i < times@.len() ==> #[trigger] block_of(blocks@, i) is Some,
    ensures
        r is Some ==> hit_time(r->0) < 4607182418800017408,
        r is Some && 0 <= k < times@.len() && times@[k] is Some ==> hit_time(r->0) <= times@[k]->0,
        r is Some && 0 <= k < others@.len() && others@[k].time is Some && !call_ensures(
            ArrowEntity::should_skip_collision,
            (&arrow, entity_id, age, others@[k].entity_id, others@[k].entity_type),
            true,
        ) && others@[k].entity_id != entity_id && arrow.owner_id != Some(others@[k].entity_id)
            && others@[k].entity_type == EntityType::Zombie ==> hit_time(r->0)
            <= others@[k].time->0,
        r is None && 0 <= k < times@.len() && times@[k] is Some ==> times@[k]->0
            >= 4607182418800017408,
        r is None && 0 <= k < others@.len() && others@[k].time is Some && others@[k].entity_id
            != entity_id && arrow.owner_id != Some(others@[k].entity_id) && others@[k].entity_type
            == EntityType::Zombie ==> others@[k].time->0 >= 4607182418800017408,
{
    law_arrow_hits_the_nearest(arrow, entity_id, age, times@, blocks@, others@);
}

/// Law: what an arrow is said to hit it meets, an entity at its own time and one that it does not fly
/// through.
pub proof fn law_arrow_hits_none_but_what_it_meets(
    arrow: ArrowEntity,
    entity_id: i32,
    age: i32,
    others: Vec<InTheWay>,
    times: Vec<Option<Rank64>>,
    blocks: Vec<(usize, BlockPos)>,
    r: Option<ProjectileHit>,
)
    requires
        call_ensures(
            ArrowEntity::closest_hit,
            (&arrow, entity_id, age, &times, &blocks, &others),
            r,
        ),
    ensures
        r matches Some(ProjectileHit::Entity { entity_id: hit_id, time }) ==> exists|i: int|
            {
                &&& 0 <= i < others@.len()
                &&& (#[trigger] others@[i]).entity_id == hit_id
                &&& others@[i].time == Some(time)
                &&& others@[i].entity_type != EntityType::Arrow
                &&& others@[i].entity_type != EntityType::Item
                &&& hit_id != entity_id
                &&& arrow.owner_id == Some(hit_id) ==> age >= 5
            },
        r matches Some(ProjectileHit::Block { pos, time }) ==> exists|i: int|
            {
                &&& 0 <= i < times@.len()
                &&& #[trigger] times@[i] == Some(time)
                &&& block_of(blocks@, i) == Some(pos)
            },
{
    lemma_aimed_box_is_met(times@, blocks@);
    lemma_aimed_entity_is_met(arrow, entity_id, age, aim_at_blocks(times@, blocks@), others@);
}

/// The box that is aimed at is met.
proof fn lemma_aimed_box_is_met(times: Seq<Option<Rank64>>, blocks: Seq<(usize, BlockPos)>)
    ensures
        !(aim_at_blocks(times, blocks).hit matches Some(ProjectileHit::Entity { .. })),
        aim_at_blocks(times, blocks).hit matches Some(ProjectileHit::Block { pos, time })
            ==> exists|i: int|
            {
                &&& 0 <= i < times.len()
                &&& #[trigger] times[i] == Some(time)
                &&& block_of(blocks, i) == Some(pos)
            },
    decreases times.len(),
{
    if times.len() > 0 {
        let before = times.drop_last();
        lemma_aimed_box_is_met(before, blocks);
        assert forall|i: int| 0 <= i < before.len() implies times[i] == #[trigger] before[i] by {}
        assert(times[times.len() - 1] == times.last());
    }
}

/// The entity that is aimed at is met and not flown through.
proof fn lemma_aimed_entity_is_met(
    arrow: ArrowEntity,
    entity_id: i32,
    age: i32,
    at_blocks: Aim,
    others: Seq<InTheWay>,
)
    requires
        !(at_blocks.hit matches Some(ProjectileHit::Entity { .. })),
    ensures
        ({
            let hit = arrow.spec_aim(entity_id, age, at_blocks, others).hit;
            &&& hit matches Some(ProjectileHit::Entity { entity_id: hit_id, time }) ==> exists|
                i: int,
            |
                {
                    &&& 0 <= i < others.len()
                    &&& (#[trigger] others[i]).entity_id == hit_id
                    &&& others[i].time == Some(time)
                    &&& !arrow.spec_skips(entity_id, age, hit_id, others[i].entity_type)
                }
            &&& hit matches Some(ProjectileHit::Block { .. }) ==> hit == at_blocks.hit
        }),
    decreases others.len(),
{
    if others.len() > 0 {
        let before = others.drop_last();
        lemma_aimed_entity_is_met(arrow, entity_id, age, at_blocks, before);
        assert forall|i: int| 0 <= i < before.len() implies others[i] == #[trigger] before[i] by {}
        assert(others[others.len() - 1] == others.last());
    }
}

/// Law: an arrow sticks in the block that it has hit, trembles for 7 ticks and is critical no more. The
/// landing is heard, a button is pressed, and a target answers and credits the player that shot.
/// Only the first hit counts.
pub proof fn law_arrow_sticks_in_a_block(
    arrow: &mut ArrowEntity,
    pos: BlockPos,
    is_target: bool,
    owner_player: Option<i32>,
    r: Vec<BlockHitStep>,
    player: i32,
    hitter: &mut ArrowEntity,
    counts: bool,
)
    requires
        call_ensures(ArrowEntity::on_hit_block, (arrow, pos, is_target, owner_player), r),
        call_ensures(ArrowEntity::take_hit, (hitter,), counts),
    ensures
        final(arrow).in_ground,
        final(arrow).shake_time == 7,
        final(arrow).last_block_pos == Some(pos),
        !final(arrow).is_critical,
        final(arrow).owner_id == old(arrow).owner_id,
        final(arrow).life == old(arrow).life,
        r@[0] == BlockHitStep::EmitLanding,
        r@[1] == (BlockHitStep::PressButton { pos }),
        r@.contains((BlockHitStep::HitTarget { pos })) <==> is_target,
        r@.contains((BlockHitStep::CreditBullseye { player })) <==> is_target && owner_player
            == Some(player),
        r@[r@.len() - 2] == BlockHitStep::StopThere,
        r@[r@.len() - 1] == BlockHitStep::PlaySound,
        counts <==> !old(hitter).has_hit,
        final(hitter).has_hit,
        final(hitter).in_ground == old(hitter).in_ground,
{
    broadcast use crate::plan::lemma_plan_contains;
    broadcast use crate::plan::lemma_only_if_contains;
    broadcast use crate::plan::lemma_single_contains;

}

/// Law: an arrow that is not critical deals its damage; a critical one adds a bonus of at most half of
/// it and one more. A burning one sets on fire for 100 ticks.
pub proof fn law_damage_of_an_arrow(
    arrow: ArrowEntity,
    damage: i32,
    lot: u32,
    r: i32,
    burns: Option<i32>,
)
    requires
        call_ensures(ArrowEntity::hit_damage_with_lot, (&arrow, damage, lot), r),
        call_ensures(ArrowEntity::burn_ticks, (&arrow,), burns),
        0 <= damage <= 1000000,
    ensures
        !arrow.is_critical ==> r == damage,
        arrow.is_critical ==> damage <= r <= damage + damage / 2 + 1,
        arrow.is_critical && lot < damage as int / 2 + 2 ==> r == damage + lot,
        burns is Some <==> arrow.is_flame,
        burns is Some ==> burns->0 == 100,
{
    law_critical_hit_adds(damage, lot);
    if arrow.is_critical {
        let range = bonus_range(damage);
        assert(range == damage as int / 2 + 2);
        let divisor = range as i32 as u32;
        assert(divisor == range);
        if lot < divisor {
            assert(lot % divisor == lot) by (nonlinear_arith)
                requires
                    lot < divisor,
            ;
        }
    }
}

/// Law: an arrow of a bogged poisons whom it hurts for 100 ticks, and one of a stray slows them for
/// 600; others do neither. The owner knocks a living target back where the arrow punches. An arrow
/// that does not pierce is gone.
pub proof fn law_what_follows_a_hit(
    arrow: ArrowEntity,
    damaged: bool,
    owner: Option<EntityType>,
    target_lives: bool,
    r: Vec<EntityHitStep>,
    effect: Effect,
    level: u8,
)
    requires
        call_ensures(ArrowEntity::on_hit_entity, (&arrow, damaged, owner, target_lives), r),
    ensures
        r@.contains((EntityHitStep::AddEffect { effect })) ==> {
            &&& damaged
            &&& target_lives
            &&& effect.amplifier == 0
            &&& effect.effect_type == StatusEffect::Poison && effect.duration == 100 && owner
                == Some(EntityType::Bogged) || effect.effect_type == StatusEffect::Slowness
                && effect.duration == 600 && owner == Some(EntityType::Stray)
        },
        damaged && target_lives && owner == Some(EntityType::Bogged) && effect == (Effect {
            effect_type: StatusEffect::Poison,
            duration: 100,
            amplifier: 0,
            ambient: false,
            show_particles: true,
            show_icon: true,
            blend: false,
        }) ==> r@.contains((EntityHitStep::AddEffect { effect })),
        damaged && target_lives && owner == Some(EntityType::Stray) && effect == (Effect {
            effect_type: StatusEffect::Slowness,
            duration: 600,
            amplifier: 0,
            ambient: false,
            show_particles: true,
            show_icon: true,
            blend: false,
        }) ==> r@.contains((EntityHitStep::AddEffect { effect })),
        r@.contains((EntityHitStep::KnockBack { level })) <==> target_lives && owner is Some
            && level == arrow.punch_level && level > 0,
        r@.contains(EntityHitStep::PlaySound) <==> target_lives,
        r@.contains(EntityHitStep::Remove) <==> arrow.pierce_level == 0,
        arrow.pierce_level == 0 ==> r@.last() == EntityHitStep::Remove,
{
    broadcast use crate::plan::lemma_plan_contains;
    broadcast use crate::plan::lemma_only_if_contains;

}

/// Law: a living player takes an arrow from the ground where its rule lets it: one in creative mode
/// without having it afterwards, any other where there is room.
pub proof fn law_who_picks_up_an_arrow(
    arrow: ArrowEntity,
    health: Rank32,
    creative: bool,
    r: Touch,
)
    requires
        call_ensures(ArrowEntity::on_player_collision, (&arrow, health, creative), r),
    ensures
        ({
            let allowed = arrow.in_ground && health > 0 && (arrow.pickup == ArrowPickup::Allowed
                || arrow.pickup == ArrowPickup::CreativeOnly && creative);
            &&& r == Touch::Stays <==> !allowed
            &&& r == Touch::Taken <==> allowed && creative
            &&& r == Touch::TakenIfRoom <==> allowed && !creative
        }),
{
}

/// Law: a point that lies on a side of a block is on that side: on the west and the east before below
/// and above, and those before the north; any other point is on the south.
pub proof fn law_side_of_a_block(local: Position, r: BlockDirection)
    requires
        call_ensures(get_hit_face, (&local,), r),
    ensures
        ({
            let near_x = local.x <= 4547007122018943789;
            let far_x = local.x >= 4607181518080091934;
            let near_y = local.y <= 4547007122018943789;
            let far_y = local.y >= 4607181518080091934;
            let near_z = local.z <= 4547007122018943789;
            &&& r == BlockDirection::West <==> near_x
            &&& r == BlockDirection::East <==> far_x
            &&& r == BlockDirection::Down <==> !near_x && !far_x && near_y
            &&& r == BlockDirection::Up <==> !near_x && !far_x && far_y
            &&& r == BlockDirection::North <==> !near_x && !far_x && !near_y && !far_y && near_z
        }),
{
}

/// Law: an arrow that is not critical deals its damage; a critical one deals at least that, and at most
/// half as much again and one more.
pub proof fn law_drawn_damage_of_an_arrow(
    arrow: ArrowEntity,
    damage: i32,
    r: i32,
    set: &mut ArrowEntity,
    critical: bool,
    pierced: &mut ArrowEntity,
    level: u8,
)
    requires
        call_ensures(ArrowEntity::hit_damage, (&arrow, damage), r),
        call_ensures(ArrowEntity::set_critical, (set, critical), ()),
        call_ensures(ArrowEntity::set_pierce_level, (pierced, level), ()),
    ensures
        !arrow.is_critical ==> r == damage,
        arrow.is_critical && damage >= 0 ==> damage <= r <= damage + damage / 2 + 1,
        *final(set) == (ArrowEntity { is_critical: critical, ..*old(set) }),
        *final(pierced) == (ArrowEntity { pierce_level: level, ..*old(pierced) }),
{
}

} // verus!
