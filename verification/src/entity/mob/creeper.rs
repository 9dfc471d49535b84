//! Creepers.

use vstd::prelude::*;

use super::MobEntity;
use crate::data::effect::Effect;
use crate::data::nbt::{as_bool, as_byte, as_short, byte_of, NbtCompound, NbtValue};
use crate::data::rank::{rank_max, Rank32, Rank64};
use crate::entity::living::LivingEntity;

verus! {

/// How many ticks the fuse of a creeper burns.
pub const DEFAULT_FUSE_TIME: i32 = 30;

/// The radius of a creeper's explosion.
pub const DEFAULT_EXPLOSION_RADIUS: i32 = 3;

/// How fast (1.0) a creeper goes after a target, and away from cats that are far.
pub const WALKING_SPEED: Rank64 = 0x3FF0_0000_0000_0000;

/// How fast (1.2) a creeper runs away from cats that are near.
pub const FLEEING_SPEED: Rank64 = 0x3FF3_3333_3333_3333;

/// How fast (0.8) a creeper roams.
pub const ROAMING_SPEED: Rank64 = 0x3FE9_9999_9999_999A;

/// How many ticks the cloud that a creeper leaves lasts.
pub const CLOUD_DURATION: i32 = 300;

/// How far (2.5) the cloud that a creeper leaves reaches at first.
pub const CLOUD_RADIUS: Rank32 = 0x4020_0000;

/// How many ticks pass before the cloud acts on the same one again.
pub const CLOUD_REAPPLICATION_DELAY: i32 = 20;

/// How many ticks pass before the cloud acts at all.
pub const CLOUD_WAIT_TIME: i32 = 10;

/// What the radius of the cloud changes by (-0.5) each time that it acts.
pub const CLOUD_RADIUS_ON_USE: Rank32 = -0x3F00_0000;

/// What the duration of the cloud changes by each time that it acts.
pub const CLOUD_DURATION_ON_USE: i32 = 0;

/// A creeper.
pub struct CreeperEntity {
    pub mob_entity: MobEntity,
    /// How the fuse burns in a tick: back, where it is below 0.
    pub fuse_speed: i32,
    pub current_fuse_time: i32,
    pub last_fuse_time: i32,
    pub fuse_time: i32,
    pub explosion_radius: i32,
    pub ignited: bool,
    /// Whether lightning has struck the creeper.
    pub charged: bool,
}

/// The goals of a creeper.
#[derive(Clone, Copy, Debug, PartialEq, Eq, Structural)]
pub enum CreeperGoal {
    Swim,
    Ignite,
    /// Keeps away from ocelots that are within some blocks.
    AvoidOcelots { blocks: i32, walk_speed: Rank64, sprint_speed: Rank64 },
    /// Keeps away from cats that are within some blocks.
    AvoidCats { blocks: i32, walk_speed: Rank64, sprint_speed: Rank64 },
    /// Goes at the target, with the speed.
    MeleeAttack { speed: Rank64, pause_when_mob_idle: bool },
    /// Roams with the speed.
    WanderAround { speed: Rank64 },
    /// Looks at players that are within some blocks.
    LookAtPlayers { blocks: i32 },
    RandomLookAround,
    /// Picks a player, who has to be in sight or not.
    TargetPlayers { check_visibility: bool },
    /// Goes after whoever hurt the creeper, with the switch of that goal on or off.
    Revenge { switch: bool },
}

/// A cloud that acts with some effects on whoever is in it.
pub struct EffectCloud {
    pub effects: Vec<Effect>,
    pub duration: i32,
    pub radius: Rank32,
    pub reapplication_delay: i32,
    pub wait_time: i32,
    pub radius_on_use: Rank32,
    pub duration_on_use: i32,
}

impl EffectCloud {
    /// The cloud that a creeper with the effects leaves.
    pub open spec fn is_left_with(self, effects: Seq<Effect>) -> bool {
        &&& self.effects@ == effects
        &&& self.duration == CLOUD_DURATION
        &&& self.radius == CLOUD_RADIUS
        &&& self.reapplication_delay == CLOUD_REAPPLICATION_DELAY
        &&& self.wait_time == CLOUD_WAIT_TIME
        &&& self.radius_on_use == CLOUD_RADIUS_ON_USE
        &&& self.duration_on_use == CLOUD_DURATION_ON_USE
    }
}

/// An explosion of a creeper, with the cloud that it leaves.
pub struct Explosion {
    pub radius: i64,
    pub cloud: Option<EffectCloud>,
}

/// What a tick of a creeper comes to.
pub struct CreeperTick {
    /// The speed of the fuse to send.
    pub sent_speed: Option<i32>,
    /// Whether the hiss of the fuse is to be heard.
    pub hisses: bool,
    /// The explosion, once the fuse has burnt down.
    pub explosion: Option<Explosion>,
}

impl CreeperEntity {
    /// A creeper as it comes into the world.
    pub fn new(mob_entity: MobEntity) -> (r: Self)
        ensures
            r == (CreeperEntity {
                mob_entity,
                fuse_speed: -1i32,
                current_fuse_time: 0,
                last_fuse_time: 0,
                fuse_time: DEFAULT_FUSE_TIME,
                explosion_radius: DEFAULT_EXPLOSION_RADIUS,
                ignited: false,
                charged: false,
            }),
    {
        CreeperEntity {
            mob_entity,
            fuse_speed: -1,
            current_fuse_time: 0,
            last_fuse_time: 0,
            fuse_time: DEFAULT_FUSE_TIME,
            explosion_radius: DEFAULT_EXPLOSION_RADIUS,
            ignited: false,
            charged: false,
        }
    }

    /// What a creeper does, the more pressing first.
    pub fn goals() -> (r: Vec<(u8, CreeperGoal)>)
        ensures
            r@ == seq![
                (1u8, CreeperGoal::Swim),
                (2u8, CreeperGoal::Ignite),
                (
                    3u8,
                    CreeperGoal::AvoidOcelots {
                        blocks: 6,
                        walk_speed: WALKING_SPEED,
                        sprint_speed: FLEEING_SPEED,
                    },
                ),
                (
                    3u8,
                    CreeperGoal::AvoidCats {
                        blocks: 6,
                        walk_speed: WALKING_SPEED,
                        sprint_speed: FLEEING_SPEED,
                    },
                ),
                (
                    4u8,
                    CreeperGoal::MeleeAttack { speed: WALKING_SPEED, pause_when_mob_idle: false },
                ),
                (5u8, CreeperGoal::WanderAround { speed: ROAMING_SPEED }),
                (6u8, CreeperGoal::LookAtPlayers { blocks: 8 }),
                (6u8, CreeperGoal::RandomLookAround),
            ],
    {
        let mut goals: Vec<(u8, CreeperGoal)> = Vec::new();
        goals.push((1, CreeperGoal::Swim));
        goals.push((2, CreeperGoal::Ignite));
        goals.push(
            (
                3,
                CreeperGoal::AvoidOcelots {
                    blocks: 6,
                    walk_speed: WALKING_SPEED,
                    sprint_speed: FLEEING_SPEED,
                },
            ),
        );
        goals.push(
            (
                3,
                CreeperGoal::AvoidCats {
                    blocks: 6,
                    walk_speed: WALKING_SPEED,
                    sprint_speed: FLEEING_SPEED,
                },
            ),
        );
        goals.push(
            (4, CreeperGoal::MeleeAttack { speed: WALKING_SPEED, pause_when_mob_idle: false }),
        );
        goals.push((5, CreeperGoal::WanderAround { speed: ROAMING_SPEED }));
        goals.push((6, CreeperGoal::LookAtPlayers { blocks: 8 }));
        goals.push((6, CreeperGoal::RandomLookAround));
        goals
    }

    /// Whom a creeper is after, the more pressing first.
    pub fn target_goals() -> (r: Vec<(u8, CreeperGoal)>)
        ensures
            r@ == seq![
                (1u8, CreeperGoal::TargetPlayers { check_visibility: true }),
                (2u8, CreeperGoal::Revenge { switch: true }),
            ],
    {
        let mut goals: Vec<(u8, CreeperGoal)> = Vec::new();
        goals.push((1, CreeperGoal::TargetPlayers { check_visibility: true }));
        goals.push((2, CreeperGoal::Revenge { switch: true }));
        goals
    }

    /// Sets the speed of the fuse, which is then sent to the players around.
    pub fn set_fuse_speed(&mut self, speed: i32) -> (sent: i32)
        ensures
            sent == speed,
            *final(self) == (CreeperEntity { fuse_speed: speed, ..*old(self) }),
    {
        self.fuse_speed = speed;
        speed
    }

    /// The radius of the explosion: twice as large where lightning has struck.
    pub open spec fn spec_radius(self) -> int {
        if self.charged {
            2 * self.explosion_radius
        } else {
            self.explosion_radius as int
        }
    }

    /// The explosion of the creeper. The effects that it has live on in a cloud.
    pub open spec fn spec_explosion(self, explosion: Explosion) -> bool {
        let effects = self.mob_entity.living_entity.active_effects@;
        &&& explosion.radius == self.spec_radius()
        &&& explosion.cloud is Some <==> effects.len() > 0
        &&& explosion.cloud matches Some(cloud) ==> cloud.is_left_with(effects)
    }

    /// Blows the creeper up. Its effects live on in a cloud.
    pub fn explode(&mut self) -> (r: Explosion)
        ensures
            old(self).spec_explosion(r),
            *final(self) == (CreeperEntity {
                mob_entity: MobEntity {
                    living_entity: LivingEntity {
                        dead: true,
                        ..old(self).mob_entity.living_entity
                    },
                    ..old(self).mob_entity
                },
                ..*old(self)
            }),
    {
        let radius: i64 = if self.charged {
            2 * self.explosion_radius as i64
        } else {
            self.explosion_radius as i64
        };
        self.mob_entity.living_entity.dead = true;
        let mut left: Vec<Effect> = Vec::new();
        let mut i: usize = 0;
        let ghost effects = self.mob_entity.living_entity.active_effects@;
        let ghost after = *self;
        while i < self.mob_entity.living_entity.active_effects.len()
            invariant
                *self == after,
                effects == self.mob_entity.living_entity.active_effects@,
                i <= effects.len(),
                left@ == effects.take(i as int),
            decreases self.mob_entity.living_entity.active_effects.len() - i,
        {
            left.push(self.mob_entity.living_entity.active_effects[i]);
            i = i + 1;
            assert(left@ =~= effects.take(i as int));
        }
        assert(effects.take(i as int) =~= effects);
        let cloud: Option<EffectCloud> = if left.len() > 0 {
            Some(
                EffectCloud {
                    effects: left,
                    duration: CLOUD_DURATION,
                    radius: CLOUD_RADIUS,
                    reapplication_delay: CLOUD_REAPPLICATION_DELAY,
                    wait_time: CLOUD_WAIT_TIME,
                    radius_on_use: CLOUD_RADIUS_ON_USE,
                    duration_on_use: CLOUD_DURATION_ON_USE,
                },
            )
        } else {
            None
        };
        Explosion { radius, cloud }
    }

    /// The speed of the fuse in this tick: a creeper that was set alight burns on.
    pub open spec fn spec_burning_speed(self) -> i32 {
        if self.ignited {
            1
        } else {
            self.fuse_speed
        }
    }

    /// How far the fuse has burnt after this tick.
    pub open spec fn spec_burnt(self) -> int {
        rank_max(self.current_fuse_time + self.spec_burning_speed(), 0)
    }

    /// The fuse burns down in this tick.
    pub open spec fn spec_blows_up(self) -> bool {
        self.spec_burnt() >= self.fuse_time
    }

    /// The creeper after a tick, but for what an explosion does to it.
    pub open spec fn spec_after_tick(self) -> CreeperEntity {
        CreeperEntity {
            last_fuse_time: self.current_fuse_time,
            fuse_speed: self.spec_burning_speed(),
            current_fuse_time: if self.spec_blows_up() {
                self.fuse_time
            } else {
                self.spec_burnt() as i32
            },
            ..self
        }
    }

    /// Lets a tick go by for the fuse of the creeper, if it is alive.
    pub fn mob_tick(&mut self, alive: bool) -> (r: CreeperTick)
        requires
            alive ==> i32::MIN <= old(self).current_fuse_time + old(self).spec_burning_speed()
                <= i32::MAX,
        ensures
            !alive ==> *final(self) == *old(self) && r.sent_speed is None && !r.hisses
                && r.explosion is None,
            alive ==> {
                &&& r.sent_speed == (if old(self).ignited {
                    Some(1i32)
                } else {
                    None
                })
                &&& r.hisses == (old(self).spec_burning_speed() > 0 && old(self).current_fuse_time
                    == 0)
                &&& r.explosion is Some <==> old(self).spec_blows_up()
                &&& r.explosion matches Some(explosion) ==> old(self).spec_explosion(explosion)
                &&& !old(self).spec_blows_up() ==> *final(self) == old(self).spec_after_tick()
                &&& old(self).spec_blows_up() ==> *final(self) == (CreeperEntity {
                    mob_entity: MobEntity {
                        living_entity: LivingEntity {
                            dead: true,
                            ..old(self).mob_entity.living_entity
                        },
                        ..old(self).mob_entity
                    },
                    ..old(self).spec_after_tick()
                })
            },
    {
        if !alive {
            return CreeperTick { sent_speed: None, hisses: false, explosion: None };
        }
        self.last_fuse_time = self.current_fuse_time;
        let mut sent_speed: Option<i32> = None;
        if self.ignited {
            sent_speed = Some(self.set_fuse_speed(1));
        }
        let current: i32 = self.current_fuse_time;
        let hisses: bool = self.fuse_speed > 0 && current == 0;
        let sum: i32 = current + self.fuse_speed;
        let burnt: i32 = if sum > 0 {
            sum
        } else {
            0
        };
        self.current_fuse_time = burnt;
        let mut explosion: Option<Explosion> = None;
        if burnt >= self.fuse_time {
            self.current_fuse_time = self.fuse_time;
            explosion = Some(self.explode());
        }
        CreeperTick { sent_speed, hisses, explosion }
    }

    /// Lets a player set the creeper alight with flint and steel. Returns whether the item
    /// wears; a creeper is set alight with nothing else.
    pub fn ignite(&mut self, with_flint_and_steel: bool, creative: bool) -> (wears: Option<bool>)
        ensures
            with_flint_and_steel ==> wears == Some(!creative) && *final(self) == (CreeperEntity {
                ignited: true,
                ..*old(self)
            }),
            !with_flint_and_steel ==> wears is None && *final(self) == *old(self),
    {
        if !with_flint_and_steel {
            return None;
        }
        self.ignited = true;
        Some(!creative)
    }

    /// What is saved of the creeper under the name: what is saved of any living entity, and
    /// beside it what it takes to blow up. Of the fuse time the lower 16 bits are saved, and
    /// of the radius the lower 8.
    pub open spec fn spec_saved(self, name: Seq<char>) -> Option<NbtValue> {
        match self.mob_entity.living_entity.spec_saved(name) {
            Some(value) => Some(value),
            None => if name == "powered"@ {
                Some(NbtValue::Byte(byte_of(self.charged)))
            } else if name == "Fuse"@ {
                Some(NbtValue::Short(self.fuse_time as i16))
            } else if name == "ExplosionRadius"@ {
                Some(NbtValue::Byte(self.explosion_radius as i8))
            } else if name == "ignited"@ {
                Some(NbtValue::Byte(byte_of(self.ignited)))
            } else {
                None
            },
        }
    }

    /// Saves the creeper, beside what is saved already.
    pub fn write_nbt(&self, nbt: &mut NbtCompound)
        ensures
            forall|name: Seq<char>| #[trigger]
                final(nbt).spec_get(name) == (match old(nbt).spec_get(name) {
                    Some(value) => Some(value),
                    None => self.spec_saved(name),
                }),
            final(nbt).held == old(nbt).held,
    {
        self.mob_entity.living_entity.write_nbt(nbt);
        nbt.put_bool("powered", self.charged);
        nbt.put_short("Fuse", #[verifier::truncate] (self.fuse_time as i16));
        nbt.put_byte("ExplosionRadius", #[verifier::truncate] (self.explosion_radius as i8));
        nbt.put_bool("ignited", self.ignited);
    }

    /// `after` is the creeper once it has been read from what is saved: the living entity that
    /// it is, and then what it takes to blow up, of which what is missing stays as it is.
    pub open spec fn spec_reads(
        self,
        after: CreeperEntity,
        nbt: NbtCompound,
        max_absorption: Rank32,
    ) -> bool {
        &&& self.mob_entity.living_entity.spec_reads(
            after.mob_entity.living_entity,
            nbt,
            max_absorption,
        )
        &&& after == CreeperEntity {
            mob_entity: MobEntity {
                living_entity: after.mob_entity.living_entity,
                ..self.mob_entity
            },
            charged: match as_bool(nbt.spec_get("powered"@)) {
                Some(powered) => powered,
                None => self.charged,
            },
            fuse_time: match as_short(nbt.spec_get("Fuse"@)) {
                Some(fuse) => fuse as i32,
                None => self.fuse_time,
            },
            explosion_radius: match as_byte(nbt.spec_get("ExplosionRadius"@)) {
                Some(radius) => radius as i32,
                None => self.explosion_radius,
            },
            ignited: match as_bool(nbt.spec_get("ignited"@)) {
                Some(ignited) => ignited,
                None => self.ignited,
            },
            ..self
        }
    }

    /// Reads the creeper from what is saved.
    pub fn read_nbt(&mut self, nbt: &NbtCompound, max_absorption: Rank32)
        requires
            old(self).mob_entity.living_entity.wf(),
        ensures
            final(self).mob_entity.living_entity.wf(),
            old(self).spec_reads(*final(self), *nbt, max_absorption),
    {
        self.mob_entity.living_entity.read_nbt(nbt, max_absorption);
        if let Some(powered) = nbt.get_bool("powered") {
            self.charged = powered;
        }
        if let Some(fuse) = nbt.get_short("Fuse") {
            self.fuse_time = fuse as i32;
        }
        if let Some(radius) = nbt.get_byte("ExplosionRadius") {
            self.explosion_radius = radius as i32;
        }
        if let Some(ignited) = nbt.get_bool("ignited") {
            self.ignited = ignited;
        }
    }
}

/// Law: a creeper that is read from what was saved of it is charged, set alight and as
/// explosive as it was, where its fuse time and its radius fit into what is saved of them.
pub proof fn law_saved_creeper_comes_back(
    creeper: CreeperEntity,
    other: CreeperEntity,
    after: CreeperEntity,
    nbt: NbtCompound,
    max_absorption: Rank32,
)
    requires
        i16::MIN <= creeper.fuse_time <= i16::MAX,
        i8::MIN <= creeper.explosion_radius <= i8::MAX,
        forall|name: Seq<char>| #[trigger] nbt.spec_get(name) == creeper.spec_saved(name),
        other.spec_reads(after, nbt, max_absorption),
    ensures
        after.charged == creeper.charged,
        after.fuse_time == creeper.fuse_time,
        after.explosion_radius == creeper.explosion_radius,
        after.ignited == creeper.ignited,
{
    reveal_strlit("Health");
    reveal_strlit("AbsorptionAmount");
    reveal_strlit("fall_distance");
    reveal_strlit("active_effects");
    reveal_strlit("powered");
    reveal_strlit("Fuse");
    reveal_strlit("ExplosionRadius");
    reveal_strlit("ignited");
    assert("Health"@.len() == 6);
    assert("AbsorptionAmount"@.len() == 16);
    assert("fall_distance"@.len() == 13);
    assert("active_effects"@.len() == 14);
    assert("powered"@.len() == 7 && "powered"@[0] == 'p');
    assert("Fuse"@.len() == 4);
    assert("ExplosionRadius"@.len() == 15);
    assert("ignited"@.len() == 7 && "ignited"@[0] == 'i');
}

/// The creeper after some ticks in which it does not blow up.
pub open spec fn burnt_for(creeper: CreeperEntity, ticks: nat) -> CreeperEntity
    decreases ticks,
{
    if ticks == 0 {
        creeper
    } else {
        burnt_for(creeper, (ticks - 1) as nat).spec_after_tick()
    }
}

/// Law: a creeper that is set alight blows up when its fuse time is over, and not before.
pub proof fn law_ignited_creeper_blows_up_in_time(creeper: CreeperEntity, ticks: nat)
    requires
        creeper.ignited,
        creeper.current_fuse_time == 0,
        creeper.fuse_time > 0,
        ticks < creeper.fuse_time,
    ensures
        burnt_for(creeper, ticks).current_fuse_time == ticks,
        burnt_for(creeper, ticks).ignited,
        burnt_for(creeper, ticks).fuse_time == creeper.fuse_time,
        burnt_for(creeper, ticks).spec_blows_up() <==> ticks + 1 == creeper.fuse_time,
    decreases ticks,
{
    if ticks > 0 {
        law_ignited_creeper_blows_up_in_time(creeper, (ticks - 1) as nat);
    }
}

/// Law: whatever its speed, the fuse of a creeper is never burnt by less than nothing nor
/// by more than its fuse time.
pub proof fn law_fuse_stays_in_bounds(creeper: CreeperEntity)
    requires
        creeper.fuse_time >= 0,
        i32::MIN <= creeper.current_fuse_time + creeper.spec_burning_speed() <= i32::MAX,
    ensures
        0 <= creeper.spec_after_tick().current_fuse_time <= creeper.fuse_time,
{
}

/// Law: a new creeper has a fuse of 30 ticks and blows up over 3 blocks; it is neither charged nor set
/// alight, and its fuse goes back.
pub proof fn law_new_creeper_is_calm(mob_entity: MobEntity, r: CreeperEntity)
    requires
        call_ensures(CreeperEntity::new, (mob_entity,), r),
    ensures
        r.fuse_time == 30,
        r.explosion_radius == 3,
        r.fuse_speed == -1,
        r.current_fuse_time == 0,
        r.last_fuse_time == 0,
        !r.ignited,
        !r.charged,
        r.mob_entity == mob_entity,
{
}

/// Law: a creeper swells before it flees from cats within 6 blocks, flees before it attacks, and
/// attacks before it roams. It goes for players it sees before it takes revenge.
pub proof fn law_what_a_creeper_does_first(
    r: Vec<(u8, CreeperGoal)>,
    targets: Vec<(u8, CreeperGoal)>,
    i: int,
    j: int,
)
    requires
        call_ensures(CreeperEntity::goals, (), r),
        call_ensures(CreeperEntity::target_goals, (), targets),
        0 <= i < j < r@.len(),
    ensures
        r@.len() == 8,
        r@[i].0 <= r@[j].0,
        r@[0].1 == CreeperGoal::Swim,
        r@[1].1 == CreeperGoal::Ignite,
        r@[2].1 is AvoidOcelots,
        r@[2].1->AvoidOcelots_blocks == 6,
        r@[2].1->AvoidOcelots_walk_speed == 0x3FF0_0000_0000_0000,
        r@[2].1->AvoidOcelots_sprint_speed == 0x3FF3_3333_3333_3333,
        r@[3].1 is AvoidCats,
        r@[3].1->AvoidCats_blocks == 6,
        r@[3].1->AvoidCats_walk_speed == 0x3FF0_0000_0000_0000,
        r@[3].1->AvoidCats_sprint_speed == 0x3FF3_3333_3333_3333,
        r@[4].1 is MeleeAttack,
        r@[4].1->MeleeAttack_speed == 0x3FF0_0000_0000_0000,
        r@[5].1 is WanderAround,
        r@[5].1->WanderAround_speed == 0x3FE9_9999_9999_999A,
        r@[6].1 == (CreeperGoal::LookAtPlayers { blocks: 8 }),
        r@[7].1 == CreeperGoal::RandomLookAround,
        r@[4].0 == 4 && r@[1].0 == 2 && r@[2].0 == 3,
        targets@.len() == 2,
        targets@[0] == (1u8, CreeperGoal::TargetPlayers { check_visibility: true }),
        targets@[1] == (2u8, CreeperGoal::Revenge { switch: true }),
{
}

/// Law: a creeper blows up over its radius, twice as far where lightning has struck it, and dies of
/// it. The effects that it has live on for 300 ticks in a cloud of 2.5 blocks, which shrinks by half
/// a block each time that it acts.
pub proof fn law_explosion_of_a_creeper(creeper: &mut CreeperEntity, r: Explosion)
    requires
        call_ensures(CreeperEntity::explode, (creeper,), r),
    ensures
        old(creeper).charged ==> r.radius == 2 * old(creeper).explosion_radius,
        !old(creeper).charged ==> r.radius == old(creeper).explosion_radius,
        final(creeper).mob_entity.living_entity.dead,
        ({
            let effects = old(creeper).mob_entity.living_entity.active_effects@;
            &&& r.cloud is Some <==> effects.len() > 0
            &&& r.cloud is Some ==> {
                &&& r.cloud->0.effects@ == effects
                &&& r.cloud->0.duration == 300
                &&& r.cloud->0.radius == 0x4020_0000
                &&& r.cloud->0.reapplication_delay == 20
                &&& r.cloud->0.wait_time == 10
                &&& r.cloud->0.radius_on_use == -0x3F00_0000
                &&& r.cloud->0.duration_on_use == 0
            }
        }),
        final(creeper).explosion_radius == old(creeper).explosion_radius,
{
}

/// Law: in each tick the fuse burns by its speed, by 1 where the creeper is set alight, and never back
/// beyond its start. It hisses as it begins to burn, and once it has burnt down the creeper blows
/// up.
pub proof fn law_tick_of_a_fuse(creeper: &mut CreeperEntity, alive: bool, r: CreeperTick)
    requires
        call_ensures(CreeperEntity::mob_tick, (creeper, alive), r),
        old(creeper).current_fuse_time >= 0,
        old(creeper).fuse_time > 0,
        old(creeper).current_fuse_time + old(creeper).fuse_speed <= i32::MAX,
        old(creeper).current_fuse_time < i32::MAX,
    ensures
        ({
            let speed = if old(creeper).ignited {
                1int
            } else {
                old(creeper).fuse_speed as int
            };
            let burnt = old(creeper).current_fuse_time + speed;
            &&& !alive ==> *final(creeper) == *old(creeper) && r.explosion is None && !r.hisses
            &&& alive ==> (r.explosion is Some <==> burnt >= old(creeper).fuse_time)
            &&& alive ==> final(creeper).last_fuse_time == old(creeper).current_fuse_time
            &&& alive && 0 <= burnt < old(creeper).fuse_time ==> final(creeper).current_fuse_time
                == burnt
            &&& alive && burnt < 0 ==> final(creeper).current_fuse_time == 0
            &&& alive && burnt >= old(creeper).fuse_time ==> final(creeper).current_fuse_time == old(creeper).fuse_time && final(creeper).mob_entity.living_entity.dead
            &&& alive && burnt < old(creeper).fuse_time ==> final(creeper).mob_entity == old(creeper).mob_entity
            &&& alive ==> (r.hisses <==> speed > 0 && old(creeper).current_fuse_time == 0)
            &&& alive && old(creeper).ignited ==> r.sent_speed == Some(1i32) && final(creeper).fuse_speed == 1
            &&& alive && !old(creeper).ignited ==> r.sent_speed is None && final(creeper).fuse_speed
                == old(creeper).fuse_speed
            &&& r.explosion is Some && old(creeper).charged ==> r.explosion->0.radius == 2 * old(creeper).explosion_radius
        }),
{
}

/// Law: flint and steel sets a creeper alight, and wears unless in creative mode; nothing else does.
/// The speed of the fuse is sent as it is set.
pub proof fn law_creeper_is_set_alight(
    creeper: &mut CreeperEntity,
    with_flint_and_steel: bool,
    creative: bool,
    wears: Option<bool>,
    fused: &mut CreeperEntity,
    speed: i32,
    sent: i32,
)
    requires
        call_ensures(CreeperEntity::ignite, (creeper, with_flint_and_steel, creative), wears),
        call_ensures(CreeperEntity::set_fuse_speed, (fused, speed), sent),
    ensures
        wears is Some <==> with_flint_and_steel,
        with_flint_and_steel ==> final(creeper).ignited && wears->0 == !creative,
        !with_flint_and_steel ==> *final(creeper) == *old(creeper),
        final(creeper).fuse_time == old(creeper).fuse_time,
        sent == speed,
        final(fused).fuse_speed == speed,
        final(fused).ignited == old(fused).ignited,
{
}

/// Law: a creeper is saved under the names `powered`, `Fuse`, `ExplosionRadius` and `ignited`, beside
/// what is saved of any living entity.
pub proof fn law_names_of_what_is_saved_of_a_creeper(
    creeper: CreeperEntity,
    nbt: &mut NbtCompound,
)
    requires
        call_ensures(CreeperEntity::write_nbt, (&creeper, nbt), ()),
        old(nbt).spec_get("powered"@) is None,
        old(nbt).spec_get("Fuse"@) is None,
        old(nbt).spec_get("ExplosionRadius"@) is None,
        old(nbt).spec_get("ignited"@) is None,
        old(nbt).spec_get("Health"@) is None,
    ensures
        final(nbt).spec_get("powered"@) == Some(
            NbtValue::Byte(
                if creeper.charged {
                    1
                } else {
                    0
                },
            ),
        ),
        i16::MIN <= creeper.fuse_time <= i16::MAX ==> final(nbt).spec_get("Fuse"@) is Some && final(nbt).spec_get("Fuse"@)->0 is Short && final(nbt).spec_get("Fuse"@)->0->Short_0
            == creeper.fuse_time,
        i8::MIN <= creeper.explosion_radius <= i8::MAX ==> final(nbt).spec_get(
            "ExplosionRadius"@,
        ) is Some && final(nbt).spec_get("ExplosionRadius"@)->0 is Byte && final(nbt).spec_get(
            "ExplosionRadius"@,
        )->0->Byte_0 == creeper.explosion_radius,
        final(nbt).spec_get("ignited"@) == Some(
            NbtValue::Byte(
                if creeper.ignited {
                    1
                } else {
                    0
                },
            ),
        ),
        final(nbt).spec_get("Health"@) == Some(
            NbtValue::Float(creeper.mob_entity.living_entity.health),
        ),
{
    reveal_strlit("powered");
    reveal_strlit("Fuse");
    reveal_strlit("ExplosionRadius");
    reveal_strlit("ignited");
    reveal_strlit("Health");
    reveal_strlit("AbsorptionAmount");
    reveal_strlit("fall_distance");
    reveal_strlit("active_effects");
    assert("powered"@[0] == 'p');
    assert("ignited"@[0] == 'i');
    assert("powered"@.len() == 7);
    assert("ignited"@.len() == 7);
    assert("Fuse"@.len() == 4);
    assert("ExplosionRadius"@.len() == 15);
    assert("Health"@.len() == 6);
    assert("AbsorptionAmount"@.len() == 16);
    assert("fall_distance"@.len() == 13);
    assert("active_effects"@.len() == 14);
}

/// Law: a creeper is charged, fused, ignited and blows up as far as was saved of it; of what was not saved
/// it keeps what it has.
pub proof fn law_what_is_read_of_a_creeper(
    creeper: &mut CreeperEntity,
    nbt: NbtCompound,
    max_absorption: Rank32,
    flag: i8,
    fuse: i16,
    radius: i8,
)
    requires
        call_ensures(CreeperEntity::read_nbt, (creeper, &nbt, max_absorption), ()),
    ensures
        nbt.spec_get("powered"@) == Some(NbtValue::Byte(flag)) ==> final(creeper).charged == (flag
            != 0),
        nbt.spec_get("powered"@) is None ==> final(creeper).charged == old(creeper).charged,
        nbt.spec_get("ignited"@) == Some(NbtValue::Byte(flag)) ==> final(creeper).ignited == (flag
            != 0),
        nbt.spec_get("ignited"@) is None ==> final(creeper).ignited == old(creeper).ignited,
        nbt.spec_get("Fuse"@) == Some(NbtValue::Short(fuse)) ==> final(creeper).fuse_time == fuse,
        nbt.spec_get("Fuse"@) is None ==> final(creeper).fuse_time == old(creeper).fuse_time,
        nbt.spec_get("ExplosionRadius"@) == Some(NbtValue::Byte(radius)) ==> final(creeper).explosion_radius == radius,
        nbt.spec_get("ExplosionRadius"@) is None ==> final(creeper).explosion_radius == old(creeper).explosion_radius,
        final(creeper).fuse_speed == old(creeper).fuse_speed,
{
}

} // verus!
