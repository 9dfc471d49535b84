//! Wardens: blind mobs that hear, hold grudges and strike.

use vstd::prelude::*;

use self::anger::{
    noted, others, remaining, sorted, AngerLevel, AngerManagement, Suspect, WardenSound, lasts,
    DEFAULT_ANGER_DECREASE, MAX_ANGER,
};
use crate::data::effect::{Effect, StatusEffect};
use crate::data::entity_type::EntityType;
use crate::data::position::BlockPos;
use crate::data::rank::Rank64;
use crate::entity::living::attributes::{attribute_values, dirty_flags, rebased_values};
use crate::entity::living::LivingEntity;
use crate::plan::{only_if, push_if, push_step};
use crate::random::draw_range;

pub mod ai;
pub mod anger;
pub mod saved;
pub mod vibration;

verus! {

/// How many ticks pass between two vibrations that a warden notices.
pub const VIBRATION_COOLDOWN_TICKS: i32 = 40;

/// How many ticks a warden fights hand to hand before its first sonic boom.
pub const TIME_TO_USE_MELEE_UNTIL_SONIC_BOOM: i32 = 200;

/// Darkness with as many ticks left, or more, is not given anew.
pub const DARKNESS_DISPLAY_LIMIT: i32 = 200;

/// How many ticks the darkness around a warden lasts.
pub const DARKNESS_DURATION: i32 = 260;

/// Every how many ticks a warden spreads darkness.
pub const DARKNESS_INTERVAL: i32 = 120;

/// Every how many ticks the anger of a warden passes a little.
pub const ANGERMANAGEMENT_TICK_DELAY: i32 = 20;

/// The anger at the source of a vibration.
pub const DEFAULT_ANGER: i32 = 35;

/// The anger at the shooter of a projectile.
pub const PROJECTILE_ANGER: i32 = 10;

/// The anger at an attacker, above what makes a warden angry.
pub const ON_HURT_ANGER_BOOST: i32 = 20;

/// How many ticks pass between two touches that a warden notices.
pub const TOUCH_COOLDOWN_TICKS: i32 = 20;

/// How many ticks a warden remembers where it heard something.
pub const DISTURBANCE_LOCATION_EXPIRY_TIME: i32 = 100;

/// How many ticks pass at least between two sounds of a warden that roams.
pub const AMBIENT_SOUND_INTERVAL: i32 = 80;

/// A warden that roams makes a sound with odds out of this many.
pub const AMBIENT_SOUND_ODDS: i32 = 1000;

/// The square (25.0) of the distance within which an attacker is struck back at once.
pub const RETALIATION_DISTANCE_SQ: Rank64 = 0x4039_0000_0000_0000;

/// How a warden stands.
#[derive(Clone, Copy, Debug, PartialEq, Eq, Structural)]
pub enum WardenPose {
    Standing,
    Roaring,
    Sniffing,
    Digging,
    Emerging,
    Dying,
}

/// Whom a warden strikes.
#[derive(Clone, Copy, Debug, PartialEq, Eq, Structural)]
pub struct WardenTarget {
    pub uuid: u128,
    pub is_player: bool,
}

/// How far (24.0) a warden follows whom it is after.
pub const FOLLOW_RANGE: Rank64 = 0x4038_0000_0000_0000;

/// How fast (1.2) a warden runs at whom it is after.
pub const CHASING_SPEED: Rank64 = 0x3FF3_3333_3333_3333;

/// How fast (0.5) a warden roams.
pub const ROAMING_SPEED: Rank64 = 0x3FE0_0000_0000_0000;

/// How far (29999984.0) from its middle the border of a world stands to begin with.
pub const INITIAL_BORDER: Rank64 = 0x417C_9C37_0000_0000;

/// The border of the world: from the least coordinates on, up to the greatest, which
/// are left out.
#[derive(Clone, Copy, Debug, PartialEq, Eq, Structural)]
pub struct Border {
    pub min_x: Rank64,
    pub max_x: Rank64,
    pub min_z: Rank64,
    pub max_z: Rank64,
}

/// The border that a world has to begin with.
pub open spec fn initial_border() -> Border {
    Border {
        min_x: (-INITIAL_BORDER) as Rank64,
        max_x: INITIAL_BORDER,
        min_z: (-INITIAL_BORDER) as Rank64,
        max_z: INITIAL_BORDER,
    }
}

/// What a warden makes of someone.
#[derive(Clone, Copy, Debug, PartialEq, Eq, Structural)]
pub struct Candidate {
    pub entity_id: i32,
    pub entity_type: EntityType,
    pub is_player: bool,
    pub living: bool,
    pub same_world: bool,
    pub spectator: bool,
    pub creative: bool,
    pub invulnerable: bool,
    pub alive: bool,
    pub x: Rank64,
    pub z: Rank64,
}

/// What a tick of a warden asks for.
#[derive(Clone, Copy, Debug, PartialEq, Eq, Structural)]
pub enum WardenStep {
    /// Lets the sound be heard.
    PlayAmbientSound { sound: WardenSound },
    /// Gives darkness to the players around.
    SpreadDarkness,
    /// Lets [`WardenEntity::update_anger`] do its part.
    UpdateAnger,
    /// Lets [`WardenEntity::sync_client_anger_level`] do its part.
    SyncClientAngerLevel,
}

/// A warden.
pub struct WardenEntity {
    pub entity_id: i32,
    pub no_ai: bool,
    pub alive: bool,
    pub pose: WardenPose,
    pub anger_management: AngerManagement,
    /// Whom the warden is about to roar at.
    pub roar_target: Option<u128>,
    /// Whom the warden strikes.
    pub target: Option<WardenTarget>,
    /// Where the warden heard something.
    pub disturbance_location: Option<BlockPos>,
    pub disturbance_ticks: i32,
    pub vibration_cooldown: i32,
    pub touch_cooldown: i32,
    /// The anger that the players around were last told of.
    pub client_anger_level: i32,
    pub sonic_boom_cooldown: i32,
    pub border: Border,
    pub ambient_sound_time: i32,
}

/// The goals of a warden.
#[derive(Clone, Copy, Debug, PartialEq, Eq, Structural)]
pub enum WardenGoal {
    Swim,
    Roar,
    SonicBoom,
    /// Runs at the target, with the speed.
    MeleeAttack { speed: Rank64, pause_when_mob_idle: bool },
    InvestigateDisturbance,
    Sniff,
    /// Roams with the speed.
    WanderAround { speed: Rank64 },
    RandomLookAround,
}

/// A number counted down by one while it is above 0.
pub open spec fn counted_down(ticks: i32) -> i32 {
    if ticks > 0 {
        (ticks - 1) as i32
    } else {
        ticks
    }
}

/// A number counted down by one while it is above 0.
fn count_down(ticks: i32) -> (r: i32)
    ensures
        r == counted_down(ticks),
{
    if ticks > 0 {
        ticks - 1
    } else {
        ticks
    }
}

/// The anger that is left once a little has passed, at those who are valid and at those
/// who are away.
pub open spec fn decayed(anger: Map<u128, i32>, valid: Seq<u128>, away: Seq<u128>) -> Map<
    u128,
    i32,
> {
    Map::new(
        |uuid: u128|
            anger.contains_key(uuid) && lasts(anger[uuid]) && (valid.contains(uuid)
                || away.contains(uuid)),
        |uuid: u128| (anger[uuid] - DEFAULT_ANGER_DECREASE) as i32,
    )
}

/// The first suspect that is valid.
pub open spec fn first_valid(order: Seq<Suspect>, valid: Seq<u128>) -> Option<u128>
    decreases order.len(),
{
    if order.len() == 0 {
        None
    } else if valid.contains(order.first().uuid) {
        Some(order.first().uuid)
    } else {
        first_valid(order.skip(1), valid)
    }
}

/// The first valid suspect is found from any place before it.
proof fn lemma_first_valid(order: Seq<Suspect>, valid: Seq<u128>, i: int)
    requires
        0 <= i <= order.len(),
        forall|j: int| 0 <= j < i ==> !valid.contains((#[trigger] order[j]).uuid),
    ensures
        first_valid(order, valid) == first_valid(order.skip(i), valid),
    decreases i,
{
    if i == 0 {
        assert(order.skip(0) =~= order);
    } else {
        lemma_first_valid(order, valid, i - 1);
        assert(order.skip(i - 1).first() == order[i - 1]);
        assert(order.skip(i - 1).skip(1) =~= order.skip(i));
    }
}

/// Whether the list holds the uuid.
pub fn holds_uuid(list: &Vec<u128>, uuid: u128) -> (r: bool)
    ensures
        r == list@.contains(uuid),
{
    let mut i: usize = 0;
    while i < list.len()
        invariant
            i <= list@.len(),
            forall|j: int| 0 <= j < i ==> list@[j] != uuid,
        decreases list.len() - i,
    {
        if list[i] == uuid {
            return true;
        }
        i = i + 1;
    }
    false
}

impl Border {
    /// The place is within the border.
    pub open spec fn spec_contains(self, x: Rank64, z: Rank64) -> bool {
        self.min_x <= x < self.max_x && self.min_z <= z < self.max_z
    }
}

impl WardenEntity {
    /// The anger is kept in order.
    pub open spec fn wf(self) -> bool {
        self.anger_management.wf()
    }

    /// The anger that counts.
    pub open spec fn spec_active_anger(self) -> int {
        match self.target {
            Some(target) => self.anger_management.spec_anger_at(target.uuid),
            None => self.anger_management.highest(),
        }
    }

    /// How angry the warden is.
    pub open spec fn spec_level(self) -> AngerLevel {
        AngerLevel::spec_by_anger(self.spec_active_anger())
    }

    /// The warden may strike the candidate: a living thing in its world that takes part
    /// in the game and can be hurt, other than itself, an armour stand or a warden, and
    /// within the border.
    pub open spec fn spec_can_target(self, candidate: Candidate) -> bool {
        &&& candidate.living
        &&& candidate.same_world
        &&& !candidate.spectator
        &&& !(candidate.is_player && candidate.creative)
        &&& candidate.entity_id != self.entity_id
        &&& candidate.entity_type != EntityType::ArmorStand
        &&& candidate.entity_type != EntityType::Warden
        &&& !candidate.invulnerable
        &&& candidate.alive
        &&& self.border.spec_contains(candidate.x, candidate.z)
    }

    /// A warden that holds nothing against anyone, of the entity, which is told how far it
    /// follows others: the attribute with the number is that.
    pub fn new(living: &mut LivingEntity, follow_range: u8) -> (r: Self)
        requires
            follow_range != old(living).max_health_attribute,
        ensures
            attribute_values(final(living).attributes@) == rebased_values(
                attribute_values(old(living).attributes@),
                follow_range,
                FOLLOW_RANGE,
            ),
            dirty_flags(final(living).attributes@) == dirty_flags(old(living).attributes@).insert(
                follow_range,
                true,
            ),
            *final(living) == (LivingEntity {
                attributes: final(living).attributes,
                ..*old(living)
            }),
            r.wf(),
            r.anger_management.anger() == Map::<u128, i32>::empty(),
            r.anger_management.order() == Seq::<Suspect>::empty(),
            r == (WardenEntity {
                entity_id: old(living).entity_id,
                no_ai: false,
                alive: true,
                pose: WardenPose::Standing,
                anger_management: r.anger_management,
                roar_target: None,
                target: None,
                disturbance_location: None,
                disturbance_ticks: 0,
                vibration_cooldown: 0,
                touch_cooldown: 0,
                client_anger_level: -1i32,
                sonic_boom_cooldown: 0,
                border: initial_border(),
                ambient_sound_time: 0,
            }),
    {
        living.change_base(follow_range, FOLLOW_RANGE);
        WardenEntity {
            entity_id: living.entity_id,
            no_ai: false,
            alive: true,
            pose: WardenPose::Standing,
            anger_management: AngerManagement::default(),
            roar_target: None,
            target: None,
            disturbance_location: None,
            disturbance_ticks: 0,
            vibration_cooldown: 0,
            touch_cooldown: 0,
            client_anger_level: -1,
            sonic_boom_cooldown: 0,
            border: Border {
                min_x: -INITIAL_BORDER,
                max_x: INITIAL_BORDER,
                min_z: -INITIAL_BORDER,
                max_z: INITIAL_BORDER,
            },
            ambient_sound_time: 0,
        }
    }

    /// The goals of a warden, the more pressing ones first: it swims at all times, roars
    /// before it fights, fights before it looks into noises, and sniffs before it roams.
    pub fn goals() -> (r: Vec<(u8, WardenGoal)>)
        ensures
            r@ == seq![
                (0u8, WardenGoal::Swim),
                (1u8, WardenGoal::Roar),
                (2u8, WardenGoal::SonicBoom),
                (
                    3u8,
                    WardenGoal::MeleeAttack { speed: CHASING_SPEED, pause_when_mob_idle: false },
                ),
                (4u8, WardenGoal::InvestigateDisturbance),
                (5u8, WardenGoal::Sniff),
                (6u8, WardenGoal::WanderAround { speed: ROAMING_SPEED }),
                (7u8, WardenGoal::RandomLookAround),
            ],
    {
        let mut goals: Vec<(u8, WardenGoal)> = Vec::new();
        goals.push((0, WardenGoal::Swim));
        goals.push((1, WardenGoal::Roar));
        goals.push((2, WardenGoal::SonicBoom));
        goals.push(
            (3, WardenGoal::MeleeAttack { speed: CHASING_SPEED, pause_when_mob_idle: false }),
        );
        goals.push((4, WardenGoal::InvestigateDisturbance));
        goals.push((5, WardenGoal::Sniff));
        goals.push((6, WardenGoal::WanderAround { speed: ROAMING_SPEED }));
        goals.push((7, WardenGoal::RandomLookAround));
        goals
    }

    /// Whether the place is within the border, as the warden last looked at it.
    pub fn is_within_border(&self, x: Rank64, z: Rank64) -> (r: bool)
        ensures
            r == self.border.spec_contains(x, z),
    {
        x >= self.border.min_x && x < self.border.max_x && z >= self.border.min_z && z
            < self.border.max_z
    }

    /// Looks at the border again.
    pub fn refresh_border_snapshot(&mut self, border: Border)
        ensures
            *final(self) == (WardenEntity { border, ..*old(self) }),
    {
        self.border = border;
    }

    /// Whether the warden may strike the candidate.
    pub fn can_target_entity(&self, candidate: &Candidate) -> (r: bool)
        ensures
            r == self.spec_can_target(*candidate),
    {
        if !candidate.living || !candidate.same_world {
            return false;
        }
        if candidate.spectator || (candidate.is_player && candidate.creative) {
            return false;
        }
        if candidate.entity_id == self.entity_id || candidate.entity_type == EntityType::ArmorStand
            || candidate.entity_type == EntityType::Warden {
            return false;
        }
        if candidate.invulnerable || !candidate.alive {
            return false;
        }
        self.is_within_border(candidate.x, candidate.z)
    }

    /// The anger that counts.
    pub fn active_anger(&self) -> (r: i32)
        ensures
            r == self.spec_active_anger(),
    {
        let target: Option<u128> = match self.target {
            Some(target) => Some(target.uuid),
            None => None,
        };
        self.anger_management.active_anger(target)
    }

    /// How angry the warden is.
    pub fn anger_level(&self) -> (r: AngerLevel)
        ensures
            r == self.spec_level(),
    {
        AngerLevel::by_anger(self.active_anger())
    }

    /// Forgets all anger at someone.
    pub fn clear_anger(&mut self, uuid: u128)
        requires
            old(self).wf(),
        ensures
            final(self).wf(),
            final(self).anger_management.anger() == old(self).anger_management.anger().remove(
                uuid,
            ),
            final(self).anger_management.order() == sorted(
                others(old(self).anger_management.order(), uuid),
            ),
            *final(self) == (WardenEntity {
                anger_management: final(self).anger_management,
                ..*old(self)
            }),
    {
        self.anger_management.clear_anger(uuid);
    }

    /// The sound of the warden as it listens, unless it roars.
    pub fn play_listening_sound(&self) -> (r: Option<WardenSound>)
        ensures
            r == self.spec_listening_sound(),
    {
        if self.pose == WardenPose::Roaring {
            None
        } else {
            Some(self.anger_level().listening_sound())
        }
    }

    /// The sound of the warden as it listens, unless it roars.
    pub open spec fn spec_listening_sound(self) -> Option<WardenSound> {
        if self.pose == WardenPose::Roaring {
            None
        } else if self.spec_level() == AngerLevel::Calm {
            Some(WardenSound::Listening)
        } else {
            Some(WardenSound::ListeningAngry)
        }
    }

    /// The anger at someone once some has been added.
    pub open spec fn spec_raised_anger(self, uuid: u128, amount: i32) -> int {
        if self.anger_management.spec_anger_at(uuid) + amount < MAX_ANGER {
            self.anger_management.spec_anger_at(uuid) + amount
        } else {
            MAX_ANGER as int
        }
    }

    /// The warden takes note of the candidate.
    pub open spec fn spec_notes(self, candidate: Option<Candidate>) -> bool {
        !self.no_ai && (candidate matches Some(seen) && self.spec_can_target(seen))
    }

    /// The warden drops its target for the candidate, to pick one anew: a player that it
    /// is truly angry at, while it strikes no player.
    pub open spec fn spec_switches(self, uuid: u128, amount: i32, candidate: Candidate) -> bool {
        &&& candidate.is_player
        &&& !(self.target matches Some(target) && target.is_player)
        &&& AngerLevel::spec_by_anger(self.spec_raised_anger(uuid, amount)) == AngerLevel::Angry
    }

    /// The warden after it has grown angrier at someone.
    pub open spec fn spec_angered(
        self,
        after: WardenEntity,
        uuid: u128,
        amount: i32,
        candidate: Option<Candidate>,
    ) -> bool {
        if self.spec_notes(candidate) {
            let raised = self.spec_raised_anger(uuid, amount) as i32;
            let seen = candidate->0;
            &&& after.anger_management.anger() == self.anger_management.anger().insert(uuid, raised)
            &&& after.anger_management.order() == sorted(
                noted(
                    self.anger_management.order(),
                    Suspect { uuid, anger: raised, is_player: seen.is_player },
                ),
            )
            &&& after == (WardenEntity {
                anger_management: after.anger_management,
                target: if self.spec_switches(uuid, amount, seen) {
                    None
                } else {
                    self.target
                },
                ..self
            })
        } else {
            after == self
        }
    }

    /// Makes the warden angrier at someone, if it can take note of them. Returns the sound
    /// that it makes, where one is asked for.
    pub fn increase_anger_at_uuid(
        &mut self,
        uuid: u128,
        amount: i32,
        play_sound: bool,
        candidate: Option<Candidate>,
    ) -> (sound: Option<WardenSound>)
        requires
            old(self).wf(),
            old(self).spec_notes(candidate) ==> i32::MIN
                <= old(self).anger_management.spec_anger_at(uuid) + amount <= i32::MAX,
        ensures
            final(self).wf(),
            old(self).spec_angered(*final(self), uuid, amount, candidate),
            sound == (if play_sound && old(self).spec_notes(candidate) {
                final(self).spec_listening_sound()
            } else {
                None
            }),
    {
        if self.no_ai {
            return None;
        }
        let seen: Candidate = match candidate {
            Some(seen) => seen,
            None => {
                return None;
            },
        };
        if !self.can_target_entity(&seen) {
            return None;
        }
        let strikes_player: bool = match self.target {
            Some(target) => target.is_player,
            None => false,
        };
        proof {
            if self.anger_management.anger().contains_key(uuid) {
                assert(self.anger_management.anger()[uuid] <= MAX_ANGER);
            }
        }
        let anger: i32 = self.anger_management.increase_anger(uuid, seen.is_player, amount);
        if seen.is_player && !strikes_player && AngerLevel::by_anger(anger).is_angry() {
            self.target = None;
        }
        if play_sound {
            self.play_listening_sound()
        } else {
            None
        }
    }

    /// The warden once it strikes someone.
    pub open spec fn spec_striking(self, target: WardenTarget) -> WardenEntity {
        WardenEntity {
            roar_target: None,
            target: Some(target),
            disturbance_location: None,
            sonic_boom_cooldown: TIME_TO_USE_MELEE_UNTIL_SONIC_BOOM,
            ..self
        }
    }

    /// Lets the warden strike someone, if it may. It fights hand to hand at first.
    pub fn set_attack_target(&mut self, target: WardenTarget, candidate: &Candidate)
        ensures
            *final(self) == (if old(self).spec_can_target(*candidate) {
                old(self).spec_striking(target)
            } else {
                *old(self)
            }),
    {
        if !self.can_target_entity(candidate) {
            return;
        }
        self.roar_target = None;
        self.target = Some(target);
        self.disturbance_location = None;
        self.sonic_boom_cooldown = TIME_TO_USE_MELEE_UNTIL_SONIC_BOOM;
    }

    /// Lets the warden strike someone, if they are in the world and it may.
    pub fn set_attack_target_by_uuid(&mut self, uuid: u128, candidate: Option<Candidate>)
        ensures
            *final(self) == (match candidate {
                Some(seen) => if old(self).spec_can_target(seen) {
                    old(self).spec_striking(WardenTarget { uuid, is_player: seen.is_player })
                } else {
                    *old(self)
                },
                None => *old(self),
            }),
    {
        if let Some(seen) = candidate {
            self.set_attack_target(WardenTarget { uuid, is_player: seen.is_player }, &seen);
        }
    }

    /// Lets the warden strike someone, or no one. No one is always possible.
    pub fn set_mob_target(&mut self, target: Option<(WardenTarget, Candidate)>)
        ensures
            *final(self) == (match target {
                Some((target, seen)) => if old(self).spec_can_target(seen) {
                    old(self).spec_striking(target)
                } else {
                    *old(self)
                },
                None => WardenEntity { target: None, ..*old(self) },
            }),
    {
        match target {
            Some((target, seen)) => self.set_attack_target(target, &seen),
            None => {
                self.target = None;
            },
        }
    }

    /// The warden minds noises: it neither strikes nor is about to roar.
    pub open spec fn spec_minds_noise(self) -> bool {
        self.target is None && self.roar_target is None
    }

    /// The warden once it has heard something at the place: one that is truly angry, strikes or
    /// is about to roar does not look into noises.
    pub open spec fn spec_disturbed(self, pos: BlockPos, within_border: bool) -> WardenEntity {
        if within_border && self.spec_minds_noise() && self.spec_level() != AngerLevel::Angry {
            WardenEntity {
                disturbance_location: Some(pos),
                disturbance_ticks: DISTURBANCE_LOCATION_EXPIRY_TIME,
                ..self
            }
        } else {
            self
        }
    }

    /// Notes where the warden heard something, if it minds noises and is not truly angry.
    pub fn set_disturbance_location(&mut self, pos: BlockPos, within_border: bool)
        ensures
            *final(self) == old(self).spec_disturbed(pos, within_border),
    {
        if !within_border || self.target.is_some() || self.roar_target.is_some() {
            return;
        }
        if self.anger_level().is_angry() {
            return;
        }
        self.disturbance_location = Some(pos);
        self.disturbance_ticks = DISTURBANCE_LOCATION_EXPIRY_TIME;
    }

    /// The darkness that a player near the warden is given: none for those who only look
    /// on or create, and none where enough of it is left. It is given anew only where less
    /// than the limit is left.
    pub fn apply_darkness_around(spectator: bool, creative: bool, left: Option<i32>) -> (r: Option<
        Effect,
    >)
        ensures
            r is Some <==> !spectator && !creative && (left matches Some(left) ==> left
                < DARKNESS_DISPLAY_LIMIT),
            r matches Some(effect) ==> effect == (Effect {
                effect_type: StatusEffect::Darkness,
                duration: DARKNESS_DURATION,
                amplifier: 0,
                ambient: false,
                show_particles: false,
                show_icon: false,
                blend: false,
            }),
    {
        if spectator || creative {
            return None;
        }
        if let Some(left) = left {
            if left >= DARKNESS_DISPLAY_LIMIT {
                return None;
            }
        }
        Some(
            Effect {
                effect_type: StatusEffect::Darkness,
                duration: DARKNESS_DURATION,
                amplifier: 0,
                ambient: false,
                show_particles: false,
                show_icon: false,
                blend: false,
            },
        )
    }

    /// The warden keeps quiet as it roams.
    pub open spec fn spec_quiet(self) -> bool {
        self.pose == WardenPose::Roaring || self.pose == WardenPose::Digging || self.pose
            == WardenPose::Emerging
    }

    /// The sound of the warden as it roams, once a number has been drawn: the longer it has
    /// been quiet, the likelier is a sound, and the angrier it is, the more threatening.
    pub open spec fn spec_ambient_sound(self, drawn: i32) -> Option<WardenSound> {
        if !self.spec_quiet() && drawn < self.ambient_sound_time {
            Some(
                match self.spec_level() {
                    AngerLevel::Calm => WardenSound::Ambient,
                    AngerLevel::Agitated => WardenSound::Agitated,
                    AngerLevel::Angry => WardenSound::Angry,
                },
            )
        } else {
            None
        }
    }

    /// The warden after a tick of its sounds.
    pub open spec fn spec_after_sound(self, drawn: i32) -> WardenEntity {
        WardenEntity {
            ambient_sound_time: if self.spec_quiet() {
                self.ambient_sound_time
            } else if self.spec_ambient_sound(drawn) is Some {
                (-AMBIENT_SOUND_INTERVAL) as i32
            } else {
                i32_sum(self.ambient_sound_time, 1) as i32
            },
            ..self
        }
    }

    /// Lets a tick go by for the sounds of the warden as it roams, once a number below
    /// 1000 has been drawn.
    pub fn tick_ambient_sound_with_draw(&mut self, drawn: i32) -> (r: Option<WardenSound>)
        ensures
            r == old(self).spec_ambient_sound(drawn),
            *final(self) == old(self).spec_after_sound(drawn),
    {
        if self.pose == WardenPose::Roaring || self.pose == WardenPose::Digging || self.pose
            == WardenPose::Emerging {
            return None;
        }
        let current: i32 = self.ambient_sound_time;
        self.ambient_sound_time = current.wrapping_add(1);
        if drawn >= current {
            return None;
        }
        self.ambient_sound_time = -AMBIENT_SOUND_INTERVAL;
        Some(self.anger_level().ambient_sound())
    }

    /// Lets a tick go by for the sounds of the warden as it roams, drawing the number.
    pub fn tick_ambient_sound(&mut self) -> (r: Option<WardenSound>)
        ensures
            exists|drawn: i32|
                0 <= drawn < AMBIENT_SOUND_ODDS && r == #[trigger] old(self).spec_ambient_sound(
                    drawn,
                ) && *final(self) == old(self).spec_after_sound(drawn),
            old(self).spec_quiet() || old(self).ambient_sound_time <= 0 ==> r is None,
            !old(self).spec_quiet() && old(self).ambient_sound_time >= AMBIENT_SOUND_ODDS ==> r
                is Some,
    {
        let drawn: i32 = draw_range(0, AMBIENT_SOUND_ODDS);
        self.tick_ambient_sound_with_draw(drawn)
    }

    /// Notes the anger that counts. Returns it where the players around have to be told.
    pub fn sync_client_anger_level(&mut self) -> (r: Option<i32>)
        ensures
            *final(self) == (WardenEntity {
                client_anger_level: old(self).spec_active_anger() as i32,
                ..*old(self)
            }),
            r == (if old(self).client_anger_level == old(self).spec_active_anger() {
                None
            } else {
                Some(old(self).spec_active_anger() as i32)
            }),
    {
        let anger: i32 = self.active_anger();
        let known: i32 = self.client_anger_level;
        self.client_anger_level = anger;
        if known == anger {
            None
        } else {
            Some(anger)
        }
    }

    /// The warden after a tick of all that it counts down. A noise is forgotten when its
    /// time is over.
    pub open spec fn spec_cooled(self) -> WardenEntity {
        WardenEntity {
            vibration_cooldown: counted_down(self.vibration_cooldown),
            touch_cooldown: counted_down(self.touch_cooldown),
            sonic_boom_cooldown: counted_down(self.sonic_boom_cooldown),
            disturbance_ticks: counted_down(self.disturbance_ticks),
            disturbance_location: if self.disturbance_ticks == 1 {
                None
            } else {
                self.disturbance_location
            },
            ..self
        }
    }

    /// Lets a tick go by for all that the warden counts down.
    pub fn tick_cooldowns(&mut self)
        ensures
            *final(self) == old(self).spec_cooled(),
    {
        self.vibration_cooldown = count_down(self.vibration_cooldown);
        self.touch_cooldown = count_down(self.touch_cooldown);
        self.sonic_boom_cooldown = count_down(self.sonic_boom_cooldown);
        let left: i32 = self.disturbance_ticks;
        if left > 0 {
            self.disturbance_ticks = left - 1;
            if left == 1 {
                self.disturbance_location = None;
            }
        }
    }

    /// Lets some anger pass, at everyone who is among the valid or away.
    fn decay_anger(&mut self, valid: &Vec<u128>, away: &Vec<u128>)
        requires
            old(self).wf(),
        ensures
            final(self).wf(),
            final(self).anger_management.anger() == decayed(
                old(self).anger_management.anger(),
                valid@,
                away@,
            ),
            final(self).anger_management.order() == sorted(
                remaining(
                    old(self).anger_management.order(),
                    decayed(old(self).anger_management.anger(), valid@, away@),
                ),
            ),
            *final(self) == (WardenEntity {
                anger_management: final(self).anger_management,
                ..*old(self)
            }),
    {
        let is_kept = |uuid: u128| -> (r: bool)
            ensures
                r == (valid@.contains(uuid) || away@.contains(uuid)),
            { holds_uuid(valid, uuid) || holds_uuid(away, uuid) };
        self.anger_management.tick(&is_kept);
        proof {
            let before = old(self).anger_management.anger();
            let after = self.anger_management.anger();
            assert forall|uuid: u128| #[trigger]
                after.contains_key(uuid) <==> decayed(before, valid@, away@).contains_key(uuid) by {
                if after.contains_key(uuid) {
                    assert(call_ensures(is_kept, (uuid,), true));
                }
                if decayed(before, valid@, away@).contains_key(uuid) && !after.contains_key(uuid) {
                    assert(before.contains_key(uuid));
                    assert(call_ensures(is_kept, (uuid,), false));
                }
            }
            assert(after =~= decayed(before, valid@, away@));
        }
    }

    /// The first suspect that is among the valid.
    pub(crate) fn first_suspect(&self, valid: &Vec<u128>) -> (r: Option<u128>)
        ensures
            r == first_valid(self.anger_management.order(), valid@),
    {
        let is_valid = |uuid: u128| -> (r: bool)
            ensures
                r == valid@.contains(uuid),
            { holds_uuid(valid, uuid) };
        let top: Option<u128> = self.anger_management.top_suspect(&is_valid);
        proof {
            let order = self.anger_management.order();
            match top {
                Some(uuid) => {
                    let i = choose|i: int|
                        {
                            &&& 0 <= i < order.len()
                            &&& (#[trigger] order[i]).uuid == uuid
                            &&& call_ensures(is_valid, (uuid,), true)
                            &&& forall|j: int|
                                0 <= j < i ==> call_ensures(
                                    is_valid,
                                    ((#[trigger] order[j]).uuid,),
                                    false,
                                )
                        };
                    lemma_first_valid(order, valid@, i);
                    assert(order.skip(i).first() == order[i]);
                },
                None => {
                    lemma_first_valid(order, valid@, order.len() as int);
                },
            }
        }
        top
    }

    /// The warden after some anger has passed.
    pub open spec fn spec_decayed(
        self,
        after: WardenEntity,
        valid: Seq<u128>,
        away: Seq<u128>,
    ) -> bool {
        &&& after.anger_management.anger() == decayed(self.anger_management.anger(), valid, away)
        &&& after.anger_management.order() == sorted(
            remaining(
                self.anger_management.order(),
                decayed(self.anger_management.anger(), valid, away),
            ),
        )
        &&& after.anger_management.wf()
        &&& after == (WardenEntity { anger_management: after.anger_management, ..self })
    }

    /// The warden after it has looked at its target again: one that it may not strike any
    /// more is forgiven, and it strikes on only while it is truly angry.
    pub open spec fn spec_reconsidered(self, after: WardenEntity, targetable: bool) -> bool {
        match self.target {
            Some(target) => {
                &&& after.anger_management.anger() == (if targetable {
                    self.anger_management.anger()
                } else {
                    self.anger_management.anger().remove(target.uuid)
                })
                &&& after.anger_management.order() == (if targetable {
                    self.anger_management.order()
                } else {
                    sorted(others(self.anger_management.order(), target.uuid))
                })
                &&& after.anger_management.wf()
                &&& after == (WardenEntity {
                    anger_management: after.anger_management,
                    target: if targetable && AngerLevel::spec_by_anger(
                        self.anger_management.spec_anger_at(target.uuid),
                    ) == AngerLevel::Angry {
                        self.target
                    } else {
                        None
                    },
                    ..self
                })
            },
            None => after == self,
        }
    }

    /// The warden after it has picked whom to roar at: where it strikes no one, is about
    /// to roar at no one and is truly angry, the first suspect that is valid.
    pub open spec fn spec_picked(self, valid: Seq<u128>) -> WardenEntity {
        if self.spec_minds_noise() && self.spec_level() == AngerLevel::Angry && first_valid(
            self.anger_management.order(),
            valid,
        ) is Some {
            WardenEntity {
                roar_target: first_valid(self.anger_management.order(), valid),
                ..self
            }
        } else {
            self
        }
    }

    /// The warden after an update of its anger.
    pub open spec fn spec_updated(
        self,
        after: WardenEntity,
        valid: Seq<u128>,
        away: Seq<u128>,
        targetable: bool,
    ) -> bool {
        exists|calmer: WardenEntity, settled: WardenEntity|
            {
                &&& #[trigger] self.spec_decayed(calmer, valid, away)
                &&& #[trigger] calmer.spec_reconsidered(settled, targetable)
                &&& after == settled.spec_picked(valid)
            }
    }

    /// Lets some anger pass, looks at the target again, and picks whom to roar at.
    /// `valid` holds everyone whom the warden may strike, and `away` everyone who is not
    /// in the world at the moment: the warden stays angry at them, though it roars at none
    /// of them. `targetable` says whether it may strike its target.
    pub fn update_anger(&mut self, valid: &Vec<u128>, away: &Vec<u128>, targetable: bool)
        requires
            old(self).wf(),
        ensures
            final(self).wf(),
            old(self).spec_updated(*final(self), valid@, away@, targetable),
    {
        self.decay_anger(valid, away);
        let ghost calmer = *self;
        assert(old(self).spec_decayed(calmer, valid@, away@));
        if let Some(target) = self.target {
            if !targetable {
                self.clear_anger(target.uuid);
            }
            if !targetable || !self.anger_level().is_angry() {
                self.target = None;
            } else {
                proof {
                    assert(calmer.spec_reconsidered(*self, targetable));
                    assert(*self == self.spec_picked(valid@));
                }
                return;
            }
        }
        let ghost settled = *self;
        assert(calmer.spec_reconsidered(settled, targetable));
        if self.roar_target.is_none() && self.anger_level().is_angry() {
            if let Some(uuid) = self.first_suspect(valid) {
                self.roar_target = Some(uuid);
            }
        }
        assert(*self == settled.spec_picked(valid@));
    }

    /// The warden as it is while a tick goes by, before its sounds: it has looked at the
    /// border again, and then counted down.
    pub open spec fn spec_before_sound(self, border: Border) -> WardenEntity {
        WardenEntity { border, ..self }.spec_cooled()
    }

    /// The warden after a tick, but for what the steps of the tick do to it. A warden that
    /// is not alive stays as it is.
    pub open spec fn spec_ticked(self, border: Border, drawn: i32) -> WardenEntity {
        if self.alive {
            self.spec_before_sound(border).spec_after_sound(drawn)
        } else {
            self
        }
    }

    /// What a tick of a warden asks for, in order: the sound that it makes, darkness around
    /// it, in turns that differ from warden to warden, and every 20 ticks an update of its
    /// anger, which is then sent. A warden that is not alive asks for nothing.
    pub open spec fn tick_steps(self, border: Border, age: i32, drawn: i32) -> Seq<WardenStep> {
        if self.alive {
            let sound = self.spec_before_sound(border).spec_ambient_sound(drawn);
            let angers = age as int % (ANGERMANAGEMENT_TICK_DELAY as int) == 0;
            Seq::<WardenStep>::empty() + only_if(
                sound is Some,
                (WardenStep::PlayAmbientSound { sound: sound->0 }),
            ) + only_if(
                i32_sum(age, self.entity_id) % (DARKNESS_INTERVAL as int) == 0,
                WardenStep::SpreadDarkness,
            ) + only_if(angers, WardenStep::UpdateAnger) + only_if(
                angers,
                WardenStep::SyncClientAngerLevel,
            )
        } else {
            Seq::empty()
        }
    }

    /// Lets a tick go by for the warden, of the age, once a number below 1000 has been drawn
    /// for its sounds. What it asks for comes back in the order in which it has to be done.
    pub fn mob_tick_with_draw(&mut self, border: Border, age: i32, drawn: i32) -> (steps: Vec<
        WardenStep,
    >)
        ensures
            old(self).wf() ==> final(self).wf(),
            *final(self) == old(self).spec_ticked(border, drawn),
            steps@ == old(self).tick_steps(border, age, drawn),
    {
        let mut steps: Vec<WardenStep> = Vec::new();
        if !self.alive {
            return steps;
        }
        self.refresh_border_snapshot(border);
        self.tick_cooldowns();
        let sound: Option<WardenSound> = self.tick_ambient_sound_with_draw(drawn);
        assert(steps@ =~= Seq::<WardenStep>::empty());
        if let Some(sound) = sound {
            push_step(&mut steps, WardenStep::PlayAmbientSound { sound });
        }
        let sum: i32 = age.wrapping_add(self.entity_id);
        proof {
            assert(sum == i32_sum(age, self.entity_id));
        }
        push_if(&mut steps, is_multiple(sum, DARKNESS_INTERVAL), WardenStep::SpreadDarkness);
        let angers: bool = is_multiple(age, ANGERMANAGEMENT_TICK_DELAY);
        push_if(&mut steps, angers, WardenStep::UpdateAnger);
        push_if(&mut steps, angers, WardenStep::SyncClientAngerLevel);
        steps
    }

    /// Lets a tick go by for the warden, of the age, drawing the number for its sounds.
    pub fn mob_tick(&mut self, border: Border, age: i32) -> (steps: Vec<WardenStep>)
        ensures
            old(self).wf() ==> final(self).wf(),
            exists|drawn: i32|
                0 <= drawn < AMBIENT_SOUND_ODDS && *final(self) == old(self).spec_ticked(
                    border,
                    drawn,
                ) && steps@ == #[trigger] old(self).tick_steps(border, age, drawn),
    {
        let drawn: i32 = draw_range(0, AMBIENT_SOUND_ODDS);
        self.mob_tick_with_draw(border, age, drawn)
    }

    /// The warden after an attack by someone.
    pub open spec fn spec_hurt(
        self,
        after: WardenEntity,
        uuid: u128,
        attacker: Candidate,
        in_world: bool,
        by_hand: bool,
        distance_sq: Rank64,
    ) -> bool {
        exists|angered: WardenEntity|
            {
                &&& #[trigger] self.spec_angered(
                    angered,
                    uuid,
                    100,
                    found_in_world(attacker, in_world),
                )
                &&& after == (if angered.target is None && attacker.living && (by_hand
                    || distance_sq <= RETALIATION_DISTANCE_SQ) && in_world && angered.spec_can_target(attacker) {
                    angered.spec_striking(WardenTarget { uuid, is_player: attacker.is_player })
                } else {
                    angered
                })
            }
    }

    /// What an attack on the warden does to it: it grows truly angry at the attacker, and
    /// strikes back at once if it strikes no one and the attacker is a living thing that
    /// struck by hand or is near.
    pub fn on_damage(
        &mut self,
        attacker: Option<(u128, Candidate)>,
        in_world: bool,
        by_hand: bool,
        distance_sq: Rank64,
    )
        requires
            old(self).wf(),
        ensures
            final(self).wf(),
            old(self).no_ai || old(self).pose == WardenPose::Digging || old(self).pose
                == WardenPose::Emerging || attacker is None ==> *final(self) == *old(self),
            !(old(self).no_ai || old(self).pose == WardenPose::Digging || old(self).pose
                == WardenPose::Emerging) ==> (attacker matches Some((uuid, seen)) ==> old(
                self,
            ).spec_hurt(*final(self), uuid, seen, in_world, by_hand, distance_sq)),
    {
        if self.no_ai || self.pose == WardenPose::Digging || self.pose == WardenPose::Emerging {
            return;
        }
        let (uuid, seen): (u128, Candidate) = match attacker {
            Some(attacker) => attacker,
            None => {
                return;
            },
        };
        let found: Option<Candidate> = if in_world {
            Some(seen)
        } else {
            None
        };
        let amount: i32 = AngerLevel::Angry.minimum_anger() + ON_HURT_ANGER_BOOST;
        self.increase_anger_at_uuid(uuid, amount, false, found);
        let ghost angered = *self;
        assert(old(self).spec_angered(angered, uuid, 100, found_in_world(seen, in_world)));
        if self.target.is_some() || !seen.living {
            return;
        }
        if by_hand || distance_sq <= RETALIATION_DISTANCE_SQ {
            self.set_attack_target_by_uuid(uuid, found);
        }
    }

    /// The warden, which notices no other touch for a while.
    pub open spec fn spec_touched(self) -> WardenEntity {
        WardenEntity { touch_cooldown: TOUCH_COOLDOWN_TICKS, ..self }
    }

    /// The warden once it has grown angrier at someone and minds where they are, with the
    /// sound that it makes.
    pub open spec fn spec_startled(
        self,
        after: WardenEntity,
        uuid: u128,
        candidate: Option<Candidate>,
        pos: BlockPos,
        within_border: bool,
        sound: Option<WardenSound>,
    ) -> bool {
        exists|angered: WardenEntity|
            {
                &&& #[trigger] self.spec_angered(angered, uuid, DEFAULT_ANGER, candidate)
                &&& after == angered.spec_disturbed(pos, within_border)
                &&& sound == (if self.spec_notes(candidate) {
                    angered.spec_listening_sound()
                } else {
                    None
                })
            }
    }

    /// What the touch of a player does to the warden: it grows angrier at the player and
    /// minds where they are, but not twice in a short while. Returns the sound that it
    /// makes.
    pub fn mob_player_collision(
        &mut self,
        uuid: u128,
        player: Option<Candidate>,
        pos: BlockPos,
        within_border: bool,
    ) -> (sound: Option<WardenSound>)
        requires
            old(self).wf(),
        ensures
            final(self).wf(),
            old(self).no_ai || old(self).touch_cooldown > 0 ==> *final(self) == *old(self)
                && sound is None,
            !old(self).no_ai && old(self).touch_cooldown <= 0 ==> old(
                self,
            ).spec_touched().spec_startled(
                *final(self),
                uuid,
                player,
                pos,
                within_border,
                sound,
            ),
    {
        if self.no_ai || self.touch_cooldown > 0 {
            return None;
        }
        self.touch_cooldown = TOUCH_COOLDOWN_TICKS;
        let ghost touched = *self;
        let sound: Option<WardenSound> = self.increase_anger_at_uuid(
            uuid,
            DEFAULT_ANGER,
            true,
            player,
        );
        assert(touched.spec_angered(*self, uuid, DEFAULT_ANGER, player));
        self.set_disturbance_location(pos, within_border);
        sound
    }
}

/// The candidate, where the world still holds them.
pub open spec fn found_in_world(candidate: Candidate, in_world: bool) -> Option<Candidate> {
    if in_world {
        Some(candidate)
    } else {
        None
    }
}

/// The sum of two numbers, wrapped around in 32 bits.
pub open spec fn i32_sum(a: i32, b: i32) -> int {
    if a + b > i32::MAX {
        a + b - 0x1_0000_0000
    } else if a + b < i32::MIN {
        a + b + 0x1_0000_0000
    } else {
        a + b
    }
}

/// Whether a number is a multiple of a period.
fn is_multiple(number: i32, period: i32) -> (r: bool)
    requires
        period > 0,
    ensures
        r == (number as int % period as int == 0),
{
    crate::entity::living::effects::is_multiple(number, period)
}

/// Law: a warden picks only someone whom it may strike to roar at, and only while it is
/// truly angry and strikes no one.
pub proof fn law_update_picks_a_valid_suspect(warden: WardenEntity, valid: Seq<u128>)
    requires
        warden.roar_target is None,
        warden.spec_picked(valid).roar_target is Some,
    ensures
        valid.contains(warden.spec_picked(valid).roar_target->0),
        warden.spec_level() == AngerLevel::Angry,
        warden.target is None,
{
    lemma_first_valid_is_valid(warden.anger_management.order(), valid);
}

/// The first valid suspect is valid.
proof fn lemma_first_valid_is_valid(order: Seq<Suspect>, valid: Seq<u128>)
    ensures
        first_valid(order, valid) matches Some(uuid) ==> valid.contains(uuid),
    decreases order.len(),
{
    if order.len() > 0 {
        lemma_first_valid_is_valid(order.skip(1), valid);
    }
}

/// Law: while someone is away the anger at them passes as slowly as at anyone else, and
/// is not forgotten before it is used up.
pub proof fn law_anger_outlasts_absence(
    warden: WardenEntity,
    after: WardenEntity,
    valid: Seq<u128>,
    away: Seq<u128>,
    uuid: u128,
)
    requires
        warden.spec_decayed(after, valid, away),
        away.contains(uuid),
        warden.anger_management.anger().contains_key(uuid),
        lasts(warden.anger_management.anger()[uuid]),
    ensures
        after.anger_management.anger().contains_key(uuid),
        after.anger_management.anger()[uuid] == warden.anger_management.anger()[uuid] - 1,
{
}

/// Law: one attack makes a warden truly angry, however calm it was: whoever it can take
/// note of it then holds at least what makes it angry against.
pub proof fn law_one_attack_makes_angry(
    warden: WardenEntity,
    after: WardenEntity,
    uuid: u128,
    attacker: Candidate,
)
    requires
        warden.wf(),
        warden.anger_management.spec_anger_at(uuid) >= 0,
        warden.spec_notes(Some(attacker)),
        warden.spec_angered(after, uuid, 100, Some(attacker)),
    ensures
        AngerLevel::spec_by_anger(after.anger_management.spec_anger_at(uuid)) == AngerLevel::Angry,
{
}

// ---------------------------------------------------------------------------
// Further laws.
// ---------------------------------------------------------------------------

/// Law: a warden swims at all times, and then roars before it fights, booms before it runs up, looks
/// into noises before it sniffs, and roams last. It runs at 1.2 and roams at 0.5.
pub proof fn law_what_a_warden_does_first(r: Vec<(u8, WardenGoal)>, i: int)
    requires
        call_ensures(WardenEntity::goals, (), r),
        0 <= i < r@.len(),
    ensures
        r@.len() == 8,
        r@[i].0 == i,
        r@[0].1 == WardenGoal::Swim,
        r@[1].1 == WardenGoal::Roar,
        r@[2].1 == WardenGoal::SonicBoom,
        r@[3].1 is MeleeAttack,
        r@[3].1->MeleeAttack_speed == 0x3FF3_3333_3333_3333,
        !r@[3].1->pause_when_mob_idle,
        r@[4].1 == WardenGoal::InvestigateDisturbance,
        r@[5].1 == WardenGoal::Sniff,
        r@[6].1 is WanderAround,
        r@[6].1->WanderAround_speed == 0x3FE0_0000_0000_0000,
        r@[7].1 == WardenGoal::RandomLookAround,
{
}

/// Law: a new warden holds nothing against anyone, strikes no one and minds nothing. It follows
/// others over 24 blocks.
pub proof fn law_new_warden_is_calm(
    living: &mut LivingEntity,
    follow_range: u8,
    r: WardenEntity,
    uuid: u128,
)
    requires
        call_ensures(WardenEntity::new, (living, follow_range), r),
    ensures
        !r.anger_management.anger().contains_key(uuid),
        r.entity_id == old(living).entity_id,
        r.alive,
        !r.no_ai,
        r.target is None,
        r.roar_target is None,
        r.disturbance_location is None,
        r.pose == WardenPose::Standing,
        r.client_anger_level == -1,
        r.vibration_cooldown == 0 && r.touch_cooldown == 0 && r.sonic_boom_cooldown == 0,
        r.ambient_sound_time == 0,
        r.border.max_x == 0x417C_9C37_0000_0000,
        r.border.min_x == -0x417C_9C37_0000_0000,
        r.border.max_z == 0x417C_9C37_0000_0000,
        r.border.min_z == -0x417C_9C37_0000_0000,
        attribute_values(final(living).attributes@).contains_key(follow_range),
        attribute_values(final(living).attributes@)[follow_range].0 == 0x4038_0000_0000_0000,
        final(living).health == old(living).health,
{
}

/// Law: a warden strikes what lives, takes part in the game and can be hurt, within the border of its
/// world; never itself, another warden or an armour stand.
pub proof fn law_whom_a_warden_may_strike(
    warden: WardenEntity,
    candidate: Candidate,
    r: bool,
    within: bool,
)
    requires
        call_ensures(WardenEntity::can_target_entity, (&warden, &candidate), r),
        call_ensures(WardenEntity::is_within_border, (&warden, candidate.x, candidate.z), within),
    ensures
        within <==> warden.border.min_x <= candidate.x && candidate.x < warden.border.max_x
            && warden.border.min_z <= candidate.z && candidate.z < warden.border.max_z,
        r ==> candidate.living && candidate.same_world && candidate.alive && within,
        r ==> !candidate.spectator && !candidate.invulnerable,
        candidate.is_player && candidate.creative ==> !r,
        candidate.entity_type == EntityType::ArmorStand || candidate.entity_type
            == EntityType::Warden || candidate.entity_id == warden.entity_id ==> !r,
        candidate.living && candidate.same_world && candidate.alive && within
            && !candidate.spectator && !candidate.invulnerable && (!candidate.is_player
            || !candidate.creative) && candidate.entity_type != EntityType::ArmorStand
            && candidate.entity_type != EntityType::Warden && candidate.entity_id
            != warden.entity_id ==> r,
{
}

/// Law: a warden is as angry as it is at its target, or else as at whom it is angriest at: agitated
/// from 40 on, and angry from 80 on. It sounds so as it listens, unless it roars.
pub proof fn law_how_angry_a_warden_is(
    warden: WardenEntity,
    anger: i32,
    level: AngerLevel,
    sound: Option<WardenSound>,
)
    requires
        call_ensures(WardenEntity::active_anger, (&warden,), anger),
        call_ensures(WardenEntity::anger_level, (&warden,), level),
        call_ensures(WardenEntity::play_listening_sound, (&warden,), sound),
    ensures
        warden.target is Some && warden.anger_management.anger().contains_key(
            warden.target->0.uuid,
        ) ==> anger == warden.anger_management.anger()[warden.target->0.uuid],
        warden.target is Some && !warden.anger_management.anger().contains_key(
            warden.target->0.uuid,
        ) ==> anger == 0,
        warden.target is None ==> anger == warden.anger_management.highest(),
        level == AngerLevel::Angry <==> anger >= 80,
        level == AngerLevel::Calm <==> anger < 40,
        sound is None <==> warden.pose == WardenPose::Roaring,
        sound is Some ==> (sound->0 == WardenSound::Listening <==> anger < 40),
        sound is Some ==> (sound->0 == WardenSound::ListeningAngry <==> anger >= 40),
{
}

/// Law: a warden grows angrier at someone whom it may strike, by the amount, up to 150, and at nobody
/// else. It leaves a target that is no player for a player that it is then truly angry at. What it
/// cannot take note of, or a warden without a will, changes nothing.
pub proof fn law_warden_grows_angrier(
    warden: &mut WardenEntity,
    uuid: u128,
    amount: i32,
    play_sound: bool,
    candidate: Option<Candidate>,
    sound: Option<WardenSound>,
    other: u128,
    may: bool,
)
    requires
        call_ensures(
            WardenEntity::increase_anger_at_uuid,
            (warden, uuid, amount, play_sound, candidate),
            sound,
        ),
        candidate is Some ==> call_ensures(
            WardenEntity::can_target_entity,
            (&*old(warden), &candidate->0),
            may,
        ),
        i32::MIN <= old(warden).anger_management.spec_anger_at(uuid) + amount <= i32::MAX,
    ensures
        ({
            let notes = !old(warden).no_ai && candidate is Some && may;
            let before = old(warden).anger_management.anger();
            let after = final(warden).anger_management.anger();
            let had = if before.contains_key(uuid) {
                before[uuid] as int
            } else {
                0
            };
            &&& !notes ==> *final(warden) == *old(warden) && sound is None
            &&& notes ==> after.contains_key(uuid)
            &&& notes && had + amount <= 150 ==> after[uuid] == had + amount
            &&& notes && had + amount > 150 ==> after[uuid] == 150
            &&& other != uuid ==> after.contains_key(other) == before.contains_key(other)
            &&& other != uuid && before.contains_key(other) ==> after[other] == before[other]
            &&& !play_sound ==> sound is None
            &&& notes && play_sound && final(warden).pose != WardenPose::Roaring ==> sound is Some
            &&& notes && candidate->0.is_player && old(warden).target is Some
                && !old(warden).target->0.is_player && had + amount >= 80 ==> final(warden).target is None
            &&& notes && old(warden).target is Some && old(warden).target->0.is_player ==> final(warden).target == old(warden).target
            &&& had + amount < 80 ==> final(warden).target == old(warden).target
            &&& candidate is Some && !candidate->0.is_player ==> final(warden).target == old(warden).target
            &&& final(warden).roar_target == old(warden).roar_target
            &&& final(warden).disturbance_location == old(warden).disturbance_location
        }),
{
}

/// Law: whom a warden strikes it strikes by hand for 200 ticks before its first boom, no longer about
/// to roar and minding no noise. It strikes nobody whom it may not strike, and it can always stop.
pub proof fn law_warden_strikes_whom_it_may(
    warden: &mut WardenEntity,
    target: WardenTarget,
    candidate: Candidate,
    may: bool,
    stopped: &mut WardenEntity,
)
    requires
        call_ensures(WardenEntity::set_attack_target, (warden, target, &candidate), ()),
        call_ensures(WardenEntity::can_target_entity, (&*old(warden), &candidate), may),
        call_ensures(WardenEntity::set_mob_target, (stopped, None), ()),
    ensures
        !may ==> *final(warden) == *old(warden),
        may ==> {
            &&& final(warden).target == Some(target)
            &&& final(warden).roar_target is None
            &&& final(warden).disturbance_location is None
            &&& final(warden).sonic_boom_cooldown == 200
            &&& final(warden).anger_management == old(warden).anger_management
        },
        final(stopped).target is None,
        final(stopped).roar_target == old(stopped).roar_target,
        final(stopped).anger_management == old(stopped).anger_management,
{
}

/// Law: a warden that is given a target strikes it just as one that picked it, by its number or as a
/// mob, where it may.
pub proof fn law_given_targets_are_struck(
    first: &mut WardenEntity,
    second: &mut WardenEntity,
    uuid: u128,
    candidate: Candidate,
    target: WardenTarget,
    may_first: bool,
    may_second: bool,
)
    requires
        call_ensures(WardenEntity::set_attack_target_by_uuid, (first, uuid, Some(candidate)), ()),
        call_ensures(WardenEntity::can_target_entity, (&*old(first), &candidate), may_first),
        call_ensures(WardenEntity::set_mob_target, (second, Some((target, candidate))), ()),
        call_ensures(WardenEntity::can_target_entity, (&*old(second), &candidate), may_second),
    ensures
        may_first ==> final(first).target is Some && final(first).target->0.uuid == uuid && final(first).target->0.is_player == candidate.is_player && final(first).sonic_boom_cooldown == 200,
        !may_first ==> *final(first) == *old(first),
        may_second ==> final(second).target == Some(target) && final(second).sonic_boom_cooldown
            == 200 && final(second).roar_target is None,
        !may_second ==> *final(second) == *old(second),
{
}

/// Law: a warden remembers a noise for 100 ticks, where it is within the border and the warden is not
/// angry, strikes no one and is not about to roar.
pub proof fn law_warden_minds_noises(
    warden: &mut WardenEntity,
    pos: BlockPos,
    within_border: bool,
    anger: i32,
)
    requires
        call_ensures(WardenEntity::set_disturbance_location, (warden, pos, within_border), ()),
        call_ensures(WardenEntity::active_anger, (&*old(warden),), anger),
    ensures
        ({
            let minds = within_border && old(warden).target is None && old(warden).roar_target is None && anger < 80;
            &&& minds ==> final(warden).disturbance_location == Some(pos) && final(warden).disturbance_ticks == 100
            &&& !minds ==> *final(warden) == *old(warden)
        }),
        final(warden).anger_management == old(warden).anger_management,
{
}

/// Law: a player near a warden sees darkness for 260 ticks, unless it only looks on, creates, or has
/// 200 ticks of it left. It shows neither particles nor an icon.
pub proof fn law_warden_darkens(
    spectator: bool,
    creative: bool,
    left: Option<i32>,
    r: Option<Effect>,
)
    requires
        call_ensures(WardenEntity::apply_darkness_around, (spectator, creative, left), r),
    ensures
        spectator || creative ==> r is None,
        left is Some && left->0 >= 200 ==> r is None,
        !spectator && !creative && (left is None || left->0 < 200) ==> r is Some,
        r is Some ==> {
            &&& r->0.effect_type == StatusEffect::Darkness
            &&& r->0.duration == 260
            &&& r->0.amplifier == 0
            &&& !r->0.ambient
            &&& !r->0.show_particles
            &&& !r->0.show_icon
        },
{
}

/// Law: the longer a warden has been quiet the likelier it makes a sound, never within 80 ticks of the
/// last one, and none while it roars, digs or emerges. The sound is that of its anger.
pub proof fn law_warden_sounds_as_it_roams(
    warden: &mut WardenEntity,
    drawn: i32,
    r: Option<WardenSound>,
    anger: i32,
)
    requires
        call_ensures(WardenEntity::tick_ambient_sound_with_draw, (warden, drawn), r),
        call_ensures(WardenEntity::active_anger, (&*old(warden),), anger),
        0 <= drawn < 1000,
    ensures
        ({
            let quiet = old(warden).pose == WardenPose::Roaring || old(warden).pose
                == WardenPose::Digging || old(warden).pose == WardenPose::Emerging;
            &&& r is Some <==> !quiet && drawn < old(warden).ambient_sound_time
            &&& quiet ==> *final(warden) == *old(warden)
            &&& old(warden).ambient_sound_time <= 0 ==> r is None
            &&& r is Some ==> final(warden).ambient_sound_time == -80
            &&& !quiet && r is None ==> final(warden).ambient_sound_time == old(warden).ambient_sound_time + 1
            &&& r is Some && anger < 40 ==> r->0 == WardenSound::Ambient
            &&& r is Some && 40 <= anger < 80 ==> r->0 == WardenSound::Agitated
            &&& r is Some && anger >= 80 ==> r->0 == WardenSound::Angry
        }),
{
}

/// Law: the players around are told of a warden's anger whenever it has changed, and only then.
pub proof fn law_changed_anger_is_told(warden: &mut WardenEntity, r: Option<i32>, anger: i32)
    requires
        call_ensures(WardenEntity::sync_client_anger_level, (warden,), r),
        call_ensures(WardenEntity::active_anger, (&*old(warden),), anger),
    ensures
        final(warden).client_anger_level == anger,
        r is Some <==> old(warden).client_anger_level != anger,
        r is Some ==> r->0 == anger,
        final(warden).anger_management == old(warden).anger_management,
{
}

/// Law: each tick takes one off all that a warden counts down, and none of it goes below 0. A noise is
/// forgotten with its last tick.
pub proof fn law_warden_counts_down(warden: &mut WardenEntity)
    requires
        call_ensures(WardenEntity::tick_cooldowns, (warden,), ()),
        old(warden).vibration_cooldown >= 0,
        old(warden).touch_cooldown >= 0,
        old(warden).sonic_boom_cooldown >= 0,
        old(warden).disturbance_ticks >= 0,
    ensures
        final(warden).vibration_cooldown == (if old(warden).vibration_cooldown > 0 {
            old(warden).vibration_cooldown - 1
        } else {
            0
        }),
        final(warden).touch_cooldown == (if old(warden).touch_cooldown > 0 {
            old(warden).touch_cooldown - 1
        } else {
            0
        }),
        final(warden).sonic_boom_cooldown == (if old(warden).sonic_boom_cooldown > 0 {
            old(warden).sonic_boom_cooldown - 1
        } else {
            0
        }),
        final(warden).disturbance_ticks == (if old(warden).disturbance_ticks > 0 {
            old(warden).disturbance_ticks - 1
        } else {
            0
        }),
        old(warden).disturbance_ticks == 1 ==> final(warden).disturbance_location is None,
        old(warden).disturbance_ticks != 1 ==> final(warden).disturbance_location == old(warden).disturbance_location,
        final(warden).target == old(warden).target,
        final(warden).anger_management == old(warden).anger_management,
{
}

/// Law: an update lets 1 of the anger at everyone pass, and all of it at whoever is neither valid nor
/// away or has little left. A target that may not be struck is dropped and forgiven, and so is one
/// that the warden is no longer angry at dropped.
pub proof fn law_anger_is_updated(
    warden: &mut WardenEntity,
    valid: Vec<u128>,
    away: Vec<u128>,
    targetable: bool,
    uuid: u128,
)
    requires
        call_ensures(WardenEntity::update_anger, (warden, &valid, &away, targetable), ()),
    ensures
        ({
            let before = old(warden).anger_management.anger();
            let after = final(warden).anger_management.anger();
            let forgiven = old(warden).target is Some && old(warden).target->0.uuid == uuid
                && !targetable;
            let stays = before.contains_key(uuid) && before[uuid] > 2 && (valid@.contains(uuid)
                || away@.contains(uuid)) && !forgiven;
            &&& after.contains_key(uuid) <==> stays
            &&& stays ==> after[uuid] == before[uuid] - 1
            &&& old(warden).target is None ==> final(warden).target is None
            &&& old(warden).target is Some && !targetable ==> final(warden).target is None
            &&& old(warden).target is Some && targetable ==> {
                let held = old(warden).target->0.uuid;
                let kept = before.contains_key(held) && before[held] > 80 && (valid@.contains(held)
                    || away@.contains(held));
                &&& kept ==> final(warden).target == old(warden).target
                &&& !kept ==> final(warden).target is None
            }
            &&& old(warden).roar_target is Some ==> final(warden).roar_target == old(warden).roar_target
            &&& final(warden).roar_target is Some && old(warden).roar_target is None
                ==> valid@.contains(final(warden).roar_target->0) && final(warden).target is None
        }),
{
    let (calmer, settled) = choose|calmer: WardenEntity, settled: WardenEntity|
        {
            &&& #[trigger] old(warden).spec_decayed(calmer, valid@, away@)
            &&& #[trigger] calmer.spec_reconsidered(settled, targetable)
            &&& *final(warden) == settled.spec_picked(valid@)
        };
    lemma_first_valid_is_valid(settled.anger_management.order(), valid@);
}

/// Law: a living warden looks at the border in each tick, updates its anger every 20 ticks and sends
/// it then, and spreads darkness every 120, in turns of its own. It asks for nothing once dead.
pub proof fn law_rhythm_of_a_warden(
    warden: &mut WardenEntity,
    border: Border,
    age: i32,
    drawn: i32,
    steps: Vec<WardenStep>,
)
    requires
        call_ensures(WardenEntity::mob_tick_with_draw, (warden, border, age, drawn), steps),
        0 <= age,
        0 <= old(warden).entity_id,
        age + old(warden).entity_id <= i32::MAX,
    ensures
        !old(warden).alive ==> steps@.len() == 0 && *final(warden) == *old(warden),
        old(warden).alive ==> {
            &&& final(warden).border == border
            &&& steps@.contains(WardenStep::UpdateAnger) <==> age as int % 20 == 0
            &&& steps@.contains(WardenStep::SyncClientAngerLevel) <==> age as int % 20 == 0
            &&& steps@.contains(WardenStep::SpreadDarkness) <==> (age + old(warden).entity_id) % 120
                == 0
            &&& age as int % 20 == 0 ==> steps@.last() == WardenStep::SyncClientAngerLevel
            &&& final(warden).target == old(warden).target
            &&& final(warden).anger_management == old(warden).anger_management
            &&& old(warden).touch_cooldown > 0 ==> final(warden).touch_cooldown == old(warden).touch_cooldown - 1
        },
{
    broadcast use crate::plan::lemma_plan_contains;
    broadcast use crate::plan::lemma_only_if_contains;

}

/// Law: an attack makes a warden 100 angrier at the attacker, up to 150, where it may strike it. It
/// strikes back at once where it strikes no one and the attacker struck by hand or is within 5
/// blocks. A warden that digs, emerges or has no will minds no attack.
pub proof fn law_warden_strikes_back(
    warden: &mut WardenEntity,
    uuid: u128,
    attacker: Candidate,
    in_world: bool,
    by_hand: bool,
    distance_sq: Rank64,
    may: bool,
)
    requires
        call_ensures(
            WardenEntity::on_damage,
            (warden, Some((uuid, attacker)), in_world, by_hand, distance_sq),
            (),
        ),
        call_ensures(WardenEntity::can_target_entity, (&*old(warden), &attacker), may),
        old(warden).wf(),
    ensures
        ({
            let minds = !old(warden).no_ai && old(warden).pose != WardenPose::Digging && old(warden).pose != WardenPose::Emerging && in_world && may;
            let before = old(warden).anger_management.anger();
            let after = final(warden).anger_management.anger();
            let had = if before.contains_key(uuid) {
                before[uuid] as int
            } else {
                0
            };
            &&& !minds ==> *final(warden) == *old(warden)
            &&& minds && had + 100 <= 150 ==> after.contains_key(uuid) && after[uuid] == had + 100
            &&& minds && had + 100 > 150 ==> after.contains_key(uuid) && after[uuid] == 150
            &&& minds && old(warden).target is None && (by_hand || distance_sq
                <= 0x4039_0000_0000_0000) ==> {
                &&& final(warden).target is Some
                &&& final(warden).target->0.uuid == uuid
                &&& final(warden).target->0.is_player == attacker.is_player
                &&& final(warden).sonic_boom_cooldown == 200
            }
            &&& minds && old(warden).target is None && !by_hand && distance_sq
                > 0x4039_0000_0000_0000 ==> final(warden).target is None
        }),
{
    if !old(warden).no_ai && old(warden).pose != WardenPose::Digging && old(warden).pose
        != WardenPose::Emerging {
        let angered = choose|angered: WardenEntity|
            {
                &&& #[trigger] old(warden).spec_angered(
                    angered,
                    uuid,
                    100,
                    found_in_world(attacker, in_world),
                )
                &&& *final(warden) == (if angered.target is None && attacker.living && (by_hand
                    || distance_sq <= RETALIATION_DISTANCE_SQ) && in_world
                    && angered.spec_can_target(attacker) {
                    angered.spec_striking(WardenTarget { uuid, is_player: attacker.is_player })
                } else {
                    angered
                })
            };
        assert(angered.entity_id == old(warden).entity_id);
        assert(angered.border == old(warden).border);
    }
}

/// Law: the touch of a player makes a warden 35 angrier at it and mind where it is, but not twice
/// within 20 ticks.
pub proof fn law_warden_minds_touches(
    warden: &mut WardenEntity,
    uuid: u128,
    player: Candidate,
    pos: BlockPos,
    within_border: bool,
    sound: Option<WardenSound>,
    may: bool,
)
    requires
        call_ensures(
            WardenEntity::mob_player_collision,
            (warden, uuid, Some(player), pos, within_border),
            sound,
        ),
        call_ensures(WardenEntity::can_target_entity, (&*old(warden), &player), may),
    ensures
        ({
            let before = old(warden).anger_management.anger();
            let after = final(warden).anger_management.anger();
            let had = if before.contains_key(uuid) {
                before[uuid] as int
            } else {
                0
            };
            let minds = !old(warden).no_ai && old(warden).touch_cooldown <= 0;
            &&& !minds ==> *final(warden) == *old(warden) && sound is None
            &&& minds ==> final(warden).touch_cooldown == 20
            &&& minds && may && had + 35 <= 150 ==> after.contains_key(uuid) && after[uuid] == had
                + 35
            &&& minds && may && had + 35 > 150 ==> after.contains_key(uuid) && after[uuid] == 150
            &&& minds && !may ==> after == before && sound is None
            &&& minds && !within_border ==> final(warden).disturbance_location == old(warden).disturbance_location
        }),
{
    if !old(warden).no_ai && old(warden).touch_cooldown <= 0 {
        let touched = old(warden).spec_touched();
        let angered = choose|angered: WardenEntity|
            {
                &&& #[trigger] touched.spec_angered(angered, uuid, DEFAULT_ANGER, Some(player))
                &&& *final(warden) == angered.spec_disturbed(pos, within_border)
                &&& sound == (if touched.spec_notes(Some(player)) {
                    angered.spec_listening_sound()
                } else {
                    None
                })
            };
        assert(touched.border == old(warden).border);
    }
}

/// Every suspect before the first valid one is not valid, and that one is.
proof fn lemma_valid_suspect(order: Seq<Suspect>, valid: Seq<u128>)
    ensures
        first_valid(order, valid) matches Some(uuid) ==> valid.contains(uuid) && exists|i: int|
            0 <= i < order.len() && (#[trigger] order[i]).uuid == uuid && forall|j: int|
                0 <= j < i ==> !valid.contains((#[trigger] order[j]).uuid),
        first_valid(order, valid) is None ==> forall|i: int|
            0 <= i < order.len() ==> !valid.contains((#[trigger] order[i]).uuid),
    decreases order.len(),
{
    if order.len() > 0 {
        let rest = order.skip(1);
        lemma_valid_suspect(rest, valid);
        if !valid.contains(order.first().uuid) {
            assert forall|i: int| 0 < i < order.len() implies order[i] == rest[i - 1] by {}
            if first_valid(rest, valid) is Some {
                let k = choose|k: int|
                    0 <= k < rest.len() && (#[trigger] rest[k]).uuid == first_valid(rest, valid)->0
                        && forall|j: int|
                        0 <= j < k ==> !valid.contains((#[trigger] rest[j]).uuid);
                assert(order[k + 1].uuid == first_valid(order, valid)->0);
                assert forall|j: int| 0 <= j < k + 1 implies !valid.contains(
                    (#[trigger] order[j]).uuid,
                ) by {
                    if j > 0 {
                        assert(order[j] == rest[j - 1]);
                    }
                }
            } else {
                assert forall|i: int| 0 <= i < order.len() implies !valid.contains(
                    (#[trigger] order[i]).uuid,
                ) by {
                    if i > 0 {
                        assert(order[i] == rest[i - 1]);
                    }
                }
            }
        } else {
            assert(order[0].uuid == order.first().uuid);
        }
    }
}

/// Law: the first suspect is valid, and nobody valid comes before it in the order of suspects; where
/// there is none, nobody in that order is valid.
pub(crate) proof fn law_first_suspect_is_the_first_valid_one(
    warden: WardenEntity,
    valid: Vec<u128>,
    r: Option<u128>,
)
    requires
        call_ensures(WardenEntity::first_suspect, (&warden, &valid), r),
    ensures
        r is Some ==> valid@.contains(r->0) && exists|i: int|
            {
                &&& 0 <= i < warden.anger_management.order().len()
                &&& (#[trigger] warden.anger_management.order()[i]).uuid == r->0
                &&& forall|j: int|
                    0 <= j < i ==> !valid@.contains(
                        (#[trigger] warden.anger_management.order()[j]).uuid,
                    )
            },
        r is None ==> forall|i: int|
            0 <= i < warden.anger_management.order().len() ==> !valid@.contains(
                (#[trigger] warden.anger_management.order()[i]).uuid,
            ),
{
    lemma_valid_suspect(warden.anger_management.order(), valid@);
}

/// Law: a list holds just the uuids that are in it, and a warden that looks at the border again goes by
/// that one and is otherwise as it was.
pub proof fn law_border_is_looked_at_again(
    warden: &mut WardenEntity,
    border: Border,
    list: Vec<u128>,
    uuid: u128,
    r: bool,
    i: int,
)
    requires
        call_ensures(WardenEntity::refresh_border_snapshot, (warden, border), ()),
        call_ensures(holds_uuid, (&list, uuid), r),
    ensures
        final(warden).border == border,
        *final(warden) == (WardenEntity { border, ..*old(warden) }),
        0 <= i < list@.len() && list@[i] == uuid ==> r,
        (forall|j: int| 0 <= j < list@.len() ==> #[trigger] list@[j] != uuid) ==> !r,
{
}

/// Law: all anger at the one is forgotten, and none at anyone else.
pub proof fn law_forgotten_anger_is_gone(warden: &mut WardenEntity, uuid: u128, other: u128)
    requires
        call_ensures(WardenEntity::clear_anger, (warden, uuid), ()),
    ensures
        !final(warden).anger_management.anger().contains_key(uuid),
        other != uuid ==> (final(warden).anger_management.anger().contains_key(other) <==> old(warden).anger_management.anger().contains_key(other)),
        other != uuid && old(warden).anger_management.anger().contains_key(other) ==> final(warden).anger_management.anger()[other] == old(warden).anger_management.anger()[other],
        final(warden).target == old(warden).target,
{
}

/// Law: whatever is drawn, a warden that roars, digs or emerges is not heard to roam, nor one that has
/// just been heard; one that has long been quiet is, and then is quiet for 80 ticks at least.
pub proof fn law_quiet_wardens_are_heard_in_the_end(
    warden: &mut WardenEntity,
    r: Option<WardenSound>,
)
    requires
        call_ensures(WardenEntity::tick_ambient_sound, (warden,), r),
    ensures
        ({
            let quiet = old(warden).pose == WardenPose::Roaring || old(warden).pose
                == WardenPose::Digging || old(warden).pose == WardenPose::Emerging;
            &&& quiet ==> r is None && *final(warden) == *old(warden)
            &&& old(warden).ambient_sound_time <= 0 ==> r is None
            &&& !quiet && old(warden).ambient_sound_time >= 1000 ==> r is Some
            &&& r is Some ==> final(warden).ambient_sound_time == -80
        }),
{
}

/// Law: whatever is drawn, a tick of a warden that lives updates its anger every 20 ticks and spreads
/// darkness every 120, and that of any other does nothing.
pub proof fn law_drawn_tick_of_a_warden(
    warden: &mut WardenEntity,
    border: Border,
    age: i32,
    steps: Vec<WardenStep>,
)
    requires
        call_ensures(WardenEntity::mob_tick, (warden, border, age), steps),
        0 <= age,
        0 <= old(warden).entity_id,
        age + old(warden).entity_id <= i32::MAX,
    ensures
        !old(warden).alive ==> steps@.len() == 0 && *final(warden) == *old(warden),
        old(warden).alive ==> {
            &&& final(warden).border == border
            &&& steps@.contains(WardenStep::UpdateAnger) <==> age as int % 20 == 0
            &&& steps@.contains(WardenStep::SpreadDarkness) <==> (age + old(warden).entity_id) % 120
                == 0
            &&& final(warden).anger_management == old(warden).anger_management
        },
{
    broadcast use crate::plan::lemma_plan_contains;
    broadcast use crate::plan::lemma_only_if_contains;

}

} // verus!
