//! Mobs: living entities with goals of their own.

use vstd::prelude::*;

use crate::data::position::BlockPos;
use crate::entity::ai::goal::goal_selector::{lemma_running_places, running_places, GoalSelector};
use crate::entity::ai::pathfinder::Navigator;
use crate::entity::living::LivingEntity;

pub mod creeper;
pub mod entity_base;
pub mod interact;
pub mod spawn_rules;
pub mod warden;

verus! {

/// Set while a mob does nothing of its own.
pub const AI_DISABLED_FLAG: u8 = 1;

/// Set on a mob whose main hand is the left one.
pub const LEFT_HANDED_FLAG: u8 = 2;

/// Set while a mob attacks.
pub const ATTACKING_FLAG: u8 = 4;

/// Set on a mob that picks up what lies about.
pub const CAN_PICK_UP_LOOT_FLAG: u8 = 8;

/// Stands for a mob that is not bound to any place.
pub const UNBOUND: i32 = -1;

/// A mob.
pub struct MobEntity {
    pub living_entity: LivingEntity,
    pub goals_selector: GoalSelector,
    pub target_selector: GoalSelector,
    pub navigator: Navigator,
    /// The number of the entity that the mob is after.
    pub target: Option<i32>,
    /// The place that the mob is bound to stay near.
    pub position_target: BlockPos,
    /// How far from there it may go.
    pub position_target_range: i32,
    pub love_ticks: i32,
    pub breeding_cooldown: i32,
    pub breeder: Option<u128>,
    pub can_break_doors: bool,
    /// Whether that was saved with the mob.
    pub can_break_doors_loaded: bool,
    /// How many ticks the mob has been far from all players.
    pub despawn_counter: i32,
    pub mob_flags: u8,
    pub last_sent_yaw: u8,
    pub last_sent_pitch: u8,
    pub last_sent_head_yaw: u8,
    /// The number of the entity that holds the mob's leash.
    pub leashed_to: Option<i32>,
}

/// The flags with one of them set or cleared.
pub open spec fn with_flag(flags: u8, flag: u8, value: bool) -> u8 {
    if value {
        flags | flag
    } else {
        flags & !flag
    }
}

/// The flag is set.
pub open spec fn has_flag(flags: u8, flag: u8) -> bool {
    flags & flag != 0
}

/// One of the four flags.
pub open spec fn is_flag(flag: u8) -> bool {
    flag == AI_DISABLED_FLAG || flag == LEFT_HANDED_FLAG || flag == ATTACKING_FLAG || flag
        == CAN_PICK_UP_LOOT_FLAG
}

/// Law: a flag is what it was last set to, and setting one leaves the others as they were.
pub proof fn law_flags_are_independent(flags: u8, flag: u8, other: u8, value: bool)
    requires
        is_flag(flag),
        is_flag(other),
    ensures
        has_flag(with_flag(flags, flag, value), flag) == value,
        other != flag ==> has_flag(with_flag(flags, flag, value), other) == has_flag(flags, other),
{
    assert((flag == 1 || flag == 2 || flag == 4 || flag == 8) ==> (flags | flag) & flag != 0 && (
    flags & !flag) & flag == 0) by (bit_vector);
    assert((flag == 1 || flag == 2 || flag == 4 || flag == 8) && (other == 1 || other == 2 || other
        == 4 || other == 8) && flag != other ==> (flags | flag) & other == flags & other && (flags
        & !flag) & other == flags & other) by (bit_vector);
}

/// The square of a difference.
pub open spec fn gap_squared(a: i32, b: i32) -> int {
    (a - b) * (a - b)
}

/// The square of the distance between two blocks.
pub open spec fn block_distance_squared(a: BlockPos, b: BlockPos) -> int {
    gap_squared(a.x, b.x) + gap_squared(a.y, b.y) + gap_squared(a.z, b.z)
}

/// The square of a difference.
fn square_gap(a: i32, b: i32) -> (r: i128)
    ensures
        r == gap_squared(a, b),
        0 <= r <= 0x1_0000_0000_0000_0000,
{
    let gap: i128 = a as i128 - b as i128;
    assert(0 <= gap * gap <= 0x1_0000_0000 * 0x1_0000_0000) by (nonlinear_arith)
        requires
            -0x1_0000_0000 <= gap <= 0x1_0000_0000,
    ;
    gap * gap
}

impl MobEntity {
    /// The goals of the mob are in order.
    pub open spec fn wf(self) -> bool {
        self.living_entity.wf() && self.goals_selector.wf() && self.target_selector.wf()
    }

    /// A mob as it comes into the world.
    pub fn new(living_entity: LivingEntity) -> (r: Self)
        requires
            living_entity.wf(),
        ensures
            r.wf(),
            r.goals_selector.is_new(),
            r.target_selector.is_new(),
            r.navigator.is_new(),
            r.navigator.can_open_doors is None,
            r == (MobEntity {
                living_entity,
                goals_selector: r.goals_selector,
                target_selector: r.target_selector,
                navigator: r.navigator,
                target: None,
                position_target: BlockPos { x: 0, y: 0, z: 0 },
                position_target_range: UNBOUND,
                love_ticks: 0,
                breeding_cooldown: 0,
                breeder: None,
                can_break_doors: false,
                can_break_doors_loaded: false,
                despawn_counter: 0,
                mob_flags: 0,
                last_sent_yaw: 0,
                last_sent_pitch: 0,
                last_sent_head_yaw: 0,
                leashed_to: None,
            }),
    {
        MobEntity {
            living_entity,
            goals_selector: GoalSelector::default(),
            target_selector: GoalSelector::default(),
            navigator: Navigator::default(),
            target: None,
            position_target: BlockPos { x: 0, y: 0, z: 0 },
            position_target_range: UNBOUND,
            love_ticks: 0,
            breeding_cooldown: 0,
            breeder: None,
            can_break_doors: false,
            can_break_doors_loaded: false,
            despawn_counter: 0,
            mob_flags: 0,
            last_sent_yaw: 0,
            last_sent_pitch: 0,
            last_sent_head_yaw: 0,
            leashed_to: None,
        }
    }

    /// How many ticks the mob has been far from all players.
    pub fn no_action_time(&self) -> (r: i32)
        ensures
            r == self.despawn_counter,
    {
        self.despawn_counter
    }

    /// The place is one where the mob may be.
    pub open spec fn spec_in_range(self, block_pos: BlockPos) -> bool {
        self.position_target_range == UNBOUND || block_distance_squared(
            self.position_target,
            block_pos,
        ) < self.position_target_range * self.position_target_range
    }

    /// Whether the mob, standing in the block, is where it may be.
    pub fn is_in_position_target_range(&self, own_pos: &BlockPos) -> (r: bool)
        ensures
            r == self.spec_in_range(*own_pos),
    {
        self.is_in_position_target_range_pos(own_pos)
    }

    /// Whether the place is one where the mob may be.
    pub fn is_in_position_target_range_pos(&self, block_pos: &BlockPos) -> (r: bool)
        ensures
            r == self.spec_in_range(*block_pos),
    {
        if self.position_target_range == UNBOUND {
            return true;
        }
        let distance: i128 = square_gap(self.position_target.x, block_pos.x) + square_gap(
            self.position_target.y,
            block_pos.y,
        ) + square_gap(self.position_target.z, block_pos.z);
        distance < square_gap(self.position_target_range, 0)
    }

    /// Sets or clears a flag. Returns the flags where they changed and have to be sent.
    fn set_mob_flag(&mut self, flag: u8, value: bool) -> (r: Option<u8>)
        ensures
            *final(self) == (MobEntity {
                mob_flags: with_flag(old(self).mob_flags, flag, value),
                ..*old(self)
            }),
            r == (if final(self).mob_flags != old(self).mob_flags {
                Some(final(self).mob_flags)
            } else {
                None
            }),
    {
        let before: u8 = self.mob_flags;
        let after: u8 = if value {
            before | flag
        } else {
            before & !flag
        };
        if after != before {
            self.mob_flags = after;
            Some(after)
        } else {
            None
        }
    }

    /// Says whether the mob attacks. Returns the flags to send, if they changed.
    pub fn set_attacking(&mut self, attacking: bool) -> (r: Option<u8>)
        ensures
            *final(self) == (MobEntity {
                mob_flags: with_flag(old(self).mob_flags, ATTACKING_FLAG, attacking),
                ..*old(self)
            }),
            r is Some <==> final(self).mob_flags != old(self).mob_flags,
            r matches Some(flags) ==> flags == final(self).mob_flags,
    {
        self.set_mob_flag(ATTACKING_FLAG, attacking)
    }

    /// Whether the mob attacks.
    pub fn is_attacking(&self) -> (r: bool)
        ensures
            r == has_flag(self.mob_flags, ATTACKING_FLAG),
    {
        self.mob_flags & ATTACKING_FLAG != 0
    }

    /// Says whether the mob's main hand is the left one. Returns the flags to send, if they
    /// changed.
    pub fn set_left_handed(&mut self, left_handed: bool) -> (r: Option<u8>)
        ensures
            *final(self) == (MobEntity {
                mob_flags: with_flag(old(self).mob_flags, LEFT_HANDED_FLAG, left_handed),
                ..*old(self)
            }),
            r is Some <==> final(self).mob_flags != old(self).mob_flags,
            r matches Some(flags) ==> flags == final(self).mob_flags,
    {
        self.set_mob_flag(LEFT_HANDED_FLAG, left_handed)
    }

    /// Whether the mob's main hand is the left one.
    pub fn is_left_handed(&self) -> (r: bool)
        ensures
            r == has_flag(self.mob_flags, LEFT_HANDED_FLAG),
    {
        self.mob_flags & LEFT_HANDED_FLAG != 0
    }

    /// Says whether the mob picks up what lies about. Returns the flags to send, if they
    /// changed.
    pub fn set_can_pick_up_loot(&mut self, value: bool) -> (r: Option<u8>)
        ensures
            *final(self) == (MobEntity {
                mob_flags: with_flag(old(self).mob_flags, CAN_PICK_UP_LOOT_FLAG, value),
                ..*old(self)
            }),
            r is Some <==> final(self).mob_flags != old(self).mob_flags,
            r matches Some(flags) ==> flags == final(self).mob_flags,
    {
        self.set_mob_flag(CAN_PICK_UP_LOOT_FLAG, value)
    }

    /// Whether the mob picks up what lies about.
    pub fn can_pick_up_loot(&self) -> (r: bool)
        ensures
            r == has_flag(self.mob_flags, CAN_PICK_UP_LOOT_FLAG),
    {
        self.mob_flags & CAN_PICK_UP_LOOT_FLAG != 0
    }

    /// Says whether the mob does nothing of its own. Returns the flags to send, if they
    /// changed.
    pub fn set_no_ai(&mut self, no_ai: bool) -> (r: Option<u8>)
        ensures
            *final(self) == (MobEntity {
                mob_flags: with_flag(old(self).mob_flags, AI_DISABLED_FLAG, no_ai),
                ..*old(self)
            }),
            r is Some <==> final(self).mob_flags != old(self).mob_flags,
            r matches Some(flags) ==> flags == final(self).mob_flags,
    {
        self.set_mob_flag(AI_DISABLED_FLAG, no_ai)
    }

    /// Whether the mob does nothing of its own.
    pub fn is_no_ai(&self) -> (r: bool)
        ensures
            r == has_flag(self.mob_flags, AI_DISABLED_FLAG),
    {
        self.mob_flags & AI_DISABLED_FLAG != 0
    }

    /// Whether the mob breaks doors.
    pub fn can_break_doors(&self) -> (r: bool)
        ensures
            r == self.can_break_doors,
    {
        self.can_break_doors
    }

    /// Whether that was saved with the mob.
    pub fn can_break_doors_loaded(&self) -> (r: bool)
        ensures
            r == self.can_break_doors_loaded,
    {
        self.can_break_doors_loaded
    }

    /// Says whether the mob breaks doors. One that does finds its way through them.
    pub fn set_can_break_doors(&mut self, value: bool)
        ensures
            *final(self) == (MobEntity {
                can_break_doors: value,
                navigator: Navigator { can_open_doors: Some(value), ..old(self).navigator },
                ..*old(self)
            }),
    {
        self.can_break_doors = value;
        self.navigator.set_can_open_doors(value);
    }

    /// Says whether the mob breaks doors, as it was saved.
    pub fn set_can_break_doors_from_nbt(&mut self, value: bool)
        ensures
            *final(self) == (MobEntity {
                can_break_doors_loaded: true,
                can_break_doors: value,
                navigator: Navigator { can_open_doors: Some(value), ..old(self).navigator },
                ..*old(self)
            }),
    {
        self.can_break_doors_loaded = true;
        self.set_can_break_doors(value);
    }

    /// Whether the mob is in love.
    pub fn is_in_love(&self) -> (r: bool)
        ensures
            r == (self.love_ticks > 0),
    {
        self.love_ticks > 0
    }

    /// Makes the mob fall in love for some ticks.
    pub fn set_love_ticks(&mut self, ticks: i32, breeder: Option<u128>)
        ensures
            *final(self) == (MobEntity { love_ticks: ticks, breeder, ..*old(self) }),
    {
        self.love_ticks = ticks;
        self.breeder = breeder;
    }

    /// Makes the mob fall out of love.
    pub fn reset_love_ticks(&mut self)
        ensures
            *final(self) == (MobEntity { love_ticks: 0, ..*old(self) }),
    {
        self.love_ticks = 0;
    }

    /// Whether the mob can breed: it has grown up, and some time has passed since it last
    /// did.
    pub fn is_breeding_ready(&self) -> (r: bool)
        ensures
            r == (self.living_entity.age >= 0 && self.breeding_cooldown <= 0),
    {
        self.living_entity.age >= 0 && self.breeding_cooldown <= 0
    }

    /// Says after how many ticks the mob can breed again.
    pub fn set_breeding_cooldown(&mut self, ticks: i32)
        ensures
            *final(self) == (MobEntity { breeding_cooldown: ticks, ..*old(self) }),
    {
        self.breeding_cooldown = ticks;
    }

    /// Whether the mob is a baby.
    pub fn is_mob_baby(&self) -> (r: bool)
        ensures
            r == (self.living_entity.age < 0),
    {
        self.living_entity.age < 0
    }

    /// Sets or clears the mob's target.
    pub fn set_mob_target(&mut self, target: Option<i32>)
        ensures
            *final(self) == (MobEntity { target, ..*old(self) }),
    {
        self.target = target;
    }
}

/// Takes all goals and the target away from the mob. Returns the goals that ran and have
/// to be told to stop: first those that pick targets, then all others.
pub fn remove_free_will(mob: &mut MobEntity) -> (r: (Vec<usize>, Vec<usize>))
    requires
        old(mob).wf(),
    ensures
        final(mob).wf(),
        r.0@ == running_places(old(mob).target_selector.goals@),
        r.1@ == running_places(old(mob).goals_selector.goals@),
        final(mob).target_selector.is_emptied(old(mob).target_selector),
        final(mob).goals_selector.is_emptied(old(mob).goals_selector),
        *final(mob) == (MobEntity {
            target_selector: final(mob).target_selector,
            goals_selector: final(mob).goals_selector,
            target: None,
            ..*old(mob)
        }),
{
    let targeting: Vec<usize> = mob.target_selector.clear_all_goals();
    let others: Vec<usize> = mob.goals_selector.clear_all_goals();
    mob.set_mob_target(None);
    (targeting, others)
}

/// Law: a new mob has no goals, is after no one, is bound to no place and on no leash, and does what it
/// likes: no flag is set.
pub proof fn law_new_mob_is_free(living_entity: LivingEntity, r: MobEntity, own: BlockPos, in_range: bool)
    requires
        call_ensures(MobEntity::new, (living_entity,), r),
        call_ensures(MobEntity::is_in_position_target_range, (&r, &own), in_range),
    ensures
        r.living_entity == living_entity,
        r.goals_selector.goals@.len() == 0,
        r.target_selector.goals@.len() == 0,
        r.target is None,
        r.position_target_range == -1,
        in_range,
        r.leashed_to is None,
        r.mob_flags == 0,
        r.love_ticks == 0,
        r.breeding_cooldown == 0,
        r.despawn_counter == 0,
        !r.can_break_doors,
        r.navigator.is_idle,
{
}

/// Law: a mob that is bound to a place may be at any block nearer to it than its range, in a straight
/// line through all three axes; one that is bound to none may be anywhere.
pub proof fn law_where_a_bound_mob_may_be(
    mob: MobEntity,
    pos: BlockPos,
    own: bool,
    other: bool,
    dx: int,
    dy: int,
    dz: int,
)
    requires
        call_ensures(MobEntity::is_in_position_target_range, (&mob, &pos), own),
        call_ensures(MobEntity::is_in_position_target_range_pos, (&mob, &pos), other),
        dx == pos.x - mob.position_target.x,
        dy == pos.y - mob.position_target.y,
        dz == pos.z - mob.position_target.z,
    ensures
        own == other,
        mob.position_target_range == -1 ==> own,
        mob.position_target_range != -1 ==> (own <==> dx * dx + dy * dy + dz * dz
            < mob.position_target_range * mob.position_target_range),
{
    let a = mob.position_target;
    assert((a.x - pos.x) * (a.x - pos.x) == dx * dx) by (nonlinear_arith)
        requires
            dx == pos.x - a.x,
    ;
    assert((a.y - pos.y) * (a.y - pos.y) == dy * dy) by (nonlinear_arith)
        requires
            dy == pos.y - a.y,
    ;
    assert((a.z - pos.z) * (a.z - pos.z) == dz * dz) by (nonlinear_arith)
        requires
            dz == pos.z - a.z,
    ;
}

/// Law: the four flags of a mob are bits of their own: 1 for one without a will, 2 for a left-handed
/// one, 4 for one that attacks and 8 for one that picks things up.
pub proof fn law_flags_of_a_mob(
    mob: MobEntity,
    no_ai: bool,
    left_handed: bool,
    attacking: bool,
    picks_up: bool,
)
    requires
        call_ensures(MobEntity::is_no_ai, (&mob,), no_ai),
        call_ensures(MobEntity::is_left_handed, (&mob,), left_handed),
        call_ensures(MobEntity::is_attacking, (&mob,), attacking),
        call_ensures(MobEntity::can_pick_up_loot, (&mob,), picks_up),
    ensures
        no_ai <==> mob.mob_flags & 1 != 0,
        left_handed <==> mob.mob_flags & 2 != 0,
        attacking <==> mob.mob_flags & 4 != 0,
        picks_up <==> mob.mob_flags & 8 != 0,
{
}

/// Law: what a mob is told of itself it is, and nothing else of it changes; the flags are sent where
/// they changed.
pub proof fn law_told_mob_does_as_told(
    attacker: &mut MobEntity,
    lefty: &mut MobEntity,
    picker: &mut MobEntity,
    idler: &mut MobEntity,
    value: bool,
    of_attacker: Option<u8>,
    of_lefty: Option<u8>,
    of_picker: Option<u8>,
    of_idler: Option<u8>,
)
    requires
        call_ensures(MobEntity::set_attacking, (attacker, value), of_attacker),
        call_ensures(MobEntity::set_left_handed, (lefty, value), of_lefty),
        call_ensures(MobEntity::set_can_pick_up_loot, (picker, value), of_picker),
        call_ensures(MobEntity::set_no_ai, (idler, value), of_idler),
    ensures
        final(attacker).mob_flags & 4 != 0 <==> value,
        final(lefty).mob_flags & 2 != 0 <==> value,
        final(picker).mob_flags & 8 != 0 <==> value,
        final(idler).mob_flags & 1 != 0 <==> value,
        final(attacker).mob_flags & 1 != 0 <==> old(attacker).mob_flags & 1 != 0,
        final(attacker).mob_flags & 2 != 0 <==> old(attacker).mob_flags & 2 != 0,
        final(idler).mob_flags & 4 != 0 <==> old(idler).mob_flags & 4 != 0,
        final(lefty).mob_flags & 8 != 0 <==> old(lefty).mob_flags & 8 != 0,
        of_attacker is Some <==> final(attacker).mob_flags != old(attacker).mob_flags,
        of_attacker is Some ==> of_attacker->0 == final(attacker).mob_flags,
        of_idler is Some <==> final(idler).mob_flags != old(idler).mob_flags,
        of_lefty is Some <==> final(lefty).mob_flags != old(lefty).mob_flags,
        of_picker is Some <==> final(picker).mob_flags != old(picker).mob_flags,
        final(attacker).target == old(attacker).target,
{
    law_flags_are_independent(old(attacker).mob_flags, 4, 1, value);
    law_flags_are_independent(old(attacker).mob_flags, 4, 2, value);
    law_flags_are_independent(old(lefty).mob_flags, 2, 8, value);
    law_flags_are_independent(old(picker).mob_flags, 8, 1, value);
    law_flags_are_independent(old(idler).mob_flags, 1, 4, value);
}

/// Law: a mob breeds once it has grown up and its last time is over; a baby has an age below 0, and a
/// mob is in love while it has ticks of it left.
pub proof fn law_when_a_mob_breeds(
    mob: MobEntity,
    ready: bool,
    baby: bool,
    in_love: bool,
    lover: &mut MobEntity,
    ticks: i32,
    breeder: Option<u128>,
    sober: &mut MobEntity,
)
    requires
        call_ensures(MobEntity::is_breeding_ready, (&mob,), ready),
        call_ensures(MobEntity::is_mob_baby, (&mob,), baby),
        call_ensures(MobEntity::is_in_love, (&mob,), in_love),
        call_ensures(MobEntity::set_love_ticks, (lover, ticks, breeder), ()),
        call_ensures(MobEntity::reset_love_ticks, (sober,), ()),
    ensures
        ready <==> !baby && mob.breeding_cooldown <= 0,
        baby <==> mob.living_entity.age < 0,
        in_love <==> mob.love_ticks > 0,
        final(lover).love_ticks == ticks,
        final(lover).breeder == breeder,
        final(lover).breeding_cooldown == old(lover).breeding_cooldown,
        final(sober).love_ticks == 0,
        final(sober).breeder == old(sober).breeder,
{
}

/// Law: a mob that breaks doors finds its way through them, and one that was saved so keeps it.
pub proof fn law_door_breakers_open_doors(
    mob: &mut MobEntity,
    value: bool,
    loaded: &mut MobEntity,
)
    requires
        call_ensures(MobEntity::set_can_break_doors, (mob, value), ()),
        call_ensures(MobEntity::set_can_break_doors_from_nbt, (loaded, value), ()),
    ensures
        final(mob).can_break_doors == value,
        final(mob).navigator.can_open_doors == Some(value),
        final(mob).can_break_doors_loaded == old(mob).can_break_doors_loaded,
        final(loaded).can_break_doors == value,
        final(loaded).navigator.can_open_doors == Some(value),
        final(loaded).can_break_doors_loaded,
        final(mob).navigator.current_path == old(mob).navigator.current_path,
{
}

/// Law: a mob without a free will has no goals and is after no one; just its running goals are told to
/// stop.
pub proof fn law_mob_without_free_will(
    mob: &mut MobEntity,
    r: (Vec<usize>, Vec<usize>),
    i: usize,
)
    requires
        call_ensures(remove_free_will, (mob,), r),
        old(mob).target_selector.goals@.len() <= usize::MAX,
        old(mob).goals_selector.goals@.len() <= usize::MAX,
    ensures
        final(mob).target is None,
        final(mob).goals_selector.goals@.len() == 0,
        final(mob).target_selector.goals@.len() == 0,
        r.0@.contains(i) <==> i < old(mob).target_selector.goals@.len() && old(mob).target_selector.goals@[i as int].running,
        r.1@.contains(i) <==> i < old(mob).goals_selector.goals@.len() && old(mob).goals_selector.goals@[i as int].running,
        final(mob).living_entity == old(mob).living_entity,
{
    lemma_running_places(old(mob).target_selector.goals@, 0, i);
    lemma_running_places(old(mob).goals_selector.goals@, 0, i);
}

/// Law: a mob tells how long it was left alone, and whether it breaks doors, as it is.
pub proof fn law_mob_tells_what_it_is(
    mob: MobEntity,
    time: i32,
    breaks: bool,
    loaded: bool,
    bred: &mut MobEntity,
    ticks: i32,
)
    requires
        call_ensures(MobEntity::no_action_time, (&mob,), time),
        call_ensures(MobEntity::can_break_doors, (&mob,), breaks),
        call_ensures(MobEntity::can_break_doors_loaded, (&mob,), loaded),
        call_ensures(MobEntity::set_breeding_cooldown, (bred, ticks), ()),
    ensures
        time == mob.despawn_counter,
        breaks == mob.can_break_doors,
        loaded == mob.can_break_doors_loaded,
        final(bred).breeding_cooldown == ticks,
        *final(bred) == (MobEntity { breeding_cooldown: ticks, ..*old(bred) }),
{
}

/// Law: the target that is set is the one the mob has, and where none is set it has none.
pub proof fn law_target_is_the_one_that_was_set(mob: &mut MobEntity, target: Option<i32>)
    requires
        call_ensures(MobEntity::set_mob_target, (mob, target), ()),
    ensures
        final(mob).target == target,
        *final(mob) == (MobEntity { target, ..*old(mob) }),
{
}

} // verus!
