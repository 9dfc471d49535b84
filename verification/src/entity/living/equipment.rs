//! Hands and the items in them.

use vstd::prelude::*;

use super::{ItemInUse, LivingEntity};
use crate::data::equipment::{EquipmentSlot, Hand};
use crate::data::nbt::StackId;
use crate::net::bedrock::interaction::{AnimateAction, Animation, AnimationShown};

verus! {

/// Set while an item is in use.
pub const USING_ITEM_FLAG: u8 = 1;

/// Set while the item in use is in the off hand.
pub const OFF_HAND_ACTIVE_FLAG: u8 = 2;

/// Both flags on the active hand.
pub const ACTIVE_HAND_FLAGS: u8 = 3;

/// Set while the entity spins with a riptide trident.
pub const USING_RIPTIDE_FLAG: u8 = 4;

/// A shield stops attacks once it has been raised for this many ticks.
pub const SHIELD_RAISE_TICKS: i32 = 5;

/// The flags with the two on the active hand set for `hand` and all others kept.
pub open spec fn active_hand_flags(flags: u8, hand: Option<Hand>) -> u8 {
    let kept = flags & 0xFC;
    match hand {
        None => kept,
        Some(Hand::Right) => kept | 1,
        Some(Hand::Left) => kept | 3,
    }
}

/// What using an item, or no longer using one, asks the world to do.
#[derive(Clone, Copy, Debug, PartialEq, Eq, Structural)]
pub struct HandSync {
    /// Whether the flags are sent to the players around.
    pub send: bool,
    /// The flags.
    pub flags: u8,
    /// Whether an item is in use, by the flags.
    pub using_item: bool,
}

/// The versions of the game that clients play.
#[derive(Clone, Copy, Debug, PartialEq, Eq, Structural)]
#[allow(non_camel_case_types)]
pub enum JavaMinecraftVersion {
    V_1_21,
    V_1_21_2,
    V_1_21_4,
    V_1_21_5,
    V_1_21_6,
    V_1_21_7,
    V_1_21_9,
    V_1_21_11,
    V_26_1,
    V_26_2,
}

/// The place of the flags among all that is sent of an entity.
pub const FLAGS_INDEX: u8 = 8;

/// The number that says that a single byte is sent.
pub const BYTE_TYPE: u8 = 0;

/// Under which name the flags are known to clients.
#[derive(Clone, Copy, Debug, PartialEq, Eq, Structural)]
pub enum FlagsName {
    /// To those that play a version that begins with 26.
    LivingEntityFlags,
    /// To those that play a version that begins with 1.21.
    LivingFlags,
}

impl JavaMinecraftVersion {
    /// The version begins with 26.
    pub open spec fn spec_is_26(self) -> bool {
        self == JavaMinecraftVersion::V_26_1 || self == JavaMinecraftVersion::V_26_2
    }
}

impl FlagsName {
    /// The place of the flags, for clients of the version that know them by the name.
    pub open spec fn spec_index(self, version: JavaMinecraftVersion) -> Option<u8> {
        if (self == FlagsName::LivingEntityFlags) == version.spec_is_26() {
            Some(FLAGS_INDEX)
        } else {
            None
        }
    }

    /// The place of the flags, for clients of the version that know them by the name.
    pub fn index(self, version: JavaMinecraftVersion) -> (r: Option<u8>)
        ensures
            r == self.spec_index(version),
    {
        let is_26: bool = version == JavaMinecraftVersion::V_26_1 || version
            == JavaMinecraftVersion::V_26_2;
        if (self == FlagsName::LivingEntityFlags) == is_26 {
            Some(FLAGS_INDEX)
        } else {
            None
        }
    }
}

/// The flags as they are sent under a name.
#[derive(Clone, Copy, Debug, PartialEq, Eq, Structural)]
pub struct FlagsMetadata {
    pub name: FlagsName,
    pub flags: u8,
}

impl FlagsMetadata {
    /// What clients of the version are sent: nothing where they do not know the name.
    pub open spec fn spec_written(self, version: JavaMinecraftVersion) -> Seq<u8> {
        match self.name.spec_index(version) {
            Some(index) => seq![index, BYTE_TYPE, self.flags],
            None => Seq::empty(),
        }
    }

    /// Adds what clients of the version are sent: nothing where they do not know the name.
    pub fn write(&self, encoded: &mut Vec<u8>, version: JavaMinecraftVersion)
        ensures
            final(encoded)@ == old(encoded)@ + self.spec_written(version),
    {
        match self.name.index(version) {
            Some(index) => {
                encoded.push(index);
                encoded.push(BYTE_TYPE);
                encoded.push(self.flags);
            },
            None => {},
        }
        assert(encoded@ =~= old(encoded)@ + self.spec_written(version));
    }
}

/// The flags under both names.
pub open spec fn flags_metadata(flags: u8) -> Seq<FlagsMetadata> {
    seq![
        FlagsMetadata { name: FlagsName::LivingEntityFlags, flags },
        FlagsMetadata { name: FlagsName::LivingFlags, flags },
    ]
}

/// Law: clients of every version are sent the flags once, at the same place, though they are
/// written under both names.
pub proof fn law_flags_reach_every_version(flags: u8, version: JavaMinecraftVersion)
    ensures
        flags_metadata(flags)[0].spec_written(version) + flags_metadata(flags)[1].spec_written(
            version,
        ) == seq![FLAGS_INDEX, BYTE_TYPE, flags],
{
    let both = flags_metadata(flags)[0].spec_written(version) + flags_metadata(
        flags,
    )[1].spec_written(version);
    assert(both =~= seq![FLAGS_INDEX, BYTE_TYPE, flags]);
}

/// Where a stack that an entity has in a hand is.
#[derive(Clone, Copy, Debug, PartialEq, Eq, Structural)]
pub enum HandStack {
    /// In the slot of a player's inventory that is chosen.
    Held,
    /// In the entity's equipment.
    Equipped(EquipmentSlot),
}

/// What clients of both editions are shown when an item is picked up.
#[derive(Clone, Copy, Debug, PartialEq, Eq, Structural)]
pub struct PickupShown {
    pub item_id: i32,
    pub collector_id: i32,
    pub amount: i32,
    pub item_runtime_id: u64,
    pub collector_runtime_id: u64,
}

impl LivingEntity {
    /// Sets the two flags on the active hand and keeps all others.
    pub fn with_active_hand_flags(flags: u8, hand: Option<Hand>) -> (r: u8)
        ensures
            r == active_hand_flags(flags, hand),
    {
        let kept: u8 = flags & !ACTIVE_HAND_FLAGS;
        assert(flags & !3u8 == flags & 0xFC) by (bit_vector);
        match hand {
            None => kept,
            Some(hand) => {
                let using: u8 = kept | USING_ITEM_FLAG;
                if hand == Hand::Left {
                    assert(forall|k: u8| #[trigger] (k | 1u8) | 2u8 == k | 3u8) by (bit_vector);
                    using | OFF_HAND_ACTIVE_FLAG
                } else {
                    using
                }
            },
        }
    }

    /// The flags as they are sent: under both names, of which each client knows one.
    pub fn living_flags_metadata(flags: u8) -> (r: [FlagsMetadata; 2])
        ensures
            r@ == flags_metadata(flags),
    {
        let entries: [FlagsMetadata; 2] = [
            FlagsMetadata { name: FlagsName::LivingEntityFlags, flags },
            FlagsMetadata { name: FlagsName::LivingFlags, flags },
        ];
        assert(entries@ =~= flags_metadata(flags));
        entries
    }

    /// Stores the flags for `hand` and says whether they have to be sent: always
    /// where that is forced, else only where they changed.
    pub fn sync_active_hand_flags(&mut self, hand: Option<Hand>, force_sync: bool) -> (r: HandSync)
        ensures
            *final(self) == (LivingEntity {
                livings_flags: active_hand_flags(old(self).livings_flags, hand),
                ..*old(self)
            }),
            r.flags == final(self).livings_flags,
            r.send == (force_sync || final(self).livings_flags != old(self).livings_flags),
            r.using_item == (hand is Some),
    {
        let current: u8 = self.livings_flags;
        let next: u8 = Self::with_active_hand_flags(current, hand);
        self.livings_flags = next;
        let using: bool = next & USING_ITEM_FLAG != 0;
        proof {
            lemma_using_item_flag(current, hand);
        }
        HandSync { send: force_sync || next != current, flags: next, using_item: using }
    }

    /// Starts to use `stack`, held in `hand`, for `duration` ticks. Nothing happens
    /// where there is no stack or a hand is active already.
    pub fn set_active_hand(&mut self, hand: Hand, stack: Option<ItemInUse>, duration: i32) -> (r:
        Option<HandSync>)
        ensures
            r is Some <==> stack is Some && old(self).active_hand is None,
            r is None ==> *final(self) == *old(self),
            r matches Some(sync) ==> {
                &&& *final(self) == (LivingEntity {
                    item_use_time: duration,
                    item_in_use: stack,
                    active_hand: Some(hand),
                    livings_flags: active_hand_flags(old(self).livings_flags, Some(hand)),
                    ..*old(self)
                })
                &&& sync == (HandSync {
                    send: true,
                    flags: active_hand_flags(old(self).livings_flags, Some(hand)),
                    using_item: true,
                })
            },
    {
        if stack.is_none() || self.active_hand.is_some() {
            return None;
        }
        self.item_use_time = duration;
        self.item_in_use = stack;
        self.active_hand = Some(hand);
        Some(self.sync_active_hand_flags(Some(hand), true))
    }

    /// Stops using whatever is in use. The flags are sent where something was in
    /// use, or where they changed.
    pub fn clear_active_hand(&mut self) -> (r: HandSync)
        ensures
            *final(self) == (LivingEntity {
                item_use_time: 0,
                item_in_use: None,
                active_hand: None,
                livings_flags: active_hand_flags(old(self).livings_flags, None),
                ..*old(self)
            }),
            r.flags == final(self).livings_flags,
            r.send == (old(self).item_in_use is Some || old(self).active_hand is Some
                || final(self).livings_flags != old(self).livings_flags),
            !r.using_item,
    {
        let was_using_item: bool = self.item_in_use.is_some() || self.active_hand.is_some();
        self.item_in_use = None;
        self.active_hand = None;
        self.item_use_time = 0;
        self.sync_active_hand_flags(None, was_using_item)
    }

    /// The entity uses an item that blocks attacks and has raised it long enough.
    pub open spec fn spec_is_blocking(self) -> bool {
        match self.item_in_use {
            Some(item) => item.blocks_attacks && item.max_use_time - self.item_use_time
                >= SHIELD_RAISE_TICKS,
            None => false,
        }
    }

    /// Whether the entity blocks attacks.
    pub fn is_blocking(&self) -> (r: bool)
        requires
            self.item_in_use matches Some(item) ==> i32::MIN <= item.max_use_time
                - self.item_use_time <= i32::MAX,
        ensures
            r == self.spec_is_blocking(),
    {
        match self.item_in_use {
            Some(item) => item.blocks_attacks && item.max_use_time - self.item_use_time
                >= SHIELD_RAISE_TICKS,
            None => false,
        }
    }

    /// Where the stack in the main hand is: a player holds it out of its inventory.
    pub fn held_item(is_player: bool) -> (r: HandStack)
        ensures
            r == (if is_player {
                HandStack::Held
            } else {
                HandStack::Equipped(EquipmentSlot::MainHand)
            }),
    {
        if is_player {
            HandStack::Held
        } else {
            HandStack::Equipped(EquipmentSlot::MainHand)
        }
    }

    /// Where the stack in the off hand is.
    pub fn off_hand_item() -> (r: HandStack)
        ensures
            r == HandStack::Equipped(EquipmentSlot::OffHand),
    {
        HandStack::Equipped(EquipmentSlot::OffHand)
    }

    /// Where the stack in a hand is.
    pub fn get_stack_in_hand(is_player: bool, hand: Hand) -> (r: HandStack)
        ensures
            r == match hand {
                Hand::Left => HandStack::Equipped(EquipmentSlot::OffHand),
                Hand::Right => if is_player {
                    HandStack::Held
                } else {
                    HandStack::Equipped(EquipmentSlot::MainHand)
                },
            },
    {
        match hand {
            Hand::Left => Self::off_hand_item(),
            Hand::Right => Self::held_item(is_player),
        }
    }

    /// What the players around are shown when the entity swings its main hand.
    pub fn swing_hand(&self) -> (r: AnimationShown)
        ensures
            r == (AnimationShown {
                entity_id: self.entity_id,
                java: Animation::SwingMainArm,
                bedrock: AnimateAction::SwingArm,
                runtime_entity_id: self.entity_id as u64,
            }),
    {
        AnimationShown {
            entity_id: self.entity_id,
            java: Animation::SwingMainArm,
            bedrock: AnimateAction::SwingArm,
            runtime_entity_id: #[verifier::truncate] (self.entity_id as u64),
        }
    }

    /// What the players around are shown when the entity picks up an item.
    pub fn pickup(&self, item_id: i32, stack_amount: u32) -> (r: PickupShown)
        ensures
            r == (PickupShown {
                item_id,
                collector_id: self.entity_id,
                amount: stack_amount as i32,
                item_runtime_id: item_id as u64,
                collector_runtime_id: self.entity_id as u64,
            }),
    {
        PickupShown {
            item_id,
            collector_id: self.entity_id,
            amount: #[verifier::truncate] (stack_amount as i32),
            item_runtime_id: #[verifier::truncate] (item_id as u64),
            collector_runtime_id: #[verifier::truncate] (self.entity_id as u64),
        }
    }

    /// The changes of equipment that the players around are told of, if there are any.
    pub fn send_equipment_changes(equipment: &Vec<(EquipmentSlot, StackId)>) -> (r: Option<
        Vec<(EquipmentSlot, StackId)>,
    >)
        ensures
            match r {
                Some(told) => told@ == equipment@ && equipment@.len() > 0,
                None => equipment@.len() == 0,
            },
    {
        if equipment.len() == 0 {
            return None;
        }
        let mut told: Vec<(EquipmentSlot, StackId)> = Vec::new();
        let mut i: usize = 0;
        while i < equipment.len()
            invariant
                i <= equipment@.len(),
                told@ == equipment@.take(i as int),
            decreases equipment.len() - i,
        {
            told.push(equipment[i]);
            i = i + 1;
            assert(told@ =~= equipment@.take(i as int));
        }
        assert(equipment@.take(i as int) =~= equipment@);
        Some(told)
    }
}

/// The stacks in the slots, in order; empty slots are left out.
pub open spec fn worn_stacks(equipment: Seq<(EquipmentSlot, Option<StackId>)>) -> Seq<
    (EquipmentSlot, StackId),
>
    decreases equipment.len(),
{
    if equipment.len() == 0 {
        Seq::empty()
    } else {
        let before = worn_stacks(equipment.drop_last());
        match equipment.last().1 {
            Some(stack) => before.push((equipment.last().0, stack)),
            None => before,
        }
    }
}

impl LivingEntity {
    /// What a player who begins to see the entity is told of its equipment, if there is
    /// anything to tell. A stack that something else is at work on counts as none.
    pub fn equipment_packet_if_any(equipment: &Vec<(EquipmentSlot, Option<StackId>)>) -> (r: Option<
        Vec<(EquipmentSlot, StackId)>,
    >)
        ensures
            match r {
                Some(told) => told@ == worn_stacks(equipment@) && told@.len() > 0,
                None => worn_stacks(equipment@).len() == 0,
            },
    {
        let mut told: Vec<(EquipmentSlot, StackId)> = Vec::new();
        let mut i: usize = 0;
        while i < equipment.len()
            invariant
                i <= equipment@.len(),
                told@ == worn_stacks(equipment@.take(i as int)),
            decreases equipment.len() - i,
        {
            assert(equipment@.take(i as int + 1).drop_last() =~= equipment@.take(i as int));
            let (slot, stack): (EquipmentSlot, Option<StackId>) = equipment[i];
            if let Some(stack) = stack {
                told.push((slot, stack));
            }
            i = i + 1;
        }
        assert(equipment@.take(i as int) =~= equipment@);
        if told.len() == 0 {
            None
        } else {
            Some(told)
        }
    }
}

/// The first flag says whether an item is in use.
proof fn lemma_using_item_flag(flags: u8, hand: Option<Hand>)
    ensures
        (active_hand_flags(flags, hand) & 1 != 0) <==> hand is Some,
{
    assert((flags & 0xFC) & 1 == 0 && ((flags & 0xFC) | 1) & 1 == 1 && ((flags & 0xFC) | 3) & 1
        == 1) by (bit_vector);
}

/// Law: whatever hand is active, the flags that have nothing to do with hands stay
/// as they were, and what the flags say of hands depends on the hand alone.
pub proof fn law_active_hand_flags(flags: u8, hand: Option<Hand>)
    ensures
        active_hand_flags(flags, hand) & 0xFC == flags & 0xFC,
        active_hand_flags(flags, hand) & 3 == match hand {
            None => 0u8,
            Some(Hand::Right) => 1u8,
            Some(Hand::Left) => 3u8,
        },
{
    assert({
        let k = flags & 0xFC;
        &&& k & 0xFC == k && (k | 1) & 0xFC == k && (k | 3) & 0xFC == k
        &&& k & 3 == 0 && (k | 1) & 3 == 1 && (k | 3) & 3 == 3
    }) by (bit_vector);
}

/// Law: the last call counts. Setting the flags for one hand and then for another
/// gives what setting them for the other at once gives; so clearing undoes setting.
pub proof fn law_active_hand_flags_last_call_counts(
    flags: u8,
    first: Option<Hand>,
    second: Option<Hand>,
)
    ensures
        active_hand_flags(active_hand_flags(flags, first), second) == active_hand_flags(
            flags,
            second,
        ),
{
    law_active_hand_flags(flags, first);
}

/// Law: an entity blocks exactly when it uses something that blocks attacks and has done so for at
/// least 5 ticks.
pub proof fn law_shield_takes_time_to_rise(entity: LivingEntity, r: bool)
    requires
        call_ensures(LivingEntity::is_blocking, (&entity,), r),
    ensures
        r <==> entity.item_in_use is Some && entity.item_in_use->0.blocks_attacks
            && entity.item_in_use->0.max_use_time - entity.item_use_time >= 5,
{
}

/// Law: what a hand begins to use stays in use until it is cleared. A second hand cannot begin
/// meanwhile, and an empty one never does. The flags then name the hand, 1 for the right one and 3
/// for the left one, and they are sent.
pub proof fn law_one_hand_at_a_time(
    entity: &mut LivingEntity,
    hand: Hand,
    stack: Option<ItemInUse>,
    duration: i32,
    r: Option<HandSync>,
)
    requires
        call_ensures(LivingEntity::set_active_hand, (entity, hand, stack, duration), r),
    ensures
        r is Some <==> stack is Some && old(entity).active_hand is None,
        r is None ==> *final(entity) == *old(entity),
        r is Some ==> {
            &&& final(entity).active_hand == Some(hand)
            &&& final(entity).item_in_use == stack
            &&& final(entity).item_use_time == duration
            &&& final(entity).livings_flags & 3 == match hand {
                Hand::Right => 1u8,
                Hand::Left => 3u8,
            }
            &&& final(entity).livings_flags & 0xFC == old(entity).livings_flags & 0xFC
            &&& r->0.send
            &&& r->0.using_item
            &&& r->0.flags == final(entity).livings_flags
        },
{
    law_active_hand_flags(old(entity).livings_flags, Some(hand));
}

/// Law: a cleared hand uses nothing, and its flags say so. They are sent where something was in
/// use, so that whoever saw the use begin sees it end.
pub proof fn law_cleared_hand_is_free(entity: &mut LivingEntity, r: HandSync)
    requires
        call_ensures(LivingEntity::clear_active_hand, (entity,), r),
    ensures
        final(entity).active_hand is None,
        final(entity).item_in_use is None,
        final(entity).item_use_time == 0,
        final(entity).livings_flags & 3 == 0,
        final(entity).livings_flags & 0xFC == old(entity).livings_flags & 0xFC,
        old(entity).item_in_use is Some || old(entity).active_hand is Some ==> r.send,
        !r.send ==> final(entity).livings_flags == old(entity).livings_flags,
        !r.using_item,
        r.flags == final(entity).livings_flags,
{
    law_active_hand_flags(old(entity).livings_flags, None);
}

/// Law: flags that are stored for a hand are sent where that is forced or where they changed, and
/// tell whether a hand is in use.
pub proof fn law_changed_flags_are_sent(
    entity: &mut LivingEntity,
    hand: Option<Hand>,
    force_sync: bool,
    r: HandSync,
)
    requires
        call_ensures(LivingEntity::sync_active_hand_flags, (entity, hand, force_sync), r),
    ensures
        force_sync ==> r.send,
        !force_sync ==> (r.send <==> r.flags != old(entity).livings_flags),
        r.flags == final(entity).livings_flags,
        r.using_item <==> hand is Some,
        r.flags & 3 == match hand {
            None => 0u8,
            Some(Hand::Right) => 1u8,
            Some(Hand::Left) => 3u8,
        },
        r.flags & 0xFC == old(entity).livings_flags & 0xFC,
        final(entity).active_hand == old(entity).active_hand,
{
    law_active_hand_flags(old(entity).livings_flags, hand);
}

/// Law: a version is sent the flags under the one name that it knows, as the byte at place 8, and
/// nothing under the other.
pub proof fn law_flags_stand_at_place_eight(
    metadata: FlagsMetadata,
    encoded: &mut Vec<u8>,
    version: JavaMinecraftVersion,
)
    requires
        call_ensures(FlagsMetadata::write, (&metadata, encoded, version), ()),
    ensures
        ({
            let known = (metadata.name == FlagsName::LivingEntityFlags) == (version
                == JavaMinecraftVersion::V_26_1 || version == JavaMinecraftVersion::V_26_2);
            &&& !known ==> final(encoded)@ == old(encoded)@
            &&& known ==> final(encoded)@ == old(encoded)@ + seq![8u8, 0u8, metadata.flags]
        }),
{
    assert(old(encoded)@ + Seq::<u8>::empty() =~= old(encoded)@);
}

/// Law: the left hand is the off hand of everyone; what a player has in the right one is out of
/// its inventory, and what anyone else has there is in its main hand.
pub proof fn law_left_is_the_off_hand(is_player: bool, hand: Hand, r: HandStack, held: HandStack, off: HandStack)
    requires
        call_ensures(LivingEntity::get_stack_in_hand, (is_player, hand), r),
        call_ensures(LivingEntity::held_item, (is_player,), held),
        call_ensures(LivingEntity::off_hand_item, (), off),
    ensures
        hand == Hand::Left ==> r == off,
        hand == Hand::Right ==> r == held,
        off == HandStack::Equipped(EquipmentSlot::OffHand),
        is_player ==> held == HandStack::Held,
        !is_player ==> held == HandStack::Equipped(EquipmentSlot::MainHand),
{
}

/// Law: whoever begins to see an entity is told of each stack that it wears, and of no empty
/// place; where it wears nothing, nothing is told.
pub proof fn law_all_that_is_worn_is_told(
    equipment: Vec<(EquipmentSlot, Option<StackId>)>,
    r: Option<Vec<(EquipmentSlot, StackId)>>,
    slot: EquipmentSlot,
    stack: StackId,
)
    requires
        call_ensures(LivingEntity::equipment_packet_if_any, (&equipment,), r),
    ensures
        (r is Some && r->0@.contains((slot, stack))) <==> exists|i: int|
            0 <= i < equipment@.len() && #[trigger] equipment@[i] == (slot, Some(stack)),
        r is None ==> forall|i: int|
            0 <= i < equipment@.len() ==> (#[trigger] equipment@[i]).1 is None,
        r is Some ==> r->0@.len() > 0,
{
    lemma_worn_stacks(equipment@, slot, stack);
    if r is None {
        assert forall|i: int| 0 <= i < equipment@.len() implies (
        #[trigger] equipment@[i]).1 is None by {
            if equipment@[i].1 is Some {
                lemma_worn_stacks(equipment@, equipment@[i].0, equipment@[i].1->0);
                assert(equipment@[i] == (equipment@[i].0, Some(equipment@[i].1->0)));
            }
        }
    }
}

/// The stacks that are worn are those that the places hold.
proof fn lemma_worn_stacks(
    equipment: Seq<(EquipmentSlot, Option<StackId>)>,
    slot: EquipmentSlot,
    stack: StackId,
)
    ensures
        worn_stacks(equipment).contains((slot, stack)) <==> exists|i: int|
            0 <= i < equipment.len() && #[trigger] equipment[i] == (slot, Some(stack)),
    decreases equipment.len(),
{
    if equipment.len() > 0 {
        let before = equipment.drop_last();
        let last = equipment.last();
        lemma_worn_stacks(before, slot, stack);
        assert forall|i: int| 0 <= i < before.len() implies before[i]
            == #[trigger] equipment[i] by {}
        assert forall|i: int| 0 <= i < before.len() implies equipment[i]
            == #[trigger] before[i] by {}
        assert(equipment[equipment.len() - 1] == last);
        if last.1 is Some {
            let rest = worn_stacks(before);
            let all = rest.push((last.0, last.1->0));
            assert(worn_stacks(equipment) == all);
            assert(all[rest.len() as int] == (last.0, last.1->0));
            if rest.contains((slot, stack)) {
                let i = choose|i: int| 0 <= i < rest.len() && rest[i] == (slot, stack);
                assert(all[i] == (slot, stack));
            }
            if all.contains((slot, stack)) {
                let i = choose|i: int| 0 <= i < all.len() && all[i] == (slot, stack);
                if i < rest.len() {
                    assert(rest[i] == (slot, stack));
                }
            }
        }
    }
}

/// Law: whoever swings its hand or picks something up is shown as just that, under its own number, to
/// both editions.
pub proof fn law_swings_and_pickups_are_shown(
    entity: LivingEntity,
    swing: AnimationShown,
    item_id: i32,
    amount: u32,
    pickup: PickupShown,
    id: i32,
)
    requires
        call_ensures(LivingEntity::swing_hand, (&entity,), swing),
        call_ensures(LivingEntity::pickup, (&entity, item_id, amount), pickup),
        call_ensures(LivingEntity::entity_id, (&entity,), id),
    ensures
        id == entity.entity_id,
        swing.entity_id == id,
        swing.java == Animation::SwingMainArm,
        swing.bedrock == AnimateAction::SwingArm,
        id >= 0 ==> swing.runtime_entity_id == id,
        pickup.item_id == item_id,
        pickup.collector_id == id,
        amount <= i32::MAX ==> pickup.amount == amount,
        item_id >= 0 ==> pickup.item_runtime_id == item_id,
        id >= 0 ==> pickup.collector_runtime_id == id,
{
}

/// Law: changes of equipment are told as they are, in order, and where there are none nothing is told.
pub proof fn law_changes_of_equipment_are_told(
    equipment: Vec<(EquipmentSlot, StackId)>,
    r: Option<Vec<(EquipmentSlot, StackId)>>,
    i: int,
)
    requires
        call_ensures(LivingEntity::send_equipment_changes, (&equipment,), r),
    ensures
        r is None <==> equipment@.len() == 0,
        r is Some ==> r->0@.len() == equipment@.len(),
        r is Some && 0 <= i < equipment@.len() ==> r->0@[i] == equipment@[i],
{
}

/// Law: the flags of the active hand are those that are asked for: none without a hand, the first for the
/// right one and both for the left one; all others stay. They are sent alike under both names, each
/// client finding one of them at place 8.
pub proof fn law_flags_of_the_active_hand(
    flags: u8,
    hand: Option<Hand>,
    r: u8,
    sent: [FlagsMetadata; 2],
    version: JavaMinecraftVersion,
    first: Option<u8>,
    second: Option<u8>,
)
    requires
        call_ensures(LivingEntity::with_active_hand_flags, (flags, hand), r),
        call_ensures(LivingEntity::living_flags_metadata, (flags,), sent),
        call_ensures(FlagsName::index, (sent@[0].name, version), first),
        call_ensures(FlagsName::index, (sent@[1].name, version), second),
    ensures
        hand is None ==> r & 3 == 0,
        hand == Some(Hand::Right) ==> r & 3 == 1,
        hand == Some(Hand::Left) ==> r & 3 == 3,
        r & 0xFC == flags & 0xFC,
        sent@[0].flags == flags,
        sent@[1].flags == flags,
        first is Some <==> second is None,
        first is Some ==> first->0 == 8,
        second is Some ==> second->0 == 8,
        first is Some <==> version == JavaMinecraftVersion::V_26_1 || version
            == JavaMinecraftVersion::V_26_2,
{
    assert(flags & 0xFCu8 & 3 == 0) by (bit_vector);
    assert((flags & 0xFCu8 | 1) & 3 == 1) by (bit_vector);
    assert((flags & 0xFCu8 | 3) & 3 == 3) by (bit_vector);
    assert(flags & 0xFCu8 & 0xFC == flags & 0xFC) by (bit_vector);
    assert((flags & 0xFCu8 | 1) & 0xFC == flags & 0xFC) by (bit_vector);
    assert((flags & 0xFCu8 | 3) & 0xFC == flags & 0xFC) by (bit_vector);
}

} // verus!
