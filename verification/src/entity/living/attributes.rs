//! The attributes of a living entity and what modifies them.


use vstd::prelude::*;

use super::LivingEntity;
use crate::data::rank::{Rank32, Rank64};

verus! {

broadcast use vstd::std_specs::hash::group_hash_axioms;

/// How a modifier bears on an attribute.
#[derive(Clone, Copy, Debug, PartialEq, Eq, Structural)]
pub enum ModifierOperation {
    Add,
    MultiplyBase,
    MultiplyTotal,
}

/// What modifies an attribute.
#[derive(Clone, Copy, Debug, PartialEq, Eq, Structural)]
pub struct Modifier {
    /// The number of the modifier's name.
    pub id: u32,
    pub amount: Rank64,
    pub operation: ModifierOperation,
}

/// An attribute that an entity has of its own.
pub struct AttributeInstance {
    pub base_value: Rank64,
    pub modifiers: Vec<Modifier>,
    /// Whether the attribute has changed.
    pub dirty: bool,
}

/// A modifier that an effect puts on an attribute.
#[derive(Clone, Copy, Debug, PartialEq, Eq, Structural)]
pub struct EffectModifier {
    /// The number of the attribute.
    pub attribute: u8,
    /// What the attribute is worth where the kind of entity says nothing of it.
    pub default_value: Rank64,
    /// The modifier, its amount scaled to the level of the effect.
    pub modifier: Modifier,
}

/// A base value that a kind of entity gives to an attribute.
#[derive(Clone, Copy, Debug, PartialEq, Eq, Structural)]
pub struct AttributeBase {
    pub attribute: u8,
    pub base: Rank64,
    /// The base in single precision.
    pub narrowed: Rank32,
}

/// The base value that the kind of entity gives to the attribute.
pub open spec fn registered_base(bases: Seq<AttributeBase>, attribute: u8) -> Option<Rank64>
    decreases bases.len(),
{
    if bases.len() == 0 {
        None
    } else if bases.first().attribute == attribute {
        Some(bases.first().base)
    } else {
        registered_base(bases.skip(1), attribute)
    }
}

/// The base value that the kind of entity gives to the attribute.
pub fn find_base(bases: &Vec<AttributeBase>, attribute: u8) -> (r: Option<Rank64>)
    ensures
        r == registered_base(bases@, attribute),
{
    let mut i: usize = 0;
    assert(bases@.skip(0) =~= bases@);
    while i < bases.len()
        invariant
            i <= bases@.len(),
            registered_base(bases@, attribute) == registered_base(bases@.skip(i as int), attribute),
        decreases bases.len() - i,
    {
        assert(bases@.skip(i as int).skip(1) =~= bases@.skip(i as int + 1));
        if bases[i].attribute == attribute {
            return Some(bases[i].base);
        }
        i = i + 1;
    }
    None
}

/// The modifiers that are not named `id`.
pub open spec fn without_modifier(modifiers: Seq<Modifier>, id: u32) -> Seq<Modifier> {
    modifiers.filter(|modifier: Modifier| modifier.id != id)
}

impl AttributeInstance {
    /// An attribute with the base value and no modifiers.
    pub fn new(base_value: Rank64) -> (r: Self)
        ensures
            r.base_value == base_value,
            r.modifiers@ == Seq::<Modifier>::empty(),
            !r.dirty,
    {
        AttributeInstance { base_value, modifiers: Vec::new(), dirty: false }
    }

    /// Takes the modifier with the name off the attribute.
    pub fn remove_modifier(&mut self, id: u32)
        ensures
            final(self).modifiers@ == without_modifier(old(self).modifiers@, id),
            final(self).base_value == old(self).base_value,
            final(self).dirty == old(self).dirty,
    {
        let mut kept: Vec<Modifier> = Vec::new();
        let mut i: usize = 0;
        proof {
            reveal(Seq::filter);
        }
        while i < self.modifiers.len()
            invariant
                *self == *old(self),
                i <= self.modifiers@.len(),
                kept@ == without_modifier(self.modifiers@.take(i as int), id),
            decreases self.modifiers.len() - i,
        {
            proof {
                reveal(Seq::filter);
                assert(self.modifiers@.take(i as int + 1).drop_last() =~= self.modifiers@.take(
                    i as int,
                ));
            }
            let modifier: Modifier = self.modifiers[i];
            if modifier.id != id {
                kept.push(modifier);
            }
            i = i + 1;
        }
        assert(self.modifiers@.take(i as int) =~= self.modifiers@);
        self.modifiers = kept;
    }

    /// Puts the modifier on the attribute, in place of the one with its name.
    pub fn add_or_replace_modifier(&mut self, modifier: Modifier)
        ensures
            final(self).modifiers@ == without_modifier(old(self).modifiers@, modifier.id).push(
                modifier,
            ),
            final(self).base_value == old(self).base_value,
            final(self).dirty == old(self).dirty,
    {
        self.remove_modifier(modifier.id);
        self.modifiers.push(modifier);
    }
}

/// How an attribute is to change.
#[derive(Clone, Copy, Debug, PartialEq, Eq, Structural)]
pub enum AttributeChange {
    Put(Modifier),
    Drop { id: u32 },
}

/// The modifiers after a change.
pub open spec fn changed_modifiers(modifiers: Seq<Modifier>, change: AttributeChange) -> Seq<
    Modifier,
> {
    match change {
        AttributeChange::Put(modifier) => without_modifier(modifiers, modifier.id).push(modifier),
        AttributeChange::Drop { id } => without_modifier(modifiers, id),
    }
}

/// The base value and the modifiers of each attribute.
pub open spec fn attribute_values(attributes: Map<u8, AttributeInstance>) -> Map<
    u8,
    (Rank64, Seq<Modifier>),
> {
    attributes.map_values(
        |instance: AttributeInstance| (instance.base_value, instance.modifiers@),
    )
}

/// Whether each attribute has changed since it was last sent.
pub open spec fn dirty_flags(attributes: Map<u8, AttributeInstance>) -> Map<u8, bool> {
    attributes.map_values(|instance: AttributeInstance| instance.dirty)
}

/// The flags with those of the attributes set.
pub open spec fn marked(flags: Map<u8, bool>, touched: Seq<u8>) -> Map<u8, bool> {
    flags.union_prefer_right(
        Map::new(|attribute: u8| touched.contains(attribute), |attribute: u8| true),
    )
}

/// The base value and the modifiers that a change starts from: those of the entity,
/// or else the base value of its kind, or else the default, with no modifiers.
pub open spec fn value_or_base(
    values: Map<u8, (Rank64, Seq<Modifier>)>,
    bases: Seq<AttributeBase>,
    attribute: u8,
    default_value: Rank64,
) -> (Rank64, Seq<Modifier>) {
    if values.contains_key(attribute) {
        values[attribute]
    } else {
        match registered_base(bases, attribute) {
            Some(base) => (base, Seq::empty()),
            None => (default_value, Seq::empty()),
        }
    }
}

/// The attributes after a change of one of them.
pub open spec fn changed_values(
    values: Map<u8, (Rank64, Seq<Modifier>)>,
    bases: Seq<AttributeBase>,
    attribute: u8,
    default_value: Rank64,
    change: AttributeChange,
) -> Map<u8, (Rank64, Seq<Modifier>)> {
    let start = value_or_base(values, bases, attribute, default_value);
    values.insert(attribute, (start.0, changed_modifiers(start.1, change)))
}

/// The attributes after one of them has got a new base value.
pub open spec fn rebased_values(
    values: Map<u8, (Rank64, Seq<Modifier>)>,
    attribute: u8,
    new_base: Rank64,
) -> Map<u8, (Rank64, Seq<Modifier>)> {
    values.insert(
        attribute,
        (
            new_base,
            if values.contains_key(attribute) {
                values[attribute].1
            } else {
                Seq::empty()
            },
        ),
    )
}

/// The attributes after all the modifiers of an effect have been put on them, or
/// taken off.
pub open spec fn effect_values(
    values: Map<u8, (Rank64, Seq<Modifier>)>,
    bases: Seq<AttributeBase>,
    modifiers: Seq<EffectModifier>,
    put: bool,
) -> Map<u8, (Rank64, Seq<Modifier>)>
    decreases modifiers.len(),
{
    if modifiers.len() == 0 {
        values
    } else {
        let last = modifiers.last();
        changed_values(
            effect_values(values, bases, modifiers.drop_last(), put),
            bases,
            last.attribute,
            last.default_value,
            if put {
                AttributeChange::Put(last.modifier)
            } else {
                AttributeChange::Drop { id: last.modifier.id }
            },
        )
    }
}

/// The attributes that the modifiers bear on, each once, in the order in which they
/// first come up.
pub open spec fn touched_attributes(modifiers: Seq<EffectModifier>) -> Seq<u8>
    decreases modifiers.len(),
{
    if modifiers.len() == 0 {
        Seq::empty()
    } else {
        let before = touched_attributes(modifiers.drop_last());
        if before.contains(modifiers.last().attribute) {
            before
        } else {
            before.push(modifiers.last().attribute)
        }
    }
}

/// Whether the list holds the number.
fn holds(list: &Vec<u8>, number: u8) -> (r: bool)
    ensures
        r == list@.contains(number),
{
    let mut i: usize = 0;
    while i < list.len()
        invariant
            i <= list@.len(),
            forall|j: int| 0 <= j < i ==> list@[j] != number,
        decreases list.len() - i,
    {
        if list[i] == number {
            return true;
        }
        i = i + 1;
    }
    false
}

impl LivingEntity {
    /// The greatest health after some attributes have changed: where the attribute for it
    /// is among them it is what that attribute is worth now, and else it is as before.
    pub open spec fn spec_max_health_follows<F: Fn(&AttributeInstance) -> Rank32>(
        self,
        after: LivingEntity,
        touched: bool,
        worth: &F,
    ) -> bool {
        if touched {
            &&& after.attributes@.contains_key(self.max_health_attribute)
            &&& worth.ensures(
                (&after.attributes@[self.max_health_attribute],),
                after.max_health,
            )
        } else {
            after.max_health == self.max_health
        }
    }

    /// Makes the greatest health what the attribute for it is worth.
    fn follow_max_health<F: Fn(&AttributeInstance) -> Rank32>(&mut self, worth: &F)
        requires
            old(self).attributes@.contains_key(old(self).max_health_attribute),
            forall|instance: AttributeInstance| #[trigger] worth.requires((&instance,)),
        ensures
            old(self).spec_max_health_follows(*final(self), true, worth),
            *final(self) == (LivingEntity { max_health: final(self).max_health, ..*old(self) }),
    {
        let attribute: u8 = self.max_health_attribute;
        if let Some(instance) = self.attributes.get(&attribute) {
            let max_health: Rank32 = worth(instance);
            self.max_health = max_health;
        }
    }

    /// Changes an attribute of the entity, which gets one of its own if it has none. `worth`
    /// tells what an attribute is worth in single precision.
    pub fn update_attribute<F: Fn(&AttributeInstance) -> Rank32>(
        &mut self,
        bases: &Vec<AttributeBase>,
        attribute: u8,
        default_value: Rank64,
        change: AttributeChange,
        worth: &F,
    )
        requires
            forall|instance: AttributeInstance| #[trigger] worth.requires((&instance,)),
        ensures
            attribute_values(final(self).attributes@) == changed_values(
                attribute_values(old(self).attributes@),
                bases@,
                attribute,
                default_value,
                change,
            ),
            dirty_flags(final(self).attributes@) == dirty_flags(old(self).attributes@).insert(
                attribute,
                true,
            ),
            old(self).spec_max_health_follows(
                *final(self),
                attribute == old(self).max_health_attribute,
                worth,
            ),
            *final(self) == (LivingEntity {
                attributes: final(self).attributes,
                max_health: final(self).max_health,
                ..*old(self)
            }),
    {
        self.change_attribute(bases, attribute, default_value, change);
        proof {
            let values = attribute_values(self.attributes@);
            assert(values.contains_key(attribute));
            assert(self.attributes@.contains_key(attribute));
        }
        if attribute == self.max_health_attribute {
            self.follow_max_health(worth);
        }
    }

    /// Changes an attribute of the entity, which gets one of its own if it has none.
    fn change_attribute(
        &mut self,
        bases: &Vec<AttributeBase>,
        attribute: u8,
        default_value: Rank64,
        change: AttributeChange,
    )
        ensures
            attribute_values(final(self).attributes@) == changed_values(
                attribute_values(old(self).attributes@),
                bases@,
                attribute,
                default_value,
                change,
            ),
            dirty_flags(final(self).attributes@) == dirty_flags(old(self).attributes@).insert(
                attribute,
                true,
            ),
            *final(self) == (LivingEntity { attributes: final(self).attributes, ..*old(self) }),
    {
        let mut instance: AttributeInstance = match self.attributes.remove(&attribute) {
            Some(instance) => instance,
            None => {
                let base: Rank64 = match find_base(bases, attribute) {
                    Some(base) => base,
                    None => default_value,
                };
                AttributeInstance::new(base)
            },
        };
        match change {
            AttributeChange::Put(modifier) => instance.add_or_replace_modifier(modifier),
            AttributeChange::Drop { id } => instance.remove_modifier(id),
        }
        instance.dirty = true;
        self.attributes.insert(attribute, instance);
        assert(attribute_values(self.attributes@) =~= changed_values(
            attribute_values(old(self).attributes@),
            bases@,
            attribute,
            default_value,
            change,
        ));
        assert(dirty_flags(self.attributes@) =~= dirty_flags(old(self).attributes@).insert(
            attribute,
            true,
        ));
    }

    /// Puts the modifiers of an effect on the attributes, or takes them off. The greatest
    /// health follows at once: `worth` tells what an attribute is worth in single precision.
    /// Returns the attributes to send.
    pub fn update_effect_modifiers<F: Fn(&AttributeInstance) -> Rank32>(
        &mut self,
        bases: &Vec<AttributeBase>,
        modifiers: &Vec<EffectModifier>,
        put: bool,
        worth: &F,
    ) -> (touched: Vec<u8>)
        requires
            forall|instance: AttributeInstance| #[trigger] worth.requires((&instance,)),
        ensures
            attribute_values(final(self).attributes@) == effect_values(
                attribute_values(old(self).attributes@),
                bases@,
                modifiers@,
                put,
            ),
            touched@ == touched_attributes(modifiers@),
            dirty_flags(final(self).attributes@) == marked(
                dirty_flags(old(self).attributes@),
                touched@,
            ),
            old(self).spec_max_health_follows(
                *final(self),
                touched@.contains(old(self).max_health_attribute),
                worth,
            ),
            *final(self) == (LivingEntity {
                attributes: final(self).attributes,
                max_health: final(self).max_health,
                ..*old(self)
            }),
    {
        let mut touched: Vec<u8> = Vec::new();
        let mut i: usize = 0;
        assert(dirty_flags(self.attributes@) =~= marked(
            dirty_flags(old(self).attributes@),
            touched@,
        ));
        while i < modifiers.len()
            invariant
                i <= modifiers@.len(),
                attribute_values(self.attributes@) == effect_values(
                    attribute_values(old(self).attributes@),
                    bases@,
                    modifiers@.take(i as int),
                    put,
                ),
                touched@ == touched_attributes(modifiers@.take(i as int)),
                dirty_flags(self.attributes@) == marked(
                    dirty_flags(old(self).attributes@),
                    touched@,
                ),
                *self == (LivingEntity { attributes: self.attributes, ..*old(self) }),
            decreases modifiers.len() - i,
        {
            assert(modifiers@.take(i as int + 1).drop_last() =~= modifiers@.take(i as int));
            let effect: EffectModifier = modifiers[i];
            let change: AttributeChange = if put {
                AttributeChange::Put(effect.modifier)
            } else {
                AttributeChange::Drop { id: effect.modifier.id }
            };
            self.change_attribute(bases, effect.attribute, effect.default_value, change);
            let ghost before = touched@;
            if !holds(&touched, effect.attribute) {
                touched.push(effect.attribute);
            }
            proof {
                assert forall|attribute: u8| #[trigger] touched@.contains(
                    attribute,
                ) <==> before.contains(attribute) || attribute == effect.attribute by {
                    if before.contains(attribute) {
                        let k = choose|k: int| 0 <= k < before.len() && before[k] == attribute;
                        assert(touched@[k] == attribute);
                    }
                    if attribute == effect.attribute && !before.contains(attribute) {
                        assert(touched@[before.len() as int] == attribute);
                    }
                }
                assert(dirty_flags(self.attributes@) =~= marked(
                    dirty_flags(old(self).attributes@),
                    touched@,
                ));
            }
            i = i + 1;
        }
        assert(modifiers@.take(i as int) =~= modifiers@);
        if holds(&touched, self.max_health_attribute) {
            assert(dirty_flags(self.attributes@).contains_key(self.max_health_attribute));
            assert(self.attributes@.contains_key(self.max_health_attribute));
            self.follow_max_health(worth);
        }
        touched
    }

    /// What an attribute is worth: `value` tells it of one that the entity has of its
    /// own, and any other is worth its default.
    pub fn get_attribute_value<F: Fn(&AttributeInstance) -> Rank64>(
        &self,
        attribute: u8,
        default_value: Rank64,
        value: &F,
    ) -> (r: Rank64)
        requires
            forall|instance: AttributeInstance| #[trigger] value.requires((&instance,)),
        ensures
            if self.attributes@.contains_key(attribute) {
                value.ensures((&self.attributes@[attribute],), r)
            } else {
                r == default_value
            },
    {
        match self.attributes.get(&attribute) {
            Some(instance) => value(instance),
            None => default_value,
        }
    }

    /// The base value of an attribute: the entity's own, or else that of its kind.
    pub fn get_attribute_base(&self, bases: &Vec<AttributeBase>, attribute: u8) -> (r: Rank64)
        requires
            self.attributes@.contains_key(attribute) || registered_base(bases@, attribute) is Some,
        ensures
            r == (if self.attributes@.contains_key(attribute) {
                self.attributes@[attribute].base_value
            } else {
                registered_base(bases@, attribute)->0
            }),
    {
        match self.attributes.get(&attribute) {
            Some(instance) => instance.base_value,
            None => match find_base(bases, attribute) {
                Some(base) => base,
                None => 0,
            },
        }
    }

    /// Sets the base value of an attribute of the entity, which gets one of its own if
    /// it has none. `worth` tells what an attribute is worth in single precision.
    pub fn set_attribute_base<F: Fn(&AttributeInstance) -> Rank32>(
        &mut self,
        attribute: u8,
        new_base: Rank64,
        worth: &F,
    )
        requires
            forall|instance: AttributeInstance| #[trigger] worth.requires((&instance,)),
        ensures
            attribute_values(final(self).attributes@) == rebased_values(
                attribute_values(old(self).attributes@),
                attribute,
                new_base,
            ),
            dirty_flags(final(self).attributes@) == dirty_flags(old(self).attributes@).insert(
                attribute,
                true,
            ),
            old(self).spec_max_health_follows(
                *final(self),
                attribute == old(self).max_health_attribute,
                worth,
            ),
            *final(self) == (LivingEntity {
                attributes: final(self).attributes,
                max_health: final(self).max_health,
                ..*old(self)
            }),
    {
        self.change_base(attribute, new_base);
        proof {
            let values = attribute_values(self.attributes@);
            assert(values.contains_key(attribute));
            assert(self.attributes@.contains_key(attribute));
        }
        if attribute == self.max_health_attribute {
            self.follow_max_health(worth);
        }
    }

    /// Sets the base value of an attribute of the entity, which gets one of its own if
    /// it has none.
    pub(crate) fn change_base(&mut self, attribute: u8, new_base: Rank64)
        ensures
            attribute_values(final(self).attributes@) == rebased_values(
                attribute_values(old(self).attributes@),
                attribute,
                new_base,
            ),
            dirty_flags(final(self).attributes@) == dirty_flags(old(self).attributes@).insert(
                attribute,
                true,
            ),
            *final(self) == (LivingEntity { attributes: final(self).attributes, ..*old(self) }),
    {
        let mut instance: AttributeInstance = match self.attributes.remove(&attribute) {
            Some(instance) => instance,
            None => AttributeInstance::new(new_base),
        };
        instance.base_value = new_base;
        instance.dirty = true;
        self.attributes.insert(attribute, instance);
        assert(attribute_values(self.attributes@) =~= rebased_values(
            attribute_values(old(self).attributes@),
            attribute,
            new_base,
        ));
        assert(dirty_flags(self.attributes@) =~= dirty_flags(old(self).attributes@).insert(
            attribute,
            true,
        ));
    }
}

/// Law: what an effect puts on an attribute it takes off again. Once a modifier has
/// been put and dropped, none of its name is left, and all others are as before.
pub proof fn law_dropped_modifier_leaves_no_trace(modifiers: Seq<Modifier>, modifier: Modifier)
    ensures
        changed_modifiers(
            changed_modifiers(modifiers, AttributeChange::Put(modifier)),
            AttributeChange::Drop { id: modifier.id },
        ) == without_modifier(modifiers, modifier.id),
{
    reveal(Seq::filter);
    let kept = without_modifier(modifiers, modifier.id);
    assert(kept.push(modifier).drop_last() =~= kept);
    lemma_without_twice(modifiers, modifier.id);
}

/// Taking a name out a second time changes nothing.
proof fn lemma_without_twice(modifiers: Seq<Modifier>, id: u32)
    ensures
        without_modifier(without_modifier(modifiers, id), id) == without_modifier(modifiers, id),
    decreases modifiers.len(),
{
    reveal(Seq::filter);
    if modifiers.len() > 0 {
        let rest = without_modifier(modifiers.drop_last(), id);
        lemma_without_twice(modifiers.drop_last(), id);
        if modifiers.last().id != id {
            assert(rest.push(modifiers.last()).drop_last() =~= rest);
        }
    }
}

/// Law: an effect that bears on the greatest health raises or lowers it at once. However
/// the modifiers stand in the list, the greatest health is afterwards what the attribute
/// for it is worth.
pub proof fn law_greatest_health_follows_an_effect<F: Fn(&AttributeInstance) -> Rank32>(
    before: LivingEntity,
    after: LivingEntity,
    modifiers: Seq<EffectModifier>,
    worth: &F,
    i: int,
)
    requires
        0 <= i < modifiers.len(),
        modifiers[i].attribute == before.max_health_attribute,
        before.spec_max_health_follows(
            after,
            touched_attributes(modifiers).contains(before.max_health_attribute),
            worth,
        ),
    ensures
        worth.ensures((&after.attributes@[before.max_health_attribute],), after.max_health),
{
    law_touched_attributes_are_sent_once(modifiers);
}

/// Law: no attribute is sent twice for one effect, and every attribute that the
/// effect bears on is sent.
pub proof fn law_touched_attributes_are_sent_once(modifiers: Seq<EffectModifier>)
    ensures
        touched_attributes(modifiers).no_duplicates(),
        forall|attribute: u8|
            touched_attributes(modifiers).contains(attribute) <==> exists|i: int|
                0 <= i < modifiers.len() && #[trigger] modifiers[i].attribute == attribute,
    decreases modifiers.len(),
{
    if modifiers.len() > 0 {
        let rest = modifiers.drop_last();
        let last = modifiers.last();
        let before = touched_attributes(rest);
        law_touched_attributes_are_sent_once(rest);
        assert forall|attribute: u8|
            touched_attributes(modifiers).contains(attribute) <==> exists|i: int|
                0 <= i < modifiers.len() && #[trigger] modifiers[i].attribute == attribute by {
            if touched_attributes(modifiers).contains(attribute) {
                if before.contains(attribute) {
                    let i = choose|i: int|
                        0 <= i < rest.len() && #[trigger] rest[i].attribute == attribute;
                    assert(modifiers[i].attribute == attribute);
                } else {
                    assert(attribute == last.attribute);
                    assert(modifiers[modifiers.len() - 1].attribute == attribute);
                }
            }
            if exists|i: int| 0 <= i < modifiers.len() && #[trigger] modifiers[i].attribute
                == attribute {
                let i = choose|i: int|
                    0 <= i < modifiers.len() && #[trigger] modifiers[i].attribute == attribute;
                if i < rest.len() {
                    assert(rest[i].attribute == attribute);
                    assert(before.contains(attribute));
                    let k = choose|k: int| 0 <= k < before.len() && before[k] == attribute;
                    assert(touched_attributes(modifiers)[k] == attribute);
                } else if !before.contains(attribute) {
                    assert(touched_attributes(modifiers)[before.len() as int] == attribute);
                }
            }
        }
    }
}

/// The first of the bases that are given to an attribute counts.
proof fn lemma_first_base_counts(bases: Seq<AttributeBase>, attribute: u8, k: int)
    requires
        0 <= k < bases.len(),
        bases[k].attribute == attribute,
        forall|i: int| 0 <= i < k ==> (#[trigger] bases[i]).attribute != attribute,
    ensures
        registered_base(bases, attribute) == Some(bases[k].base),
    decreases bases.len(),
{
    if k > 0 {
        assert(bases[0].attribute != attribute);
        let rest = bases.skip(1);
        assert(rest[k - 1] == bases[k]);
        assert forall|i: int| 0 <= i < k - 1 implies (
        #[trigger] rest[i]).attribute != attribute by {
            assert(rest[i] == bases[i + 1]);
        }
        lemma_first_base_counts(rest, attribute, k - 1);
    }
}

/// An attribute that no base is given to has none.
proof fn lemma_no_base(bases: Seq<AttributeBase>, attribute: u8)
    requires
        forall|i: int| 0 <= i < bases.len() ==> (#[trigger] bases[i]).attribute != attribute,
    ensures
        registered_base(bases, attribute) is None,
    decreases bases.len(),
{
    if bases.len() > 0 {
        assert(bases[0].attribute != attribute);
        let rest = bases.skip(1);
        assert forall|i: int| 0 <= i < rest.len() implies (
        #[trigger] rest[i]).attribute != attribute by {
            assert(rest[i] == bases[i + 1]);
        }
        lemma_no_base(rest, attribute);
    }
}

/// Law: the first base that a kind of entity gives to an attribute is its base, and where it gives
/// none there is none.
pub proof fn law_first_base_counts(
    bases: Vec<AttributeBase>,
    attribute: u8,
    r: Option<Rank64>,
    k: int,
)
    requires
        call_ensures(find_base, (&bases, attribute), r),
        0 <= k <= bases@.len(),
        forall|i: int| 0 <= i < k ==> (#[trigger] bases@[i]).attribute != attribute,
    ensures
        k == bases@.len() ==> r is None,
        k < bases@.len() && bases@[k].attribute == attribute ==> r == Some(bases@[k].base),
{
    if k == bases@.len() {
        lemma_no_base(bases@, attribute);
    } else if bases@[k].attribute == attribute {
        lemma_first_base_counts(bases@, attribute, k);
    }
}

/// Taking a name out leaves just the modifiers of other names.
proof fn lemma_other_modifiers_stay(modifiers: Seq<Modifier>, id: u32)
    ensures
        forall|modifier: Modifier| #[trigger]
            without_modifier(modifiers, id).contains(modifier) <==> modifiers.contains(modifier)
                && modifier.id != id,
        without_modifier(modifiers, id).len() <= modifiers.len(),
    decreases modifiers.len(),
{
    reveal(Seq::filter);
    if modifiers.len() > 0 {
        let before = modifiers.drop_last();
        lemma_other_modifiers_stay(before, id);
        let rest = without_modifier(before, id);
        let all = without_modifier(modifiers, id);
        assert(all == if modifiers.last().id != id {
            rest.push(modifiers.last())
        } else {
            rest
        });
        assert forall|modifier: Modifier| #[trigger]
            all.contains(modifier) <==> modifiers.contains(modifier) && modifier.id != id by {
            if all.contains(modifier) {
                let i = choose|i: int| 0 <= i < all.len() && all[i] == modifier;
                if i < rest.len() {
                    assert(rest[i] == modifier);
                    assert(rest.contains(modifier));
                    let j = choose|j: int| 0 <= j < before.len() && before[j] == modifier;
                    assert(modifiers[j] == modifier);
                } else {
                    assert(modifiers[modifiers.len() - 1] == modifier);
                }
            }
            if modifiers.contains(modifier) && modifier.id != id {
                let j = choose|j: int| 0 <= j < modifiers.len() && modifiers[j] == modifier;
                if j < before.len() {
                    assert(before[j] == modifier);
                    assert(rest.contains(modifier));
                    let i = choose|i: int| 0 <= i < rest.len() && rest[i] == modifier;
                    assert(all[i] == modifier);
                } else {
                    assert(all[rest.len() as int] == modifier);
                }
            }
        }
    }
}

/// Law: a modifier that is taken off leaves no other of its name, and takes none of another name
/// with it. The base value stays.
pub proof fn law_removed_modifier_is_gone(
    instance: &mut AttributeInstance,
    id: u32,
    modifier: Modifier,
)
    requires
        call_ensures(AttributeInstance::remove_modifier, (instance, id), ()),
    ensures
        final(instance).modifiers@.contains(modifier) <==> old(instance).modifiers@.contains(
            modifier,
        ) && modifier.id != id,
        final(instance).base_value == old(instance).base_value,
{
    lemma_other_modifiers_stay(old(instance).modifiers@, id);
}

/// Law: a modifier that is put on is there, as the last one and the only one of its name; all of
/// other names stay.
pub proof fn law_put_modifier_is_the_only_one_of_its_name(
    instance: &mut AttributeInstance,
    put: Modifier,
    modifier: Modifier,
)
    requires
        call_ensures(AttributeInstance::add_or_replace_modifier, (instance, put), ()),
    ensures
        final(instance).modifiers@.len() > 0,
        final(instance).modifiers@.last() == put,
        modifier.id == put.id ==> (final(instance).modifiers@.contains(modifier) <==> modifier
            == put),
        modifier.id != put.id ==> (final(instance).modifiers@.contains(modifier) <==> old(instance).modifiers@.contains(modifier)),
        final(instance).base_value == old(instance).base_value,
{
    let rest = without_modifier(old(instance).modifiers@, put.id);
    let all = final(instance).modifiers@;
    lemma_other_modifiers_stay(old(instance).modifiers@, put.id);
    assert(all[rest.len() as int] == put);
    if all.contains(modifier) {
        let i = choose|i: int| 0 <= i < all.len() && all[i] == modifier;
        if i < rest.len() {
            assert(rest[i] == modifier);
            assert(rest.contains(modifier));
        }
    }
    if rest.contains(modifier) {
        let i = choose|i: int| 0 <= i < rest.len() && rest[i] == modifier;
        assert(all[i] == modifier);
    }
}

/// Law: a change of one attribute leaves all others as they were, and what it changes starts from
/// the entity's own value, or else from the base of its kind, or else from the default.
pub proof fn law_other_attributes_stay<F: Fn(&AttributeInstance) -> Rank32>(
    entity: &mut LivingEntity,
    bases: Vec<AttributeBase>,
    attribute: u8,
    default_value: Rank64,
    change: AttributeChange,
    worth: F,
    other: u8,
)
    requires
        call_ensures(
            LivingEntity::update_attribute::<F>,
            (entity, &bases, attribute, default_value, change, &worth),
            (),
        ),
    ensures
        ({
            let before = attribute_values(old(entity).attributes@);
            let after = attribute_values(final(entity).attributes@);
            &&& other != attribute ==> after.contains_key(other) == before.contains_key(other)
            &&& other != attribute && before.contains_key(other) ==> after[other] == before[other]
            &&& after.contains_key(attribute)
            &&& before.contains_key(attribute) ==> after[attribute].0 == before[attribute].0
            &&& !before.contains_key(attribute) && (forall|i: int|
                0 <= i < bases@.len() ==> (#[trigger] bases@[i]).attribute != attribute)
                ==> after[attribute].0 == default_value
            &&& !before.contains_key(attribute) && bases@.len() > 0 && bases@[0].attribute
                == attribute ==> after[attribute].0 == bases@[0].base
            &&& !before.contains_key(attribute) && change is Put ==> after[attribute].1
                == seq![change->Put_0]
            &&& !before.contains_key(attribute) && change is Drop ==> after[attribute].1.len() == 0
            &&& dirty_flags(final(entity).attributes@)[attribute]
            &&& final(entity).health == old(entity).health
        }),
{
    if forall|i: int| 0 <= i < bases@.len() ==> (#[trigger] bases@[i]).attribute != attribute {
        lemma_no_base(bases@, attribute);
    }
    if bases@.len() > 0 && bases@[0].attribute == attribute {
        lemma_first_base_counts(bases@, attribute, 0);
    }
    reveal(Seq::filter);
    match change {
        AttributeChange::Put(modifier) => {
            assert(Seq::<Modifier>::empty().push(modifier) =~= seq![modifier]);
        },
        AttributeChange::Drop { id } => {},
    }
}

/// Law: a new base value is that of its attribute alone; its modifiers and all other attributes
/// stay.
pub proof fn law_new_base_keeps_the_modifiers<F: Fn(&AttributeInstance) -> Rank32>(
    entity: &mut LivingEntity,
    attribute: u8,
    new_base: Rank64,
    worth: F,
    other: u8,
)
    requires
        call_ensures(
            LivingEntity::set_attribute_base::<F>,
            (entity, attribute, new_base, &worth),
            (),
        ),
    ensures
        ({
            let before = attribute_values(old(entity).attributes@);
            let after = attribute_values(final(entity).attributes@);
            &&& after.contains_key(attribute)
            &&& after[attribute].0 == new_base
            &&& before.contains_key(attribute) ==> after[attribute].1 == before[attribute].1
            &&& !before.contains_key(attribute) ==> after[attribute].1.len() == 0
            &&& other != attribute ==> after.contains_key(other) == before.contains_key(other)
            &&& other != attribute && before.contains_key(other) ==> after[other] == before[other]
            &&& dirty_flags(final(entity).attributes@)[attribute]
        }),
{
}

/// The attributes that no modifier of an effect bears on stay as they were.
proof fn lemma_effect_spares_others(
    values: Map<u8, (Rank64, Seq<Modifier>)>,
    bases: Seq<AttributeBase>,
    modifiers: Seq<EffectModifier>,
    put: bool,
    other: u8,
)
    requires
        forall|i: int| 0 <= i < modifiers.len() ==> (#[trigger] modifiers[i]).attribute != other,
    ensures
        effect_values(values, bases, modifiers, put).contains_key(other) == values.contains_key(
            other,
        ),
        values.contains_key(other) ==> effect_values(values, bases, modifiers, put)[other]
            == values[other],
    decreases modifiers.len(),
{
    if modifiers.len() > 0 {
        let before = modifiers.drop_last();
        assert forall|i: int| 0 <= i < before.len() implies (
        #[trigger] before[i]).attribute != other by {
            assert(before[i] == modifiers[i]);
        }
        assert(modifiers[modifiers.len() - 1] == modifiers.last());
        lemma_effect_spares_others(values, bases, before, put, other);
    }
}

/// Law: an effect that is gained puts its last modifier on its attribute, one that is lost takes it
/// off, and an attribute that the effect does not bear on stays and is not sent.
pub proof fn law_effect_bears_on_its_attributes<F: Fn(&AttributeInstance) -> Rank32>(
    entity: &mut LivingEntity,
    bases: Vec<AttributeBase>,
    modifiers: Vec<EffectModifier>,
    put: bool,
    worth: F,
    touched: Vec<u8>,
    other: u8,
)
    requires
        call_ensures(
            LivingEntity::update_effect_modifiers::<F>,
            (entity, &bases, &modifiers, put, &worth),
            touched,
        ),
    ensures
        ({
            let before = attribute_values(old(entity).attributes@);
            let after = attribute_values(final(entity).attributes@);
            &&& (forall|i: int|
                0 <= i < modifiers@.len() ==> (#[trigger] modifiers@[i]).attribute != other) ==> {
                &&& after.contains_key(other) == before.contains_key(other)
                &&& before.contains_key(other) ==> after[other] == before[other]
                &&& !touched@.contains(other)
            }
            &&& modifiers@.len() > 0 ==> {
                let last = modifiers@.last();
                &&& after.contains_key(last.attribute)
                &&& put ==> after[last.attribute].1.contains(last.modifier)
                &&& !put ==> forall|i: int|
                    0 <= i < after[last.attribute].1.len() ==> (
                    #[trigger] after[last.attribute].1[i]).id != last.modifier.id
                &&& touched@.contains(last.attribute)
            }
        }),
{
    let before = attribute_values(old(entity).attributes@);
    if forall|i: int| 0 <= i < modifiers@.len() ==> (#[trigger] modifiers@[i]).attribute != other {
        lemma_effect_spares_others(before, bases@, modifiers@, put, other);
    }
    law_touched_attributes_are_sent_once(modifiers@);
    if modifiers@.len() > 0 {
        let last = modifiers@.last();
        assert(modifiers@[modifiers@.len() - 1].attribute == last.attribute);
        let start = value_or_base(
            effect_values(before, bases@, modifiers@.drop_last(), put),
            bases@,
            last.attribute,
            last.default_value,
        );
        let rest = without_modifier(start.1, last.modifier.id);
        lemma_other_modifiers_stay(start.1, last.modifier.id);
        if put {
            assert(rest.push(last.modifier)[rest.len() as int] == last.modifier);
        } else {
            assert forall|i: int| 0 <= i < rest.len() implies (
            #[trigger] rest[i]).id != last.modifier.id by {
                assert(rest.contains(rest[i]));
            }
        }
    }
}

/// Law: an attribute that the entity has of its own has its own base value, whatever its kind says, and
/// every other is worth its default.
pub proof fn law_own_attributes_come_first<F: Fn(&AttributeInstance) -> Rank64>(
    entity: LivingEntity,
    bases: Vec<AttributeBase>,
    attribute: u8,
    default_value: Rank64,
    value: F,
    base: Rank64,
    worth: Rank64,
)
    requires
        call_ensures(LivingEntity::get_attribute_base, (&entity, &bases, attribute), base),
        call_ensures(
            LivingEntity::get_attribute_value::<F>,
            (&entity, attribute, default_value, &value),
            worth,
        ),
    ensures
        entity.attributes@.contains_key(attribute) ==> base
            == entity.attributes@[attribute].base_value,
        !entity.attributes@.contains_key(attribute) && bases@.len() > 0 && bases@[0].attribute
            == attribute ==> base == bases@[0].base,
        entity.attributes@.contains_key(attribute) ==> value.ensures(
            (&entity.attributes@[attribute],),
            worth,
        ),
        !entity.attributes@.contains_key(attribute) ==> worth == default_value,
{
}

} // verus!
