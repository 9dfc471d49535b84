//! What is saved of a living entity.

use vstd::prelude::*;
use vstd::string::*;

use super::effects::{effect_map, lemma_effect_pushed};
use super::{effects_distinct, holds_effect, LivingEntity};
use crate::data::effect::{Effect, StatusEffect};
use crate::data::nbt::{
    as_float, as_held, as_list, lemma_values_of, lemma_values_pushed, values_of, Held, NbtCompound,
    NbtTag, NbtValue,
};
use crate::data::rank::{max32, min32, rank_max, rank_min, Rank32};

verus! {

/// An effect as it is saved: a compound into which it has written itself.
pub open spec fn effect_value(effect: Effect) -> NbtValue {
    NbtValue::Compound(Map::empty(), Some(Held::Effect(effect)))
}

/// The effects as they are saved.
pub open spec fn saved_effects(effects: Seq<Effect>) -> Seq<NbtValue> {
    effects.map_values(|effect: Effect| effect_value(effect))
}

/// The effect that can be read of the value, where one can.
pub open spec fn effect_in(value: NbtValue) -> Option<Effect> {
    match as_held(Some(value)) {
        Some(Held::Effect(effect)) => Some(effect),
        _ => None,
    }
}

/// The effect that can be read of the value, where one can.
fn read_effect(tag: &NbtTag) -> (r: Option<Effect>)
    ensures
        r == effect_in(tag@),
{
    match tag.extract_compound() {
        Some(compound) => match compound.held {
            Some(Held::Effect(effect)) => Some(effect),
            _ => None,
        },
        None => None,
    }
}

/// The values of a list, where the value is one; none otherwise.
pub open spec fn listed(value: Option<NbtValue>) -> Seq<NbtValue> {
    match as_list(value) {
        Some(list) => list,
        None => Seq::empty(),
    }
}

/// The effect, blended in.
pub open spec fn blended(effect: Effect) -> Effect {
    Effect { blend: true, ..effect }
}

/// The effects on an entity after those that are found have been read in turn: each is
/// blended in and takes the place of one of its kind.
pub open spec fn with_found(
    effects: Map<StatusEffect, Effect>,
    found: Seq<NbtValue>,
) -> Map<StatusEffect, Effect>
    decreases found.len(),
{
    if found.len() == 0 {
        effects
    } else {
        let before = with_found(effects, found.drop_last());
        match effect_in(found.last()) {
            Some(effect) => before.insert(effect.effect_type, blended(effect)),
            None => before,
        }
    }
}

/// The number, or 0 where there is none.
pub open spec fn or_zero(number: Option<Rank32>) -> Rank32 {
    match number {
        Some(value) => value,
        None => 0,
    }
}

/// The number, or 0 where there is none.
fn float_or_zero(number: Option<Rank32>) -> (r: Rank32)
    ensures
        r == or_zero(number),
{
    match number {
        Some(value) => value,
        None => 0,
    }
}

impl LivingEntity {
    /// What is saved of the entity under the name. The fall of a dead entity is not saved,
    /// so that it does not die of it once more.
    pub open spec fn spec_saved(self, name: Seq<char>) -> Option<NbtValue> {
        if name == "Health"@ {
            Some(NbtValue::Float(self.health))
        } else if name == "AbsorptionAmount"@ {
            Some(NbtValue::Float(self.absorption))
        } else if name == "fall_distance"@ {
            Some(
                NbtValue::Float(
                    if self.dead {
                        0
                    } else {
                        self.fall_distance
                    },
                ),
            )
        } else if name == "active_effects"@ && self.active_effects@.len() > 0 {
            Some(NbtValue::List(saved_effects(self.active_effects@)))
        } else {
            None
        }
    }

    /// Saves the entity, beside what is saved already.
    pub fn write_nbt(&self, nbt: &mut NbtCompound)
        ensures
            forall|name: Seq<char>| #[trigger]
                final(nbt).spec_get(name) == (match old(nbt).spec_get(name) {
                    Some(value) => Some(value),
                    None => self.spec_saved(name),
                }),
            final(nbt).held == old(nbt).held,
    {
        nbt.put("Health", NbtTag::Float(self.health));
        let fall_distance: Rank32 = if self.dead {
            0
        } else {
            self.fall_distance
        };
        nbt.put("AbsorptionAmount", NbtTag::Float(self.absorption));
        nbt.put("fall_distance", NbtTag::Float(fall_distance));
        if self.active_effects.len() > 0 {
            let mut list: Vec<NbtTag> = Vec::new();
            assert(values_of(list@) =~= saved_effects(self.active_effects@.take(0)));
            let mut i: usize = 0;
            while i < self.active_effects.len()
                invariant
                    i <= self.active_effects@.len(),
                    values_of(list@) == saved_effects(self.active_effects@.take(i as int)),
                decreases self.active_effects.len() - i,
            {
                let mut compound: NbtCompound = NbtCompound::new();
                compound.hold(Held::Effect(self.active_effects[i]));
                let tag: NbtTag = NbtTag::Compound(compound);
                proof {
                    lemma_values_pushed(list@, tag);
                    assert(tag@ == effect_value(self.active_effects@[i as int]));
                }
                list.push(tag);
                i = i + 1;
                assert(values_of(list@) =~= saved_effects(self.active_effects@.take(i as int)));
            }
            assert(self.active_effects@.take(i as int) =~= self.active_effects@);
            nbt.put("active_effects", NbtTag::List(list));
        }
    }

    /// `after` is the entity once it has been read from what is saved. What is missing
    /// counts as 0; the absorption is kept between 0 and the most that the entity can have;
    /// an entity that is dead already does not take up its fall again.
    pub open spec fn spec_reads(
        self,
        after: LivingEntity,
        nbt: NbtCompound,
        max_absorption: Rank32,
    ) -> bool {
        &&& effect_map(after.active_effects@) == with_found(
            effect_map(self.active_effects@),
            listed(nbt.spec_get("active_effects"@)),
        )
        &&& after == LivingEntity {
            health: or_zero(as_float(nbt.spec_get("Health"@))),
            absorption: rank_min(
                rank_max(or_zero(as_float(nbt.spec_get("AbsorptionAmount"@))) as int, 0),
                max_absorption as int,
            ) as i32,
            fall_distance: if self.dead {
                0
            } else {
                or_zero(as_float(nbt.spec_get("fall_distance"@)))
            },
            active_effects: after.active_effects,
            ..self
        }
    }

    /// Reads the entity from what is saved.
    pub fn read_nbt(&mut self, nbt: &NbtCompound, max_absorption: Rank32)
        requires
            old(self).wf(),
        ensures
            final(self).wf(),
            old(self).spec_reads(*final(self), *nbt, max_absorption),
    {
        self.health = float_or_zero(nbt.get_float("Health"));
        let found: Rank32 = float_or_zero(nbt.get_float("AbsorptionAmount"));
        self.absorption = min32(max32(found, 0), max_absorption);
        let fall: Rank32 = float_or_zero(nbt.get_float("fall_distance"));
        self.fall_distance = if self.dead {
            0
        } else {
            fall
        };
        let ghost before = *self;
        if let Some(list) = nbt.get_list("active_effects") {
            let ghost found = values_of(list@);
            proof {
                lemma_values_of(list@);
            }
            let mut i: usize = 0;
            while i < list.len()
                invariant
                    i <= list@.len(),
                    found.len() == list@.len(),
                    forall|k: int| 0 <= k < list@.len() ==> #[trigger] found[k] == list@[k]@,
                    self.wf(),
                    effect_map(self.active_effects@) == with_found(
                        effect_map(before.active_effects@),
                        found.take(i as int),
                    ),
                    *self == (LivingEntity { active_effects: self.active_effects, ..before }),
                decreases list.len() - i,
            {
                assert(found.take(i as int + 1).drop_last() =~= found.take(i as int));
                assert(found[i as int] == list@[i as int]@);
                if let Some(effect) = read_effect(&list[i]) {
                    let mut effect: Effect = effect;
                    effect.blend = true;
                    self.insert_effect(effect);
                }
                i = i + 1;
            }
            assert(found.take(i as int) =~= found);
        }
    }
}

/// Effects of different kinds that are saved and read again are there again, blended in.
proof fn lemma_effects_come_back(effects: Seq<Effect>)
    requires
        effects_distinct(effects),
    ensures
        with_found(Map::empty(), saved_effects(effects)) == effect_map(effects).map_values(
            |effect: Effect| blended(effect),
        ),
    decreases effects.len(),
{
    let blend = |effect: Effect| blended(effect);
    if effects.len() == 0 {
        assert(effect_map(effects).map_values(blend) =~= Map::empty());
    } else {
        let before = effects.drop_last();
        let last = effects.last();
        assert forall|i: int, j: int| 0 <= i < j < before.len() implies #[trigger] before[i].effect_type
            != #[trigger] before[j].effect_type by {
            assert(effects[i].effect_type != effects[j].effect_type);
        }
        if holds_effect(before, last.effect_type) {
            let i = choose|i: int|
                0 <= i < before.len() && #[trigger] before[i].effect_type == last.effect_type;
            assert(effects[i].effect_type != effects[effects.len() - 1].effect_type);
        }
        lemma_effects_come_back(before);
        lemma_effect_pushed(before, last);
        assert(before.push(last) =~= effects);
        assert(saved_effects(effects).drop_last() =~= saved_effects(before));
        assert(effect_map(before).insert(last.effect_type, last).map_values(blend) =~= effect_map(
            before,
        ).map_values(blend).insert(last.effect_type, blended(last)));
    }
}

/// Law: an entity that is read from what was saved of it has its health and its effects
/// again, blended in, its absorption where it was within bounds, and its fall unless it is
/// or was dead. `blank` is the entity that is read into, without any effect.
pub proof fn law_living_entity_comes_back(
    entity: LivingEntity,
    blank: LivingEntity,
    after: LivingEntity,
    nbt: NbtCompound,
    max_absorption: Rank32,
)
    requires
        entity.wf(),
        blank.active_effects@.len() == 0,
        forall|name: Seq<char>| #[trigger] nbt.spec_get(name) == entity.spec_saved(name),
        blank.spec_reads(after, nbt, max_absorption),
    ensures
        after.health == entity.health,
        0 <= entity.absorption <= max_absorption ==> after.absorption == entity.absorption,
        after.fall_distance == (if blank.dead || entity.dead {
            0
        } else {
            entity.fall_distance
        }),
        effect_map(after.active_effects@) == effect_map(entity.active_effects@).map_values(
            |effect: Effect| blended(effect),
        ),
{
    reveal_strlit("Health");
    reveal_strlit("AbsorptionAmount");
    reveal_strlit("fall_distance");
    reveal_strlit("active_effects");
    assert("Health"@.len() == 6);
    assert("AbsorptionAmount"@.len() == 16);
    assert("fall_distance"@.len() == 13);
    assert("active_effects"@.len() == 14);
    assert(effect_map(blank.active_effects@) =~= Map::empty());
    lemma_effects_come_back(entity.active_effects@);
    if entity.active_effects@.len() == 0 {
        assert(saved_effects(entity.active_effects@) =~= Seq::empty());
    }
}

/// Law: an entity is saved under the names `Health`, `AbsorptionAmount`, `fall_distance` and
/// `active_effects`. The fall of a dead entity is saved as none, and where there are no effects
/// none are saved. What was saved before under these names stays.
pub proof fn law_names_of_what_is_saved(entity: LivingEntity, nbt: &mut NbtCompound)
    requires
        call_ensures(LivingEntity::write_nbt, (&entity, nbt), ()),
    ensures
        old(nbt).spec_get("Health"@) is None ==> final(nbt).spec_get("Health"@) == Some(
            NbtValue::Float(entity.health),
        ),
        old(nbt).spec_get("AbsorptionAmount"@) is None ==> final(nbt).spec_get("AbsorptionAmount"@)
            == Some(NbtValue::Float(entity.absorption)),
        old(nbt).spec_get("fall_distance"@) is None ==> final(nbt).spec_get("fall_distance"@)
            == Some(
            NbtValue::Float(
                if entity.dead {
                    0
                } else {
                    entity.fall_distance
                },
            ),
        ),
        old(nbt).spec_get("active_effects"@) is None && entity.active_effects@.len() == 0 ==> final(nbt).spec_get("active_effects"@) is None,
        old(nbt).spec_get("active_effects"@) is None && entity.active_effects@.len() > 0 ==> final(nbt).spec_get("active_effects"@) is Some,
        old(nbt).spec_get("Health"@) is Some ==> final(nbt).spec_get("Health"@) == old(nbt).spec_get("Health"@),
{
    reveal_strlit("Health");
    reveal_strlit("AbsorptionAmount");
    reveal_strlit("fall_distance");
    reveal_strlit("active_effects");
    assert("Health"@.len() == 6);
    assert("AbsorptionAmount"@.len() == 16);
    assert("fall_distance"@.len() == 13);
    assert("active_effects"@.len() == 14);
}

/// Law: an entity reads its health and its fall as they were saved, and its absorption as far as it
/// can have it. What was not saved counts as nothing, and the dead do not fall again.
pub proof fn law_what_is_read_of_the_saved(
    entity: &mut LivingEntity,
    nbt: NbtCompound,
    max_absorption: Rank32,
    saved: Rank32,
)
    requires
        call_ensures(LivingEntity::read_nbt, (entity, &nbt, max_absorption), ()),
        max_absorption >= 0,
    ensures
        nbt.spec_get("Health"@) == Some(NbtValue::Float(saved)) ==> final(entity).health == saved,
        nbt.spec_get("Health"@) is None ==> final(entity).health == 0,
        nbt.spec_get("AbsorptionAmount"@) == Some(NbtValue::Float(saved)) && 0 <= saved
            <= max_absorption ==> final(entity).absorption == saved,
        0 <= final(entity).absorption <= max_absorption,
        nbt.spec_get("fall_distance"@) == Some(NbtValue::Float(saved)) && !old(entity).dead
            ==> final(entity).fall_distance == saved,
        old(entity).dead ==> final(entity).fall_distance == 0,
        final(entity).dead == old(entity).dead,
        final(entity).max_health == old(entity).max_health,
{
}

} // verus!
