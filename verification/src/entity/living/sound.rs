//! The sounds of living entities.

use vstd::prelude::*;

use super::LivingEntity;
use crate::data::entity_type::EntityType;
use crate::text::join;

verus! {

/// A sound, by its place in the registry of sounds.
pub type Sound = usize;

/// The kinds of volume that sounds fall under.
#[derive(Clone, Copy, Debug, PartialEq, Eq, Structural)]
pub enum SoundCategory {
    Players,
    Hostile,
    Neutral,
}

/// The first place at which the registry holds the name.
pub open spec fn is_sound_named(registry: Seq<String>, name: Seq<char>, sound: int) -> bool {
    &&& 0 <= sound < registry.len()
    &&& registry[sound]@ == name
    &&& forall|i: int| 0 <= i < sound ==> (#[trigger] registry[i])@ != name
}

/// No place of the registry holds the name.
pub open spec fn no_sound_named(registry: Seq<String>, name: Seq<char>) -> bool {
    forall|i: int| 0 <= i < registry.len() ==> (#[trigger] registry[i])@ != name
}

/// The sound with the name, where there is one.
pub fn sound_from_name(registry: &Vec<String>, name: &String) -> (r: Option<Sound>)
    ensures
        r matches Some(sound) ==> is_sound_named(registry@, name@, sound as int),
        r is None ==> no_sound_named(registry@, name@),
{
    let mut i: usize = 0;
    while i < registry.len()
        invariant
            i <= registry@.len(),
            forall|j: int| 0 <= j < i ==> (#[trigger] registry@[j])@ != name@,
        decreases registry.len() - i,
    {
        if registry[i] == *name {
            return Some(i);
        }
        i = i + 1;
    }
    None
}

/// The name under which the registry holds the sound of a hurt entity.
pub open spec fn hurt_sound_name(resource_name: Seq<char>) -> Seq<char> {
    "entity."@ + resource_name + ".hurt"@
}

impl LivingEntity {
    /// The sound is that of a hurt entity: the one that its kind names, or else the one
    /// that the registry holds for the kind, or else the one for all.
    pub open spec fn is_hurt_sound(
        sound: Sound,
        own: Option<Sound>,
        resource_name: Seq<char>,
        registry: Seq<String>,
        generic: Sound,
    ) -> bool {
        match own {
            Some(own) => sound == own,
            None => is_sound_named(registry, hurt_sound_name(resource_name), sound as int)
                || no_sound_named(registry, hurt_sound_name(resource_name)) && sound == generic,
        }
    }

    /// The sound of this entity when it is hurt: a slime sounds as its size makes it.
    pub fn hurt_sound(
        &self,
        slime_sound: Sound,
        own: Option<Sound>,
        resource_name: &str,
        registry: &Vec<String>,
        generic: Sound,
    ) -> (r: Sound)
        ensures
            self.entity_type == EntityType::Slime ==> r == slime_sound,
            self.entity_type != EntityType::Slime ==> Self::is_hurt_sound(
                r,
                own,
                resource_name@,
                registry@,
                generic,
            ),
    {
        if self.entity_type == EntityType::Slime {
            slime_sound
        } else {
            Self::hurt_sound_for_entity(own, resource_name, registry, generic)
        }
    }

    /// The sound of a hurt entity of a kind.
    pub fn hurt_sound_for_entity(
        own: Option<Sound>,
        resource_name: &str,
        registry: &Vec<String>,
        generic: Sound,
    ) -> (r: Sound)
        ensures
            Self::is_hurt_sound(r, own, resource_name@, registry@, generic),
    {
        if let Some(sound) = own {
            return sound;
        }
        let key: String = join("entity.", resource_name, ".hurt");
        match sound_from_name(registry, &key) {
            Some(sound) => sound,
            None => generic,
        }
    }

    /// The volume that the sounds of an entity fall under.
    pub fn sound_category_for_entity(entity_type: EntityType, is_monster: bool) -> (r: SoundCategory)
        ensures
            r == (if entity_type == EntityType::Player {
                SoundCategory::Players
            } else if is_monster {
                SoundCategory::Hostile
            } else {
                SoundCategory::Neutral
            }),
    {
        if entity_type == EntityType::Player {
            SoundCategory::Players
        } else if is_monster {
            SoundCategory::Hostile
        } else {
            SoundCategory::Neutral
        }
    }
}

/// Law: a hurt entity sounds as its kind says, or as the sound `entity.<kind>.hurt` where there is
/// one, or else as any entity; a slime sounds as its size makes it.
pub proof fn law_hurt_entity_sounds_as_its_kind(
    entity: LivingEntity,
    slime_sound: Sound,
    own: Option<Sound>,
    resource_name: &str,
    registry: Vec<String>,
    generic: Sound,
    r: Sound,
)
    requires
        call_ensures(
            LivingEntity::hurt_sound,
            (&entity, slime_sound, own, resource_name, &registry, generic),
            r,
        ),
    ensures
        entity.entity_type == EntityType::Slime ==> r == slime_sound,
        entity.entity_type != EntityType::Slime && own is Some ==> r == own->0,
        entity.entity_type != EntityType::Slime && own is None && (exists|i: int|
            0 <= i < registry@.len() && (#[trigger] registry@[i])@ == "entity."@ + resource_name@
                + ".hurt"@) ==> r < registry@.len() && registry@[r as int]@ == "entity."@
            + resource_name@ + ".hurt"@,
        entity.entity_type != EntityType::Slime && own is None && (forall|i: int|
            0 <= i < registry@.len() ==> (#[trigger] registry@[i])@ != "entity."@ + resource_name@
                + ".hurt"@) ==> r == generic,
{
}

/// Law: players are heard as players, monsters as hostile, and all others as neutral.
pub proof fn law_players_are_no_monsters(
    entity_type: EntityType,
    is_monster: bool,
    r: SoundCategory,
)
    requires
        call_ensures(LivingEntity::sound_category_for_entity, (entity_type, is_monster), r),
    ensures
        r == SoundCategory::Players <==> entity_type == EntityType::Player,
        r == SoundCategory::Hostile <==> entity_type != EntityType::Player && is_monster,
{
}

/// Law: a name that the registry holds is found, at its first place; one that it does not hold is
/// not.
pub proof fn law_known_sounds_are_found(
    registry: Vec<String>,
    name: String,
    r: Option<Sound>,
    k: int,
)
    requires
        call_ensures(sound_from_name, (&registry, &name), r),
    ensures
        0 <= k < registry@.len() && registry@[k]@ == name@ ==> r is Some && r->0 <= k,
        r is Some ==> r->0 < registry@.len() && registry@[r->0 as int]@ == name@,
{
}

/// Law: a kind of entity sounds hurt as it says itself, or else as the registry says of its name, or else
/// as all do.
pub proof fn law_kind_sounds_hurt_as_it_says(
    own: Option<Sound>,
    resource_name: &str,
    registry: Vec<String>,
    generic: Sound,
    r: Sound,
)
    requires
        call_ensures(
            LivingEntity::hurt_sound_for_entity,
            (own, resource_name, &registry, generic),
            r,
        ),
    ensures
        own is Some ==> r == own->0,
        own is None && (exists|i: int|
            0 <= i < registry@.len() && (#[trigger] registry@[i])@ == "entity."@ + resource_name@
                + ".hurt"@) ==> r < registry@.len() && registry@[r as int]@ == "entity."@
            + resource_name@ + ".hurt"@,
        own is None && (forall|i: int|
            0 <= i < registry@.len() ==> (#[trigger] registry@[i])@ != "entity."@ + resource_name@
                + ".hurt"@) ==> r == generic,
{
}

} // verus!
