//! What a villager is: where it comes from, what it does for a living, and what it
//! eats.

use vstd::prelude::*;
use vstd::string::*;

use crate::text::{namespaced, spec_namespaced};

verus! {

/// How much food a villager needs to breed.
pub const BREEDING_FOOD_THRESHOLD: i32 = 12;

/// Where a villager comes from, which shows in its clothes.
#[derive(Clone, Copy, Debug, PartialEq, Eq, Structural)]
pub enum VillagerType {
    Desert,
    Jungle,
    Plains,
    Savanna,
    Snow,
    Swamp,
    Taiga,
}

/// What a villager does for a living.
#[derive(Clone, Copy, Debug, PartialEq, Eq, Structural)]
pub enum VillagerProfession {
    Unemployed,
    Armorer,
    Butcher,
    Cartographer,
    Cleric,
    Farmer,
    Fisherman,
    Fletcher,
    Leatherworker,
    Librarian,
    Mason,
    Nitwit,
    Shepherd,
    Toolsmith,
    Weaponsmith,
}

impl VillagerType {
    /// The number of the type.
    pub open spec fn spec_number(self) -> i32 {
        match self {
            VillagerType::Desert => 0,
            VillagerType::Jungle => 1,
            VillagerType::Plains => 2,
            VillagerType::Savanna => 3,
            VillagerType::Snow => 4,
            VillagerType::Swamp => 5,
            VillagerType::Taiga => 6,
        }
    }

    /// The type with the number; an unknown number stands for `Plains`.
    pub open spec fn spec_from_number(number: i32) -> VillagerType {
        if number == 0 {
            VillagerType::Desert
        } else if number == 1 {
            VillagerType::Jungle
        } else if number == 3 {
            VillagerType::Savanna
        } else if number == 4 {
            VillagerType::Snow
        } else if number == 5 {
            VillagerType::Swamp
        } else if number == 6 {
            VillagerType::Taiga
        } else {
            VillagerType::Plains
        }
    }

    /// The number of the type.
    pub fn number(self) -> (r: i32)
        ensures
            r == self.spec_number(),
    {
        match self {
            VillagerType::Desert => 0,
            VillagerType::Jungle => 1,
            VillagerType::Plains => 2,
            VillagerType::Savanna => 3,
            VillagerType::Snow => 4,
            VillagerType::Swamp => 5,
            VillagerType::Taiga => 6,
        }
    }

    /// The type with the number.
    pub fn from_number(number: i32) -> (r: Self)
        ensures
            r == Self::spec_from_number(number),
    {
        match number {
            0 => VillagerType::Desert,
            1 => VillagerType::Jungle,
            3 => VillagerType::Savanna,
            4 => VillagerType::Snow,
            5 => VillagerType::Swamp,
            6 => VillagerType::Taiga,
            _ => VillagerType::Plains,
        }
    }
}

impl VillagerProfession {
    /// The number of the profession.
    pub open spec fn spec_number(self) -> i32 {
        match self {
            VillagerProfession::Unemployed => 0,
            VillagerProfession::Armorer => 1,
            VillagerProfession::Butcher => 2,
            VillagerProfession::Cartographer => 3,
            VillagerProfession::Cleric => 4,
            VillagerProfession::Farmer => 5,
            VillagerProfession::Fisherman => 6,
            VillagerProfession::Fletcher => 7,
            VillagerProfession::Leatherworker => 8,
            VillagerProfession::Librarian => 9,
            VillagerProfession::Mason => 10,
            VillagerProfession::Nitwit => 11,
            VillagerProfession::Shepherd => 12,
            VillagerProfession::Toolsmith => 13,
            VillagerProfession::Weaponsmith => 14,
        }
    }

    /// The profession with the number; an unknown number stands for `Unemployed`.
    pub open spec fn spec_from_number(number: i32) -> VillagerProfession {
        if number == 1 {
            VillagerProfession::Armorer
        } else if number == 2 {
            VillagerProfession::Butcher
        } else if number == 3 {
            VillagerProfession::Cartographer
        } else if number == 4 {
            VillagerProfession::Cleric
        } else if number == 5 {
            VillagerProfession::Farmer
        } else if number == 6 {
            VillagerProfession::Fisherman
        } else if number == 7 {
            VillagerProfession::Fletcher
        } else if number == 8 {
            VillagerProfession::Leatherworker
        } else if number == 9 {
            VillagerProfession::Librarian
        } else if number == 10 {
            VillagerProfession::Mason
        } else if number == 11 {
            VillagerProfession::Nitwit
        } else if number == 12 {
            VillagerProfession::Shepherd
        } else if number == 13 {
            VillagerProfession::Toolsmith
        } else if number == 14 {
            VillagerProfession::Weaponsmith
        } else {
            VillagerProfession::Unemployed
        }
    }

    /// The number of the profession.
    pub fn number(self) -> (r: i32)
        ensures
            r == self.spec_number(),
    {
        match self {
            VillagerProfession::Unemployed => 0,
            VillagerProfession::Armorer => 1,
            VillagerProfession::Butcher => 2,
            VillagerProfession::Cartographer => 3,
            VillagerProfession::Cleric => 4,
            VillagerProfession::Farmer => 5,
            VillagerProfession::Fisherman => 6,
            VillagerProfession::Fletcher => 7,
            VillagerProfession::Leatherworker => 8,
            VillagerProfession::Librarian => 9,
            VillagerProfession::Mason => 10,
            VillagerProfession::Nitwit => 11,
            VillagerProfession::Shepherd => 12,
            VillagerProfession::Toolsmith => 13,
            VillagerProfession::Weaponsmith => 14,
        }
    }

    /// The profession with the number.
    pub fn from_number(number: i32) -> (r: Self)
        ensures
            r == Self::spec_from_number(number),
    {
        match number {
            1 => VillagerProfession::Armorer,
            2 => VillagerProfession::Butcher,
            3 => VillagerProfession::Cartographer,
            4 => VillagerProfession::Cleric,
            5 => VillagerProfession::Farmer,
            6 => VillagerProfession::Fisherman,
            7 => VillagerProfession::Fletcher,
            8 => VillagerProfession::Leatherworker,
            9 => VillagerProfession::Librarian,
            10 => VillagerProfession::Mason,
            11 => VillagerProfession::Nitwit,
            12 => VillagerProfession::Shepherd,
            13 => VillagerProfession::Toolsmith,
            14 => VillagerProfession::Weaponsmith,
            _ => VillagerProfession::Unemployed,
        }
    }
}

/// Law: a type and a profession come back from their numbers.
pub proof fn law_numbers_come_back(villager_type: VillagerType, profession: VillagerProfession)
    ensures
        VillagerType::spec_from_number(villager_type.spec_number()) == villager_type,
        VillagerProfession::spec_from_number(profession.spec_number()) == profession,
{
}

/// A number as it is sent.
#[derive(Clone, Copy, Debug, PartialEq, Eq, Structural)]
pub struct VarInt(pub i32);

/// What a villager is, as it is sent.
#[derive(Clone, Copy, Debug, PartialEq, Eq, Structural)]
pub struct VillagerData {
    pub villager_type: VarInt,
    pub profession: VarInt,
    pub level: VarInt,
}

impl VillagerData {
    /// A villager of the type, with the profession at the level.
    pub fn new(villager_type: VillagerType, profession: VillagerProfession, level: i32) -> (r: Self)
        ensures
            r == (VillagerData {
                villager_type: VarInt(villager_type.spec_number()),
                profession: VarInt(profession.spec_number()),
                level: VarInt(level),
            }),
            r.spec_type() == villager_type,
            r.spec_profession() == profession,
    {
        VillagerData {
            villager_type: VarInt(villager_type.number()),
            profession: VarInt(profession.number()),
            level: VarInt(level),
        }
    }

    /// The type of the villager.
    pub open spec fn spec_type(self) -> VillagerType {
        VillagerType::spec_from_number(self.villager_type.0)
    }

    /// The profession of the villager.
    pub open spec fn spec_profession(self) -> VillagerProfession {
        VillagerProfession::spec_from_number(self.profession.0)
    }

    /// The type of the villager.
    pub fn type_enum(&self) -> (r: VillagerType)
        ensures
            r == self.spec_type(),
    {
        VillagerType::from_number(self.villager_type.0)
    }

    /// The profession of the villager.
    pub fn profession_enum(&self) -> (r: VillagerProfession)
        ensures
            r == self.spec_profession(),
    {
        VillagerProfession::from_number(self.profession.0)
    }
}

/// The biome has the name, written in full or not.
pub open spec fn is_named(id: Seq<char>, name: Seq<char>) -> bool {
    id == name || id == spec_namespaced(name)
}

/// Whether the biome has the name, written in full or not.
fn has_name(id: &String, name: &str) -> (r: bool)
    ensures
        r == is_named(id@, name@),
{
    *id == String::from_str(name) || *id == namespaced(name)
}

/// The biome is one of those that villagers of the type `Desert` come from.
pub open spec fn is_desert_biome(id: Seq<char>) -> bool {
    ||| is_named(id, "desert"@)
    ||| is_named(id, "badlands"@)
    ||| is_named(id, "eroded_badlands"@)
    ||| is_named(id, "wooded_badlands"@)
}

/// The biome is one of those that villagers of the type `Jungle` come from.
pub open spec fn is_jungle_biome(id: Seq<char>) -> bool {
    ||| is_named(id, "jungle"@)
    ||| is_named(id, "bamboo_jungle"@)
    ||| is_named(id, "sparse_jungle"@)
}

/// The biome is one of those that villagers of the type `Savanna` come from.
pub open spec fn is_savanna_biome(id: Seq<char>) -> bool {
    ||| is_named(id, "savanna"@)
    ||| is_named(id, "savanna_plateau"@)
    ||| is_named(id, "windswept_savanna"@)
}

/// The biome is one of those that villagers of the type `Snow` come from.
pub open spec fn is_snow_biome(id: Seq<char>) -> bool {
    ||| is_named(id, "snowy_plains"@)
    ||| is_named(id, "ice_spikes"@)
    ||| is_named(id, "snowy_taiga"@)
    ||| is_named(id, "snowy_beach"@)
    ||| is_named(id, "snowy_slopes"@)
    ||| is_named(id, "grove"@)
    ||| is_named(id, "frozen_peaks"@)
    ||| is_named(id, "jagged_peaks"@)
    ||| is_named(id, "frozen_river"@)
    ||| is_named(id, "frozen_ocean"@)
    ||| is_named(id, "deep_frozen_ocean"@)
}

/// The biome is one of those that villagers of the type `Swamp` come from.
pub open spec fn is_swamp_biome(id: Seq<char>) -> bool {
    ||| is_named(id, "swamp"@)
    ||| is_named(id, "mangrove_swamp"@)
}

/// The biome is one of those that villagers of the type `Taiga` come from.
pub open spec fn is_taiga_biome(id: Seq<char>) -> bool {
    ||| is_named(id, "taiga"@)
    ||| is_named(id, "old_growth_pine_taiga"@)
    ||| is_named(id, "old_growth_spruce_taiga"@)
    ||| is_named(id, "windswept_hills"@)
    ||| is_named(id, "windswept_gravelly_hills"@)
    ||| is_named(id, "windswept_forest"@)
}

/// Where villagers come from, by the biome: those of any other biome come from plains.
pub open spec fn type_of_biome(id: Seq<char>) -> VillagerType {
    if is_desert_biome(id) {
        VillagerType::Desert
    } else if is_jungle_biome(id) {
        VillagerType::Jungle
    } else if is_savanna_biome(id) {
        VillagerType::Savanna
    } else if is_snow_biome(id) {
        VillagerType::Snow
    } else if is_swamp_biome(id) {
        VillagerType::Swamp
    } else if is_taiga_biome(id) {
        VillagerType::Taiga
    } else {
        VillagerType::Plains
    }
}

/// Where villagers come from, by the biome.
pub fn villager_type_from_biome_id(id: &str) -> (r: VillagerType)
    ensures
        r == type_of_biome(id@),
{
    let id: String = String::from_str(id);
    if has_name(&id, "desert")
        || has_name(&id, "badlands")
        || has_name(&id, "eroded_badlands")
        || has_name(&id, "wooded_badlands") {
        VillagerType::Desert
    } else if has_name(&id, "jungle")
        || has_name(&id, "bamboo_jungle")
        || has_name(&id, "sparse_jungle") {
        VillagerType::Jungle
    } else if has_name(&id, "savanna")
        || has_name(&id, "savanna_plateau")
        || has_name(&id, "windswept_savanna") {
        VillagerType::Savanna
    } else if has_name(&id, "snowy_plains")
        || has_name(&id, "ice_spikes")
        || has_name(&id, "snowy_taiga")
        || has_name(&id, "snowy_beach")
        || has_name(&id, "snowy_slopes")
        || has_name(&id, "grove")
        || has_name(&id, "frozen_peaks")
        || has_name(&id, "jagged_peaks")
        || has_name(&id, "frozen_river")
        || has_name(&id, "frozen_ocean")
        || has_name(&id, "deep_frozen_ocean") {
        VillagerType::Snow
    } else if has_name(&id, "swamp")
        || has_name(&id, "mangrove_swamp") {
        VillagerType::Swamp
    } else if has_name(&id, "taiga")
        || has_name(&id, "old_growth_pine_taiga")
        || has_name(&id, "old_growth_spruce_taiga")
        || has_name(&id, "windswept_hills")
        || has_name(&id, "windswept_gravelly_hills")
        || has_name(&id, "windswept_forest") {
        VillagerType::Taiga
    } else {
        VillagerType::Plains
    }
}

/// An item that a villager may hold.
#[derive(Clone, Copy, Debug, PartialEq, Eq, Structural)]
pub enum Item {
    Bread,
    Carrot,
    Potato,
    Beetroot,
    Other(u16),
}

/// How much food an item is to a villager.
pub open spec fn food_points(item: Item) -> i32 {
    match item {
        Item::Bread => 4,
        Item::Carrot | Item::Potato | Item::Beetroot => 1,
        Item::Other(_) => 0,
    }
}

/// How much food an item is to a villager.
pub fn get_food_points(item: &Item) -> (r: i32)
    ensures
        r == food_points(*item),
{
    match item {
        Item::Bread => 4,
        Item::Carrot | Item::Potato | Item::Beetroot => 1,
        Item::Other(_) => 0,
    }
}

/// The professions in the order of their numbers.
pub open spec fn professions_in_order() -> Seq<VillagerProfession> {
    seq![
        VillagerProfession::Unemployed,
        VillagerProfession::Armorer,
        VillagerProfession::Butcher,
        VillagerProfession::Cartographer,
        VillagerProfession::Cleric,
        VillagerProfession::Farmer,
        VillagerProfession::Fisherman,
        VillagerProfession::Fletcher,
        VillagerProfession::Leatherworker,
        VillagerProfession::Librarian,
        VillagerProfession::Mason,
        VillagerProfession::Nitwit,
        VillagerProfession::Shepherd,
        VillagerProfession::Toolsmith,
        VillagerProfession::Weaponsmith,
    ]
}

/// The types in the order of their numbers.
pub open spec fn types_in_order() -> Seq<VillagerType> {
    seq![
        VillagerType::Desert,
        VillagerType::Jungle,
        VillagerType::Plains,
        VillagerType::Savanna,
        VillagerType::Snow,
        VillagerType::Swamp,
        VillagerType::Taiga,
    ]
}

/// Law: the number of a profession is its place in their order, and a number stands for the
/// profession at that place, or for none at all.
pub proof fn law_professions_are_numbered_in_order(
    profession: VillagerProfession,
    number: i32,
    read: VillagerProfession,
    sent: i32,
)
    requires
        call_ensures(VillagerProfession::number, (profession,), number),
        call_ensures(VillagerProfession::from_number, (sent,), read),
    ensures
        0 <= number < 15,
        professions_in_order()[number as int] == profession,
        0 <= sent < 15 ==> read == professions_in_order()[sent as int],
        sent < 0 || sent >= 15 ==> read == VillagerProfession::Unemployed,
{
}

/// Law: the number of a type is its place in their order, and a number stands for the type at that
/// place, or for the plains.
pub proof fn law_types_are_numbered_in_order(
    villager_type: VillagerType,
    number: i32,
    read: VillagerType,
    sent: i32,
)
    requires
        call_ensures(VillagerType::number, (villager_type,), number),
        call_ensures(VillagerType::from_number, (sent,), read),
    ensures
        0 <= number < 7,
        types_in_order()[number as int] == villager_type,
        0 <= sent < 7 ==> read == types_in_order()[sent as int],
        sent < 0 || sent >= 7 ==> read == VillagerType::Plains,
{
}

/// Law: what a villager is made to be can be read of it, and is sent by its numbers.
pub proof fn law_villager_is_what_it_is_made(
    villager_type: VillagerType,
    profession: VillagerProfession,
    level: i32,
    made: VillagerData,
    its_type: VillagerType,
    its_profession: VillagerProfession,
)
    requires
        call_ensures(VillagerData::new, (villager_type, profession, level), made),
        call_ensures(VillagerData::type_enum, (&made,), its_type),
        call_ensures(VillagerData::profession_enum, (&made,), its_profession),
    ensures
        its_type == villager_type,
        its_profession == profession,
        made.level.0 == level,
        types_in_order()[made.villager_type.0 as int] == villager_type,
        professions_in_order()[made.profession.0 as int] == profession,
{
}

/// Law: a villager is dressed for the land of its biome, whose name may be written in full. Only
/// the biomes of a land dress it so, and those of no land that is named dress it for plains.
pub proof fn law_biomes_dress_their_villagers(id: &str, r: VillagerType)
    requires
        call_ensures(villager_type_from_biome_id, (id,), r),
    ensures
        id@ == "desert"@ || id@ == "minecraft:"@ + "desert"@ || id@ == "badlands"@ || id@ == "minecraft:"@ + "badlands"@ || id@ == "eroded_badlands"@ || id@ == "minecraft:"@ + "eroded_badlands"@ || id@ == "wooded_badlands"@ || id@ == "minecraft:"@ + "wooded_badlands"@ ==> r == VillagerType::Desert,
        r == VillagerType::Desert ==> id@ == "desert"@ || id@ == "minecraft:"@ + "desert"@ || id@ == "badlands"@ || id@ == "minecraft:"@ + "badlands"@ || id@ == "eroded_badlands"@ || id@ == "minecraft:"@ + "eroded_badlands"@ || id@ == "wooded_badlands"@ || id@ == "minecraft:"@ + "wooded_badlands"@,
        id@ == "jungle"@ || id@ == "minecraft:"@ + "jungle"@ || id@ == "bamboo_jungle"@ || id@ == "minecraft:"@ + "bamboo_jungle"@ || id@ == "sparse_jungle"@ || id@ == "minecraft:"@ + "sparse_jungle"@ ==> r == VillagerType::Jungle || r == VillagerType::Desert,
        r == VillagerType::Jungle ==> id@ == "jungle"@ || id@ == "minecraft:"@ + "jungle"@ || id@ == "bamboo_jungle"@ || id@ == "minecraft:"@ + "bamboo_jungle"@ || id@ == "sparse_jungle"@ || id@ == "minecraft:"@ + "sparse_jungle"@,
        id@ == "savanna"@ || id@ == "minecraft:"@ + "savanna"@ || id@ == "savanna_plateau"@ || id@ == "minecraft:"@ + "savanna_plateau"@ || id@ == "windswept_savanna"@ || id@ == "minecraft:"@ + "windswept_savanna"@ ==> r == VillagerType::Savanna || r == VillagerType::Desert || r == VillagerType::Jungle,
        r == VillagerType::Savanna ==> id@ == "savanna"@ || id@ == "minecraft:"@ + "savanna"@ || id@ == "savanna_plateau"@ || id@ == "minecraft:"@ + "savanna_plateau"@ || id@ == "windswept_savanna"@ || id@ == "minecraft:"@ + "windswept_savanna"@,
        id@ == "snowy_plains"@ || id@ == "minecraft:"@ + "snowy_plains"@ || id@ == "ice_spikes"@ || id@ == "minecraft:"@ + "ice_spikes"@ || id@ == "snowy_taiga"@ || id@ == "minecraft:"@ + "snowy_taiga"@ || id@ == "snowy_beach"@ || id@ == "minecraft:"@ + "snowy_beach"@ || id@ == "snowy_slopes"@ || id@ == "minecraft:"@ + "snowy_slopes"@ || id@ == "grove"@ || id@ == "minecraft:"@ + "grove"@ || id@ == "frozen_peaks"@ || id@ == "minecraft:"@ + "frozen_peaks"@ || id@ == "jagged_peaks"@ || id@ == "minecraft:"@ + "jagged_peaks"@ || id@ == "frozen_river"@ || id@ == "minecraft:"@ + "frozen_river"@ || id@ == "frozen_ocean"@ || id@ == "minecraft:"@ + "frozen_ocean"@ || id@ == "deep_frozen_ocean"@ || id@ == "minecraft:"@ + "deep_frozen_ocean"@ ==> r == VillagerType::Snow || r == VillagerType::Desert || r == VillagerType::Jungle || r == VillagerType::Savanna,
        r == VillagerType::Snow ==> id@ == "snowy_plains"@ || id@ == "minecraft:"@ + "snowy_plains"@ || id@ == "ice_spikes"@ || id@ == "minecraft:"@ + "ice_spikes"@ || id@ == "snowy_taiga"@ || id@ == "minecraft:"@ + "snowy_taiga"@ || id@ == "snowy_beach"@ || id@ == "minecraft:"@ + "snowy_beach"@ || id@ == "snowy_slopes"@ || id@ == "minecraft:"@ + "snowy_slopes"@ || id@ == "grove"@ || id@ == "minecraft:"@ + "grove"@ || id@ == "frozen_peaks"@ || id@ == "minecraft:"@ + "frozen_peaks"@ || id@ == "jagged_peaks"@ || id@ == "minecraft:"@ + "jagged_peaks"@ || id@ == "frozen_river"@ || id@ == "minecraft:"@ + "frozen_river"@ || id@ == "frozen_ocean"@ || id@ == "minecraft:"@ + "frozen_ocean"@ || id@ == "deep_frozen_ocean"@ || id@ == "minecraft:"@ + "deep_frozen_ocean"@,
        id@ == "swamp"@ || id@ == "minecraft:"@ + "swamp"@ || id@ == "mangrove_swamp"@ || id@ == "minecraft:"@ + "mangrove_swamp"@ ==> r == VillagerType::Swamp || r == VillagerType::Desert || r == VillagerType::Jungle || r == VillagerType::Savanna || r == VillagerType::Snow,
        r == VillagerType::Swamp ==> id@ == "swamp"@ || id@ == "minecraft:"@ + "swamp"@ || id@ == "mangrove_swamp"@ || id@ == "minecraft:"@ + "mangrove_swamp"@,
        id@ == "taiga"@ || id@ == "minecraft:"@ + "taiga"@ || id@ == "old_growth_pine_taiga"@ || id@ == "minecraft:"@ + "old_growth_pine_taiga"@ || id@ == "old_growth_spruce_taiga"@ || id@ == "minecraft:"@ + "old_growth_spruce_taiga"@ || id@ == "windswept_hills"@ || id@ == "minecraft:"@ + "windswept_hills"@ || id@ == "windswept_gravelly_hills"@ || id@ == "minecraft:"@ + "windswept_gravelly_hills"@ || id@ == "windswept_forest"@ || id@ == "minecraft:"@ + "windswept_forest"@ ==> r == VillagerType::Taiga || r == VillagerType::Desert || r == VillagerType::Jungle || r == VillagerType::Savanna || r == VillagerType::Snow || r == VillagerType::Swamp,
        r == VillagerType::Taiga ==> id@ == "taiga"@ || id@ == "minecraft:"@ + "taiga"@ || id@ == "old_growth_pine_taiga"@ || id@ == "minecraft:"@ + "old_growth_pine_taiga"@ || id@ == "old_growth_spruce_taiga"@ || id@ == "minecraft:"@ + "old_growth_spruce_taiga"@ || id@ == "windswept_hills"@ || id@ == "minecraft:"@ + "windswept_hills"@ || id@ == "windswept_gravelly_hills"@ || id@ == "minecraft:"@ + "windswept_gravelly_hills"@ || id@ == "windswept_forest"@ || id@ == "minecraft:"@ + "windswept_forest"@,
{
}

/// Law: a loaf of bread is food for four, a carrot, a potato or a beetroot for one, and nothing
/// else is food.
pub proof fn law_what_feeds_a_villager(item: Item, r: i32)
    requires
        call_ensures(get_food_points, (&item,), r),
    ensures
        item == Item::Bread ==> r == 4,
        item == Item::Carrot || item == Item::Potato || item == Item::Beetroot ==> r == 1,
        item is Other ==> r == 0,
{
}

/// Law: these are the numbers by which clients and saved villagers know the professions.
pub proof fn law_numbers_of_the_professions(
    profession: VillagerProfession,
    number: i32,
    read: VillagerProfession,
    sent: i32,
)
    requires
        call_ensures(VillagerProfession::number, (profession,), number),
        call_ensures(VillagerProfession::from_number, (sent,), read),
    ensures
        profession == VillagerProfession::Unemployed <==> number == 0,
        profession == VillagerProfession::Armorer <==> number == 1,
        profession == VillagerProfession::Butcher <==> number == 2,
        profession == VillagerProfession::Cartographer <==> number == 3,
        profession == VillagerProfession::Cleric <==> number == 4,
        profession == VillagerProfession::Farmer <==> number == 5,
        profession == VillagerProfession::Fisherman <==> number == 6,
        profession == VillagerProfession::Fletcher <==> number == 7,
        profession == VillagerProfession::Leatherworker <==> number == 8,
        profession == VillagerProfession::Librarian <==> number == 9,
        profession == VillagerProfession::Mason <==> number == 10,
        profession == VillagerProfession::Nitwit <==> number == 11,
        profession == VillagerProfession::Shepherd <==> number == 12,
        profession == VillagerProfession::Toolsmith <==> number == 13,
        profession == VillagerProfession::Weaponsmith <==> number == 14,
        sent == 0 ==> read == VillagerProfession::Unemployed,
        sent == 1 ==> read == VillagerProfession::Armorer,
        sent == 2 ==> read == VillagerProfession::Butcher,
        sent == 3 ==> read == VillagerProfession::Cartographer,
        sent == 4 ==> read == VillagerProfession::Cleric,
        sent == 5 ==> read == VillagerProfession::Farmer,
        sent == 6 ==> read == VillagerProfession::Fisherman,
        sent == 7 ==> read == VillagerProfession::Fletcher,
        sent == 8 ==> read == VillagerProfession::Leatherworker,
        sent == 9 ==> read == VillagerProfession::Librarian,
        sent == 10 ==> read == VillagerProfession::Mason,
        sent == 11 ==> read == VillagerProfession::Nitwit,
        sent == 12 ==> read == VillagerProfession::Shepherd,
        sent == 13 ==> read == VillagerProfession::Toolsmith,
        sent == 14 ==> read == VillagerProfession::Weaponsmith,
{
}

/// Law: these are the numbers by which clients and saved villagers know the lands they come from.
pub proof fn law_numbers_of_the_types(
    villager_type: VillagerType,
    number: i32,
    read: VillagerType,
    sent: i32,
)
    requires
        call_ensures(VillagerType::number, (villager_type,), number),
        call_ensures(VillagerType::from_number, (sent,), read),
    ensures
        villager_type == VillagerType::Desert <==> number == 0,
        villager_type == VillagerType::Jungle <==> number == 1,
        villager_type == VillagerType::Plains <==> number == 2,
        villager_type == VillagerType::Savanna <==> number == 3,
        villager_type == VillagerType::Snow <==> number == 4,
        villager_type == VillagerType::Swamp <==> number == 5,
        villager_type == VillagerType::Taiga <==> number == 6,
        sent == 0 ==> read == VillagerType::Desert,
        sent == 1 ==> read == VillagerType::Jungle,
        sent == 2 ==> read == VillagerType::Plains,
        sent == 3 ==> read == VillagerType::Savanna,
        sent == 4 ==> read == VillagerType::Snow,
        sent == 5 ==> read == VillagerType::Swamp,
        sent == 6 ==> read == VillagerType::Taiga,
{
}

} // verus!
