//! What is saved of a player: how it plays, where it wakes up and what it carries.

use vstd::prelude::*;
use vstd::string::*;

use crate::data::entity_type::GameMode;
use crate::data::nbt::{
    as_bool, as_byte, as_compound, as_held, as_int, as_text, byte_of, found_under, lemma_values_of,
    lemma_values_pushed, put_under, values_of, Held, NbtCompound, NbtTag, NbtValue, StackId,
};
use crate::data::position::BlockPos;
use crate::entity::living::nbt::listed;
use crate::random::draw_seed;

verus! {

/// The slot of the other hand.
pub const OFFHAND_SLOT: usize = 40;

/// The slot of what is worn on the head.
pub const HEAD_SLOT: usize = 39;

/// The slot of what is worn on the chest.
pub const CHEST_SLOT: usize = 38;

/// The slot of what is worn on the legs.
pub const LEGS_SLOT: usize = 37;

/// The slot of what is worn on the feet.
pub const FEET_SLOT: usize = 36;

/// Where a player comes back to life.
#[derive(Clone, Copy, Debug, PartialEq, Eq, Structural)]
pub struct RespawnPoint {
    /// The place of the dimension among all dimensions.
    pub dimension: usize,
    pub position: BlockPos,
    pub force: bool,
}

/// How a player plays.
#[derive(Clone, Copy, Debug, PartialEq, Eq, Structural)]
pub struct Player {
    pub experience_points: i32,
    pub gamemode: GameMode,
    pub previous_gamemode: Option<GameMode>,
    pub has_played_before: bool,
    /// The place of the player's dimension among all dimensions.
    pub dimension: usize,
    pub respawn_point: Option<RespawnPoint>,
    pub enchantment_seed: i32,
}

/// The number that stands for a game mode.
pub open spec fn mode_number(mode: GameMode) -> i8 {
    match mode {
        GameMode::Survival => 0,
        GameMode::Creative => 1,
        GameMode::Adventure => 2,
        GameMode::Spectator => 3,
    }
}

/// The game mode that a number stands for.
pub open spec fn mode_of(number: i8) -> Option<GameMode> {
    if number == 0 {
        Some(GameMode::Survival)
    } else if number == 1 {
        Some(GameMode::Creative)
    } else if number == 2 {
        Some(GameMode::Adventure)
    } else if number == 3 {
        Some(GameMode::Spectator)
    } else {
        None
    }
}

/// The game mode that a saved byte stands for, if any.
pub open spec fn mode_of_byte(byte: Option<i8>) -> Option<GameMode> {
    match byte {
        Some(number) => mode_of(number),
        None => None,
    }
}

/// The number that stands for a game mode.
fn number_of_mode(mode: GameMode) -> (r: i8)
    ensures
        r == mode_number(mode),
{
    match mode {
        GameMode::Survival => 0,
        GameMode::Creative => 1,
        GameMode::Adventure => 2,
        GameMode::Spectator => 3,
    }
}

/// The game mode that a saved byte stands for, if any.
fn read_mode(byte: Option<i8>) -> (r: Option<GameMode>)
    ensures
        r == mode_of_byte(byte),
{
    match byte {
        Some(0) => Some(GameMode::Survival),
        Some(1) => Some(GameMode::Creative),
        Some(2) => Some(GameMode::Adventure),
        Some(3) => Some(GameMode::Spectator),
        _ => None,
    }
}

/// The place of the first dimension with the name.
pub open spec fn dimension_named(names: Seq<String>, name: Seq<char>) -> Option<int>
    decreases names.len(),
{
    if names.len() == 0 {
        None
    } else {
        match dimension_named(names.drop_last(), name) {
            Some(place) => Some(place),
            None => if names.last()@ == name {
                Some(names.len() - 1)
            } else {
                None
            },
        }
    }
}

/// The place of the first dimension with the name.
pub(crate) fn find_dimension(names: &Vec<String>, name: &String) -> (r: Option<usize>)
    ensures
        match r {
            Some(place) => dimension_named(names@, name@) == Some(place as int),
            None => dimension_named(names@, name@) is None,
        },
{
    let mut i: usize = 0;
    while i < names.len()
        invariant
            i <= names@.len(),
            dimension_named(names@.take(i as int), name@) is None,
        decreases names.len() - i,
    {
        assert(names@.take(i as int + 1).drop_last() =~= names@.take(i as int));
        if names[i] == *name {
            proof {
                lemma_first_dimension_stays(names@, i as int + 1, name@);
            }
            return Some(i);
        }
        i = i + 1;
    }
    assert(names@.take(i as int) =~= names@);
    None
}

/// The first dimension with a name stays the first when more come.
proof fn lemma_first_dimension_stays(names: Seq<String>, k: int, name: Seq<char>)
    requires
        0 <= k <= names.len(),
        dimension_named(names.take(k), name) is Some,
    ensures
        dimension_named(names, name) == dimension_named(names.take(k), name),
    decreases names.len() - k,
{
    if k == names.len() {
        assert(names.take(k) =~= names);
    } else {
        assert(names.take(k + 1).drop_last() =~= names.take(k));
        lemma_first_dimension_stays(names, k + 1, name);
    }
}

impl Player {
    /// The dimensions that the player knows of exist.
    pub open spec fn wf(self, dimensions: Seq<String>) -> bool {
        &&& self.dimension < dimensions.len()
        &&& self.respawn_point matches Some(respawn) ==> respawn.dimension < dimensions.len()
    }

    /// What is saved of the player under the name. `level_points` is how much experience it
    /// takes to reach the level of the player.
    pub open spec fn spec_saved(
        self,
        data_version: i32,
        level_points: i32,
        dimensions: Seq<String>,
        name: Seq<char>,
    ) -> Option<NbtValue> {
        let respawn = self.respawn_point->0;
        let respawns = self.respawn_point is Some;
        if name == "DataVersion"@ {
            Some(NbtValue::Int(data_version))
        } else if name == "XpTotal"@ {
            Some(NbtValue::Int((level_points + self.experience_points) as i32))
        } else if name == "playerGameType"@ {
            Some(NbtValue::Byte(mode_number(self.gamemode)))
        } else if name == "previousPlayerGameType"@ && self.previous_gamemode is Some {
            Some(NbtValue::Byte(mode_number(self.previous_gamemode->0)))
        } else if name == "HasPlayedBefore"@ {
            Some(NbtValue::Byte(byte_of(self.has_played_before)))
        } else if name == "Dimension"@ {
            Some(NbtValue::Text(dimensions[self.dimension as int]@))
        } else if name == "SpawnX"@ && respawns {
            Some(NbtValue::Int(respawn.position.x))
        } else if name == "SpawnY"@ && respawns {
            Some(NbtValue::Int(respawn.position.y))
        } else if name == "SpawnZ"@ && respawns {
            Some(NbtValue::Int(respawn.position.z))
        } else if name == "SpawnDimension"@ && respawns {
            Some(NbtValue::Text(dimensions[respawn.dimension as int]@))
        } else if name == "SpawnForced"@ && respawns {
            Some(NbtValue::Byte(byte_of(respawn.force)))
        } else if name == "XpSeed"@ {
            Some(NbtValue::Int(self.enchantment_seed))
        } else {
            None
        }
    }

    /// Saves the player, beside what is saved already.
    pub fn write_nbt(
        &self,
        nbt: &mut NbtCompound,
        data_version: i32,
        level_points: i32,
        dimensions: &Vec<String>,
    )
        requires
            self.wf(dimensions@),
            i32::MIN <= level_points + self.experience_points <= i32::MAX,
        ensures
            forall|name: Seq<char>| #[trigger]
                final(nbt).spec_get(name) == (match old(nbt).spec_get(name) {
                    Some(value) => Some(value),
                    None => self.spec_saved(data_version, level_points, dimensions@, name),
                }),
            final(nbt).held == old(nbt).held,
    {
        nbt.put_int("DataVersion", data_version);
        nbt.put_int("XpTotal", level_points + self.experience_points);
        nbt.put_byte("playerGameType", number_of_mode(self.gamemode));
        if let Some(previous) = self.previous_gamemode {
            nbt.put_byte("previousPlayerGameType", number_of_mode(previous));
        }
        nbt.put_bool("HasPlayedBefore", self.has_played_before);
        nbt.put_string("Dimension", dimensions[self.dimension].as_str());
        if let Some(respawn) = self.respawn_point {
            nbt.put_int("SpawnX", respawn.position.x);
            nbt.put_int("SpawnY", respawn.position.y);
            nbt.put_int("SpawnZ", respawn.position.z);
            nbt.put_string("SpawnDimension", dimensions[respawn.dimension].as_str());
            nbt.put_bool("SpawnForced", respawn.force);
        }
        nbt.put_int("XpSeed", self.enchantment_seed);
    }

    /// Where the player wakes up after it has been read: where it did before, unless all
    /// three coordinates are found. The dimension is that of the player where none is found.
    pub open spec fn spec_read_respawn(self, nbt: NbtCompound, dimensions: Seq<String>) -> Option<
        RespawnPoint,
    > {
        match (
            as_int(nbt.spec_get("SpawnX"@)),
            as_int(nbt.spec_get("SpawnY"@)),
            as_int(nbt.spec_get("SpawnZ"@)),
        ) {
            (Some(x), Some(y), Some(z)) => Some(
                RespawnPoint {
                    dimension: match as_text(nbt.spec_get("SpawnDimension"@)) {
                        Some(name) => match dimension_named(dimensions, name) {
                            Some(place) => place as usize,
                            None => self.dimension,
                        },
                        None => self.dimension,
                    },
                    position: BlockPos { x, y, z },
                    force: match as_bool(nbt.spec_get("SpawnForced"@)) {
                        Some(force) => force,
                        None => false,
                    },
                },
            ),
            _ => self.respawn_point,
        }
    }

    /// The player after it has been read, where `lot` has been drawn for a seed that is not
    /// found. The game mode is survival where none is found.
    pub open spec fn spec_read(self, nbt: NbtCompound, dimensions: Seq<String>, lot: i32) -> Self {
        Player {
            gamemode: match mode_of_byte(as_byte(nbt.spec_get("playerGameType"@))) {
                Some(mode) => mode,
                None => GameMode::Survival,
            },
            previous_gamemode: mode_of_byte(as_byte(nbt.spec_get("previousPlayerGameType"@))),
            has_played_before: match as_bool(nbt.spec_get("HasPlayedBefore"@)) {
                Some(played) => played,
                None => false,
            },
            respawn_point: self.spec_read_respawn(nbt, dimensions),
            enchantment_seed: match as_int(nbt.spec_get("XpSeed"@)) {
                Some(seed) => seed,
                None => lot,
            },
            ..self
        }
    }

    /// The whole experience that is found, from which the level and the points follow.
    pub open spec fn spec_total_experience(nbt: NbtCompound) -> i32 {
        match as_int(nbt.spec_get("XpTotal"@)) {
            Some(total) => total,
            None => 0,
        }
    }

    /// Reads the player from what is saved, where `lot` has been drawn for a seed that is not
    /// found. Returns the whole experience that is found.
    pub fn read_nbt_with_lot(&mut self, nbt: &NbtCompound, dimensions: &Vec<String>, lot: i32) -> (r:
        i32)
        ensures
            *final(self) == old(self).spec_read(*nbt, dimensions@, lot),
            r == Self::spec_total_experience(*nbt),
    {
        let total: i32 = match nbt.get_int("XpTotal") {
            Some(total) => total,
            None => 0,
        };
        self.gamemode = match read_mode(nbt.get_byte("playerGameType")) {
            Some(mode) => mode,
            None => GameMode::Survival,
        };
        self.previous_gamemode = read_mode(nbt.get_byte("previousPlayerGameType"));
        self.has_played_before = match nbt.get_bool("HasPlayedBefore") {
            Some(played) => played,
            None => false,
        };
        if let (Some(x), Some(y), Some(z)) = (
            nbt.get_int("SpawnX"),
            nbt.get_int("SpawnY"),
            nbt.get_int("SpawnZ"),
        ) {
            let dimension: usize = match nbt.get_string("SpawnDimension") {
                Some(name) => match find_dimension(dimensions, name) {
                    Some(place) => place,
                    None => self.dimension,
                },
                None => self.dimension,
            };
            let force: bool = match nbt.get_bool("SpawnForced") {
                Some(force) => force,
                None => false,
            };
            self.respawn_point = Some(
                RespawnPoint { dimension, position: BlockPos { x, y, z }, force },
            );
        }
        self.enchantment_seed = match nbt.get_int("XpSeed") {
            Some(seed) => seed,
            None => lot,
        };
        total
    }

    /// Reads the player from what is saved, with a seed drawn by lot where none is found.
    /// Returns the whole experience that is found.
    pub fn read_nbt(&mut self, nbt: &NbtCompound, dimensions: &Vec<String>) -> (r: i32)
        ensures
            *final(self) == old(self).spec_read(
                *nbt,
                dimensions@,
                final(self).enchantment_seed,
            ),
            r == Self::spec_total_experience(*nbt),
    {
        let lot: i32 = draw_seed();
        self.read_nbt_with_lot(nbt, dimensions, lot)
    }
}

/// Law: a player that is read from what was saved of it plays as it did, and wakes up where
/// it did if it had a place to wake up. `blank` is the player that is read into.
pub proof fn law_player_comes_back(
    player: Player,
    blank: Player,
    nbt: NbtCompound,
    data_version: i32,
    level_points: i32,
    dimensions: Seq<String>,
    lot: i32,
)
    requires
        player.wf(dimensions),
        i32::MIN <= level_points + player.experience_points <= i32::MAX,
        forall|i: int, j: int|
            0 <= i < j < dimensions.len() ==> #[trigger] dimensions[i]@ != #[trigger] dimensions[j]@,
        forall|name: Seq<char>| #[trigger]
            nbt.spec_get(name) == player.spec_saved(data_version, level_points, dimensions, name),
    ensures
        blank.spec_read(nbt, dimensions, lot) == (Player {
            experience_points: blank.experience_points,
            dimension: blank.dimension,
            respawn_point: match player.respawn_point {
                Some(respawn) => Some(respawn),
                None => blank.respawn_point,
            },
            ..player
        }),
        Player::spec_total_experience(nbt) == level_points + player.experience_points,
{
    reveal_strlit("DataVersion");
    reveal_strlit("XpTotal");
    reveal_strlit("playerGameType");
    reveal_strlit("previousPlayerGameType");
    reveal_strlit("HasPlayedBefore");
    reveal_strlit("Dimension");
    reveal_strlit("SpawnX");
    reveal_strlit("SpawnY");
    reveal_strlit("SpawnZ");
    reveal_strlit("SpawnDimension");
    reveal_strlit("SpawnForced");
    reveal_strlit("XpSeed");
    assert("DataVersion"@.len() == 11 && "DataVersion"@[0] == 'D');
    assert("XpTotal"@.len() == 7);
    assert("playerGameType"@.len() == 14 && "playerGameType"@[0] == 'p');
    assert("previousPlayerGameType"@.len() == 22);
    assert("HasPlayedBefore"@.len() == 15);
    assert("Dimension"@.len() == 9);
    assert("SpawnX"@.len() == 6 && "SpawnX"@[5] == 'X' && "SpawnX"@[0] == 'S');
    assert("SpawnY"@.len() == 6 && "SpawnY"@[5] == 'Y' && "SpawnY"@[0] == 'S');
    assert("SpawnZ"@.len() == 6 && "SpawnZ"@[5] == 'Z' && "SpawnZ"@[0] == 'S');
    assert("SpawnDimension"@.len() == 14 && "SpawnDimension"@[0] == 'S');
    assert("SpawnForced"@.len() == 11 && "SpawnForced"@[0] == 'S');
    assert("XpSeed"@.len() == 6 && "XpSeed"@[0] == 'X');
    if let Some(respawn) = player.respawn_point {
        lemma_dimension_by_its_name(dimensions, respawn.dimension as int);
    }
}

/// Where no two dimensions have one name, each is found by its own.
proof fn lemma_dimension_by_its_name(names: Seq<String>, place: int)
    requires
        0 <= place < names.len(),
        forall|i: int, j: int|
            0 <= i < j < names.len() ==> #[trigger] names[i]@ != #[trigger] names[j]@,
    ensures
        dimension_named(names, names[place]@) == Some(place),
    decreases names.len(),
{
    let before = names.drop_last();
    if place < before.len() {
        assert forall|i: int, j: int| 0 <= i < j < before.len() implies #[trigger] before[i]@
            != #[trigger] before[j]@ by {
            assert(names[i]@ != names[j]@);
        }
        lemma_dimension_by_its_name(before, place);
        assert(before[place] == names[place]);
    } else {
        lemma_dimension_is_there(before, names[place]@);
        if dimension_named(before, names[place]@) is Some {
            let other = dimension_named(before, names[place]@)->0;
            assert(before[other]@ == names[other]@);
            assert(names[other]@ != names[place]@);
        }
    }
}

/// A dimension that is found by a name has that name.
proof fn lemma_dimension_is_there(names: Seq<String>, name: Seq<char>)
    ensures
        dimension_named(names, name) matches Some(place) ==> 0 <= place < names.len()
            && names[place]@ == name,
    decreases names.len(),
{
    if names.len() > 0 {
        lemma_dimension_is_there(names.drop_last(), name);
    }
}

// ---------------------------------------------------------------------------
// What a player carries.
// ---------------------------------------------------------------------------

/// The stacks that are worn or held in the other hand.
#[derive(Clone, Copy, Debug, PartialEq, Eq, Structural)]
pub struct SavedEquipment {
    pub offhand: Option<StackId>,
    pub head: Option<StackId>,
    pub chest: Option<StackId>,
    pub legs: Option<StackId>,
    pub feet: Option<StackId>,
}

/// A stack as it is saved: a compound into which it has written itself.
pub open spec fn stack_value(stack: StackId) -> NbtValue {
    NbtValue::Compound(Map::empty(), Some(Held::Stack(stack)))
}

/// A stack as it is saved with its slot.
pub open spec fn slot_value(slot: i8, stack: StackId) -> NbtValue {
    NbtValue::Compound(
        Map::empty().insert("Slot"@, NbtValue::Byte(slot)),
        Some(Held::Stack(stack)),
    )
}

/// The slot that can be read of the value, where one can.
pub open spec fn slot_in(value: NbtValue) -> Option<i8> {
    match as_compound(Some(value)) {
        Some(values) => as_byte(found_under(values, "Slot"@)),
        None => None,
    }
}

/// The stack that can be read of the value, where one can.
pub open spec fn stack_in(value: Option<NbtValue>) -> Option<StackId> {
    match as_held(value) {
        Some(Held::Stack(stack)) => Some(stack),
        _ => None,
    }
}

/// The stack that can be read of the compound, where one can.
fn read_item_stack(compound: &NbtCompound) -> (r: Option<StackId>)
    ensures
        r == stack_in(Some(NbtValue::Compound(compound@, compound.held))),
{
    match compound.held {
        Some(Held::Stack(stack)) => Some(stack),
        _ => None,
    }
}

/// The values with that of a stack under the name, if there is one.
pub open spec fn with_stack(
    values: Map<Seq<char>, NbtValue>,
    name: Seq<char>,
    stack: Option<StackId>,
) -> Map<Seq<char>, NbtValue> {
    match stack {
        Some(stack) => put_under(values, name, stack_value(stack)),
        None => values,
    }
}

/// The equipment as it is saved: each stack that is there, under the name of its place.
pub open spec fn equipment_values(equipment: SavedEquipment) -> Map<Seq<char>, NbtValue> {
    with_stack(
        with_stack(
            with_stack(
                with_stack(
                    with_stack(Map::empty(), "offhand"@, equipment.offhand),
                    "feet"@,
                    equipment.feet,
                ),
                "legs"@,
                equipment.legs,
            ),
            "chest"@,
            equipment.chest,
        ),
        "head"@,
        equipment.head,
    )
}

/// The equipment that can be read of the values.
pub open spec fn equipment_in(values: Map<Seq<char>, NbtValue>) -> SavedEquipment {
    SavedEquipment {
        offhand: stack_in(found_under(values, "offhand"@)),
        head: stack_in(found_under(values, "head"@)),
        chest: stack_in(found_under(values, "chest"@)),
        legs: stack_in(found_under(values, "legs"@)),
        feet: stack_in(found_under(values, "feet"@)),
    }
}

/// Puts a stack under the name, if there is one.
fn put_stack(nbt: &mut NbtCompound, name: &str, stack: Option<StackId>)
    ensures
        final(nbt)@ == with_stack(old(nbt)@, name@, stack),
        final(nbt).held == old(nbt).held,
{
    if let Some(stack) = stack {
        let mut compound: NbtCompound = NbtCompound::new();
        compound.hold(Held::Stack(stack));
        nbt.put_compound(name, compound);
    }
}

/// The stack that can be read under the name, where one can.
fn get_stack(nbt: &NbtCompound, name: &str) -> (r: Option<StackId>)
    ensures
        r == stack_in(found_under(nbt@, name@)),
{
    match nbt.get_compound(name) {
        Some(compound) => read_item_stack(compound),
        None => None,
    }
}

/// Law: equipment that is saved and read again is the same.
pub proof fn law_equipment_comes_back(equipment: SavedEquipment)
    ensures
        equipment_in(equipment_values(equipment)) == equipment,
{
    reveal(put_under);
    reveal_strlit("offhand");
    reveal_strlit("feet");
    reveal_strlit("legs");
    reveal_strlit("chest");
    reveal_strlit("head");
    assert("offhand"@.len() == 7);
    assert("chest"@.len() == 5);
    assert("feet"@.len() == 4 && "feet"@[0] == 'f');
    assert("legs"@.len() == 4 && "legs"@[0] == 'l');
    assert("head"@.len() == 4 && "head"@[0] == 'h');
}

/// The stacks to save of a row of slots: each with its slot, and none for an empty slot.
pub open spec fn saved_stacks(slots: Seq<Option<StackId>>) -> Seq<NbtValue>
    decreases slots.len(),
{
    if slots.len() == 0 {
        Seq::empty()
    } else {
        let before = saved_stacks(slots.drop_last());
        match slots.last() {
            Some(stack) => before.push(slot_value((slots.len() - 1) as i8, stack)),
            None => before,
        }
    }
}

/// The stacks that are put into slots when a list of stacks is read, in order: those of
/// which both the slot and the stack can be read.
pub open spec fn placed_stacks(stacks: Seq<NbtValue>) -> Seq<(usize, StackId)>
    decreases stacks.len(),
{
    if stacks.len() == 0 {
        Seq::empty()
    } else {
        let before = placed_stacks(stacks.drop_last());
        match (slot_in(stacks.last()), stack_in(Some(stacks.last()))) {
            (Some(slot), Some(stack)) => before.push((slot as usize, stack)),
            _ => before,
        }
    }
}

/// A stack in a slot, if there is one.
pub open spec fn in_slot(slot: usize, stack: Option<StackId>) -> Seq<(usize, StackId)> {
    match stack {
        Some(stack) => seq![(slot, stack)],
        None => Seq::empty(),
    }
}

/// The stacks that are put into slots when the equipment is read, in order.
pub open spec fn placed_equipment(equipment: SavedEquipment) -> Seq<(usize, StackId)> {
    in_slot(OFFHAND_SLOT, equipment.offhand) + in_slot(HEAD_SLOT, equipment.head) + in_slot(
        CHEST_SLOT,
        equipment.chest,
    ) + in_slot(LEGS_SLOT, equipment.legs) + in_slot(FEET_SLOT, equipment.feet)
}

/// A row of slots after stacks have been put into them in turn; a slot that is not there is
/// passed over.
pub open spec fn filled(slots: Seq<Option<StackId>>, stacks: Seq<(usize, StackId)>) -> Seq<
    Option<StackId>,
>
    decreases stacks.len(),
{
    if stacks.len() == 0 {
        slots
    } else {
        let before = filled(slots, stacks.drop_last());
        let (slot, stack) = stacks.last();
        if slot < before.len() {
            before.update(slot as int, Some(stack))
        } else {
            before
        }
    }
}

/// The stacks to save of a row of slots.
fn save_stacks(slots: &Vec<Option<StackId>>) -> (r: Vec<NbtTag>)
    requires
        slots@.len() <= 128,
    ensures
        values_of(r@) == saved_stacks(slots@),
{
    let mut saved: Vec<NbtTag> = Vec::new();
    let mut i: usize = 0;
    assert(values_of(saved@) =~= saved_stacks(slots@.take(0)));
    while i < slots.len()
        invariant
            i <= slots@.len(),
            slots@.len() <= 128,
            values_of(saved@) == saved_stacks(slots@.take(i as int)),
        decreases slots.len() - i,
    {
        assert(slots@.take(i as int + 1).drop_last() =~= slots@.take(i as int));
        if let Some(stack) = slots[i] {
            let mut compound: NbtCompound = NbtCompound::new();
            compound.put_byte("Slot", i as i8);
            compound.hold(Held::Stack(stack));
            let tag: NbtTag = NbtTag::Compound(compound);
            proof {
                reveal(put_under);
                lemma_values_pushed(saved@, tag);
                assert(tag@ == slot_value(i as i8, stack));
            }
            saved.push(tag);
        }
        i = i + 1;
    }
    assert(slots@.take(i as int) =~= slots@);
    saved
}

/// Adds the stacks that are put into slots when a list of stacks is read.
fn place_stacks(placed: &mut Vec<(usize, StackId)>, stacks: &Vec<NbtTag>)
    ensures
        final(placed)@ == old(placed)@ + placed_stacks(values_of(stacks@)),
{
    let ghost before = placed@;
    let ghost values = values_of(stacks@);
    proof {
        lemma_values_of(stacks@);
    }
    let mut i: usize = 0;
    assert(placed@ =~= before + placed_stacks(values.take(0)));
    while i < stacks.len()
        invariant
            i <= stacks@.len(),
            values.len() == stacks@.len(),
            forall|k: int| 0 <= k < stacks@.len() ==> #[trigger] values[k] == stacks@[k]@,
            placed@ == before + placed_stacks(values.take(i as int)),
        decreases stacks.len() - i,
    {
        assert(values.take(i as int + 1).drop_last() =~= values.take(i as int));
        assert(values[i as int] == stacks@[i as int]@);
        if let Some(compound) = stacks[i].extract_compound() {
            if let Some(slot) = compound.get_byte("Slot") {
                if let Some(stack) = read_item_stack(compound) {
                    placed.push((#[verifier::truncate] (slot as usize), stack));
                }
            }
        }
        i = i + 1;
        assert(placed@ =~= before + placed_stacks(values.take(i as int)));
    }
    assert(values.take(i as int) =~= values);
}

/// Adds the stack in the slot, if there is one.
fn place_in_slot(placed: &mut Vec<(usize, StackId)>, slot: usize, stack: Option<StackId>)
    ensures
        final(placed)@ == old(placed)@ + in_slot(slot, stack),
{
    if let Some(stack) = stack {
        placed.push((slot, stack));
    }
    assert(placed@ =~= old(placed)@ + in_slot(slot, stack));
}

/// What a player carries: the slot in hand, the main slots and the equipment.
pub struct PlayerInventory {
    pub selected_slot: u8,
    pub main_inventory: Vec<Option<StackId>>,
    pub equipment: SavedEquipment,
}

/// What is read of what a player carries.
pub struct ReadInventory {
    pub selected_slot: u8,
    /// Stacks to put into slots, in order.
    pub stacks: Vec<(usize, StackId)>,
}

impl PlayerInventory {
    /// What is saved of the inventory under the name.
    pub open spec fn spec_saved(self, name: Seq<char>) -> Option<NbtValue> {
        if name == "SelectedItemSlot"@ {
            Some(NbtValue::Int(self.selected_slot as i32))
        } else if name == "equipment"@ {
            Some(NbtValue::Compound(equipment_values(self.equipment), None))
        } else if name == "Inventory"@ {
            Some(NbtValue::List(saved_stacks(self.main_inventory@)))
        } else {
            None
        }
    }

    /// Saves the inventory, beside what is saved already.
    pub fn write_nbt(&self, nbt: &mut NbtCompound)
        requires
            self.main_inventory@.len() <= 128,
        ensures
            forall|name: Seq<char>| #[trigger]
                final(nbt).spec_get(name) == (match old(nbt).spec_get(name) {
                    Some(value) => Some(value),
                    None => self.spec_saved(name),
                }),
            final(nbt).held == old(nbt).held,
    {
        nbt.put_int("SelectedItemSlot", self.selected_slot as i32);
        let items: Vec<NbtTag> = save_stacks(&self.main_inventory);
        let mut equipment: NbtCompound = NbtCompound::new();
        put_stack(&mut equipment, "offhand", self.equipment.offhand);
        put_stack(&mut equipment, "feet", self.equipment.feet);
        put_stack(&mut equipment, "legs", self.equipment.legs);
        put_stack(&mut equipment, "chest", self.equipment.chest);
        put_stack(&mut equipment, "head", self.equipment.head);
        nbt.put_compound("equipment", equipment);
        nbt.put("Inventory", NbtTag::List(items));
    }

    /// The slot in hand that is found, of which the lower 8 bits count; the first where none
    /// is found.
    pub open spec fn spec_read_slot(nbt: NbtCompound) -> u8 {
        match as_int(nbt.spec_get("SelectedItemSlot"@)) {
            Some(slot) => slot as u8,
            None => 0,
        }
    }

    /// The stacks that are put into slots when an inventory is read, in order.
    pub open spec fn spec_read_stacks(nbt: NbtCompound) -> Seq<(usize, StackId)> {
        placed_stacks(listed(nbt.spec_get("Inventory"@))) + match as_compound(
            nbt.spec_get("equipment"@),
        ) {
            Some(values) => placed_equipment(equipment_in(values)),
            None => Seq::empty(),
        }
    }

    /// What is read of an inventory.
    pub fn read_nbt(nbt: &NbtCompound) -> (r: ReadInventory)
        ensures
            r.selected_slot == Self::spec_read_slot(*nbt),
            r.stacks@ == Self::spec_read_stacks(*nbt),
    {
        let selected_slot: u8 = match nbt.get_int("SelectedItemSlot") {
            Some(slot) => #[verifier::truncate] (slot as u8),
            None => 0,
        };
        let mut stacks: Vec<(usize, StackId)> = Vec::new();
        if let Some(list) = nbt.get_list("Inventory") {
            place_stacks(&mut stacks, list);
        }
        assert(stacks@ =~= placed_stacks(listed(nbt.spec_get("Inventory"@))));
        let ghost main = stacks@;
        if let Some(equipment) = nbt.get_compound("equipment") {
            place_in_slot(&mut stacks, OFFHAND_SLOT, get_stack(equipment, "offhand"));
            place_in_slot(&mut stacks, HEAD_SLOT, get_stack(equipment, "head"));
            place_in_slot(&mut stacks, CHEST_SLOT, get_stack(equipment, "chest"));
            place_in_slot(&mut stacks, LEGS_SLOT, get_stack(equipment, "legs"));
            place_in_slot(&mut stacks, FEET_SLOT, get_stack(equipment, "feet"));
            assert(stacks@ =~= main + placed_equipment(equipment_in(equipment@)));
        }
        assert(stacks@ =~= Self::spec_read_stacks(*nbt));
        ReadInventory { selected_slot, stacks }
    }
}

/// The chest that a player opens wherever it finds one.
pub struct EnderChestInventory {
    pub items: Vec<Option<StackId>>,
}

impl EnderChestInventory {
    /// What is saved of the chest under the name.
    pub open spec fn spec_saved(self, name: Seq<char>) -> Option<NbtValue> {
        if name == "EnderItems"@ {
            Some(NbtValue::List(saved_stacks(self.items@)))
        } else {
            None
        }
    }

    /// Saves the chest, beside what is saved already.
    pub fn write_nbt(&self, nbt: &mut NbtCompound)
        requires
            self.items@.len() <= 128,
        ensures
            forall|name: Seq<char>| #[trigger]
                final(nbt).spec_get(name) == (match old(nbt).spec_get(name) {
                    Some(value) => Some(value),
                    None => self.spec_saved(name),
                }),
            final(nbt).held == old(nbt).held,
    {
        let items: Vec<NbtTag> = save_stacks(&self.items);
        nbt.put("EnderItems", NbtTag::List(items));
    }

    /// The stacks that are put into slots when a chest is read, in order.
    pub fn read_nbt(nbt: &NbtCompound) -> (r: Vec<(usize, StackId)>)
        ensures
            r@ == placed_stacks(listed(nbt.spec_get("EnderItems"@))),
    {
        let mut stacks: Vec<(usize, StackId)> = Vec::new();
        if let Some(list) = nbt.get_list("EnderItems") {
            place_stacks(&mut stacks, list);
        }
        assert(stacks@ =~= placed_stacks(listed(nbt.spec_get("EnderItems"@))));
        stacks
    }
}

/// Law: a row of slots that is saved and read again into as many empty slots is the same
/// row.
pub proof fn law_slots_come_back(slots: Seq<Option<StackId>>)
    requires
        slots.len() <= 128,
    ensures
        filled(
            Seq::new(slots.len(), |i: int| None::<StackId>),
            placed_stacks(saved_stacks(slots)),
        ) == slots,
{
    lemma_slots_come_back(slots, slots.len() as int);
    assert(slots.take(slots.len() as int) =~= slots);
    assert(filled(
        Seq::new(slots.len(), |i: int| None::<StackId>),
        placed_stacks(saved_stacks(slots)),
    ) =~= slots);
}

/// Law: an inventory that is read from what was saved of it has the same slot in hand, and
/// puts back what was in the main slots and then the equipment.
pub proof fn law_inventory_comes_back(inventory: PlayerInventory, nbt: NbtCompound)
    requires
        forall|name: Seq<char>| #[trigger] nbt.spec_get(name) == inventory.spec_saved(name),
    ensures
        PlayerInventory::spec_read_slot(nbt) == inventory.selected_slot,
        PlayerInventory::spec_read_stacks(nbt) == placed_stacks(
            saved_stacks(inventory.main_inventory@),
        ) + placed_equipment(inventory.equipment),
{
    reveal_strlit("SelectedItemSlot");
    reveal_strlit("equipment");
    reveal_strlit("Inventory");
    assert("SelectedItemSlot"@.len() == 16);
    assert("equipment"@.len() == 9 && "equipment"@[0] == 'e');
    assert("Inventory"@.len() == 9 && "Inventory"@[0] == 'I');
    law_equipment_comes_back(inventory.equipment);
}

/// The slots up to a place that are saved and read again are the same.
proof fn lemma_slots_come_back(slots: Seq<Option<StackId>>, k: int)
    requires
        0 <= k <= slots.len() <= 128,
    ensures
        filled(
            Seq::new(slots.len(), |i: int| None::<StackId>),
            placed_stacks(saved_stacks(slots.take(k))),
        ) == Seq::new(
            slots.len(),
            |i: int|
                if i < k {
                    slots[i]
                } else {
                    None
                },
        ),
    decreases k,
{
    let empty = Seq::new(slots.len(), |i: int| None::<StackId>);
    if k == 0 {
        assert(slots.take(0) =~= Seq::empty());
        assert(empty =~= Seq::new(
            slots.len(),
            |i: int|
                if i < k {
                    slots[i]
                } else {
                    None
                },
        ));
    } else {
        lemma_slots_come_back(slots, k - 1);
        let before = saved_stacks(slots.take(k - 1));
        assert(slots.take(k).drop_last() =~= slots.take(k - 1));
        let after = Seq::new(
            slots.len(),
            |i: int|
                if i < k {
                    slots[i]
                } else {
                    None
                },
        );
        match slots[k - 1] {
            Some(stack) => {
                let saved = slot_value((k - 1) as i8, stack);
                assert(before.push(saved).drop_last() =~= before);
                let placed = placed_stacks(before);
                assert(placed.push(((k - 1) as usize, stack)).drop_last() =~= placed);
                assert(filled(empty, placed.push(((k - 1) as usize, stack))) =~= after);
            },
            None => {
                assert(filled(empty, placed_stacks(before)) =~= after);
            },
        }
    }
}

/// Law: a player is saved with the version of the data, all its experience, how it plays and played,
/// whether it has played before, its dimension, its seed and, where it has one, the place where it
/// wakes up, each under its name. The game modes count from survival over creative and adventure to
/// spectator.
pub proof fn law_what_is_saved_of_a_player(
    player: Player,
    nbt: &mut NbtCompound,
    data_version: i32,
    level_points: i32,
    dimensions: Vec<String>,
)
    requires
        call_ensures(
            Player::write_nbt,
            (&player, nbt, data_version, level_points, &dimensions),
            (),
        ),
        i32::MIN <= level_points + player.experience_points <= i32::MAX,
        forall|name: Seq<char>| #[trigger] old(nbt).spec_get(name) is None,
    ensures
        final(nbt).spec_get("DataVersion"@) == Some(NbtValue::Int(data_version)),
        final(nbt).spec_get("XpTotal"@) is Some,
        final(nbt).spec_get("XpTotal"@)->0 is Int,
        final(nbt).spec_get("XpTotal"@)->0->Int_0 == level_points + player.experience_points,
        final(nbt).spec_get("playerGameType"@) == Some(
            NbtValue::Byte(
                match player.gamemode {
                    GameMode::Survival => 0,
                    GameMode::Creative => 1,
                    GameMode::Adventure => 2,
                    GameMode::Spectator => 3,
                },
            ),
        ),
        player.previous_gamemode is None ==> final(nbt).spec_get(
            "previousPlayerGameType"@,
        ) is None,
        player.previous_gamemode == Some(GameMode::Creative) ==> final(nbt).spec_get(
            "previousPlayerGameType"@,
        ) == Some(NbtValue::Byte(1)),
        final(nbt).spec_get("HasPlayedBefore"@) == Some(
            NbtValue::Byte(
                if player.has_played_before {
                    1
                } else {
                    0
                },
            ),
        ),
        final(nbt).spec_get("Dimension"@) == Some(
            NbtValue::Text(dimensions@[player.dimension as int]@),
        ),
        final(nbt).spec_get("XpSeed"@) == Some(NbtValue::Int(player.enchantment_seed)),
        player.respawn_point is None ==> final(nbt).spec_get("SpawnX"@) is None && final(nbt).spec_get("SpawnY"@) is None && final(nbt).spec_get("SpawnZ"@) is None && final(nbt).spec_get("SpawnDimension"@) is None && final(nbt).spec_get("SpawnForced"@) is None,
        player.respawn_point is Some ==> {
            let respawn = player.respawn_point->0;
            &&& final(nbt).spec_get("SpawnX"@) == Some(NbtValue::Int(respawn.position.x))
            &&& final(nbt).spec_get("SpawnY"@) == Some(NbtValue::Int(respawn.position.y))
            &&& final(nbt).spec_get("SpawnZ"@) == Some(NbtValue::Int(respawn.position.z))
            &&& final(nbt).spec_get("SpawnDimension"@) == Some(
                NbtValue::Text(dimensions@[respawn.dimension as int]@),
            )
            &&& final(nbt).spec_get("SpawnForced"@) == Some(
                NbtValue::Byte(
                    if respawn.force {
                        1
                    } else {
                        0
                    },
                ),
            )
        },
{
    reveal_strlit("DataVersion");
    reveal_strlit("XpTotal");
    reveal_strlit("playerGameType");
    reveal_strlit("previousPlayerGameType");
    reveal_strlit("HasPlayedBefore");
    reveal_strlit("Dimension");
    reveal_strlit("SpawnX");
    reveal_strlit("SpawnY");
    reveal_strlit("SpawnZ");
    reveal_strlit("SpawnDimension");
    reveal_strlit("SpawnForced");
    reveal_strlit("XpSeed");
    assert("DataVersion"@.len() == 11);
    assert("XpTotal"@.len() == 7);
    assert("playerGameType"@.len() == 14);
    assert("previousPlayerGameType"@.len() == 22);
    assert("HasPlayedBefore"@.len() == 15);
    assert("Dimension"@.len() == 9);
    assert("SpawnX"@.len() == 6);
    assert("SpawnY"@.len() == 6);
    assert("SpawnZ"@.len() == 6);
    assert("SpawnDimension"@.len() == 14);
    assert("SpawnForced"@.len() == 11);
    assert("XpSeed"@.len() == 6);
    assert("playerGameType"@[0] == 'p');
    assert("SpawnDimension"@[0] == 'S');
    assert("DataVersion"@[0] == 'D');
    assert("SpawnForced"@[0] == 'S');
    assert("SpawnX"@[5] == 'X');
    assert("SpawnY"@[5] == 'Y');
    assert("SpawnZ"@[5] == 'Z');
    assert("XpSeed"@[5] == 'd');
}

/// Law: a player that is read plays as was saved, and in survival where nothing was; it wakes up where
/// all three coordinates were saved, and else where it did. All its experience comes back.
pub proof fn law_what_is_read_of_a_player(
    player: &mut Player,
    nbt: NbtCompound,
    dimensions: Vec<String>,
    lot: i32,
    r: i32,
    mode: i8,
    x: i32,
    y: i32,
    z: i32,
    number: i32,
)
    requires
        call_ensures(Player::read_nbt_with_lot, (player, &nbt, &dimensions, lot), r),
    ensures
        nbt.spec_get("XpTotal"@) == Some(NbtValue::Int(number)) ==> r == number,
        nbt.spec_get("XpTotal"@) is None ==> r == 0,
        nbt.spec_get("playerGameType"@) == Some(NbtValue::Byte(mode)) ==> {
            &&& mode == 0 ==> final(player).gamemode == GameMode::Survival
            &&& mode == 1 ==> final(player).gamemode == GameMode::Creative
            &&& mode == 2 ==> final(player).gamemode == GameMode::Adventure
            &&& mode == 3 ==> final(player).gamemode == GameMode::Spectator
            &&& mode < 0 || mode > 3 ==> final(player).gamemode == GameMode::Survival
        },
        nbt.spec_get("playerGameType"@) is None ==> final(player).gamemode == GameMode::Survival,
        nbt.spec_get("previousPlayerGameType"@) is None ==> final(player).previous_gamemode is None,
        nbt.spec_get("previousPlayerGameType"@) == Some(NbtValue::Byte(3)) ==> final(player).previous_gamemode == Some(GameMode::Spectator),
        nbt.spec_get("HasPlayedBefore"@) is None ==> !final(player).has_played_before,
        nbt.spec_get("HasPlayedBefore"@) == Some(NbtValue::Byte(mode)) ==> final(player).has_played_before == (mode != 0),
        nbt.spec_get("XpSeed"@) == Some(NbtValue::Int(number)) ==> final(player).enchantment_seed
            == number,
        nbt.spec_get("XpSeed"@) is None ==> final(player).enchantment_seed == lot,
        nbt.spec_get("SpawnX"@) == Some(NbtValue::Int(x)) && nbt.spec_get("SpawnY"@) == Some(
            NbtValue::Int(y),
        ) && nbt.spec_get("SpawnZ"@) == Some(NbtValue::Int(z)) ==> {
            &&& final(player).respawn_point is Some
            &&& final(player).respawn_point->0.position == (BlockPos { x, y, z })
            &&& nbt.spec_get("SpawnForced"@) is None ==> !final(player).respawn_point->0.force
            &&& nbt.spec_get("SpawnForced"@) == Some(NbtValue::Byte(1)) ==> final(player).respawn_point->0.force
            &&& nbt.spec_get("SpawnDimension"@) is None ==> final(player).respawn_point->0.dimension == old(player).dimension
        },
        nbt.spec_get("SpawnX"@) is None || nbt.spec_get("SpawnY"@) is None || nbt.spec_get(
            "SpawnZ"@,
        ) is None ==> final(player).respawn_point == old(player).respawn_point,
        final(player).dimension == old(player).dimension,
        final(player).experience_points == old(player).experience_points,
{
}

/// Law: an inventory is saved as the slot in hand, the list of the main slots and the compound of the
/// equipment, each under its name.
pub proof fn law_names_of_an_inventory(
    inventory: PlayerInventory,
    nbt: &mut NbtCompound,
    chest: EnderChestInventory,
    chest_nbt: &mut NbtCompound,
)
    requires
        call_ensures(PlayerInventory::write_nbt, (&inventory, nbt), ()),
        call_ensures(EnderChestInventory::write_nbt, (&chest, chest_nbt), ()),
        forall|name: Seq<char>| #[trigger] old(nbt).spec_get(name) is None,
        forall|name: Seq<char>| #[trigger] old(chest_nbt).spec_get(name) is None,
    ensures
        final(nbt).spec_get("SelectedItemSlot"@) is Some,
        final(nbt).spec_get("SelectedItemSlot"@)->0 is Int,
        final(nbt).spec_get("SelectedItemSlot"@)->0->Int_0 == inventory.selected_slot,
        final(nbt).spec_get("Inventory"@) is Some,
        final(nbt).spec_get("Inventory"@)->0 is List,
        final(nbt).spec_get("Inventory"@)->0->List_0 == saved_stacks(inventory.main_inventory@),
        final(nbt).spec_get("equipment"@) is Some,
        final(nbt).spec_get("equipment"@)->0 is Compound,
        final(chest_nbt).spec_get("EnderItems"@) is Some,
        final(chest_nbt).spec_get("EnderItems"@)->0 is List,
        final(chest_nbt).spec_get("EnderItems"@)->0->List_0 == saved_stacks(chest.items@),
{
    reveal_strlit("SelectedItemSlot");
    reveal_strlit("Inventory");
    reveal_strlit("equipment");
    assert("SelectedItemSlot"@.len() == 16);
    assert("Inventory"@[0] == 'I');
    assert("equipment"@[0] == 'e');
    assert("Inventory"@.len() == 9);
    assert("equipment"@.len() == 9);
}

/// What is saved of a row of slots: a stack for each slot that holds one, with the number of the slot
/// under the name `Slot`.
proof fn lemma_saved_stacks(slots: Seq<Option<StackId>>, slot: int, stack: StackId)
    requires
        slots.len() <= 128,
    ensures
        0 <= slot < slots.len() && slots[slot] == Some(stack) ==> saved_stacks(slots).contains(
            slot_value(slot as i8, stack),
        ),
        saved_stacks(slots).len() <= slots.len(),
    decreases slots.len(),
{
    if slots.len() > 0 {
        let before = slots.drop_last();
        lemma_saved_stacks(before, slot, stack);
        let rest = saved_stacks(before);
        let all = saved_stacks(slots);
        if 0 <= slot < slots.len() && slots[slot] == Some(stack) {
            if slot < before.len() {
                assert(before[slot] == slots[slot]);
                let i = choose|i: int|
                    0 <= i < rest.len() && rest[i] == slot_value(slot as i8, stack);
                assert(all[i] == slot_value(slot as i8, stack));
            } else {
                assert(slots.last() == slots[slot]);
                assert(all[rest.len() as int] == slot_value(slot as i8, stack));
            }
        }
    }
}

/// Law: every stack in a slot is saved, in a compound of its own with the number of its slot under the
/// name `Slot`; empty slots are not.
pub proof fn law_every_stack_is_saved(
    chest: EnderChestInventory,
    nbt: &mut NbtCompound,
    slot: int,
    stack: StackId,
)
    requires
        call_ensures(EnderChestInventory::write_nbt, (&chest, nbt), ()),
        old(nbt).spec_get("EnderItems"@) is None,
        chest.items@.len() <= 128,
        0 <= slot < chest.items@.len(),
        chest.items@[slot] == Some(stack),
    ensures
        exists|value: NbtValue|
            {
                &&& #[trigger] final(nbt).spec_get("EnderItems"@)->0->List_0.contains(value)
                &&& value is Compound
                &&& value->Compound_0.contains_key("Slot"@)
                &&& value->Compound_0["Slot"@] is Byte
                &&& value->Compound_0["Slot"@]->Byte_0 == slot
                &&& value->Compound_1 == Some(Held::Stack(stack))
            },
        final(nbt).spec_get("EnderItems"@)->0->List_0.len() <= chest.items@.len(),
{
    lemma_saved_stacks(chest.items@, slot, stack);
    assert(final(nbt).spec_get("EnderItems"@)->0->List_0.contains(slot_value(slot as i8, stack)));
}

/// Law: what is worn goes back where it is worn: the other hand is slot 40, and from head to feet the
/// slots count down from 39 to 36.
pub proof fn law_equipment_goes_back_to_its_slots(
    nbt: NbtCompound,
    r: ReadInventory,
    worn: Map<Seq<char>, NbtValue>,
    stack: StackId,
)
    requires
        call_ensures(PlayerInventory::read_nbt, (&nbt,), r),
        nbt.spec_get("equipment"@) == Some(NbtValue::Compound(worn, None)),
    ensures
        worn.contains_key("offhand"@) && worn["offhand"@] == stack_value(stack)
            ==> r.stacks@.contains((40usize, stack)),
        worn.contains_key("head"@) && worn["head"@] == stack_value(stack) ==> r.stacks@.contains(
            (39usize, stack),
        ),
        worn.contains_key("chest"@) && worn["chest"@] == stack_value(stack) ==> r.stacks@.contains(
            (38usize, stack),
        ),
        worn.contains_key("legs"@) && worn["legs"@] == stack_value(stack) ==> r.stacks@.contains(
            (37usize, stack),
        ),
        worn.contains_key("feet"@) && worn["feet"@] == stack_value(stack) ==> r.stacks@.contains(
            (36usize, stack),
        ),
        nbt.spec_get("SelectedItemSlot"@) is None ==> r.selected_slot == 0,
        nbt.spec_get("SelectedItemSlot"@) == Some(NbtValue::Int(5)) ==> r.selected_slot == 5,
{
    broadcast use crate::plan::lemma_plan_contains;
    broadcast use crate::plan::lemma_single_contains;

}

/// Law: equipment is saved under the names `offhand`, `head`, `chest`, `legs` and `feet`, and where
/// nothing is worn nothing is saved.
pub proof fn law_names_of_the_equipment(inventory: PlayerInventory, nbt: &mut NbtCompound)
    requires
        call_ensures(PlayerInventory::write_nbt, (&inventory, nbt), ()),
        forall|name: Seq<char>| #[trigger] old(nbt).spec_get(name) is None,
    ensures
        ({
            let worn = final(nbt).spec_get("equipment"@)->0->Compound_0;
            &&& stack_in(found_under(worn, "offhand"@)) == inventory.equipment.offhand
            &&& stack_in(found_under(worn, "head"@)) == inventory.equipment.head
            &&& stack_in(found_under(worn, "chest"@)) == inventory.equipment.chest
            &&& stack_in(found_under(worn, "legs"@)) == inventory.equipment.legs
            &&& stack_in(found_under(worn, "feet"@)) == inventory.equipment.feet
        }),
{
    reveal_strlit("SelectedItemSlot");
    reveal_strlit("equipment");
    assert("SelectedItemSlot"@.len() == 16);
    assert("equipment"@.len() == 9);
    law_equipment_comes_back(inventory.equipment);
    let worn = equipment_values(inventory.equipment);
    assert(equipment_in(worn).head == stack_in(found_under(worn, "head"@)));
}

/// Every listed stack whose slot is known is placed in that slot.
proof fn lemma_placed_stacks(stacks: Seq<NbtValue>, i: int, slot: i8, stack: StackId)
    ensures
        0 <= i < stacks.len() && slot_in(stacks[i]) == Some(slot) && stack_in(Some(stacks[i]))
            == Some(stack) ==> placed_stacks(stacks).contains((slot as usize, stack)),
        placed_stacks(stacks).len() <= stacks.len(),
    decreases stacks.len(),
{
    if stacks.len() > 0 {
        let before = stacks.drop_last();
        let rest = placed_stacks(before);
        let all = placed_stacks(stacks);
        lemma_placed_stacks(before, i, slot, stack);
        if 0 <= i < stacks.len() && slot_in(stacks[i]) == Some(slot) && stack_in(Some(stacks[i]))
            == Some(stack) {
            if i < before.len() {
                assert(before[i] == stacks[i]);
                let k = choose|k: int| 0 <= k < rest.len() && rest[k] == (slot as usize, stack);
                assert(all[k] == (slot as usize, stack));
            } else {
                assert(stacks.last() == stacks[i]);
                assert(all[rest.len() as int] == (slot as usize, stack));
            }
        }
    }
}

/// Law: every stack that is listed with its slot goes back into that slot, for a chest as for the main
/// slots of a player. Where nothing was saved nothing is put back into a chest.
pub proof fn law_listed_stacks_go_back(
    chest_nbt: NbtCompound,
    chest: Vec<(usize, StackId)>,
    nbt: NbtCompound,
    r: ReadInventory,
    list: Seq<NbtValue>,
    i: int,
    fields: Map<Seq<char>, NbtValue>,
    slot: i8,
    stack: StackId,
)
    requires
        call_ensures(EnderChestInventory::read_nbt, (&chest_nbt,), chest),
        call_ensures(PlayerInventory::read_nbt, (&nbt,), r),
        0 <= i < list.len(),
        list[i] == NbtValue::Compound(fields, Some(Held::Stack(stack))),
        fields.contains_key("Slot"@),
        fields["Slot"@] == NbtValue::Byte(slot),
        0 <= slot,
    ensures
        chest_nbt.spec_get("EnderItems"@) == Some(NbtValue::List(list)) ==> chest@.contains(
            (slot as usize, stack),
        ),
        chest_nbt.spec_get("EnderItems"@) is None ==> chest@.len() == 0,
        nbt.spec_get("Inventory"@) == Some(NbtValue::List(list)) ==> r.stacks@.contains(
            (slot as usize, stack),
        ),
{
    broadcast use crate::plan::lemma_plan_contains;

    lemma_placed_stacks(list, i, slot, stack);
}

/// Law: a player that is read with a seed drawn by lot keeps the seed that was saved, and plays, sleeps
/// and has learnt as was saved.
pub proof fn law_what_is_read_with_a_drawn_seed(
    player: &mut Player,
    nbt: NbtCompound,
    dimensions: Vec<String>,
    r: i32,
    number: i32,
)
    requires
        call_ensures(Player::read_nbt, (player, &nbt, &dimensions), r),
    ensures
        nbt.spec_get("XpTotal"@) == Some(NbtValue::Int(number)) ==> r == number,
        nbt.spec_get("XpSeed"@) == Some(NbtValue::Int(number)) ==> final(player).enchantment_seed
            == number,
        nbt.spec_get("playerGameType"@) == Some(NbtValue::Byte(1)) ==> final(player).gamemode
            == GameMode::Creative,
        nbt.spec_get("playerGameType"@) is None ==> final(player).gamemode == GameMode::Survival,
        nbt.spec_get("HasPlayedBefore"@) is None ==> !final(player).has_played_before,
        final(player).dimension == old(player).dimension,
{
}

} // verus!
