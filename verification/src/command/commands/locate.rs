//! The command that finds the closest structure of a kind.

use vstd::prelude::*;
use vstd::string::*;

use super::{
    is_registered, AlreadyRegistered, CommandDispatcher, Permission, PermissionDefault,
    PermissionLvl, PermissionRegistry, PermissionValue,
};
use super::seed::{sign_seed, signed_seed};
use crate::data::position::BlockPos;
use crate::text::{
    decimal, join, join_pair, law_number_comes_back, namespaced, number_of, number_text,
    spec_namespaced,
};

verus! {

/// How far structures are searched for, in rings of places where one may stand.
pub const MAX_STRUCTURE_SEARCH_RADIUS: i32 = 100;

/// The sets of structures that can be searched for.
pub open spec fn structure_sets() -> Seq<Seq<char>> {
    seq![
        "ancient_cities"@,
        "buried_treasures"@,
        "desert_pyramids"@,
        "end_cities"@,
        "igloos"@,
        "jungle_temples"@,
        "mineshafts"@,
        "nether_complexes"@,
        "nether_fossils"@,
        "ocean_monuments"@,
        "ocean_ruins"@,
        "pillager_outposts"@,
        "ruined_portals"@,
        "shipwrecks"@,
        "strongholds"@,
        "swamp_huts"@,
        "trail_ruins"@,
        "trial_chambers"@,
        "villages"@,
        "woodland_mansions"@,
    ]
}

/// Texts, by what they say.
pub open spec fn said(texts: Seq<&'static str>) -> Seq<Seq<char>> {
    texts.map_values(|text: &'static str| text@)
}

/// The sets of structures that can be searched for.
pub fn structure_set_names() -> (r: Vec<&'static str>)
    ensures
        said(r@) == structure_sets(),
{
    let mut names: Vec<&'static str> = Vec::new();
    names.push("ancient_cities");
    names.push("buried_treasures");
    names.push("desert_pyramids");
    names.push("end_cities");
    names.push("igloos");
    names.push("jungle_temples");
    names.push("mineshafts");
    names.push("nether_complexes");
    names.push("nether_fossils");
    names.push("ocean_monuments");
    names.push("ocean_ruins");
    names.push("pillager_outposts");
    names.push("ruined_portals");
    names.push("shipwrecks");
    names.push("strongholds");
    names.push("swamp_huts");
    names.push("trail_ruins");
    names.push("trial_chambers");
    names.push("villages");
    names.push("woodland_mansions");
    assert(said(names@) =~= structure_sets());
    names
}

/// The names that are offered while the command is typed: those of all sets, written in
/// full.
pub fn list_suggestions() -> (r: Vec<String>)
    ensures
        r@.len() == structure_sets().len(),
        forall|i: int|
            0 <= i < r@.len() ==> (#[trigger] r@[i])@ == spec_namespaced(structure_sets()[i]),
{
    let names: Vec<&'static str> = structure_set_names();
    let mut offered: Vec<String> = Vec::new();
    let mut i: usize = 0;
    assert(said(names@).len() == names@.len());
    while i < names.len()
        invariant
            i <= names@.len(),
            said(names@) == structure_sets(),
            offered@.len() == i,
            forall|j: int|
                0 <= j < i ==> (#[trigger] offered@[j])@ == spec_namespaced(structure_sets()[j]),
        decreases names.len() - i,
    {
        let name: &'static str = names[i];
        assert(said(names@)[i as int] == name@);
        offered.push(namespaced(name));
        i = i + 1;
    }
    offered
}

/// The place of the name among the sets of structures, looked for from the front.
pub open spec fn set_named(names: Seq<Seq<char>>, name: Seq<char>) -> Option<int>
    decreases names.len(),
{
    if names.len() == 0 {
        None
    } else {
        match set_named(names.drop_last(), name) {
            Some(place) => Some(place),
            None => if names.last() == name {
                Some(names.len() - 1)
            } else {
                None
            },
        }
    }
}

/// The set of structures with the name, by its place among all sets.
pub fn resolve_structure_set(name: &str) -> (r: Option<usize>)
    ensures
        match r {
            Some(place) => set_named(structure_sets(), name@) == Some(place as int),
            None => set_named(structure_sets(), name@) is None,
        },
        r is Some <==> structure_sets().contains(name@),
{
    let names: Vec<&'static str> = structure_set_names();
    let wanted: String = String::from_str(name);
    let ghost sets = structure_sets();
    let mut i: usize = 0;
    assert(said(names@).len() == names@.len());
    while i < names.len()
        invariant
            i <= names@.len(),
            sets == structure_sets(),
            said(names@) == sets,
            sets.len() == names@.len(),
            wanted@ == name@,
            set_named(sets.take(i as int), name@) is None,
            forall|j: int| 0 <= j < i ==> #[trigger] sets[j] != name@,
        decreases names.len() - i,
    {
        assert(sets.take(i as int + 1).drop_last() =~= sets.take(i as int));
        assert(said(names@)[i as int] == names@[i as int]@);
        if String::from_str(names[i]) == wanted {
            proof {
                lemma_first_set_stays(sets, i as int + 1, name@);
                assert(sets[i as int] == name@);
            }
            return Some(i);
        }
        i = i + 1;
    }
    assert(sets.take(i as int) =~= sets);
    None
}

/// The first set with a name stays the first when more come.
proof fn lemma_first_set_stays(names: Seq<Seq<char>>, k: int, name: Seq<char>)
    requires
        0 <= k <= names.len(),
        set_named(names.take(k), name) is Some,
    ensures
        set_named(names, name) == set_named(names.take(k), name),
    decreases names.len() - k,
{
    if k == names.len() {
        assert(names.take(k) =~= names);
    } else {
        assert(names.take(k + 1).drop_last() =~= names.take(k));
        lemma_first_set_stays(names, k + 1, name);
    }
}

/// A name that is there is found.
proof fn lemma_name_is_found(names: Seq<Seq<char>>, i: int)
    requires
        0 <= i < names.len(),
    ensures
        set_named(names, names[i]) is Some,
    decreases names.len(),
{
    if i < names.len() - 1 {
        lemma_name_is_found(names.drop_last(), i);
    }
}

/// Law: every set that is offered can be searched for.
pub proof fn law_offered_sets_resolve(i: int)
    requires
        0 <= i < structure_sets().len(),
    ensures
        set_named(structure_sets(), structure_sets()[i]) is Some,
{
    lemma_name_is_found(structure_sets(), i);
}

/// The square of the distance of two places, height left aside.
pub open spec fn squared_distance(from: BlockPos, to: BlockPos) -> int {
    (to.x - from.x) * (to.x - from.x) + (to.z - from.z) * (to.z - from.z)
}

/// The greatest whole number whose square is not above the number.
pub open spec fn is_root(number: int, root: int) -> bool {
    0 <= root && root * root <= number < (root + 1) * (root + 1)
}

/// The greatest whole number whose square is not above the number.
fn root_of(number: u64) -> (r: u64)
    requires
        number <= 0x8000_0000_0000_0000,
    ensures
        is_root(number as int, r as int),
        r < 0x1_0000_0000,
{
    let mut low: u64 = 0;
    let mut high: u64 = 0x1_0000_0000;
    while low + 1 < high
        invariant
            low < high <= 0x1_0000_0000,
            low * low <= number < high * high,
        decreases high - low,
    {
        let middle: u64 = low + (high - low) / 2;
        assert(middle * middle <= 0xffff_ffff * 0xffff_ffff) by (nonlinear_arith)
            requires
                middle <= 0xffff_ffff,
        ;
        if middle * middle <= number {
            low = middle;
        } else {
            high = middle;
        }
    }
    low
}

/// The distance of two places in whole blocks, rounded down, height left aside, as far as a
/// number can hold it.
pub fn horizontal_distance(from: BlockPos, to: BlockPos) -> (r: i32)
    requires
        i32::MIN <= to.x - from.x <= i32::MAX,
        i32::MIN <= to.z - from.z <= i32::MAX,
    ensures
        r < i32::MAX ==> is_root(squared_distance(from, to), r as int),
        r == i32::MAX ==> r * r <= squared_distance(from, to),
        r >= 0,
{
    let dx: i64 = to.x as i64 - from.x as i64;
    let dz: i64 = to.z as i64 - from.z as i64;
    let across: i64 = if dx < 0 {
        -dx
    } else {
        dx
    };
    let along: i64 = if dz < 0 {
        -dz
    } else {
        dz
    };
    assert(across * across == dx * dx) by (nonlinear_arith)
        requires
            across == dx || across == -dx,
    ;
    assert(along * along == dz * dz) by (nonlinear_arith)
        requires
            along == dz || along == -dz,
    ;
    assert(0 <= across * across <= 0x4000_0000_0000_0000) by (nonlinear_arith)
        requires
            0 <= across <= 0x8000_0000,
    ;
    assert(0 <= along * along <= 0x4000_0000_0000_0000) by (nonlinear_arith)
        requires
            0 <= along <= 0x8000_0000,
    ;
    let square: u64 = across as u64 * across as u64 + along as u64 * along as u64;
    let root: u64 = root_of(square);
    if root >= i32::MAX as u64 {
        assert(i32::MAX * i32::MAX <= root * root) by (nonlinear_arith)
            requires
                root >= i32::MAX,
        ;
        i32::MAX
    } else {
        root as i32
    }
}

/// Law: the distance does not depend on the heights, nor on which of the places comes first.
pub proof fn law_distance_ignores_height_and_direction(
    from: BlockPos,
    to: BlockPos,
    from_height: i32,
    to_height: i32,
)
    ensures
        squared_distance(
            BlockPos { y: from_height, ..from },
            BlockPos { y: to_height, ..to },
        ) == squared_distance(from, to),
        squared_distance(to, from) == squared_distance(from, to),
{
    let dx = to.x - from.x;
    let dz = to.z - from.z;
    assert((-dx) * (-dx) == dx * dx) by (nonlinear_arith);
    assert((-dz) * (-dz) == dz * dz) by (nonlinear_arith);
}

/// Law: there is one distance only: no two whole numbers are both the greatest whose square
/// is not above a number.
pub proof fn law_root_is_unique(number: int, first: int, second: int)
    requires
        is_root(number, first),
        is_root(number, second),
    ensures
        first == second,
{
    if first < second {
        assert((first + 1) * (first + 1) <= second * second) by (nonlinear_arith)
            requires
                0 <= first < second,
        ;
    } else if second < first {
        assert((second + 1) * (second + 1) <= first * first) by (nonlinear_arith)
            requires
                0 <= second < first,
        ;
    }
}

/// What is said when a structure has been found.
pub struct LocateMessage {
    /// The name that was searched for.
    pub name: String,
    /// The coordinates that are shown: the height is left open.
    pub x: String,
    pub y: String,
    pub z: String,
    /// The command that a click on the coordinates writes.
    pub teleport_command: String,
    pub distance: String,
}

/// The command that takes whoever types it to the place, at its own height.
pub open spec fn teleport_text(x: i32, z: i32) -> Seq<char> {
    "/tp @s "@ + decimal(x as int) + " ~ "@ + decimal(z as int)
}

/// What is said when a structure has been found at the place.
pub fn build_success_message(found_name: &str, found_pos: BlockPos, distance: i32) -> (r:
    LocateMessage)
    ensures
        r.name@ == found_name@,
        r.x@ == decimal(found_pos.x as int),
        r.y@ == "~"@,
        r.z@ == decimal(found_pos.z as int),
        r.teleport_command@ == teleport_text(found_pos.x, found_pos.z),
        r.distance@ == decimal(distance as int),
{
    let x: String = number_text(found_pos.x as i64);
    let z: String = number_text(found_pos.z as i64);
    let start: String = join("/tp @s ", x.as_str(), " ~ ");
    let teleport_command: String = join_pair(start.as_str(), z.as_str());
    LocateMessage {
        name: String::from_str(found_name),
        x,
        y: String::from_str("~"),
        z,
        teleport_command,
        distance: number_text(distance as i64),
    }
}

/// What to search for.
#[derive(Clone, Copy, Debug, PartialEq, Eq, Structural)]
pub struct LocateRequest {
    /// The set of structures, by its place among all sets.
    pub structure_set: usize,
    pub origin: BlockPos,
    pub max_search_radius: i32,
    pub seed: i64,
}

/// Why nothing was found.
pub enum LocateError {
    /// There is no such set of structures.
    Invalid { name: String },
    /// There is none within reach.
    NotFound { name: String },
}

/// Begins a search from the place of whoever typed the command.
pub fn begin_locate(structure_name: &str, origin: BlockPos, seed: u64) -> (r: Result<
    LocateRequest,
    LocateError,
>)
    ensures
        match r {
            Ok(request) => {
                &&& set_named(structure_sets(), structure_name@) == Some(
                    request.structure_set as int,
                )
                &&& request.origin == origin
                &&& request.max_search_radius == MAX_STRUCTURE_SEARCH_RADIUS
                &&& request.seed == signed_seed(seed)
            },
            Err(LocateError::Invalid { name }) => {
                &&& set_named(structure_sets(), structure_name@) is None
                &&& name@ == structure_name@
            },
            Err(LocateError::NotFound { .. }) => false,
        },
{
    match resolve_structure_set(structure_name) {
        Some(structure_set) => {
            Ok(
                LocateRequest {
                    structure_set,
                    origin,
                    max_search_radius: MAX_STRUCTURE_SEARCH_RADIUS,
                    seed: sign_seed(seed),
                },
            )
        },
        None => Err(LocateError::Invalid { name: String::from_str(structure_name) }),
    }
}

/// Ends a search: says where the structure is and gives back how far away it is, where one
/// has been found.
pub fn end_locate(structure_name: &str, origin: BlockPos, found: Option<BlockPos>) -> (r: Result<
    (LocateMessage, i32),
    LocateError,
>)
    requires
        found matches Some(pos) ==> i32::MIN <= pos.x - origin.x <= i32::MAX && i32::MIN <= pos.z
            - origin.z <= i32::MAX,
    ensures
        r is Ok <==> found is Some,
        r matches Ok(located) ==> {
            let (message, distance) = located;
            let pos = found->0;
            &&& distance < i32::MAX ==> is_root(squared_distance(origin, pos), distance as int)
            &&& distance == i32::MAX ==> distance * distance <= squared_distance(origin, pos)
            &&& distance >= 0
            &&& message.name@ == structure_name@
            &&& message.x@ == decimal(pos.x as int)
            &&& message.y@ == "~"@
            &&& message.z@ == decimal(pos.z as int)
            &&& message.teleport_command@ == teleport_text(pos.x, pos.z)
            &&& message.distance@ == decimal(distance as int)
        },
        r matches Err(error) ==> (error matches LocateError::NotFound { name } && name@
            == structure_name@),
{
    match found {
        Some(pos) => {
            let distance: i32 = horizontal_distance(origin, pos);
            Ok((build_success_message(structure_name, pos, distance), distance))
        },
        None => Err(LocateError::NotFound { name: String::from_str(structure_name) }),
    }
}

/// The permission that the command asks for.
pub open spec fn permission() -> PermissionValue {
    PermissionValue {
        name: "minecraft:command.locate"@,
        description: "Locates the closest structure of a given type."@,
        default: PermissionDefault::Op(PermissionLvl::Two),
    }
}

/// Registers the command, and the permission that it asks for: operators of the second level
/// have it. It may not be there already.
pub fn register(dispatcher: &mut CommandDispatcher, registry: &mut PermissionRegistry)
    requires
        !is_registered(old(registry)@, permission().name),
    ensures
        final(registry)@ == old(registry)@.push(permission()),
        said(final(dispatcher).own@) == said(old(dispatcher).own@).push("locate"@),
        final(dispatcher).fallback == old(dispatcher).fallback,
{
    let permission: Permission = Permission {
        name: String::from_str("minecraft:command.locate"),
        description: String::from_str("Locates the closest structure of a given type."),
        default: PermissionDefault::Op(PermissionLvl::Two),
    };
    let added: Result<(), AlreadyRegistered> = registry.register_permission(permission);
    assert(added is Ok);
    dispatcher.own.push("locate");
    assert(said(dispatcher.own@) =~= said(old(dispatcher).own@).push("locate"@));
}

/// Law: these are the sets of structures that can be searched for, and there are no others.
pub proof fn law_which_sets_there_are(r: Vec<&'static str>)
    requires
        call_ensures(structure_set_names, (), r),
    ensures
        r@.len() == 20,
        r@[0]@ == "ancient_cities"@,
        r@[1]@ == "buried_treasures"@,
        r@[2]@ == "desert_pyramids"@,
        r@[3]@ == "end_cities"@,
        r@[4]@ == "igloos"@,
        r@[5]@ == "jungle_temples"@,
        r@[6]@ == "mineshafts"@,
        r@[7]@ == "nether_complexes"@,
        r@[8]@ == "nether_fossils"@,
        r@[9]@ == "ocean_monuments"@,
        r@[10]@ == "ocean_ruins"@,
        r@[11]@ == "pillager_outposts"@,
        r@[12]@ == "ruined_portals"@,
        r@[13]@ == "shipwrecks"@,
        r@[14]@ == "strongholds"@,
        r@[15]@ == "swamp_huts"@,
        r@[16]@ == "trail_ruins"@,
        r@[17]@ == "trial_chambers"@,
        r@[18]@ == "villages"@,
        r@[19]@ == "woodland_mansions"@,
{
    assert(said(r@).len() == r@.len());
    assert(said(r@)[0] == r@[0]@);
    assert(said(r@)[1] == r@[1]@);
    assert(said(r@)[2] == r@[2]@);
    assert(said(r@)[3] == r@[3]@);
    assert(said(r@)[4] == r@[4]@);
    assert(said(r@)[5] == r@[5]@);
    assert(said(r@)[6] == r@[6]@);
    assert(said(r@)[7] == r@[7]@);
    assert(said(r@)[8] == r@[8]@);
    assert(said(r@)[9] == r@[9]@);
    assert(said(r@)[10] == r@[10]@);
    assert(said(r@)[11] == r@[11]@);
    assert(said(r@)[12] == r@[12]@);
    assert(said(r@)[13] == r@[13]@);
    assert(said(r@)[14] == r@[14]@);
    assert(said(r@)[15] == r@[15]@);
    assert(said(r@)[16] == r@[16]@);
    assert(said(r@)[17] == r@[17]@);
    assert(said(r@)[18] == r@[18]@);
    assert(said(r@)[19] == r@[19]@);
}

/// The place at which a name is found bears that name, and no place before it does.
proof fn lemma_found_name(names: Seq<Seq<char>>, name: Seq<char>)
    ensures
        set_named(names, name) matches Some(place) ==> {
            &&& 0 <= place < names.len()
            &&& names[place] == name
            &&& forall|i: int| 0 <= i < place ==> #[trigger] names[i] != name
        },
    decreases names.len(),
{
    if names.len() > 0 {
        let before = names.drop_last();
        lemma_found_name(before, name);
        let found = set_named(before, name);
        assert forall|i: int|
            0 <= i < before.len() && (found is None || i < found->0) implies #[trigger] names[i]
            != name by {
            assert(before[i] == names[i]);
            if names[i] == name {
                lemma_name_is_found(before, i);
            }
        }
    }
}

/// Law: what is offered while the command is typed are the names of all sets in the namespace of the
/// game, in order; a name is searched for just where it is one of them, and then that very set is.
pub proof fn law_offered_names_are_searched_for(
    names: Vec<&'static str>,
    offered: Vec<String>,
    name: &str,
    r: Option<usize>,
    i: int,
)
    requires
        call_ensures(structure_set_names, (), names),
        call_ensures(list_suggestions, (), offered),
        call_ensures(resolve_structure_set, (name,), r),
    ensures
        offered@.len() == names@.len(),
        0 <= i < names@.len() ==> offered@[i]@ == "minecraft:"@ + names@[i]@,
        r is Some ==> r->0 < names@.len() && names@[r->0 as int]@ == name@,
        0 <= i < names@.len() && names@[i]@ == name@ ==> r is Some,
{
    let all = structure_sets();
    assert(said(names@).len() == names@.len());
    lemma_found_name(all, name@);
    if 0 <= i < names@.len() {
        assert(said(names@)[i] == names@[i]@);
        assert(all[i] == names@[i]@);
    }
    if r is Some {
        assert(said(names@)[r->0 as int] == names@[r->0 as int]@);
    }
}

/// Law: the distance is the greatest whole number of blocks that is not above the true one on the ground:
/// its square is at most, and the next square above, the sum of the squares along both axes.
pub proof fn law_distance_on_the_ground(from: BlockPos, to: BlockPos, r: i32)
    requires
        call_ensures(horizontal_distance, (from, to), r),
    ensures
        r >= 0,
        r * r <= (to.x - from.x) * (to.x - from.x) + (to.z - from.z) * (to.z - from.z),
        r < i32::MAX ==> (to.x - from.x) * (to.x - from.x) + (to.z - from.z) * (to.z - from.z) < (r
            + 1) * (r + 1),
        from.z == to.z && 0 <= to.x - from.x <= i32::MAX ==> r == to.x - from.x,
        from.x == to.x && 0 <= to.z - from.z <= i32::MAX ==> r == to.z - from.z,
{
    let dx = to.x - from.x;
    let dz = to.z - from.z;
    if dz == 0 && 0 <= dx <= i32::MAX {
        assert(dz * dz == 0) by (nonlinear_arith)
            requires
                dz == 0,
        ;
        lemma_only_root(dx, r as int, i32::MAX as int);
    }
    if dx == 0 && 0 <= dz <= i32::MAX {
        assert(dx * dx == 0) by (nonlinear_arith)
            requires
                dx == 0,
        ;
        lemma_only_root(dz, r as int, i32::MAX as int);
    }
}

/// A whole number is the one whose square it has.
proof fn lemma_only_root(number: int, root: int, most: int)
    by (nonlinear_arith)
    requires
        0 <= number <= most,
        0 <= root <= most,
        root * root <= number * number,
        root < most ==> number * number < (root + 1) * (root + 1),
    ensures
        root == number,
{
}

/// Law: what is found is told by its name, its coordinates and its distance, each read as a number; a
/// click takes whoever typed the command there at its own height.
pub proof fn law_what_is_said_of_a_find(
    found_name: &str,
    pos: BlockPos,
    distance: i32,
    r: LocateMessage,
)
    requires
        call_ensures(build_success_message, (found_name, pos, distance), r),
    ensures
        r.name@ == found_name@,
        number_of(r.x@) == pos.x,
        r.y@ == "~"@,
        number_of(r.z@) == pos.z,
        number_of(r.distance@) == distance,
        r.teleport_command@ == "/tp @s "@ + r.x@ + " ~ "@ + r.z@,
{
    law_number_comes_back(pos.x as int);
    law_number_comes_back(pos.z as int);
    law_number_comes_back(distance as int);
}

/// Law: a search begins just where there is such a set: from where the command was typed, within a
/// hundred rings, and in the world of the seed, whose bits are read with a sign. Any other name is given
/// back as no such set.
pub proof fn law_how_a_search_begins(
    names: Vec<&'static str>,
    name: &str,
    origin: BlockPos,
    seed: u64,
    r: Result<LocateRequest, LocateError>,
    i: int,
)
    requires
        call_ensures(structure_set_names, (), names),
        call_ensures(begin_locate, (name, origin, seed), r),
    ensures
        0 <= i < names@.len() && names@[i]@ == name@ ==> r is Ok,
        r is Ok ==> {
            let request = r->Ok_0;
            &&& request.structure_set < names@.len()
            &&& names@[request.structure_set as int]@ == name@
            &&& request.origin == origin
            &&& request.max_search_radius == 100
            &&& request.seed >= 0 ==> request.seed == seed
            &&& request.seed < 0 ==> request.seed + 0x1_0000_0000_0000_0000 == seed
        },
        r is Err ==> r->Err_0 is Invalid && r->Err_0->Invalid_name@ == name@,
{
    let all = structure_sets();
    assert(said(names@).len() == names@.len());
    lemma_found_name(all, name@);
    if 0 <= i < names@.len() {
        assert(said(names@)[i] == names@[i]@);
        assert(all[i] == names@[i]@);
        lemma_name_is_found(all, i);
    }
    if r is Ok {
        let at = r->Ok_0.structure_set as int;
        assert(said(names@)[at] == names@[at]@);
    }
}

/// Law: a search ends well just where something was found; then it tells of that place, and how far it
/// is, which is also what the command gives back. Otherwise the name is given back as not found.
pub proof fn law_how_a_search_ends(
    name: &str,
    origin: BlockPos,
    found: Option<BlockPos>,
    r: Result<(LocateMessage, i32), LocateError>,
    distance: i32,
    message: LocateMessage,
)
    requires
        call_ensures(end_locate, (name, origin, found), r),
        found is Some ==> call_ensures(horizontal_distance, (origin, found->0), distance),
        found is Some ==> call_ensures(build_success_message, (name, found->0, distance), message),
    ensures
        r is Ok <==> found is Some,
        r is Ok ==> {
            let (said, back) = r->Ok_0;
            &&& back == distance
            &&& said.name@ == message.name@
            &&& said.x@ == message.x@
            &&& said.y@ == message.y@
            &&& said.z@ == message.z@
            &&& said.teleport_command@ == message.teleport_command@
            &&& said.distance@ == message.distance@
        },
        r is Err ==> r->Err_0 is NotFound && r->Err_0->NotFound_name@ == name@,
{
    if found is Some {
        let squared = squared_distance(origin, found->0);
        let back = (r->Ok_0).1;
        lemma_same_distance(squared, back as int, distance as int, i32::MAX as int);
    }
}

/// There is one distance only, up to the most that a number can hold.
proof fn lemma_same_distance(squared: int, first: int, second: int, most: int)
    by (nonlinear_arith)
    requires
        0 <= first <= most,
        0 <= second <= most,
        first * first <= squared,
        second * second <= squared,
        first < most ==> squared < (first + 1) * (first + 1),
        second < most ==> squared < (second + 1) * (second + 1),
    ensures
        first == second,
{
}

/// Law: with the command comes its permission, for operators of the second level.
pub proof fn law_who_may_search(
    dispatcher: &mut CommandDispatcher,
    registry: &mut PermissionRegistry,
)
    requires
        call_ensures(register, (dispatcher, registry), ()),
    ensures
        final(registry).permissions@.len() == old(registry).permissions@.len() + 1,
        final(registry).permissions@.last().name@ == "minecraft:command.locate"@,
        final(registry).permissions@.last().default == PermissionDefault::Op(PermissionLvl::Two),
        final(registry).permissions@.last().description@
            == "Locates the closest structure of a given type."@,
        final(dispatcher).own@.len() == old(dispatcher).own@.len() + 1,
        final(dispatcher).own@.last()@ == "locate"@,
        final(dispatcher).fallback == old(dispatcher).fallback,
{
    assert(final(registry)@.len() == final(registry).permissions@.len());
    assert(old(registry)@.len() == old(registry).permissions@.len());
    assert(final(registry)@.last() == final(registry).permissions@.last()@);
    assert(said(final(dispatcher).own@).len() == final(dispatcher).own@.len());
    assert(said(old(dispatcher).own@).len() == old(dispatcher).own@.len());
    assert(said(final(dispatcher).own@).last() == final(dispatcher).own@.last()@);
}

} // verus!
