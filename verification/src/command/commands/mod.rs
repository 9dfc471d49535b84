//! The commands that come with the server, and the permissions that they ask for.

use vstd::prelude::*;
use vstd::string::*;

pub mod locate;
pub mod seed;

verus! {

/// How far an operator is trusted.
#[derive(Clone, Copy, Debug, PartialEq, Eq, Structural)]
pub enum PermissionLvl {
    One,
    Two,
    Three,
    Four,
}

/// Who has a permission where nothing else is said.
#[derive(Clone, Copy, Debug, PartialEq, Eq, Structural)]
pub enum PermissionDefault {
    /// Everyone.
    Allow,
    /// Operators of the level and above.
    Op(PermissionLvl),
}

/// A permission.
pub struct Permission {
    pub name: String,
    pub description: String,
    pub default: PermissionDefault,
}

/// What a permission is.
pub struct PermissionValue {
    pub name: Seq<char>,
    pub description: Seq<char>,
    pub default: PermissionDefault,
}

impl View for Permission {
    type V = PermissionValue;

    open spec fn view(&self) -> PermissionValue {
        PermissionValue {
            name: self.name@,
            description: self.description@,
            default: self.default,
        }
    }
}

/// There is such a permission already.
#[derive(Clone, Copy, Debug, PartialEq, Eq, Structural)]
pub struct AlreadyRegistered;

/// All permissions, in the order in which they came.
pub struct PermissionRegistry {
    pub permissions: Vec<Permission>,
}

impl View for PermissionRegistry {
    type V = Seq<PermissionValue>;

    open spec fn view(&self) -> Seq<PermissionValue> {
        self.permissions@.map_values(|permission: Permission| permission@)
    }
}

/// A permission of the name is among them.
pub open spec fn is_registered(permissions: Seq<PermissionValue>, name: Seq<char>) -> bool {
    exists|i: int| 0 <= i < permissions.len() && (#[trigger] permissions[i]).name == name
}

/// The permissions of the rows, each of which gives a name and a description.
pub open spec fn permissions_of(
    rows: Seq<(Seq<char>, Seq<char>)>,
    default: PermissionDefault,
) -> Seq<PermissionValue> {
    Seq::new(
        rows.len(),
        |i: int| PermissionValue { name: rows[i].0, description: rows[i].1, default },
    )
}

/// Rows of texts, by what they say.
pub open spec fn texts(rows: Seq<(&'static str, &'static str)>) -> Seq<(Seq<char>, Seq<char>)> {
    rows.map_values(|row: (&'static str, &'static str)| (row.0@, row.1@))
}

/// No two rows have one name.
pub open spec fn names_differ(rows: Seq<(Seq<char>, Seq<char>)>) -> bool {
    forall|i: int, j: int|
        0 <= i < j < rows.len() ==> (#[trigger] rows[i]).0 != (#[trigger] rows[j]).0
}

/// None of the rows has the name of a permission.
pub open spec fn names_are_free(
    permissions: Seq<PermissionValue>,
    rows: Seq<(Seq<char>, Seq<char>)>,
) -> bool {
    forall|i: int|
        0 <= i < rows.len() ==> !is_registered(permissions, (#[trigger] rows[i]).0)
}

/// The permissions that everyone has.
pub open spec fn level_0_rows() -> Seq<(Seq<char>, Seq<char>)> {
    seq![
        ("pumpkin:command.pumpkin"@, "Shows information about the Pumpkin server"@),
        ("minecraft:command.me"@, "Broadcasts a narrative message about the player"@),
        ("minecraft:command.msg"@, "Sends a private message to another player"@),
    ]
}

/// The permissions of operators of the second level.
pub open spec fn level_2_rows() -> Seq<(Seq<char>, Seq<char>)> {
    seq![
        ("minecraft:command.worldborder"@, "Manages the world border"@),
        ("minecraft:command.effect"@, "Adds or removes status effects"@),
        ("minecraft:command.teleport"@, "Teleports entities to other locations"@),
        ("minecraft:command.time"@, "Changes or queries the world's game time"@),
        ("minecraft:command.give"@, "Gives an item to a player"@),
        ("minecraft:command.item"@, "Replace items in inventories"@),
        ("minecraft:command.clear"@, "Clears items from player inventory"@),
        ("minecraft:command.setblock"@, "Changes a block to another block"@),
        ("minecraft:command.fill"@, "Fills a region with a specific block"@),
        ("minecraft:command.playsound"@, "Plays a sound to players"@),
        ("minecraft:command.tellraw"@, "Displays a JSON message to players"@),
        ("minecraft:command.title"@, "Controls screen titles displayed to players"@),
        ("minecraft:command.summon"@, "Summons an entity"@),
        (
            "minecraft:command.experience"@,
            "Adds, removes or queries player experience"@,
        ),
        ("minecraft:command.weather"@, "Sets the weather in the server"@),
        ("minecraft:command.particle"@, "Creates particles in the world"@),
        ("minecraft:command.rotate"@, "Changes the rotation of an entity"@),
        ("minecraft:command.damage"@, "Damages entities"@),
        ("minecraft:command.bossbar"@, "Creates and manages boss bars"@),
        ("minecraft:command.say"@, "Broadcasts a message to multiple players"@),
        ("minecraft:command.gamemode"@, "Sets a player's game mode"@),
        ("minecraft:command.gamerule"@, "Sets a player's game mode"@),
        ("minecraft:command.stopsound"@, "Stops sounds from playing"@),
        (
            "minecraft:command.defaultgamemode"@,
            "Sets the default game mode for new players"@,
        ),
        ("minecraft:command.data"@, "Query and modify data of entities and blocks"@),
        (
            "minecraft:command.enchant"@,
            "Adds an enchantment to a player's selected item, subject to the same restrictions as an anvil. Also works on any mob or entity holding a weapon/tool/armor in its main hand."@,
        ),
        ("minecraft:command.spawnpoint"@, "Sets the spawn point for a player"@),
        ("minecraft:command.spectate"@, "Allows a player to spectate another entity"@),
        ("pumpkin:command.tps"@, "Displays the server TPS and MSPT"@),
    ]
}

/// The permissions of operators of the third level.
pub open spec fn level_3_rows() -> Seq<(Seq<char>, Seq<char>)> {
    seq![
        ("minecraft:command.setworldspawn"@, "Sets the world spawn point"@),
        ("minecraft:command.deop"@, "Revokes operator status from a player"@),
        ("minecraft:command.kick"@, "Removes players from the server"@),
        ("pumpkin:command.plugin"@, "Manages server plugins"@),
        ("pumpkin:command.plugins"@, "Lists all plugins loaded on the server"@),
        ("minecraft:command.ban"@, "Adds players to banlist"@),
        ("minecraft:command.banip"@, "Adds IP addresses to banlist"@),
        ("minecraft:command.pardon"@, "Removes entries from the player banlist"@),
        ("minecraft:command.pardonip"@, "Removes entries from the IP banlist"@),
        ("minecraft:command.whitelist"@, "Manages server whitelist"@),
        ("minecraft:command.transfer"@, "Transfers the player to another server"@),
    ]
}

/// The permission to name many by one word.
pub open spec fn selector_rows() -> Seq<(Seq<char>, Seq<char>)> {
    seq![
        ("minecraft:command.selector"@, "Allows a player to use selector variables"@),
    ]
}

/// All permissions that come with the server.
pub open spec fn all_rows() -> Seq<(Seq<char>, Seq<char>)> {
    level_0_rows() + level_2_rows() + level_3_rows() + selector_rows()
}

/// All permissions that come with the server, with those who have them.
pub open spec fn all_permissions() -> Seq<PermissionValue> {
    permissions_of(level_0_rows(), PermissionDefault::Allow) + permissions_of(
        level_2_rows(),
        PermissionDefault::Op(PermissionLvl::Two),
    ) + permissions_of(level_3_rows(), PermissionDefault::Op(PermissionLvl::Three))
        + permissions_of(selector_rows(), PermissionDefault::Allow)
}

impl PermissionRegistry {
    /// Adds a permission, unless there is one of that name.
    pub fn register_permission(&mut self, permission: Permission) -> (r: Result<
        (),
        AlreadyRegistered,
    >)
        ensures
            r is Err <==> is_registered(old(self)@, permission@.name),
            final(self)@ == (if r is Ok {
                old(self)@.push(permission@)
            } else {
                old(self)@
            }),
    {
        let mut i: usize = 0;
        while i < self.permissions.len()
            invariant
                i <= self.permissions@.len(),
                *self == *old(self),
                forall|j: int|
                    0 <= j < i ==> (#[trigger] self.permissions@[j])@.name != permission@.name,
            decreases self.permissions.len() - i,
        {
            if self.permissions[i].name == permission.name {
                assert(self@[i as int].name == permission@.name);
                return Err(AlreadyRegistered);
            }
            i = i + 1;
        }
        assert forall|j: int| 0 <= j < self@.len() implies (#[trigger] self@[j]).name
            != permission@.name by {
            assert(self.permissions@[j]@ == self@[j]);
        }
        let ghost value = permission@;
        self.permissions.push(permission);
        assert(self@ =~= old(self)@.push(value));
        Ok(())
    }

    /// Adds the permissions of the rows.
    fn register_rows(
        &mut self,
        rows: &Vec<(&'static str, &'static str)>,
        default: PermissionDefault,
    )
        requires
            names_differ(texts(rows@)),
            names_are_free(old(self)@, texts(rows@)),
        ensures
            final(self)@ == old(self)@ + permissions_of(texts(rows@), default),
    {
        let ghost before = self@;
        let ghost all = texts(rows@);
        let mut i: usize = 0;
        assert(self@ =~= before + permissions_of(all.take(0), default));
        while i < rows.len()
            invariant
                i <= rows@.len(),
                all == texts(rows@),
                all.len() == rows@.len(),
                names_differ(all),
                names_are_free(before, all),
                self@ == before + permissions_of(all.take(i as int), default),
            decreases rows.len() - i,
        {
            let (name, description): (&'static str, &'static str) = rows[i];
            assert(all[i as int] == (name@, description@));
            let permission: Permission = Permission {
                name: String::from_str(name),
                description: String::from_str(description),
                default,
            };
            let ghost value = permission@;
            assert(!is_registered(self@, name@)) by {
                if is_registered(self@, name@) {
                    let j = choose|j: int|
                        0 <= j < self@.len() && (#[trigger] self@[j]).name == name@;
                    if j < before.len() {
                        assert(before[j].name == name@);
                        assert(is_registered(before, all[i as int].0));
                    } else {
                        assert(all[j - before.len()].0 == name@);
                        assert(all[j - before.len()].0 != all[i as int].0);
                    }
                }
            }
            let added: Result<(), AlreadyRegistered> = self.register_permission(permission);
            assert(added is Ok);
            i = i + 1;
            assert(self@ =~= before + permissions_of(all.take(i as int), default));
        }
        assert(all.take(i as int) =~= all);
    }
}

/// The permissions that everyone has.
fn level_0_table() -> (r: Vec<(&'static str, &'static str)>)
    ensures
        texts(r@) == level_0_rows(),
{
    let mut rows: Vec<(&'static str, &'static str)> = Vec::new();
    rows.push(("pumpkin:command.pumpkin", "Shows information about the Pumpkin server"));
    rows.push(
        (
            "minecraft:command.me",
            "Broadcasts a narrative message about the player",
        ),
    );
    rows.push(("minecraft:command.msg", "Sends a private message to another player"));
    assert(texts(rows@) =~= level_0_rows());
    rows
}

/// The permissions of operators of the second level.
fn level_2_table() -> (r: Vec<(&'static str, &'static str)>)
    ensures
        texts(r@) == level_2_rows(),
{
    let mut rows: Vec<(&'static str, &'static str)> = Vec::new();
    rows.push(("minecraft:command.worldborder", "Manages the world border"));
    rows.push(("minecraft:command.effect", "Adds or removes status effects"));
    rows.push(("minecraft:command.teleport", "Teleports entities to other locations"));
    rows.push(("minecraft:command.time", "Changes or queries the world's game time"));
    rows.push(("minecraft:command.give", "Gives an item to a player"));
    rows.push(("minecraft:command.item", "Replace items in inventories"));
    rows.push(("minecraft:command.clear", "Clears items from player inventory"));
    rows.push(("minecraft:command.setblock", "Changes a block to another block"));
    rows.push(("minecraft:command.fill", "Fills a region with a specific block"));
    rows.push(("minecraft:command.playsound", "Plays a sound to players"));
    rows.push(("minecraft:command.tellraw", "Displays a JSON message to players"));
    rows.push(
        (
            "minecraft:command.title",
            "Controls screen titles displayed to players",
        ),
    );
    rows.push(("minecraft:command.summon", "Summons an entity"));
    rows.push(
        (
            "minecraft:command.experience",
            "Adds, removes or queries player experience",
        ),
    );
    rows.push(("minecraft:command.weather", "Sets the weather in the server"));
    rows.push(("minecraft:command.particle", "Creates particles in the world"));
    rows.push(("minecraft:command.rotate", "Changes the rotation of an entity"));
    rows.push(("minecraft:command.damage", "Damages entities"));
    rows.push(("minecraft:command.bossbar", "Creates and manages boss bars"));
    rows.push(("minecraft:command.say", "Broadcasts a message to multiple players"));
    rows.push(("minecraft:command.gamemode", "Sets a player's game mode"));
    rows.push(("minecraft:command.gamerule", "Sets a player's game mode"));
    rows.push(("minecraft:command.stopsound", "Stops sounds from playing"));
    rows.push(
        (
            "minecraft:command.defaultgamemode",
            "Sets the default game mode for new players",
        ),
    );
    rows.push(
        (
            "minecraft:command.data",
            "Query and modify data of entities and blocks",
        ),
    );
    rows.push(
        (
            "minecraft:command.enchant",
            "Adds an enchantment to a player's selected item, subject to the same restrictions as an anvil. Also works on any mob or entity holding a weapon/tool/armor in its main hand.",
        ),
    );
    rows.push(("minecraft:command.spawnpoint", "Sets the spawn point for a player"));
    rows.push(
        (
            "minecraft:command.spectate",
            "Allows a player to spectate another entity",
        ),
    );
    rows.push(("pumpkin:command.tps", "Displays the server TPS and MSPT"));
    assert(texts(rows@) =~= level_2_rows());
    rows
}

/// The permissions of operators of the third level.
fn level_3_table() -> (r: Vec<(&'static str, &'static str)>)
    ensures
        texts(r@) == level_3_rows(),
{
    let mut rows: Vec<(&'static str, &'static str)> = Vec::new();
    rows.push(("minecraft:command.setworldspawn", "Sets the world spawn point"));
    rows.push(("minecraft:command.deop", "Revokes operator status from a player"));
    rows.push(("minecraft:command.kick", "Removes players from the server"));
    rows.push(("pumpkin:command.plugin", "Manages server plugins"));
    rows.push(("pumpkin:command.plugins", "Lists all plugins loaded on the server"));
    rows.push(("minecraft:command.ban", "Adds players to banlist"));
    rows.push(("minecraft:command.banip", "Adds IP addresses to banlist"));
    rows.push(("minecraft:command.pardon", "Removes entries from the player banlist"));
    rows.push(("minecraft:command.pardonip", "Removes entries from the IP banlist"));
    rows.push(("minecraft:command.whitelist", "Manages server whitelist"));
    rows.push(("minecraft:command.transfer", "Transfers the player to another server"));
    assert(texts(rows@) =~= level_3_rows());
    rows
}

/// Registers the permissions that everyone has.
pub fn register_level_0_permissions(registry: &mut PermissionRegistry)
    requires
        names_are_free(old(registry)@, level_0_rows()),
    ensures
        final(registry)@ == old(registry)@ + permissions_of(
            level_0_rows(),
            PermissionDefault::Allow,
        ),
{
    proof {
        lemma_level_names_differ();
    }
    let rows: Vec<(&'static str, &'static str)> = level_0_table();
    registry.register_rows(&rows, PermissionDefault::Allow);
}

/// Registers the permissions of operators of the second level.
pub fn register_level_2_permissions(registry: &mut PermissionRegistry)
    requires
        names_are_free(old(registry)@, level_2_rows()),
    ensures
        final(registry)@ == old(registry)@ + permissions_of(
            level_2_rows(),
            PermissionDefault::Op(PermissionLvl::Two),
        ),
{
    proof {
        lemma_level_names_differ();
    }
    let rows: Vec<(&'static str, &'static str)> = level_2_table();
    registry.register_rows(&rows, PermissionDefault::Op(PermissionLvl::Two));
}

/// Registers the permissions of operators of the third level.
pub fn register_level_3_permissions(registry: &mut PermissionRegistry)
    requires
        names_are_free(old(registry)@, level_3_rows()),
    ensures
        final(registry)@ == old(registry)@ + permissions_of(
            level_3_rows(),
            PermissionDefault::Op(PermissionLvl::Three),
        ),
{
    proof {
        lemma_level_names_differ();
    }
    let rows: Vec<(&'static str, &'static str)> = level_3_table();
    registry.register_rows(&rows, PermissionDefault::Op(PermissionLvl::Three));
}

/// Registers all permissions that come with the server. None of them may be there already.
pub fn register_permissions(registry: &mut PermissionRegistry)
    requires
        names_are_free(old(registry)@, all_rows()),
    ensures
        final(registry)@ == old(registry)@ + all_permissions(),
{
    let ghost before = registry@;
    let ghost zero = permissions_of(level_0_rows(), PermissionDefault::Allow);
    let ghost two = permissions_of(level_2_rows(), PermissionDefault::Op(PermissionLvl::Two));
    let ghost three = permissions_of(level_3_rows(), PermissionDefault::Op(PermissionLvl::Three));
    proof {
        lemma_free_in_part(before, level_0_rows(), 0);
        lemma_free_in_part(before, level_2_rows(), 3);
        lemma_free_in_part(before, level_3_rows(), 32);
        lemma_free_in_part(before, selector_rows(), 43);
    }
    register_level_0_permissions(registry);
    proof {
        lemma_still_free(before, level_0_rows(), PermissionDefault::Allow, 0, level_2_rows(), 3);
        lemma_still_free(before, level_0_rows(), PermissionDefault::Allow, 0, level_3_rows(), 32);
        lemma_still_free(before, level_0_rows(), PermissionDefault::Allow, 0, selector_rows(), 43);
    }
    register_level_2_permissions(registry);
    proof {
        let default = PermissionDefault::Op(PermissionLvl::Two);
        lemma_still_free(before + zero, level_2_rows(), default, 3, level_3_rows(), 32);
        lemma_still_free(before + zero, level_2_rows(), default, 3, selector_rows(), 43);
    }
    register_level_3_permissions(registry);
    proof {
        let default = PermissionDefault::Op(PermissionLvl::Three);
        lemma_still_free(
            before + zero + two,
            level_3_rows(),
            default,
            32,
            selector_rows(),
            43,
        );
    }
    let mut rows: Vec<(&'static str, &'static str)> = Vec::new();
    rows.push(("minecraft:command.selector", "Allows a player to use selector variables"));
    assert(texts(rows@) =~= selector_rows());
    registry.register_rows(&rows, PermissionDefault::Allow);
    assert(registry@ =~= before + all_permissions());
}

// ---------------------------------------------------------------------------
// No name occurs twice.
// ---------------------------------------------------------------------------

/// A number that tells the names of permissions apart: made of the length of a name and of
/// two of its characters.
spec fn name_code(name: Seq<char>) -> int {
    name.len() * 65536 + (name[18] as int) * 256 + name[name.len() - 2] as int
}

/// The place of the name with the code among all names.
spec fn place_of_code(code: int) -> int {
    if code == 1535337 {
        0
    } else if code == 1338733 {
        1
    } else if code == 1404275 {
        2
    } else if code == 1931109 {
        3
    } else if code == 1598819 {
        4
    } else if code == 1733746 {
        5
    } else if code == 1471597 {
        6
    } else if code == 1468278 {
        7
    } else if code == 1468773 {
        8
    } else if code == 1532769 {
        9
    } else if code == 1733475 {
        10
    } else if code == 1468012 {
        11
    } else if code == 1798254 {
        12
    } else if code == 1668193 {
        13
    } else if code == 1537132 {
        14
    } else if code == 1602415 {
        15
    } else if code == 1860963 {
        16
    } else if code == 1668965 {
        17
    } else if code == 1732716 {
        18
    } else if code == 1602164 {
        19
    } else if code == 1598567 {
        20
    } else if code == 1663585 {
        21
    } else if code == 1405793 {
        22
    } else if code == 1730404 {
        23
    } else if code == 1730412 {
        24
    } else if code == 1799022 {
        25
    } else if code == 2188388 {
        26
    } else if code == 1467508 {
        27
    } else if code == 1664366 {
        28
    } else if code == 1864558 {
        29
    } else if code == 1733492 {
        30
    } else if code == 1274736 {
        31
    } else if code == 2061175 {
        32
    } else if code == 1467503 {
        33
    } else if code == 1469283 {
        34
    } else if code == 1471849 {
        35
    } else if code == 1537390 {
        36
    } else if code == 1401441 {
        37
    } else if code == 1532521 {
        38
    } else if code == 1601647 {
        39
    } else if code == 1732713 {
        40
    } else if code == 1800051 {
        41
    } else if code == 1733733 {
        42
    } else if code == 1733487 {
        43
    } else {
        -1
    }
}

/// The names tell their places.
proof fn lemma_places_level_0_rows()
    ensures
        level_0_rows().len() == 3,
        forall|i: int|
            0 <= i < level_0_rows().len() ==> place_of_code(
                name_code((#[trigger] level_0_rows()[i]).0),
            ) == i + 0,
{
    let rows = level_0_rows();
    assert(place_of_code(name_code(rows[0].0)) == 0) by {
        reveal_strlit("pumpkin:command.pumpkin");
        assert(name_code("pumpkin:command.pumpkin"@) == 1535337);
    }
    assert(place_of_code(name_code(rows[1].0)) == 1) by {
        reveal_strlit("minecraft:command.me");
        assert(name_code("minecraft:command.me"@) == 1338733);
    }
    assert(place_of_code(name_code(rows[2].0)) == 2) by {
        reveal_strlit("minecraft:command.msg");
        assert(name_code("minecraft:command.msg"@) == 1404275);
    }
}

/// The names tell their places.
proof fn lemma_places_level_2_rows()
    ensures
        level_2_rows().len() == 29,
        forall|i: int|
            0 <= i < level_2_rows().len() ==> place_of_code(
                name_code((#[trigger] level_2_rows()[i]).0),
            ) == i + 3,
{
    let rows = level_2_rows();
    assert(place_of_code(name_code(rows[0].0)) == 3) by {
        reveal_strlit("minecraft:command.worldborder");
        assert(name_code("minecraft:command.worldborder"@) == 1931109);
    }
    assert(place_of_code(name_code(rows[1].0)) == 4) by {
        reveal_strlit("minecraft:command.effect");
        assert(name_code("minecraft:command.effect"@) == 1598819);
    }
    assert(place_of_code(name_code(rows[2].0)) == 5) by {
        reveal_strlit("minecraft:command.teleport");
        assert(name_code("minecraft:command.teleport"@) == 1733746);
    }
    assert(place_of_code(name_code(rows[3].0)) == 6) by {
        reveal_strlit("minecraft:command.time");
        assert(name_code("minecraft:command.time"@) == 1471597);
    }
    assert(place_of_code(name_code(rows[4].0)) == 7) by {
        reveal_strlit("minecraft:command.give");
        assert(name_code("minecraft:command.give"@) == 1468278);
    }
    assert(place_of_code(name_code(rows[5].0)) == 8) by {
        reveal_strlit("minecraft:command.item");
        assert(name_code("minecraft:command.item"@) == 1468773);
    }
    assert(place_of_code(name_code(rows[6].0)) == 9) by {
        reveal_strlit("minecraft:command.clear");
        assert(name_code("minecraft:command.clear"@) == 1532769);
    }
    assert(place_of_code(name_code(rows[7].0)) == 10) by {
        reveal_strlit("minecraft:command.setblock");
        assert(name_code("minecraft:command.setblock"@) == 1733475);
    }
    assert(place_of_code(name_code(rows[8].0)) == 11) by {
        reveal_strlit("minecraft:command.fill");
        assert(name_code("minecraft:command.fill"@) == 1468012);
    }
    assert(place_of_code(name_code(rows[9].0)) == 12) by {
        reveal_strlit("minecraft:command.playsound");
        assert(name_code("minecraft:command.playsound"@) == 1798254);
    }
    assert(place_of_code(name_code(rows[10].0)) == 13) by {
        reveal_strlit("minecraft:command.tellraw");
        assert(name_code("minecraft:command.tellraw"@) == 1668193);
    }
    assert(place_of_code(name_code(rows[11].0)) == 14) by {
        reveal_strlit("minecraft:command.title");
        assert(name_code("minecraft:command.title"@) == 1537132);
    }
    assert(place_of_code(name_code(rows[12].0)) == 15) by {
        reveal_strlit("minecraft:command.summon");
        assert(name_code("minecraft:command.summon"@) == 1602415);
    }
    assert(place_of_code(name_code(rows[13].0)) == 16) by {
        reveal_strlit("minecraft:command.experience");
        assert(name_code("minecraft:command.experience"@) == 1860963);
    }
    assert(place_of_code(name_code(rows[14].0)) == 17) by {
        reveal_strlit("minecraft:command.weather");
        assert(name_code("minecraft:command.weather"@) == 1668965);
    }
    assert(place_of_code(name_code(rows[15].0)) == 18) by {
        reveal_strlit("minecraft:command.particle");
        assert(name_code("minecraft:command.particle"@) == 1732716);
    }
    assert(place_of_code(name_code(rows[16].0)) == 19) by {
        reveal_strlit("minecraft:command.rotate");
        assert(name_code("minecraft:command.rotate"@) == 1602164);
    }
    assert(place_of_code(name_code(rows[17].0)) == 20) by {
        reveal_strlit("minecraft:command.damage");
        assert(name_code("minecraft:command.damage"@) == 1598567);
    }
    assert(place_of_code(name_code(rows[18].0)) == 21) by {
        reveal_strlit("minecraft:command.bossbar");
        assert(name_code("minecraft:command.bossbar"@) == 1663585);
    }
    assert(place_of_code(name_code(rows[19].0)) == 22) by {
        reveal_strlit("minecraft:command.say");
        assert(name_code("minecraft:command.say"@) == 1405793);
    }
    assert(place_of_code(name_code(rows[20].0)) == 23) by {
        reveal_strlit("minecraft:command.gamemode");
        assert(name_code("minecraft:command.gamemode"@) == 1730404);
    }
    assert(place_of_code(name_code(rows[21].0)) == 24) by {
        reveal_strlit("minecraft:command.gamerule");
        assert(name_code("minecraft:command.gamerule"@) == 1730412);
    }
    assert(place_of_code(name_code(rows[22].0)) == 25) by {
        reveal_strlit("minecraft:command.stopsound");
        assert(name_code("minecraft:command.stopsound"@) == 1799022);
    }
    assert(place_of_code(name_code(rows[23].0)) == 26) by {
        reveal_strlit("minecraft:command.defaultgamemode");
        assert(name_code("minecraft:command.defaultgamemode"@) == 2188388);
    }
    assert(place_of_code(name_code(rows[24].0)) == 27) by {
        reveal_strlit("minecraft:command.data");
        assert(name_code("minecraft:command.data"@) == 1467508);
    }
    assert(place_of_code(name_code(rows[25].0)) == 28) by {
        reveal_strlit("minecraft:command.enchant");
        assert(name_code("minecraft:command.enchant"@) == 1664366);
    }
    assert(place_of_code(name_code(rows[26].0)) == 29) by {
        reveal_strlit("minecraft:command.spawnpoint");
        assert(name_code("minecraft:command.spawnpoint"@) == 1864558);
    }
    assert(place_of_code(name_code(rows[27].0)) == 30) by {
        reveal_strlit("minecraft:command.spectate");
        assert(name_code("minecraft:command.spectate"@) == 1733492);
    }
    assert(place_of_code(name_code(rows[28].0)) == 31) by {
        reveal_strlit("pumpkin:command.tps");
        assert(name_code("pumpkin:command.tps"@) == 1274736);
    }
}

/// The names tell their places.
proof fn lemma_places_level_3_rows()
    ensures
        level_3_rows().len() == 11,
        forall|i: int|
            0 <= i < level_3_rows().len() ==> place_of_code(
                name_code((#[trigger] level_3_rows()[i]).0),
            ) == i + 32,
{
    let rows = level_3_rows();
    assert(place_of_code(name_code(rows[0].0)) == 32) by {
        reveal_strlit("minecraft:command.setworldspawn");
        assert(name_code("minecraft:command.setworldspawn"@) == 2061175);
    }
    assert(place_of_code(name_code(rows[1].0)) == 33) by {
        reveal_strlit("minecraft:command.deop");
        assert(name_code("minecraft:command.deop"@) == 1467503);
    }
    assert(place_of_code(name_code(rows[2].0)) == 34) by {
        reveal_strlit("minecraft:command.kick");
        assert(name_code("minecraft:command.kick"@) == 1469283);
    }
    assert(place_of_code(name_code(rows[3].0)) == 35) by {
        reveal_strlit("pumpkin:command.plugin");
        assert(name_code("pumpkin:command.plugin"@) == 1471849);
    }
    assert(place_of_code(name_code(rows[4].0)) == 36) by {
        reveal_strlit("pumpkin:command.plugins");
        assert(name_code("pumpkin:command.plugins"@) == 1537390);
    }
    assert(place_of_code(name_code(rows[5].0)) == 37) by {
        reveal_strlit("minecraft:command.ban");
        assert(name_code("minecraft:command.ban"@) == 1401441);
    }
    assert(place_of_code(name_code(rows[6].0)) == 38) by {
        reveal_strlit("minecraft:command.banip");
        assert(name_code("minecraft:command.banip"@) == 1532521);
    }
    assert(place_of_code(name_code(rows[7].0)) == 39) by {
        reveal_strlit("minecraft:command.pardon");
        assert(name_code("minecraft:command.pardon"@) == 1601647);
    }
    assert(place_of_code(name_code(rows[8].0)) == 40) by {
        reveal_strlit("minecraft:command.pardonip");
        assert(name_code("minecraft:command.pardonip"@) == 1732713);
    }
    assert(place_of_code(name_code(rows[9].0)) == 41) by {
        reveal_strlit("minecraft:command.whitelist");
        assert(name_code("minecraft:command.whitelist"@) == 1800051);
    }
    assert(place_of_code(name_code(rows[10].0)) == 42) by {
        reveal_strlit("minecraft:command.transfer");
        assert(name_code("minecraft:command.transfer"@) == 1733733);
    }
}

/// The names tell their places.
proof fn lemma_places_selector_rows()
    ensures
        selector_rows().len() == 1,
        forall|i: int|
            0 <= i < selector_rows().len() ==> place_of_code(
                name_code((#[trigger] selector_rows()[i]).0),
            ) == i + 43,
{
    let rows = selector_rows();
    assert(place_of_code(name_code(rows[0].0)) == 43) by {
        reveal_strlit("minecraft:command.selector");
        assert(name_code("minecraft:command.selector"@) == 1733487);
    }
}

/// The names of all permissions tell their places among all of them.
proof fn lemma_places(i: int)
    requires
        0 <= i < all_rows().len(),
    ensures
        place_of_code(name_code(all_rows()[i].0)) == i,
{
    lemma_places_level_0_rows();
    lemma_places_level_2_rows();
    lemma_places_level_3_rows();
    lemma_places_selector_rows();
    let zero = level_0_rows().len() as int;
    let two = zero + level_2_rows().len();
    let three = two + level_3_rows().len();
    if i < zero {
        assert(all_rows()[i] == level_0_rows()[i]);
    } else if i < two {
        assert(all_rows()[i] == level_2_rows()[i - zero]);
    } else if i < three {
        assert(all_rows()[i] == level_3_rows()[i - two]);
    } else {
        assert(all_rows()[i] == selector_rows()[i - three]);
    }
}

/// Law: no two permissions that come with the server have one name, so that all of them can
/// be registered.
pub proof fn law_permission_names_differ()
    ensures
        names_differ(all_rows()),
{
    assert forall|i: int, j: int| 0 <= i < j < all_rows().len() implies (#[trigger] all_rows()[i]).0
        != (#[trigger] all_rows()[j]).0 by {
        lemma_places(i);
        lemma_places(j);
    }
}

/// No two permissions of one level have one name.
proof fn lemma_level_names_differ()
    ensures
        names_differ(level_0_rows()),
        names_differ(level_2_rows()),
        names_differ(level_3_rows()),
        names_differ(selector_rows()),
{
    lemma_places_level_0_rows();
    lemma_places_level_2_rows();
    lemma_places_level_3_rows();
    lemma_places_selector_rows();
}

/// The rows stand among all rows, from the place on.
spec fn is_part(rows: Seq<(Seq<char>, Seq<char>)>, at: int) -> bool {
    &&& 0 <= at
    &&& at + rows.len() <= all_rows().len()
    &&& forall|i: int| 0 <= i < rows.len() ==> #[trigger] rows[i] == all_rows()[at + i]
}

/// Where all names are free, those of a part are.
proof fn lemma_free_in_part(
    permissions: Seq<PermissionValue>,
    rows: Seq<(Seq<char>, Seq<char>)>,
    at: int,
)
    requires
        names_are_free(permissions, all_rows()),
        is_part(rows, at),
    ensures
        names_are_free(permissions, rows),
{
    assert forall|i: int| 0 <= i < rows.len() implies !is_registered(
        permissions,
        (#[trigger] rows[i]).0,
    ) by {
        assert(rows[i] == all_rows()[at + i]);
    }
}

/// The names of a part stay free when another part before it is registered.
proof fn lemma_still_free(
    permissions: Seq<PermissionValue>,
    added: Seq<(Seq<char>, Seq<char>)>,
    default: PermissionDefault,
    added_at: int,
    rows: Seq<(Seq<char>, Seq<char>)>,
    at: int,
)
    requires
        names_are_free(permissions, rows),
        is_part(added, added_at),
        is_part(rows, at),
        added_at + added.len() <= at,
    ensures
        names_are_free(permissions + permissions_of(added, default), rows),
{
    law_permission_names_differ();
    let after = permissions + permissions_of(added, default);
    assert forall|i: int| 0 <= i < rows.len() implies !is_registered(
        after,
        (#[trigger] rows[i]).0,
    ) by {
        if is_registered(after, rows[i].0) {
            let j = choose|j: int| 0 <= j < after.len() && (#[trigger] after[j]).name == rows[i].0;
            if j < permissions.len() {
                assert(permissions[j].name == rows[i].0);
                assert(is_registered(permissions, rows[i].0));
            } else {
                let k = j - permissions.len();
                assert(added[k] == all_rows()[added_at + k]);
                assert(rows[i] == all_rows()[at + i]);
                assert(all_rows()[added_at + k].0 != all_rows()[at + i].0);
            }
        }
    }
}

// ---------------------------------------------------------------------------
// The commands.
// ---------------------------------------------------------------------------

/// The commands that are known by their tree, with the permission that each asks for, in
/// the order in which they are registered.
pub open spec fn tree_commands() -> Seq<(Seq<char>, Seq<char>)> {
    seq![
        ("pumpkin"@, "pumpkin:command.pumpkin"@),
        ("me"@, "minecraft:command.me"@),
        ("msg"@, "minecraft:command.msg"@),
        ("worldborder"@, "minecraft:command.worldborder"@),
        ("effect"@, "minecraft:command.effect"@),
        ("teleport"@, "minecraft:command.teleport"@),
        ("time"@, "minecraft:command.time"@),
        ("give"@, "minecraft:command.give"@),
        ("item"@, "minecraft:command.item"@),
        ("enchant"@, "minecraft:command.enchant"@),
        ("clear"@, "minecraft:command.clear"@),
        ("setblock"@, "minecraft:command.setblock"@),
        ("tps"@, "pumpkin:command.tps"@),
        ("fill"@, "minecraft:command.fill"@),
        ("playsound"@, "minecraft:command.playsound"@),
        ("tellraw"@, "minecraft:command.tellraw"@),
        ("title"@, "minecraft:command.title"@),
        ("summon"@, "minecraft:command.summon"@),
        ("experience"@, "minecraft:command.experience"@),
        ("weather"@, "minecraft:command.weather"@),
        ("particle"@, "minecraft:command.particle"@),
        ("rotate"@, "minecraft:command.rotate"@),
        ("damage"@, "minecraft:command.damage"@),
        ("bossbar"@, "minecraft:command.bossbar"@),
        ("say"@, "minecraft:command.say"@),
        ("gamemode"@, "minecraft:command.gamemode"@),
        ("gamerule"@, "minecraft:command.gamerule"@),
        ("stopsound"@, "minecraft:command.stopsound"@),
        ("defaultgamemode"@, "minecraft:command.defaultgamemode"@),
        ("setworldspawn"@, "minecraft:command.setworldspawn"@),
        ("spawnpoint"@, "minecraft:command.spawnpoint"@),
        ("spectate"@, "minecraft:command.spectate"@),
        ("data"@, "minecraft:command.data"@),
        ("deop"@, "minecraft:command.deop"@),
        ("kick"@, "minecraft:command.kick"@),
        ("plugin"@, "pumpkin:command.plugin"@),
        ("plugins"@, "pumpkin:command.plugins"@),
        ("ban"@, "minecraft:command.ban"@),
        ("banip"@, "minecraft:command.banip"@),
        ("pardon"@, "minecraft:command.pardon"@),
        ("pardonip"@, "minecraft:command.pardonip"@),
        ("whitelist"@, "minecraft:command.whitelist"@),
        ("transfer"@, "minecraft:command.transfer"@),
    ]
}

/// The commands that register themselves and their permissions, in order.
pub open spec fn own_commands() -> Seq<Seq<char>> {
    seq![
        "about"@,
        "banlist"@,
        "difficulty"@,
        "dialog"@,
        "execute"@,
        "fillbiome"@,
        "forceload"@,
        "ride"@,
        "recipe"@,
        "help"@,
        "kill"@,
        "op"@,
        "random"@,
        "list"@,
        "locate"@,
        "loot"@,
        "seed"@,
        "saveall"@,
        "saveoff"@,
        "saveon"@,
        "setidletimeout"@,
        "spreadplayers"@,
        "stop"@,
        "tag"@,
        "tick"@,
        "advancement"@,
        "trigger"@,
        "scoreboard"@,
        "team"@,
        "teammsg"@,
        "clone"@,
        "attribute"@,
    ]
}

/// What the server knows of its commands.
pub struct CommandDispatcher {
    /// The commands that are known by their tree, each with the permission that it asks for.
    pub fallback: Vec<(&'static str, &'static str)>,
    /// The commands that register themselves.
    pub own: Vec<&'static str>,
}

/// Permissions, by what they are.
pub open spec fn views(permissions: Seq<Permission>) -> Seq<PermissionValue> {
    permissions.map_values(|permission: Permission| permission@)
}

/// No two of the permissions have one name, and none has the name of one that is there.
pub open spec fn all_new(there: Seq<PermissionValue>, added: Seq<PermissionValue>) -> bool {
    &&& forall|i: int|
        0 <= i < added.len() ==> !is_registered(there, (#[trigger] added[i]).name)
    &&& forall|i: int, j: int|
        0 <= i < j < added.len() ==> (#[trigger] added[i]).name != (#[trigger] added[j]).name
}

/// The permissions of the commands that register themselves, other than `locate` and `seed`.
pub struct OwnPermissions {
    /// Those of the commands from `about` to `list`.
    pub about_to_list: Vec<Permission>,
    /// Those of `loot`.
    pub loot: Vec<Permission>,
    /// Those of the commands from `saveall` to `attribute`.
    pub saveall_to_attribute: Vec<Permission>,
}

/// All permissions that come with the server, in the order in which they are registered.
pub open spec fn default_permissions(own: OwnPermissions) -> Seq<PermissionValue> {
    all_permissions() + views(own.about_to_list@) + seq![locate::permission()] + views(
        own.loot@,
    ) + seq![seed::permission()] + views(own.saveall_to_attribute@)
}

/// A part of permissions that are all new is new where what stands before it is there.
proof fn lemma_part_is_new(
    there: Seq<PermissionValue>,
    before: Seq<PermissionValue>,
    part: Seq<PermissionValue>,
    after: Seq<PermissionValue>,
)
    requires
        all_new(there, before + part + after),
    ensures
        all_new(there + before, part),
{
    let whole = before + part + after;
    let known = there + before;
    assert forall|i: int| 0 <= i < part.len() implies !is_registered(
        known,
        (#[trigger] part[i]).name,
    ) by {
        let at = before.len() + i;
        assert(whole[at] == part[i]);
        if is_registered(known, part[i].name) {
            let k = choose|k: int|
                0 <= k < known.len() && (#[trigger] known[k]).name == part[i].name;
            if k < there.len() {
                assert(there[k].name == whole[at].name);
            } else {
                assert(whole[k - there.len()] == known[k]);
            }
        }
    }
    assert forall|i: int, j: int| 0 <= i < j < part.len() implies (#[trigger] part[i]).name != (
    #[trigger] part[j]).name by {
        assert(whole[before.len() + i] == part[i]);
        assert(whole[before.len() + j] == part[j]);
    }
}

/// Registers the permissions, none of which may be there already.
fn register_all(registry: &mut PermissionRegistry, permissions: Vec<Permission>)
    requires
        all_new(old(registry)@, views(permissions@)),
    ensures
        final(registry)@ == old(registry)@ + views(permissions@),
{
    let ghost all = views(permissions@);
    let ghost before = registry@;
    let mut left: Vec<Permission> = permissions;
    assert(all.take(0) =~= Seq::<PermissionValue>::empty());
    assert(registry@ =~= before + all.take(0));
    assert(views(left@) =~= all.skip(0));
    let ghost mut done: int = 0;
    while left.len() > 0
        invariant
            0 <= done <= all.len(),
            all_new(before, all),
            views(left@) == all.skip(done),
            left@.len() == all.len() - done,
            registry@ == before + all.take(done),
        decreases left.len(),
    {
        let ghost shown = views(left@);
        let permission: Permission = left.remove(0);
        proof {
            assert(permission@ == shown[0]);
            assert(all.take(done) + seq![all[done]] + all.skip(done + 1) =~= all);
            lemma_part_is_new(before, all.take(done), seq![all[done]], all.skip(done + 1));
            assert(seq![all[done]][0].name == permission@.name);
        }
        let added: Result<(), AlreadyRegistered> = registry.register_permission(permission);
        assert(added is Ok);
        proof {
            done = done + 1;
            assert(registry@ =~= before + all.take(done));
            assert(left@.len() == all.skip(done).len());
            assert forall|i: int| 0 <= i < left@.len() implies #[trigger] views(left@)[i]
                == all.skip(done)[i] by {
                assert(views(left@)[i] == shown[i + 1]);
            }
            assert(views(left@) =~= all.skip(done));
        }
    }
    assert(all.take(done) =~= all);
}

/// The name of a permission is none of those that come with the server by themselves.
proof fn lemma_own_names_are_free(name: Seq<char>)
    requires
        place_of_code(name_code(name)) == -1,
    ensures
        !is_registered(all_permissions(), name),
{
    if is_registered(all_permissions(), name) {
        let i = choose|i: int|
            0 <= i < all_permissions().len() && (#[trigger] all_permissions()[i]).name == name;
        lemma_row_at(i);
        lemma_places(i);
    }
}

/// The commands that are known by their tree.
fn tree_command_list() -> (fallback: Vec<(&'static str, &'static str)>)
    ensures
        texts(fallback@) == tree_commands(),
{
    let mut fallback: Vec<(&'static str, &'static str)> = Vec::new();
    fallback.push(("pumpkin", "pumpkin:command.pumpkin"));
    fallback.push(("me", "minecraft:command.me"));
    fallback.push(("msg", "minecraft:command.msg"));
    fallback.push(("worldborder", "minecraft:command.worldborder"));
    fallback.push(("effect", "minecraft:command.effect"));
    fallback.push(("teleport", "minecraft:command.teleport"));
    fallback.push(("time", "minecraft:command.time"));
    fallback.push(("give", "minecraft:command.give"));
    fallback.push(("item", "minecraft:command.item"));
    fallback.push(("enchant", "minecraft:command.enchant"));
    fallback.push(("clear", "minecraft:command.clear"));
    fallback.push(("setblock", "minecraft:command.setblock"));
    fallback.push(("tps", "pumpkin:command.tps"));
    fallback.push(("fill", "minecraft:command.fill"));
    fallback.push(("playsound", "minecraft:command.playsound"));
    fallback.push(("tellraw", "minecraft:command.tellraw"));
    fallback.push(("title", "minecraft:command.title"));
    fallback.push(("summon", "minecraft:command.summon"));
    fallback.push(("experience", "minecraft:command.experience"));
    fallback.push(("weather", "minecraft:command.weather"));
    fallback.push(("particle", "minecraft:command.particle"));
    fallback.push(("rotate", "minecraft:command.rotate"));
    fallback.push(("damage", "minecraft:command.damage"));
    fallback.push(("bossbar", "minecraft:command.bossbar"));
    fallback.push(("say", "minecraft:command.say"));
    fallback.push(("gamemode", "minecraft:command.gamemode"));
    fallback.push(("gamerule", "minecraft:command.gamerule"));
    fallback.push(("stopsound", "minecraft:command.stopsound"));
    fallback.push(("defaultgamemode", "minecraft:command.defaultgamemode"));
    fallback.push(("setworldspawn", "minecraft:command.setworldspawn"));
    fallback.push(("spawnpoint", "minecraft:command.spawnpoint"));
    fallback.push(("spectate", "minecraft:command.spectate"));
    fallback.push(("data", "minecraft:command.data"));
    fallback.push(("deop", "minecraft:command.deop"));
    fallback.push(("kick", "minecraft:command.kick"));
    fallback.push(("plugin", "pumpkin:command.plugin"));
    fallback.push(("plugins", "pumpkin:command.plugins"));
    fallback.push(("ban", "minecraft:command.ban"));
    fallback.push(("banip", "minecraft:command.banip"));
    fallback.push(("pardon", "minecraft:command.pardon"));
    fallback.push(("pardonip", "minecraft:command.pardonip"));
    fallback.push(("whitelist", "minecraft:command.whitelist"));
    fallback.push(("transfer", "minecraft:command.transfer"));
    assert(texts(fallback@) =~= tree_commands());
    fallback
}

/// The first of the commands that register themselves, up to `list`.
fn first_own_commands() -> (own: Vec<&'static str>)
    ensures
        locate::said(own@) == own_commands().take(14),
{
    let mut own: Vec<&'static str> = Vec::new();
    own.push("about");
    own.push("banlist");
    own.push("difficulty");
    own.push("dialog");
    own.push("execute");
    own.push("fillbiome");
    own.push("forceload");
    own.push("ride");
    own.push("recipe");
    own.push("help");
    own.push("kill");
    own.push("op");
    own.push("random");
    own.push("list");
    assert(locate::said(own@) =~= own_commands().take(14));
    own
}

/// Adds the last of the commands that register themselves, from `saveall` on.
fn add_last_own_commands(own: &mut Vec<&'static str>)
    requires
        locate::said(old(own)@) == own_commands().take(17),
    ensures
        locate::said(final(own)@) == own_commands(),
{
    let ghost begun = own@;
    assert(begun.len() == locate::said(begun).len() == 17);
    own.push("saveall");
    own.push("saveoff");
    own.push("saveon");
    own.push("setidletimeout");
    own.push("spreadplayers");
    own.push("stop");
    own.push("tag");
    own.push("tick");
    own.push("advancement");
    own.push("trigger");
    own.push("scoreboard");
    own.push("team");
    own.push("teammsg");
    own.push("clone");
    own.push("attribute");
    assert(locate::said(own@) =~= own_commands()) by {
        assert forall|i: int| 0 <= i < own_commands().len() implies #[trigger] locate::said(
            own@,
        )[i] == own_commands()[i] by {
            if i < 17 {
                assert(own@[i] == begun[i]);
                assert(locate::said(begun)[i] == own_commands().take(17)[i]);
            }
        }
    }
}

/// Where all permissions that come with the server are new, each part of them is, once those
/// before it are there.
proof fn lemma_parts_are_new(
    there: Seq<PermissionValue>,
    list: Seq<PermissionValue>,
    locate: Seq<PermissionValue>,
    loot: Seq<PermissionValue>,
    seed: Seq<PermissionValue>,
    rest: Seq<PermissionValue>,
)
    requires
        all_new(there, all_permissions() + list + locate + loot + seed + rest),
    ensures
        all_new(there + all_permissions(), list),
        all_new(there + (all_permissions() + list), locate),
        all_new(there + (all_permissions() + list + locate), loot),
        all_new(there + (all_permissions() + list + locate + loot), seed),
        all_new(there + (all_permissions() + list + locate + loot + seed), rest),
{
    let known = all_permissions();
    let all = known + list + locate + loot + seed + rest;
    assert(known + list + (locate + loot + seed + rest) =~= all);
    lemma_part_is_new(there, known, list, locate + loot + seed + rest);
    assert((known + list) + locate + (loot + seed + rest) =~= all);
    lemma_part_is_new(there, known + list, locate, loot + seed + rest);
    assert((known + list + locate) + loot + (seed + rest) =~= all);
    lemma_part_is_new(there, known + list + locate, loot, seed + rest);
    lemma_part_is_new(there, known + list + locate + loot, seed, rest);
    assert((known + list + locate + loot + seed) + rest + Seq::empty() =~= all);
    lemma_part_is_new(there, known + list + locate + loot + seed, rest, Seq::empty());
}

/// Registers all permissions and all commands that come with the server. `own` holds the
/// permissions of the commands that register themselves; those of `locate` and `seed` come
/// with them. None of the permissions may be there already.
pub fn default_dispatcher(registry: &mut PermissionRegistry, own: OwnPermissions) -> (r:
    CommandDispatcher)
    requires
        all_new(old(registry)@, default_permissions(own)),
    ensures
        final(registry)@ == old(registry)@ + default_permissions(own),
        texts(r.fallback@) == tree_commands(),
        locate::said(r.own@) == own_commands(),
{
    let ghost before = registry@;
    let ghost known = all_permissions();
    let ghost list = views(own.about_to_list@);
    let ghost loot = views(own.loot@);
    let ghost rest = views(own.saveall_to_attribute@);
    let ghost locate = seq![locate::permission()];
    let ghost seed = seq![seed::permission()];
    proof {
        lemma_rows_are_new(before, own);
        lemma_parts_are_new(before, list, locate, loot, seed, rest);
        assert(locate[0] == locate::permission());
        assert(seed[0] == seed::permission());
    }
    register_permissions(registry);
    let mut dispatcher: CommandDispatcher = CommandDispatcher {
        fallback: tree_command_list(),
        own: first_own_commands(),
    };
    register_all(registry, own.about_to_list);
    assert(registry@ =~= before + (known + list));
    locate::register(&mut dispatcher, registry);
    assert(locate::said(dispatcher.own@) =~= own_commands().take(15));
    assert(registry@ =~= before + (known + list + locate));
    dispatcher.own.push("loot");
    assert(locate::said(dispatcher.own@) =~= own_commands().take(16));
    register_all(registry, own.loot);
    assert(registry@ =~= before + (known + list + locate + loot));
    seed::register(&mut dispatcher, registry);
    assert(locate::said(dispatcher.own@) =~= own_commands().take(17));
    assert(registry@ =~= before + (known + list + locate + loot + seed));
    add_last_own_commands(&mut dispatcher.own);
    register_all(registry, own.saveall_to_attribute);
    assert(registry@ =~= before + (known + list + locate + loot + seed + rest));
    dispatcher
}

/// The permissions of the rows can be registered where all that come with the server can.
proof fn lemma_rows_are_new(there: Seq<PermissionValue>, own: OwnPermissions)
    requires
        all_new(there, default_permissions(own)),
    ensures
        names_are_free(there, all_rows()),
{
    assert forall|i: int| 0 <= i < all_rows().len() implies !is_registered(
        there,
        (#[trigger] all_rows()[i]).0,
    ) by {
        lemma_row_at(i);
        assert(default_permissions(own)[i] == all_permissions()[i]);
    }
}

/// The permissions that come with the server and are known here.
pub open spec fn known_permissions() -> Seq<PermissionValue> {
    all_permissions() + seq![locate::permission(), seed::permission()]
}

/// No two of the known permissions have one name.
proof fn lemma_known_names_differ()
    ensures
        all_new(Seq::empty(), known_permissions()),
{
    law_permission_names_differ();
    reveal_strlit("minecraft:command.locate");
    reveal_strlit("minecraft:command.seed");
    assert(name_code("minecraft:command.locate"@) == 1600628);
    assert(name_code("minecraft:command.seed"@) == 1471333);
    lemma_own_names_are_free(locate::permission().name);
    lemma_own_names_are_free(seed::permission().name);
    let known = known_permissions();
    let count = all_permissions().len() as int;
    assert(known[count] == locate::permission());
    assert(known[count + 1] == seed::permission());
    assert forall|i: int, j: int| 0 <= i < j < known.len() implies (#[trigger] known[i]).name != (
    #[trigger] known[j]).name by {
        if i < count {
            lemma_row_at(i);
            assert(known[i] == all_permissions()[i]);
        }
        if j < count {
            lemma_row_at(j);
            assert(known[j] == all_permissions()[j]);
        }
    }
}

/// Law: where none is there yet, the permissions that come with the server can be registered
/// as soon as those of the commands that register themselves have names of their own: no two
/// have one name, and none has that of a permission that is known here.
pub proof fn law_default_permissions_are_all_new(own: OwnPermissions)
    requires
        all_new(
            known_permissions(),
            views(own.about_to_list@) + views(own.loot@) + views(own.saveall_to_attribute@),
        ),
    ensures
        all_new(Seq::empty(), default_permissions(own)),
{
    lemma_known_names_differ();
    let all = default_permissions(own);
    let known = known_permissions();
    let others = views(own.about_to_list@) + views(own.loot@) + views(own.saveall_to_attribute@);
    assert forall|i: int, j: int| 0 <= i < j < all.len() implies (#[trigger] all[i]).name != (
    #[trigger] all[j]).name by {
        lemma_known_or_other(own, i);
        lemma_known_or_other(own, j);
        let (first_known, first) = default_place(own, i);
        let (second_known, second) = default_place(own, j);
        if first_known && !second_known {
            assert(!is_registered(known, others[second].name));
            assert(known[first].name != others[second].name);
        }
        if !first_known && second_known {
            assert(!is_registered(known, others[first].name));
            assert(known[second].name != others[first].name);
        }
    }
}

/// Whether a permission that comes with the server is known here, and its place among those
/// that are or are not.
spec fn default_place(own: OwnPermissions, i: int) -> (bool, int) {
    let count = all_permissions().len() as int;
    let locate_at = count + own.about_to_list@.len();
    let seed_at = locate_at + 1 + own.loot@.len();
    if i < count {
        (true, i)
    } else if i < locate_at {
        (false, i - count)
    } else if i == locate_at {
        (true, count)
    } else if i < seed_at {
        (false, i - count - 1)
    } else if i == seed_at {
        (true, count + 1)
    } else {
        (false, i - count - 2)
    }
}

/// Each permission that comes with the server is known here or one of the others.
proof fn lemma_known_or_other(own: OwnPermissions, i: int)
    requires
        0 <= i < default_permissions(own).len(),
    ensures
        ({
            let (known, at) = default_place(own, i);
            let others = views(own.about_to_list@) + views(own.loot@) + views(
                own.saveall_to_attribute@,
            );
            default_permissions(own)[i] == (if known {
                known_permissions()[at]
            } else {
                others[at]
            }) && 0 <= at < (if known {
                known_permissions().len()
            } else {
                others.len()
            })
        }),
{
}

/// The place of a row among all permissions.
proof fn lemma_row_at(i: int)
    requires
        0 <= i < all_rows().len(),
    ensures
        all_permissions().len() == all_rows().len(),
        all_permissions()[i].name == all_rows()[i].0,
{
}

/// Law: every command that is known by its tree asks for a permission that is registered.
pub proof fn law_every_command_has_its_permission(i: int)
    requires
        0 <= i < tree_commands().len(),
    ensures
        is_registered(all_permissions(), tree_commands()[i].1),
{
    let place = permission_place(i);
    assert(all_rows()[place].0 == tree_commands()[i].1) by {
        lemma_command_rows();
    }
    lemma_row_at(place);
    assert(all_permissions()[place].name == tree_commands()[i].1);
}

/// The place of the permission of a command among all permissions.
spec fn permission_place(command: int) -> int {
    if command == 0 {
        0
    } else if command == 1 {
        1
    } else if command == 2 {
        2
    } else if command == 3 {
        3
    } else if command == 4 {
        4
    } else if command == 5 {
        5
    } else if command == 6 {
        6
    } else if command == 7 {
        7
    } else if command == 8 {
        8
    } else if command == 9 {
        28
    } else if command == 10 {
        9
    } else if command == 11 {
        10
    } else if command == 12 {
        31
    } else if command == 13 {
        11
    } else if command == 14 {
        12
    } else if command == 15 {
        13
    } else if command == 16 {
        14
    } else if command == 17 {
        15
    } else if command == 18 {
        16
    } else if command == 19 {
        17
    } else if command == 20 {
        18
    } else if command == 21 {
        19
    } else if command == 22 {
        20
    } else if command == 23 {
        21
    } else if command == 24 {
        22
    } else if command == 25 {
        23
    } else if command == 26 {
        24
    } else if command == 27 {
        25
    } else if command == 28 {
        26
    } else if command == 29 {
        32
    } else if command == 30 {
        29
    } else if command == 31 {
        30
    } else if command == 32 {
        27
    } else if command == 33 {
        33
    } else if command == 34 {
        34
    } else if command == 35 {
        35
    } else if command == 36 {
        36
    } else if command == 37 {
        37
    } else if command == 38 {
        38
    } else if command == 39 {
        39
    } else if command == 40 {
        40
    } else if command == 41 {
        41
    } else if command == 42 {
        42
    } else {
        -1
    }
}

/// The permission of each command stands in its place.
proof fn lemma_command_rows()
    ensures
        all_rows().len() == 44,
        forall|i: int|
            0 <= i < tree_commands().len() ==> 0 <= permission_place(i) < all_rows().len()
                && all_rows()[permission_place(i)].0 == (#[trigger] tree_commands()[i]).1,
{
    let rows = all_rows();
    let commands = tree_commands();
    assert(rows[0].0 == commands[0].1);
    assert(rows[1].0 == commands[1].1);
    assert(rows[2].0 == commands[2].1);
    assert(rows[3].0 == commands[3].1);
    assert(rows[4].0 == commands[4].1);
    assert(rows[5].0 == commands[5].1);
    assert(rows[6].0 == commands[6].1);
    assert(rows[7].0 == commands[7].1);
    assert(rows[8].0 == commands[8].1);
    assert(rows[28].0 == commands[9].1);
    assert(rows[9].0 == commands[10].1);
    assert(rows[10].0 == commands[11].1);
    assert(rows[31].0 == commands[12].1);
    assert(rows[11].0 == commands[13].1);
    assert(rows[12].0 == commands[14].1);
    assert(rows[13].0 == commands[15].1);
    assert(rows[14].0 == commands[16].1);
    assert(rows[15].0 == commands[17].1);
    assert(rows[16].0 == commands[18].1);
    assert(rows[17].0 == commands[19].1);
    assert(rows[18].0 == commands[20].1);
    assert(rows[19].0 == commands[21].1);
    assert(rows[20].0 == commands[22].1);
    assert(rows[21].0 == commands[23].1);
    assert(rows[22].0 == commands[24].1);
    assert(rows[23].0 == commands[25].1);
    assert(rows[24].0 == commands[26].1);
    assert(rows[25].0 == commands[27].1);
    assert(rows[26].0 == commands[28].1);
    assert(rows[32].0 == commands[29].1);
    assert(rows[29].0 == commands[30].1);
    assert(rows[30].0 == commands[31].1);
    assert(rows[27].0 == commands[32].1);
    assert(rows[33].0 == commands[33].1);
    assert(rows[34].0 == commands[34].1);
    assert(rows[35].0 == commands[35].1);
    assert(rows[36].0 == commands[36].1);
    assert(rows[37].0 == commands[37].1);
    assert(rows[38].0 == commands[38].1);
    assert(rows[39].0 == commands[39].1);
    assert(rows[40].0 == commands[40].1);
    assert(rows[41].0 == commands[41].1);
    assert(rows[42].0 == commands[42].1);
}

/// The registry has a permission of the name, with those who have it where nothing else is said.
pub open spec fn holds(
    registry: PermissionRegistry,
    name: Seq<char>,
    default: PermissionDefault,
) -> bool {
    exists|i: int|
        0 <= i < registry.permissions@.len() && (#[trigger] registry.permissions@[i]).name@ == name
            && registry.permissions@[i].default == default
}

/// Law: a permission is added just where there is none of its name, and is then the last; all that were
/// there stay as they are.
pub proof fn law_a_name_is_registered_once(
    registry: &mut PermissionRegistry,
    permission: Permission,
    r: Result<(), AlreadyRegistered>,
    i: int,
)
    requires
        call_ensures(PermissionRegistry::register_permission, (registry, permission), r),
    ensures
        0 <= i < old(registry).permissions@.len() && old(registry).permissions@[i].name@
            == permission.name@ ==> r is Err,
        (forall|j: int|
            0 <= j < old(registry).permissions@.len() ==> (#[trigger] old(registry).permissions@[j]).name@ != permission.name@) ==> r is Ok,
        r is Err ==> final(registry)@ == old(registry)@,
        r is Ok ==> {
            &&& final(registry).permissions@.len() == old(registry).permissions@.len() + 1
            &&& final(registry).permissions@.last().name@ == permission.name@
            &&& final(registry).permissions@.last().description@ == permission.description@
            &&& final(registry).permissions@.last().default == permission.default
        },
        0 <= i < old(registry).permissions@.len() ==> final(registry).permissions@[i]@ == old(registry).permissions@[i]@,
{
    let before = old(registry)@;
    let after = final(registry)@;
    assert(before.len() == old(registry).permissions@.len());
    assert(after.len() == final(registry).permissions@.len());
    if 0 <= i < before.len() {
        assert(before[i] == old(registry).permissions@[i]@);
        assert(after[i] == final(registry).permissions@[i]@);
        assert(after[i] == before[i]);
    }
    if r is Err {
        let j = choose|j: int| 0 <= j < before.len() && before[j].name == permission@.name;
        assert(before[j] == old(registry).permissions@[j]@);
    } else {
        assert(after[before.len() as int] == permission@);
        assert(after[before.len() as int] == final(registry).permissions@.last()@);
    }
}

/// A permission at a place of what was added is held.
proof fn lemma_added_is_held(
    registry: PermissionRegistry,
    before: Seq<PermissionValue>,
    added: Seq<PermissionValue>,
    i: int,
)
    requires
        registry@ == before + added,
        0 <= i < added.len(),
    ensures
        holds(registry, added[i].name, added[i].default),
{
    let at = before.len() + i;
    assert(registry@.len() == registry.permissions@.len());
    assert((before + added)[at] == added[i]);
    assert(registry@[at] == registry.permissions@[at]@);
}

/// Law: everyone may ask about the server, narrate and whisper, and nothing else is
/// added for everyone.
pub proof fn law_what_everyone_may(registry: &mut PermissionRegistry)
    requires
        call_ensures(register_level_0_permissions, (registry,), ()),
    ensures
        final(registry).permissions@.len() == old(registry).permissions@.len() + 3,
        holds(*final(registry), "pumpkin:command.pumpkin"@, PermissionDefault::Allow),
        holds(*final(registry), "minecraft:command.me"@, PermissionDefault::Allow),
        holds(*final(registry), "minecraft:command.msg"@, PermissionDefault::Allow),
{
    assert(final(registry)@.len() == final(registry).permissions@.len());
    assert(old(registry)@.len() == old(registry).permissions@.len());
    let added = permissions_of(level_0_rows(), PermissionDefault::Allow);
    assert(added[0].name == "pumpkin:command.pumpkin"@);
    lemma_added_is_held(*final(registry), old(registry)@, added, 0);
    assert(added[1].name == "minecraft:command.me"@);
    lemma_added_is_held(*final(registry), old(registry)@, added, 1);
    assert(added[2].name == "minecraft:command.msg"@);
    lemma_added_is_held(*final(registry), old(registry)@, added, 2);
}

/// Law: operators of the second level may change how the game goes, each by a permission of
/// its own.
pub proof fn law_what_second_level_operators_may(registry: &mut PermissionRegistry)
    requires
        call_ensures(register_level_2_permissions, (registry,), ()),
    ensures
        final(registry).permissions@.len() == old(registry).permissions@.len() + 29,
        holds(*final(registry), "minecraft:command.worldborder"@, PermissionDefault::Op(PermissionLvl::Two)),
        holds(*final(registry), "minecraft:command.effect"@, PermissionDefault::Op(PermissionLvl::Two)),
        holds(*final(registry), "minecraft:command.teleport"@, PermissionDefault::Op(PermissionLvl::Two)),
        holds(*final(registry), "minecraft:command.time"@, PermissionDefault::Op(PermissionLvl::Two)),
        holds(*final(registry), "minecraft:command.give"@, PermissionDefault::Op(PermissionLvl::Two)),
        holds(*final(registry), "minecraft:command.item"@, PermissionDefault::Op(PermissionLvl::Two)),
        holds(*final(registry), "minecraft:command.clear"@, PermissionDefault::Op(PermissionLvl::Two)),
        holds(*final(registry), "minecraft:command.setblock"@, PermissionDefault::Op(PermissionLvl::Two)),
        holds(*final(registry), "minecraft:command.fill"@, PermissionDefault::Op(PermissionLvl::Two)),
        holds(*final(registry), "minecraft:command.playsound"@, PermissionDefault::Op(PermissionLvl::Two)),
        holds(*final(registry), "minecraft:command.tellraw"@, PermissionDefault::Op(PermissionLvl::Two)),
        holds(*final(registry), "minecraft:command.title"@, PermissionDefault::Op(PermissionLvl::Two)),
        holds(*final(registry), "minecraft:command.summon"@, PermissionDefault::Op(PermissionLvl::Two)),
        holds(*final(registry), "minecraft:command.experience"@, PermissionDefault::Op(PermissionLvl::Two)),
        holds(*final(registry), "minecraft:command.weather"@, PermissionDefault::Op(PermissionLvl::Two)),
        holds(*final(registry), "minecraft:command.particle"@, PermissionDefault::Op(PermissionLvl::Two)),
        holds(*final(registry), "minecraft:command.rotate"@, PermissionDefault::Op(PermissionLvl::Two)),
        holds(*final(registry), "minecraft:command.damage"@, PermissionDefault::Op(PermissionLvl::Two)),
        holds(*final(registry), "minecraft:command.bossbar"@, PermissionDefault::Op(PermissionLvl::Two)),
        holds(*final(registry), "minecraft:command.say"@, PermissionDefault::Op(PermissionLvl::Two)),
        holds(*final(registry), "minecraft:command.gamemode"@, PermissionDefault::Op(PermissionLvl::Two)),
        holds(*final(registry), "minecraft:command.gamerule"@, PermissionDefault::Op(PermissionLvl::Two)),
        holds(*final(registry), "minecraft:command.stopsound"@, PermissionDefault::Op(PermissionLvl::Two)),
        holds(*final(registry), "minecraft:command.defaultgamemode"@, PermissionDefault::Op(PermissionLvl::Two)),
        holds(*final(registry), "minecraft:command.data"@, PermissionDefault::Op(PermissionLvl::Two)),
        holds(*final(registry), "minecraft:command.enchant"@, PermissionDefault::Op(PermissionLvl::Two)),
        holds(*final(registry), "minecraft:command.spawnpoint"@, PermissionDefault::Op(PermissionLvl::Two)),
        holds(*final(registry), "minecraft:command.spectate"@, PermissionDefault::Op(PermissionLvl::Two)),
        holds(*final(registry), "pumpkin:command.tps"@, PermissionDefault::Op(PermissionLvl::Two)),
{
    assert(final(registry)@.len() == final(registry).permissions@.len());
    assert(old(registry)@.len() == old(registry).permissions@.len());
    let added = permissions_of(level_2_rows(), PermissionDefault::Op(PermissionLvl::Two));
    assert(added[0].name == "minecraft:command.worldborder"@);
    lemma_added_is_held(*final(registry), old(registry)@, added, 0);
    assert(added[1].name == "minecraft:command.effect"@);
    lemma_added_is_held(*final(registry), old(registry)@, added, 1);
    assert(added[2].name == "minecraft:command.teleport"@);
    lemma_added_is_held(*final(registry), old(registry)@, added, 2);
    assert(added[3].name == "minecraft:command.time"@);
    lemma_added_is_held(*final(registry), old(registry)@, added, 3);
    assert(added[4].name == "minecraft:command.give"@);
    lemma_added_is_held(*final(registry), old(registry)@, added, 4);
    assert(added[5].name == "minecraft:command.item"@);
    lemma_added_is_held(*final(registry), old(registry)@, added, 5);
    assert(added[6].name == "minecraft:command.clear"@);
    lemma_added_is_held(*final(registry), old(registry)@, added, 6);
    assert(added[7].name == "minecraft:command.setblock"@);
    lemma_added_is_held(*final(registry), old(registry)@, added, 7);
    assert(added[8].name == "minecraft:command.fill"@);
    lemma_added_is_held(*final(registry), old(registry)@, added, 8);
    assert(added[9].name == "minecraft:command.playsound"@);
    lemma_added_is_held(*final(registry), old(registry)@, added, 9);
    assert(added[10].name == "minecraft:command.tellraw"@);
    lemma_added_is_held(*final(registry), old(registry)@, added, 10);
    assert(added[11].name == "minecraft:command.title"@);
    lemma_added_is_held(*final(registry), old(registry)@, added, 11);
    assert(added[12].name == "minecraft:command.summon"@);
    lemma_added_is_held(*final(registry), old(registry)@, added, 12);
    assert(added[13].name == "minecraft:command.experience"@);
    lemma_added_is_held(*final(registry), old(registry)@, added, 13);
    assert(added[14].name == "minecraft:command.weather"@);
    lemma_added_is_held(*final(registry), old(registry)@, added, 14);
    assert(added[15].name == "minecraft:command.particle"@);
    lemma_added_is_held(*final(registry), old(registry)@, added, 15);
    assert(added[16].name == "minecraft:command.rotate"@);
    lemma_added_is_held(*final(registry), old(registry)@, added, 16);
    assert(added[17].name == "minecraft:command.damage"@);
    lemma_added_is_held(*final(registry), old(registry)@, added, 17);
    assert(added[18].name == "minecraft:command.bossbar"@);
    lemma_added_is_held(*final(registry), old(registry)@, added, 18);
    assert(added[19].name == "minecraft:command.say"@);
    lemma_added_is_held(*final(registry), old(registry)@, added, 19);
    assert(added[20].name == "minecraft:command.gamemode"@);
    lemma_added_is_held(*final(registry), old(registry)@, added, 20);
    assert(added[21].name == "minecraft:command.gamerule"@);
    lemma_added_is_held(*final(registry), old(registry)@, added, 21);
    assert(added[22].name == "minecraft:command.stopsound"@);
    lemma_added_is_held(*final(registry), old(registry)@, added, 22);
    assert(added[23].name == "minecraft:command.defaultgamemode"@);
    lemma_added_is_held(*final(registry), old(registry)@, added, 23);
    assert(added[24].name == "minecraft:command.data"@);
    lemma_added_is_held(*final(registry), old(registry)@, added, 24);
    assert(added[25].name == "minecraft:command.enchant"@);
    lemma_added_is_held(*final(registry), old(registry)@, added, 25);
    assert(added[26].name == "minecraft:command.spawnpoint"@);
    lemma_added_is_held(*final(registry), old(registry)@, added, 26);
    assert(added[27].name == "minecraft:command.spectate"@);
    lemma_added_is_held(*final(registry), old(registry)@, added, 27);
    assert(added[28].name == "pumpkin:command.tps"@);
    lemma_added_is_held(*final(registry), old(registry)@, added, 28);
}

/// Law: who may play, and what the server runs, is for operators of the third level.
pub proof fn law_what_third_level_operators_may(registry: &mut PermissionRegistry)
    requires
        call_ensures(register_level_3_permissions, (registry,), ()),
    ensures
        final(registry).permissions@.len() == old(registry).permissions@.len() + 11,
        holds(*final(registry), "minecraft:command.setworldspawn"@, PermissionDefault::Op(PermissionLvl::Three)),
        holds(*final(registry), "minecraft:command.deop"@, PermissionDefault::Op(PermissionLvl::Three)),
        holds(*final(registry), "minecraft:command.kick"@, PermissionDefault::Op(PermissionLvl::Three)),
        holds(*final(registry), "pumpkin:command.plugin"@, PermissionDefault::Op(PermissionLvl::Three)),
        holds(*final(registry), "pumpkin:command.plugins"@, PermissionDefault::Op(PermissionLvl::Three)),
        holds(*final(registry), "minecraft:command.ban"@, PermissionDefault::Op(PermissionLvl::Three)),
        holds(*final(registry), "minecraft:command.banip"@, PermissionDefault::Op(PermissionLvl::Three)),
        holds(*final(registry), "minecraft:command.pardon"@, PermissionDefault::Op(PermissionLvl::Three)),
        holds(*final(registry), "minecraft:command.pardonip"@, PermissionDefault::Op(PermissionLvl::Three)),
        holds(*final(registry), "minecraft:command.whitelist"@, PermissionDefault::Op(PermissionLvl::Three)),
        holds(*final(registry), "minecraft:command.transfer"@, PermissionDefault::Op(PermissionLvl::Three)),
{
    assert(final(registry)@.len() == final(registry).permissions@.len());
    assert(old(registry)@.len() == old(registry).permissions@.len());
    let added = permissions_of(level_3_rows(), PermissionDefault::Op(PermissionLvl::Three));
    assert(added[0].name == "minecraft:command.setworldspawn"@);
    lemma_added_is_held(*final(registry), old(registry)@, added, 0);
    assert(added[1].name == "minecraft:command.deop"@);
    lemma_added_is_held(*final(registry), old(registry)@, added, 1);
    assert(added[2].name == "minecraft:command.kick"@);
    lemma_added_is_held(*final(registry), old(registry)@, added, 2);
    assert(added[3].name == "pumpkin:command.plugin"@);
    lemma_added_is_held(*final(registry), old(registry)@, added, 3);
    assert(added[4].name == "pumpkin:command.plugins"@);
    lemma_added_is_held(*final(registry), old(registry)@, added, 4);
    assert(added[5].name == "minecraft:command.ban"@);
    lemma_added_is_held(*final(registry), old(registry)@, added, 5);
    assert(added[6].name == "minecraft:command.banip"@);
    lemma_added_is_held(*final(registry), old(registry)@, added, 6);
    assert(added[7].name == "minecraft:command.pardon"@);
    lemma_added_is_held(*final(registry), old(registry)@, added, 7);
    assert(added[8].name == "minecraft:command.pardonip"@);
    lemma_added_is_held(*final(registry), old(registry)@, added, 8);
    assert(added[9].name == "minecraft:command.whitelist"@);
    lemma_added_is_held(*final(registry), old(registry)@, added, 9);
    assert(added[10].name == "minecraft:command.transfer"@);
    lemma_added_is_held(*final(registry), old(registry)@, added, 10);
}

/// Law: where all permissions are registered, each has those who have it at its level: narrating is for
/// everyone, giving for the second level, banning for the third, and naming many by one word for everyone.
/// Nothing that was there is lost.
pub proof fn law_levels_of_all_permissions(registry: &mut PermissionRegistry, i: int)
    requires
        call_ensures(register_permissions, (registry,), ()),
    ensures
        final(registry).permissions@.len() == old(registry).permissions@.len() + 44,
        0 <= i < old(registry).permissions@.len() ==> final(registry).permissions@[i]@ == old(registry).permissions@[i]@,
        holds(*final(registry), "minecraft:command.selector"@, PermissionDefault::Allow),
        holds(*final(registry), "minecraft:command.me"@, PermissionDefault::Allow),
        holds(
            *final(registry),
            "minecraft:command.give"@,
            PermissionDefault::Op(PermissionLvl::Two),
        ),
        holds(
            *final(registry),
            "minecraft:command.ban"@,
            PermissionDefault::Op(PermissionLvl::Three),
        ),
{
    let before = old(registry)@;
    let after = final(registry)@;
    lemma_command_rows();
    assert(after.len() == final(registry).permissions@.len());
    assert(before.len() == old(registry).permissions@.len());
    if 0 <= i < before.len() {
        assert(before[i] == old(registry).permissions@[i]@);
        assert(after[i] == final(registry).permissions@[i]@);
        assert(after[i] == before[i]);
    }
    let everyone = permissions_of(level_0_rows(), PermissionDefault::Allow);
    let second = permissions_of(level_2_rows(), PermissionDefault::Op(PermissionLvl::Two));
    let third = permissions_of(level_3_rows(), PermissionDefault::Op(PermissionLvl::Three));
    let selector = permissions_of(selector_rows(), PermissionDefault::Allow);
    assert(everyone.len() == 3 && second.len() == 29 && third.len() == 11 && selector.len() == 1);
    let added = all_permissions();
    assert(added[1] == everyone[1] && added[7] == second[4] && added[37] == third[5] && added[43]
        == selector[0]);
    lemma_added_is_held(*final(registry), before, added, 1);
    lemma_added_is_held(*final(registry), before, added, 7);
    lemma_added_is_held(*final(registry), before, added, 37);
    lemma_added_is_held(*final(registry), before, added, 43);
}

/// Law: a command that is known by its tree asks for the permission that bears its name, in the
/// namespace of the server for what only this server has and else in that of the game.
pub proof fn law_permissions_bear_the_names_of_commands(
    registry: &mut PermissionRegistry,
    own: OwnPermissions,
    r: CommandDispatcher,
    i: int,
)
    requires
        call_ensures(default_dispatcher, (registry, own), r),
        0 <= i < r.fallback@.len(),
    ensures
        ({
            let (command, permission) = r.fallback@[i];
            permission@ == (if command@ == "pumpkin"@ || command@ == "tps"@ || command@ == "plugin"@ || command@ == "plugins"@ {
                "pumpkin:command."@
            } else {
                "minecraft:command."@
            }) + command@
        }),
{
    assert(texts(r.fallback@)[i] == (r.fallback@[i].0@, r.fallback@[i].1@));
    lemma_permission_texts(i);
}

/// The permission of each command bears its name.
proof fn lemma_permission_texts(i: int)
    requires
        0 <= i < tree_commands().len(),
    ensures
        ({
            let (command, permission) = tree_commands()[i];
            permission == (if command == "pumpkin"@ || command == "tps"@ || command == "plugin"@ || command == "plugins"@ {
                "pumpkin:command."@
            } else {
                "minecraft:command."@
            }) + command
        }),
{
    assert("pumpkin:command.pumpkin"@ =~= "pumpkin:command."@ + "pumpkin"@) by {
        reveal_strlit("pumpkin:command.pumpkin");
        reveal_strlit("pumpkin:command.");
        reveal_strlit("pumpkin");
    }
    assert("minecraft:command.me"@ =~= "minecraft:command."@ + "me"@) by {
        reveal_strlit("minecraft:command.me");
        reveal_strlit("minecraft:command.");
        reveal_strlit("me");
    }
    assert("minecraft:command.msg"@ =~= "minecraft:command."@ + "msg"@) by {
        reveal_strlit("minecraft:command.msg");
        reveal_strlit("minecraft:command.");
        reveal_strlit("msg");
    }
    assert("minecraft:command.worldborder"@ =~= "minecraft:command."@ + "worldborder"@) by {
        reveal_strlit("minecraft:command.worldborder");
        reveal_strlit("minecraft:command.");
        reveal_strlit("worldborder");
    }
    assert("minecraft:command.effect"@ =~= "minecraft:command."@ + "effect"@) by {
        reveal_strlit("minecraft:command.effect");
        reveal_strlit("minecraft:command.");
        reveal_strlit("effect");
    }
    assert("minecraft:command.teleport"@ =~= "minecraft:command."@ + "teleport"@) by {
        reveal_strlit("minecraft:command.teleport");
        reveal_strlit("minecraft:command.");
        reveal_strlit("teleport");
    }
    assert("minecraft:command.time"@ =~= "minecraft:command."@ + "time"@) by {
        reveal_strlit("minecraft:command.time");
        reveal_strlit("minecraft:command.");
        reveal_strlit("time");
    }
    assert("minecraft:command.give"@ =~= "minecraft:command."@ + "give"@) by {
        reveal_strlit("minecraft:command.give");
        reveal_strlit("minecraft:command.");
        reveal_strlit("give");
    }
    assert("minecraft:command.item"@ =~= "minecraft:command."@ + "item"@) by {
        reveal_strlit("minecraft:command.item");
        reveal_strlit("minecraft:command.");
        reveal_strlit("item");
    }
    assert("minecraft:command.enchant"@ =~= "minecraft:command."@ + "enchant"@) by {
        reveal_strlit("minecraft:command.enchant");
        reveal_strlit("minecraft:command.");
        reveal_strlit("enchant");
    }
    assert("minecraft:command.clear"@ =~= "minecraft:command."@ + "clear"@) by {
        reveal_strlit("minecraft:command.clear");
        reveal_strlit("minecraft:command.");
        reveal_strlit("clear");
    }
    assert("minecraft:command.setblock"@ =~= "minecraft:command."@ + "setblock"@) by {
        reveal_strlit("minecraft:command.setblock");
        reveal_strlit("minecraft:command.");
        reveal_strlit("setblock");
    }
    assert("pumpkin:command.tps"@ =~= "pumpkin:command."@ + "tps"@) by {
        reveal_strlit("pumpkin:command.tps");
        reveal_strlit("pumpkin:command.");
        reveal_strlit("tps");
    }
    assert("minecraft:command.fill"@ =~= "minecraft:command."@ + "fill"@) by {
        reveal_strlit("minecraft:command.fill");
        reveal_strlit("minecraft:command.");
        reveal_strlit("fill");
    }
    assert("minecraft:command.playsound"@ =~= "minecraft:command."@ + "playsound"@) by {
        reveal_strlit("minecraft:command.playsound");
        reveal_strlit("minecraft:command.");
        reveal_strlit("playsound");
    }
    assert("minecraft:command.tellraw"@ =~= "minecraft:command."@ + "tellraw"@) by {
        reveal_strlit("minecraft:command.tellraw");
        reveal_strlit("minecraft:command.");
        reveal_strlit("tellraw");
    }
    assert("minecraft:command.title"@ =~= "minecraft:command."@ + "title"@) by {
        reveal_strlit("minecraft:command.title");
        reveal_strlit("minecraft:command.");
        reveal_strlit("title");
    }
    assert("minecraft:command.summon"@ =~= "minecraft:command."@ + "summon"@) by {
        reveal_strlit("minecraft:command.summon");
        reveal_strlit("minecraft:command.");
        reveal_strlit("summon");
    }
    assert("minecraft:command.experience"@ =~= "minecraft:command."@ + "experience"@) by {
        reveal_strlit("minecraft:command.experience");
        reveal_strlit("minecraft:command.");
        reveal_strlit("experience");
    }
    assert("minecraft:command.weather"@ =~= "minecraft:command."@ + "weather"@) by {
        reveal_strlit("minecraft:command.weather");
        reveal_strlit("minecraft:command.");
        reveal_strlit("weather");
    }
    assert("minecraft:command.particle"@ =~= "minecraft:command."@ + "particle"@) by {
        reveal_strlit("minecraft:command.particle");
        reveal_strlit("minecraft:command.");
        reveal_strlit("particle");
    }
    assert("minecraft:command.rotate"@ =~= "minecraft:command."@ + "rotate"@) by {
        reveal_strlit("minecraft:command.rotate");
        reveal_strlit("minecraft:command.");
        reveal_strlit("rotate");
    }
    assert("minecraft:command.damage"@ =~= "minecraft:command."@ + "damage"@) by {
        reveal_strlit("minecraft:command.damage");
        reveal_strlit("minecraft:command.");
        reveal_strlit("damage");
    }
    assert("minecraft:command.bossbar"@ =~= "minecraft:command."@ + "bossbar"@) by {
        reveal_strlit("minecraft:command.bossbar");
        reveal_strlit("minecraft:command.");
        reveal_strlit("bossbar");
    }
    assert("minecraft:command.say"@ =~= "minecraft:command."@ + "say"@) by {
        reveal_strlit("minecraft:command.say");
        reveal_strlit("minecraft:command.");
        reveal_strlit("say");
    }
    assert("minecraft:command.gamemode"@ =~= "minecraft:command."@ + "gamemode"@) by {
        reveal_strlit("minecraft:command.gamemode");
        reveal_strlit("minecraft:command.");
        reveal_strlit("gamemode");
    }
    assert("minecraft:command.gamerule"@ =~= "minecraft:command."@ + "gamerule"@) by {
        reveal_strlit("minecraft:command.gamerule");
        reveal_strlit("minecraft:command.");
        reveal_strlit("gamerule");
    }
    assert("minecraft:command.stopsound"@ =~= "minecraft:command."@ + "stopsound"@) by {
        reveal_strlit("minecraft:command.stopsound");
        reveal_strlit("minecraft:command.");
        reveal_strlit("stopsound");
    }
    assert("minecraft:command.defaultgamemode"@ =~= "minecraft:command."@ + "defaultgamemode"@) by {
        reveal_strlit("minecraft:command.defaultgamemode");
        reveal_strlit("minecraft:command.");
        reveal_strlit("defaultgamemode");
    }
    assert("minecraft:command.setworldspawn"@ =~= "minecraft:command."@ + "setworldspawn"@) by {
        reveal_strlit("minecraft:command.setworldspawn");
        reveal_strlit("minecraft:command.");
        reveal_strlit("setworldspawn");
    }
    assert("minecraft:command.spawnpoint"@ =~= "minecraft:command."@ + "spawnpoint"@) by {
        reveal_strlit("minecraft:command.spawnpoint");
        reveal_strlit("minecraft:command.");
        reveal_strlit("spawnpoint");
    }
    assert("minecraft:command.spectate"@ =~= "minecraft:command."@ + "spectate"@) by {
        reveal_strlit("minecraft:command.spectate");
        reveal_strlit("minecraft:command.");
        reveal_strlit("spectate");
    }
    assert("minecraft:command.data"@ =~= "minecraft:command."@ + "data"@) by {
        reveal_strlit("minecraft:command.data");
        reveal_strlit("minecraft:command.");
        reveal_strlit("data");
    }
    assert("minecraft:command.deop"@ =~= "minecraft:command."@ + "deop"@) by {
        reveal_strlit("minecraft:command.deop");
        reveal_strlit("minecraft:command.");
        reveal_strlit("deop");
    }
    assert("minecraft:command.kick"@ =~= "minecraft:command."@ + "kick"@) by {
        reveal_strlit("minecraft:command.kick");
        reveal_strlit("minecraft:command.");
        reveal_strlit("kick");
    }
    assert("pumpkin:command.plugin"@ =~= "pumpkin:command."@ + "plugin"@) by {
        reveal_strlit("pumpkin:command.plugin");
        reveal_strlit("pumpkin:command.");
        reveal_strlit("plugin");
    }
    assert("pumpkin:command.plugins"@ =~= "pumpkin:command."@ + "plugins"@) by {
        reveal_strlit("pumpkin:command.plugins");
        reveal_strlit("pumpkin:command.");
        reveal_strlit("plugins");
    }
    assert("minecraft:command.ban"@ =~= "minecraft:command."@ + "ban"@) by {
        reveal_strlit("minecraft:command.ban");
        reveal_strlit("minecraft:command.");
        reveal_strlit("ban");
    }
    assert("minecraft:command.banip"@ =~= "minecraft:command."@ + "banip"@) by {
        reveal_strlit("minecraft:command.banip");
        reveal_strlit("minecraft:command.");
        reveal_strlit("banip");
    }
    assert("minecraft:command.pardon"@ =~= "minecraft:command."@ + "pardon"@) by {
        reveal_strlit("minecraft:command.pardon");
        reveal_strlit("minecraft:command.");
        reveal_strlit("pardon");
    }
    assert("minecraft:command.pardonip"@ =~= "minecraft:command."@ + "pardonip"@) by {
        reveal_strlit("minecraft:command.pardonip");
        reveal_strlit("minecraft:command.");
        reveal_strlit("pardonip");
    }
    assert("minecraft:command.whitelist"@ =~= "minecraft:command."@ + "whitelist"@) by {
        reveal_strlit("minecraft:command.whitelist");
        reveal_strlit("minecraft:command.");
        reveal_strlit("whitelist");
    }
    assert("minecraft:command.transfer"@ =~= "minecraft:command."@ + "transfer"@) by {
        reveal_strlit("minecraft:command.transfer");
        reveal_strlit("minecraft:command.");
        reveal_strlit("transfer");
    }
    reveal_strlit("pumpkin");
    reveal_strlit("me");
    reveal_strlit("msg");
    reveal_strlit("worldborder");
    reveal_strlit("effect");
    reveal_strlit("teleport");
    reveal_strlit("time");
    reveal_strlit("give");
    reveal_strlit("item");
    reveal_strlit("enchant");
    reveal_strlit("clear");
    reveal_strlit("setblock");
    reveal_strlit("tps");
    reveal_strlit("fill");
    reveal_strlit("playsound");
    reveal_strlit("tellraw");
    reveal_strlit("title");
    reveal_strlit("summon");
    reveal_strlit("experience");
    reveal_strlit("weather");
    reveal_strlit("particle");
    reveal_strlit("rotate");
    reveal_strlit("damage");
    reveal_strlit("bossbar");
    reveal_strlit("say");
    reveal_strlit("gamemode");
    reveal_strlit("gamerule");
    reveal_strlit("stopsound");
    reveal_strlit("defaultgamemode");
    reveal_strlit("setworldspawn");
    reveal_strlit("spawnpoint");
    reveal_strlit("spectate");
    reveal_strlit("data");
    reveal_strlit("deop");
    reveal_strlit("kick");
    reveal_strlit("plugin");
    reveal_strlit("plugins");
    reveal_strlit("ban");
    reveal_strlit("banip");
    reveal_strlit("pardon");
    reveal_strlit("pardonip");
    reveal_strlit("whitelist");
    reveal_strlit("transfer");
    assert("pumpkin"@.len() == 7);
    assert("me"@.len() == 2);
    assert("msg"@.len() == 3);
    assert("worldborder"@.len() == 11);
    assert("effect"@.len() == 6);
    assert("teleport"@.len() == 8);
    assert("time"@.len() == 4);
    assert("give"@.len() == 4);
    assert("item"@.len() == 4);
    assert("enchant"@.len() == 7);
    assert("clear"@.len() == 5);
    assert("setblock"@.len() == 8);
    assert("tps"@.len() == 3);
    assert("fill"@.len() == 4);
    assert("playsound"@.len() == 9);
    assert("tellraw"@.len() == 7);
    assert("title"@.len() == 5);
    assert("summon"@.len() == 6);
    assert("experience"@.len() == 10);
    assert("weather"@.len() == 7);
    assert("particle"@.len() == 8);
    assert("rotate"@.len() == 6);
    assert("damage"@.len() == 6);
    assert("bossbar"@.len() == 7);
    assert("say"@.len() == 3);
    assert("gamemode"@.len() == 8);
    assert("gamerule"@.len() == 8);
    assert("stopsound"@.len() == 9);
    assert("defaultgamemode"@.len() == 15);
    assert("setworldspawn"@.len() == 13);
    assert("spawnpoint"@.len() == 10);
    assert("spectate"@.len() == 8);
    assert("data"@.len() == 4);
    assert("deop"@.len() == 4);
    assert("kick"@.len() == 4);
    assert("plugin"@.len() == 6);
    assert("plugins"@.len() == 7);
    assert("ban"@.len() == 3);
    assert("banip"@.len() == 5);
    assert("pardon"@.len() == 6);
    assert("pardonip"@.len() == 8);
    assert("whitelist"@.len() == 9);
    assert("transfer"@.len() == 8);
    assert("pumpkin"@[0] == 'p');
    assert("enchant"@[0] == 'e');
    assert("tellraw"@[0] == 't');
    assert("weather"@[0] == 'w');
    assert("bossbar"@[0] == 'b');
    assert("tps"@[0] == 't');
    assert("msg"@[0] == 'm');
    assert("say"@[0] == 's');
    assert("ban"@[0] == 'b');
    assert("plugin"@[0] == 'p');
    assert("effect"@[0] == 'e');
    assert("summon"@[0] == 's');
    assert("rotate"@[0] == 'r');
    assert("damage"@[0] == 'd');
    assert("plugin"@[1] == 'l');
    assert("pardon"@[1] == 'a');
    assert("plugins"@[0] == 'p');
}

/// Law: these are the commands of the server, and it has no others.
pub proof fn law_commands_of_the_server(
    registry: &mut PermissionRegistry,
    own: OwnPermissions,
    r: CommandDispatcher,
)
    requires
        call_ensures(default_dispatcher, (registry, own), r),
    ensures
        r.fallback@.len() == 43,
        r.own@.len() == 32,
        r.fallback@[0].0@ == "pumpkin"@,
        r.fallback@[1].0@ == "me"@,
        r.fallback@[2].0@ == "msg"@,
        r.fallback@[3].0@ == "worldborder"@,
        r.fallback@[4].0@ == "effect"@,
        r.fallback@[5].0@ == "teleport"@,
        r.fallback@[6].0@ == "time"@,
        r.fallback@[7].0@ == "give"@,
        r.fallback@[8].0@ == "item"@,
        r.fallback@[9].0@ == "enchant"@,
        r.fallback@[10].0@ == "clear"@,
        r.fallback@[11].0@ == "setblock"@,
        r.fallback@[12].0@ == "tps"@,
        r.fallback@[13].0@ == "fill"@,
        r.fallback@[14].0@ == "playsound"@,
        r.fallback@[15].0@ == "tellraw"@,
        r.fallback@[16].0@ == "title"@,
        r.fallback@[17].0@ == "summon"@,
        r.fallback@[18].0@ == "experience"@,
        r.fallback@[19].0@ == "weather"@,
        r.fallback@[20].0@ == "particle"@,
        r.fallback@[21].0@ == "rotate"@,
        r.fallback@[22].0@ == "damage"@,
        r.fallback@[23].0@ == "bossbar"@,
        r.fallback@[24].0@ == "say"@,
        r.fallback@[25].0@ == "gamemode"@,
        r.fallback@[26].0@ == "gamerule"@,
        r.fallback@[27].0@ == "stopsound"@,
        r.fallback@[28].0@ == "defaultgamemode"@,
        r.fallback@[29].0@ == "setworldspawn"@,
        r.fallback@[30].0@ == "spawnpoint"@,
        r.fallback@[31].0@ == "spectate"@,
        r.fallback@[32].0@ == "data"@,
        r.fallback@[33].0@ == "deop"@,
        r.fallback@[34].0@ == "kick"@,
        r.fallback@[35].0@ == "plugin"@,
        r.fallback@[36].0@ == "plugins"@,
        r.fallback@[37].0@ == "ban"@,
        r.fallback@[38].0@ == "banip"@,
        r.fallback@[39].0@ == "pardon"@,
        r.fallback@[40].0@ == "pardonip"@,
        r.fallback@[41].0@ == "whitelist"@,
        r.fallback@[42].0@ == "transfer"@,
        r.own@[0]@ == "about"@,
        r.own@[1]@ == "banlist"@,
        r.own@[2]@ == "difficulty"@,
        r.own@[3]@ == "dialog"@,
        r.own@[4]@ == "execute"@,
        r.own@[5]@ == "fillbiome"@,
        r.own@[6]@ == "forceload"@,
        r.own@[7]@ == "ride"@,
        r.own@[8]@ == "recipe"@,
        r.own@[9]@ == "help"@,
        r.own@[10]@ == "kill"@,
        r.own@[11]@ == "op"@,
        r.own@[12]@ == "random"@,
        r.own@[13]@ == "list"@,
        r.own@[14]@ == "locate"@,
        r.own@[15]@ == "loot"@,
        r.own@[16]@ == "seed"@,
        r.own@[17]@ == "saveall"@,
        r.own@[18]@ == "saveoff"@,
        r.own@[19]@ == "saveon"@,
        r.own@[20]@ == "setidletimeout"@,
        r.own@[21]@ == "spreadplayers"@,
        r.own@[22]@ == "stop"@,
        r.own@[23]@ == "tag"@,
        r.own@[24]@ == "tick"@,
        r.own@[25]@ == "advancement"@,
        r.own@[26]@ == "trigger"@,
        r.own@[27]@ == "scoreboard"@,
        r.own@[28]@ == "team"@,
        r.own@[29]@ == "teammsg"@,
        r.own@[30]@ == "clone"@,
        r.own@[31]@ == "attribute"@,
{
    assert(texts(r.fallback@).len() == r.fallback@.len());
    assert(locate::said(r.own@).len() == r.own@.len());
    assert(texts(r.fallback@)[0].0 == r.fallback@[0].0@);
    assert(texts(r.fallback@)[1].0 == r.fallback@[1].0@);
    assert(texts(r.fallback@)[2].0 == r.fallback@[2].0@);
    assert(texts(r.fallback@)[3].0 == r.fallback@[3].0@);
    assert(texts(r.fallback@)[4].0 == r.fallback@[4].0@);
    assert(texts(r.fallback@)[5].0 == r.fallback@[5].0@);
    assert(texts(r.fallback@)[6].0 == r.fallback@[6].0@);
    assert(texts(r.fallback@)[7].0 == r.fallback@[7].0@);
    assert(texts(r.fallback@)[8].0 == r.fallback@[8].0@);
    assert(texts(r.fallback@)[9].0 == r.fallback@[9].0@);
    assert(texts(r.fallback@)[10].0 == r.fallback@[10].0@);
    assert(texts(r.fallback@)[11].0 == r.fallback@[11].0@);
    assert(texts(r.fallback@)[12].0 == r.fallback@[12].0@);
    assert(texts(r.fallback@)[13].0 == r.fallback@[13].0@);
    assert(texts(r.fallback@)[14].0 == r.fallback@[14].0@);
    assert(texts(r.fallback@)[15].0 == r.fallback@[15].0@);
    assert(texts(r.fallback@)[16].0 == r.fallback@[16].0@);
    assert(texts(r.fallback@)[17].0 == r.fallback@[17].0@);
    assert(texts(r.fallback@)[18].0 == r.fallback@[18].0@);
    assert(texts(r.fallback@)[19].0 == r.fallback@[19].0@);
    assert(texts(r.fallback@)[20].0 == r.fallback@[20].0@);
    assert(texts(r.fallback@)[21].0 == r.fallback@[21].0@);
    assert(texts(r.fallback@)[22].0 == r.fallback@[22].0@);
    assert(texts(r.fallback@)[23].0 == r.fallback@[23].0@);
    assert(texts(r.fallback@)[24].0 == r.fallback@[24].0@);
    assert(texts(r.fallback@)[25].0 == r.fallback@[25].0@);
    assert(texts(r.fallback@)[26].0 == r.fallback@[26].0@);
    assert(texts(r.fallback@)[27].0 == r.fallback@[27].0@);
    assert(texts(r.fallback@)[28].0 == r.fallback@[28].0@);
    assert(texts(r.fallback@)[29].0 == r.fallback@[29].0@);
    assert(texts(r.fallback@)[30].0 == r.fallback@[30].0@);
    assert(texts(r.fallback@)[31].0 == r.fallback@[31].0@);
    assert(texts(r.fallback@)[32].0 == r.fallback@[32].0@);
    assert(texts(r.fallback@)[33].0 == r.fallback@[33].0@);
    assert(texts(r.fallback@)[34].0 == r.fallback@[34].0@);
    assert(texts(r.fallback@)[35].0 == r.fallback@[35].0@);
    assert(texts(r.fallback@)[36].0 == r.fallback@[36].0@);
    assert(texts(r.fallback@)[37].0 == r.fallback@[37].0@);
    assert(texts(r.fallback@)[38].0 == r.fallback@[38].0@);
    assert(texts(r.fallback@)[39].0 == r.fallback@[39].0@);
    assert(texts(r.fallback@)[40].0 == r.fallback@[40].0@);
    assert(texts(r.fallback@)[41].0 == r.fallback@[41].0@);
    assert(texts(r.fallback@)[42].0 == r.fallback@[42].0@);
    assert(locate::said(r.own@)[0] == r.own@[0]@);
    assert(locate::said(r.own@)[1] == r.own@[1]@);
    assert(locate::said(r.own@)[2] == r.own@[2]@);
    assert(locate::said(r.own@)[3] == r.own@[3]@);
    assert(locate::said(r.own@)[4] == r.own@[4]@);
    assert(locate::said(r.own@)[5] == r.own@[5]@);
    assert(locate::said(r.own@)[6] == r.own@[6]@);
    assert(locate::said(r.own@)[7] == r.own@[7]@);
    assert(locate::said(r.own@)[8] == r.own@[8]@);
    assert(locate::said(r.own@)[9] == r.own@[9]@);
    assert(locate::said(r.own@)[10] == r.own@[10]@);
    assert(locate::said(r.own@)[11] == r.own@[11]@);
    assert(locate::said(r.own@)[12] == r.own@[12]@);
    assert(locate::said(r.own@)[13] == r.own@[13]@);
    assert(locate::said(r.own@)[14] == r.own@[14]@);
    assert(locate::said(r.own@)[15] == r.own@[15]@);
    assert(locate::said(r.own@)[16] == r.own@[16]@);
    assert(locate::said(r.own@)[17] == r.own@[17]@);
    assert(locate::said(r.own@)[18] == r.own@[18]@);
    assert(locate::said(r.own@)[19] == r.own@[19]@);
    assert(locate::said(r.own@)[20] == r.own@[20]@);
    assert(locate::said(r.own@)[21] == r.own@[21]@);
    assert(locate::said(r.own@)[22] == r.own@[22]@);
    assert(locate::said(r.own@)[23] == r.own@[23]@);
    assert(locate::said(r.own@)[24] == r.own@[24]@);
    assert(locate::said(r.own@)[25] == r.own@[25]@);
    assert(locate::said(r.own@)[26] == r.own@[26]@);
    assert(locate::said(r.own@)[27] == r.own@[27]@);
    assert(locate::said(r.own@)[28] == r.own@[28]@);
    assert(locate::said(r.own@)[29] == r.own@[29]@);
    assert(locate::said(r.own@)[30] == r.own@[30]@);
    assert(locate::said(r.own@)[31] == r.own@[31]@);
}

/// Law: with the commands that register themselves come the permissions of `locate` and `seed`, for
/// operators of the second level, and all permissions that are handed in.
pub proof fn law_permissions_of_all_commands(
    registry: &mut PermissionRegistry,
    own: OwnPermissions,
    r: CommandDispatcher,
    i: int,
)
    requires
        call_ensures(default_dispatcher, (registry, own), r),
    ensures
        final(registry).permissions@.len() == old(registry).permissions@.len()
            + own.about_to_list@.len() + own.loot@.len() + own.saveall_to_attribute@.len() + 46,
        holds(
            *final(registry),
            "minecraft:command.locate"@,
            PermissionDefault::Op(PermissionLvl::Two),
        ),
        holds(
            *final(registry),
            "minecraft:command.seed"@,
            PermissionDefault::Op(PermissionLvl::Two),
        ),
        0 <= i < own.about_to_list@.len() ==> holds(
            *final(registry),
            own.about_to_list@[i].name@,
            own.about_to_list@[i].default,
        ),
        0 <= i < own.loot@.len() ==> holds(
            *final(registry),
            own.loot@[i].name@,
            own.loot@[i].default,
        ),
        0 <= i < own.saveall_to_attribute@.len() ==> holds(
            *final(registry),
            own.saveall_to_attribute@[i].name@,
            own.saveall_to_attribute@[i].default,
        ),
{
    lemma_command_rows();
    lemma_row_at(0);
    let before = old(registry)@;
    let added = default_permissions(own);
    assert(final(registry)@.len() == final(registry).permissions@.len());
    assert(before.len() == old(registry).permissions@.len());
    let count = all_permissions().len() as int;
    let first = own.about_to_list@.len() as int;
    let loot = own.loot@.len() as int;
    assert(added[count + first] == locate::permission());
    lemma_added_is_held(*final(registry), before, added, count + first);
    assert(added[count + first + 1 + loot] == seed::permission());
    lemma_added_is_held(*final(registry), before, added, count + first + 1 + loot);
    if 0 <= i < first {
        assert(added[count + i] == own.about_to_list@[i]@);
        lemma_added_is_held(*final(registry), before, added, count + i);
    }
    if 0 <= i < loot {
        assert(added[count + first + 1 + i] == own.loot@[i]@);
        lemma_added_is_held(*final(registry), before, added, count + first + 1 + i);
    }
    if 0 <= i < own.saveall_to_attribute@.len() {
        assert(added[count + first + 2 + loot + i] == own.saveall_to_attribute@[i]@);
        lemma_added_is_held(*final(registry), before, added, count + first + 2 + loot + i);
    }
}

/// The registry has a permission of the name with the description.
pub open spec fn describes(
    registry: PermissionRegistry,
    name: Seq<char>,
    description: Seq<char>,
) -> bool {
    exists|i: int|
        0 <= i < registry.permissions@.len() && (#[trigger] registry.permissions@[i]).name@ == name
            && registry.permissions@[i].description@ == description
}

/// A permission at a place of what was added has its description.
proof fn lemma_added_is_described(
    registry: PermissionRegistry,
    before: Seq<PermissionValue>,
    added: Seq<PermissionValue>,
    i: int,
)
    requires
        registry@ == before + added,
        0 <= i < added.len(),
    ensures
        describes(registry, added[i].name, added[i].description),
{
    let at = before.len() + i;
    assert(registry@.len() == registry.permissions@.len());
    assert((before + added)[at] == added[i]);
    assert(registry@[at] == registry.permissions@[at]@);
}

/// Law: what everyone may do is described.
pub proof fn law_descriptions_for_everyone(registry: &mut PermissionRegistry)
    requires
        call_ensures(register_level_0_permissions, (registry,), ()),
    ensures
        describes(
            *final(registry),
            "pumpkin:command.pumpkin"@,
            "Shows information about the Pumpkin server"@,
        ),
        describes(
            *final(registry),
            "minecraft:command.me"@,
            "Broadcasts a narrative message about the player"@,
        ),
        describes(
            *final(registry),
            "minecraft:command.msg"@,
            "Sends a private message to another player"@,
        ),
{
    let added = permissions_of(level_0_rows(), PermissionDefault::Allow);
    assert(added[0].name == "pumpkin:command.pumpkin"@);
    lemma_added_is_described(*final(registry), old(registry)@, added, 0);
    assert(added[1].name == "minecraft:command.me"@);
    lemma_added_is_described(*final(registry), old(registry)@, added, 1);
    assert(added[2].name == "minecraft:command.msg"@);
    lemma_added_is_described(*final(registry), old(registry)@, added, 2);
}

/// Law: what operators of the second level may do is described.
pub proof fn law_descriptions_for_the_second_level(registry: &mut PermissionRegistry)
    requires
        call_ensures(register_level_2_permissions, (registry,), ()),
    ensures
        describes(
            *final(registry),
            "minecraft:command.worldborder"@,
            "Manages the world border"@,
        ),
        describes(
            *final(registry),
            "minecraft:command.effect"@,
            "Adds or removes status effects"@,
        ),
        describes(
            *final(registry),
            "minecraft:command.teleport"@,
            "Teleports entities to other locations"@,
        ),
        describes(
            *final(registry),
            "minecraft:command.time"@,
            "Changes or queries the world's game time"@,
        ),
        describes(
            *final(registry),
            "minecraft:command.give"@,
            "Gives an item to a player"@,
        ),
        describes(
            *final(registry),
            "minecraft:command.item"@,
            "Replace items in inventories"@,
        ),
        describes(
            *final(registry),
            "minecraft:command.clear"@,
            "Clears items from player inventory"@,
        ),
        describes(
            *final(registry),
            "minecraft:command.setblock"@,
            "Changes a block to another block"@,
        ),
        describes(
            *final(registry),
            "minecraft:command.fill"@,
            "Fills a region with a specific block"@,
        ),
        describes(
            *final(registry),
            "minecraft:command.playsound"@,
            "Plays a sound to players"@,
        ),
        describes(
            *final(registry),
            "minecraft:command.tellraw"@,
            "Displays a JSON message to players"@,
        ),
        describes(
            *final(registry),
            "minecraft:command.title"@,
            "Controls screen titles displayed to players"@,
        ),
        describes(
            *final(registry),
            "minecraft:command.summon"@,
            "Summons an entity"@,
        ),
        describes(
            *final(registry),
            "minecraft:command.experience"@,
            "Adds, removes or queries player experience"@,
        ),
        describes(
            *final(registry),
            "minecraft:command.weather"@,
            "Sets the weather in the server"@,
        ),
        describes(
            *final(registry),
            "minecraft:command.particle"@,
            "Creates particles in the world"@,
        ),
        describes(
            *final(registry),
            "minecraft:command.rotate"@,
            "Changes the rotation of an entity"@,
        ),
        describes(
            *final(registry),
            "minecraft:command.damage"@,
            "Damages entities"@,
        ),
        describes(
            *final(registry),
            "minecraft:command.bossbar"@,
            "Creates and manages boss bars"@,
        ),
        describes(
            *final(registry),
            "minecraft:command.say"@,
            "Broadcasts a message to multiple players"@,
        ),
        describes(
            *final(registry),
            "minecraft:command.gamemode"@,
            "Sets a player's game mode"@,
        ),
        describes(
            *final(registry),
            "minecraft:command.gamerule"@,
            "Sets a player's game mode"@,
        ),
        describes(
            *final(registry),
            "minecraft:command.stopsound"@,
            "Stops sounds from playing"@,
        ),
        describes(
            *final(registry),
            "minecraft:command.defaultgamemode"@,
            "Sets the default game mode for new players"@,
        ),
        describes(
            *final(registry),
            "minecraft:command.data"@,
            "Query and modify data of entities and blocks"@,
        ),
        describes(
            *final(registry),
            "minecraft:command.enchant"@,
            "Adds an enchantment to a player's selected item, subject to the same restrictions as an anvil. Also works on any mob or entity holding a weapon/tool/armor in its main hand."@,
        ),
        describes(
            *final(registry),
            "minecraft:command.spawnpoint"@,
            "Sets the spawn point for a player"@,
        ),
        describes(
            *final(registry),
            "minecraft:command.spectate"@,
            "Allows a player to spectate another entity"@,
        ),
        describes(
            *final(registry),
            "pumpkin:command.tps"@,
            "Displays the server TPS and MSPT"@,
        ),
{
    let added = permissions_of(level_2_rows(), PermissionDefault::Op(PermissionLvl::Two));
    assert(added[0].name == "minecraft:command.worldborder"@);
    lemma_added_is_described(*final(registry), old(registry)@, added, 0);
    assert(added[1].name == "minecraft:command.effect"@);
    lemma_added_is_described(*final(registry), old(registry)@, added, 1);
    assert(added[2].name == "minecraft:command.teleport"@);
    lemma_added_is_described(*final(registry), old(registry)@, added, 2);
    assert(added[3].name == "minecraft:command.time"@);
    lemma_added_is_described(*final(registry), old(registry)@, added, 3);
    assert(added[4].name == "minecraft:command.give"@);
    lemma_added_is_described(*final(registry), old(registry)@, added, 4);
    assert(added[5].name == "minecraft:command.item"@);
    lemma_added_is_described(*final(registry), old(registry)@, added, 5);
    assert(added[6].name == "minecraft:command.clear"@);
    lemma_added_is_described(*final(registry), old(registry)@, added, 6);
    assert(added[7].name == "minecraft:command.setblock"@);
    lemma_added_is_described(*final(registry), old(registry)@, added, 7);
    assert(added[8].name == "minecraft:command.fill"@);
    lemma_added_is_described(*final(registry), old(registry)@, added, 8);
    assert(added[9].name == "minecraft:command.playsound"@);
    lemma_added_is_described(*final(registry), old(registry)@, added, 9);
    assert(added[10].name == "minecraft:command.tellraw"@);
    lemma_added_is_described(*final(registry), old(registry)@, added, 10);
    assert(added[11].name == "minecraft:command.title"@);
    lemma_added_is_described(*final(registry), old(registry)@, added, 11);
    assert(added[12].name == "minecraft:command.summon"@);
    lemma_added_is_described(*final(registry), old(registry)@, added, 12);
    assert(added[13].name == "minecraft:command.experience"@);
    lemma_added_is_described(*final(registry), old(registry)@, added, 13);
    assert(added[14].name == "minecraft:command.weather"@);
    lemma_added_is_described(*final(registry), old(registry)@, added, 14);
    assert(added[15].name == "minecraft:command.particle"@);
    lemma_added_is_described(*final(registry), old(registry)@, added, 15);
    assert(added[16].name == "minecraft:command.rotate"@);
    lemma_added_is_described(*final(registry), old(registry)@, added, 16);
    assert(added[17].name == "minecraft:command.damage"@);
    lemma_added_is_described(*final(registry), old(registry)@, added, 17);
    assert(added[18].name == "minecraft:command.bossbar"@);
    lemma_added_is_described(*final(registry), old(registry)@, added, 18);
    assert(added[19].name == "minecraft:command.say"@);
    lemma_added_is_described(*final(registry), old(registry)@, added, 19);
    assert(added[20].name == "minecraft:command.gamemode"@);
    lemma_added_is_described(*final(registry), old(registry)@, added, 20);
    assert(added[21].name == "minecraft:command.gamerule"@);
    lemma_added_is_described(*final(registry), old(registry)@, added, 21);
    assert(added[22].name == "minecraft:command.stopsound"@);
    lemma_added_is_described(*final(registry), old(registry)@, added, 22);
    assert(added[23].name == "minecraft:command.defaultgamemode"@);
    lemma_added_is_described(*final(registry), old(registry)@, added, 23);
    assert(added[24].name == "minecraft:command.data"@);
    lemma_added_is_described(*final(registry), old(registry)@, added, 24);
    assert(added[25].name == "minecraft:command.enchant"@);
    lemma_added_is_described(*final(registry), old(registry)@, added, 25);
    assert(added[26].name == "minecraft:command.spawnpoint"@);
    lemma_added_is_described(*final(registry), old(registry)@, added, 26);
    assert(added[27].name == "minecraft:command.spectate"@);
    lemma_added_is_described(*final(registry), old(registry)@, added, 27);
    assert(added[28].name == "pumpkin:command.tps"@);
    lemma_added_is_described(*final(registry), old(registry)@, added, 28);
}

/// Law: what operators of the third level may do is described.
pub proof fn law_descriptions_for_the_third_level(registry: &mut PermissionRegistry)
    requires
        call_ensures(register_level_3_permissions, (registry,), ()),
    ensures
        describes(
            *final(registry),
            "minecraft:command.setworldspawn"@,
            "Sets the world spawn point"@,
        ),
        describes(
            *final(registry),
            "minecraft:command.deop"@,
            "Revokes operator status from a player"@,
        ),
        describes(
            *final(registry),
            "minecraft:command.kick"@,
            "Removes players from the server"@,
        ),
        describes(
            *final(registry),
            "pumpkin:command.plugin"@,
            "Manages server plugins"@,
        ),
        describes(
            *final(registry),
            "pumpkin:command.plugins"@,
            "Lists all plugins loaded on the server"@,
        ),
        describes(
            *final(registry),
            "minecraft:command.ban"@,
            "Adds players to banlist"@,
        ),
        describes(
            *final(registry),
            "minecraft:command.banip"@,
            "Adds IP addresses to banlist"@,
        ),
        describes(
            *final(registry),
            "minecraft:command.pardon"@,
            "Removes entries from the player banlist"@,
        ),
        describes(
            *final(registry),
            "minecraft:command.pardonip"@,
            "Removes entries from the IP banlist"@,
        ),
        describes(
            *final(registry),
            "minecraft:command.whitelist"@,
            "Manages server whitelist"@,
        ),
        describes(
            *final(registry),
            "minecraft:command.transfer"@,
            "Transfers the player to another server"@,
        ),
{
    let added = permissions_of(level_3_rows(), PermissionDefault::Op(PermissionLvl::Three));
    assert(added[0].name == "minecraft:command.setworldspawn"@);
    lemma_added_is_described(*final(registry), old(registry)@, added, 0);
    assert(added[1].name == "minecraft:command.deop"@);
    lemma_added_is_described(*final(registry), old(registry)@, added, 1);
    assert(added[2].name == "minecraft:command.kick"@);
    lemma_added_is_described(*final(registry), old(registry)@, added, 2);
    assert(added[3].name == "pumpkin:command.plugin"@);
    lemma_added_is_described(*final(registry), old(registry)@, added, 3);
    assert(added[4].name == "pumpkin:command.plugins"@);
    lemma_added_is_described(*final(registry), old(registry)@, added, 4);
    assert(added[5].name == "minecraft:command.ban"@);
    lemma_added_is_described(*final(registry), old(registry)@, added, 5);
    assert(added[6].name == "minecraft:command.banip"@);
    lemma_added_is_described(*final(registry), old(registry)@, added, 6);
    assert(added[7].name == "minecraft:command.pardon"@);
    lemma_added_is_described(*final(registry), old(registry)@, added, 7);
    assert(added[8].name == "minecraft:command.pardonip"@);
    lemma_added_is_described(*final(registry), old(registry)@, added, 8);
    assert(added[9].name == "minecraft:command.whitelist"@);
    lemma_added_is_described(*final(registry), old(registry)@, added, 9);
    assert(added[10].name == "minecraft:command.transfer"@);
    lemma_added_is_described(*final(registry), old(registry)@, added, 10);
}

} // verus!
