//! The players on the server: who is there, and who may come in.

use vstd::prelude::*;
use vstd::string::*;

use crate::data::nbt::{as_text, NbtCompound};
use crate::entity::player::nbt::{dimension_named, find_dimension};
use crate::plan::{only_if, push_if};
use crate::random::draw_one;
use crate::text::join;

verus! {

/// The address of a client.
#[derive(Clone, Copy, Debug, PartialEq, Eq, Structural)]
pub enum IpAddr {
    V4(u32),
    V6(u128),
}

/// A player on the server.
pub struct OnlinePlayer {
    pub name: String,
    pub uuid: u128,
    pub ip: IpAddr,
}

/// A world, with the players in it.
pub struct World {
    pub players: Vec<OnlinePlayer>,
}

/// The server, with its worlds.
pub struct Server {
    pub worlds: Vec<World>,
}

/// All players, world by world.
pub open spec fn all_players(worlds: Seq<World>) -> Seq<OnlinePlayer>
    decreases worlds.len(),
{
    if worlds.len() == 0 {
        Seq::empty()
    } else {
        all_players(worlds.drop_last()) + worlds.last().players@
    }
}

/// The first player with the name.
pub open spec fn first_named(players: Seq<OnlinePlayer>, name: Seq<char>) -> Option<OnlinePlayer>
    decreases players.len(),
{
    if players.len() == 0 {
        None
    } else {
        match first_named(players.drop_last(), name) {
            Some(player) => Some(player),
            None => if players.last().name@ == name {
                Some(players.last())
            } else {
                None
            },
        }
    }
}

/// The first player with the uuid.
pub open spec fn first_with_uuid(players: Seq<OnlinePlayer>, uuid: u128) -> Option<OnlinePlayer>
    decreases players.len(),
{
    if players.len() == 0 {
        None
    } else {
        match first_with_uuid(players.drop_last(), uuid) {
            Some(player) => Some(player),
            None => if players.last().uuid == uuid {
                Some(players.last())
            } else {
                None
            },
        }
    }
}

/// The players that are pointed at.
pub open spec fn pointed_at(players: Seq<&OnlinePlayer>) -> Seq<OnlinePlayer> {
    players.map_values(|player: &OnlinePlayer| *player)
}

/// A name is found among more players where it is found among the first of them, and where
/// it is not, it is found among the others or not at all.
proof fn lemma_named_in_both(
    first: Seq<OnlinePlayer>,
    second: Seq<OnlinePlayer>,
    name: Seq<char>,
)
    ensures
        first_named(first + second, name) == (match first_named(first, name) {
            Some(player) => Some(player),
            None => first_named(second, name),
        }),
    decreases second.len(),
{
    if second.len() == 0 {
        assert(first + second =~= first);
    } else {
        lemma_named_in_both(first, second.drop_last(), name);
        assert((first + second).drop_last() =~= first + second.drop_last());
    }
}

/// The same of a uuid.
proof fn lemma_uuid_in_both(first: Seq<OnlinePlayer>, second: Seq<OnlinePlayer>, uuid: u128)
    ensures
        first_with_uuid(first + second, uuid) == (match first_with_uuid(first, uuid) {
            Some(player) => Some(player),
            None => first_with_uuid(second, uuid),
        }),
    decreases second.len(),
{
    if second.len() == 0 {
        assert(first + second =~= first);
    } else {
        lemma_uuid_in_both(first, second.drop_last(), uuid);
        assert((first + second).drop_last() =~= first + second.drop_last());
    }
}

/// A name that is found in some of the worlds is found in all of them.
proof fn lemma_named_in_first_worlds(worlds: Seq<World>, k: int, name: Seq<char>)
    requires
        0 <= k <= worlds.len(),
        first_named(all_players(worlds.take(k)), name) is Some,
    ensures
        first_named(all_players(worlds), name) == first_named(all_players(worlds.take(k)), name),
    decreases worlds.len() - k,
{
    if k == worlds.len() {
        assert(worlds.take(k) =~= worlds);
    } else {
        assert(worlds.take(k + 1).drop_last() =~= worlds.take(k));
        lemma_named_in_both(all_players(worlds.take(k)), worlds[k].players@, name);
        lemma_named_in_first_worlds(worlds, k + 1, name);
    }
}

/// The same of a uuid.
proof fn lemma_uuid_in_first_worlds(worlds: Seq<World>, k: int, uuid: u128)
    requires
        0 <= k <= worlds.len(),
        first_with_uuid(all_players(worlds.take(k)), uuid) is Some,
    ensures
        first_with_uuid(all_players(worlds), uuid) == first_with_uuid(
            all_players(worlds.take(k)),
            uuid,
        ),
    decreases worlds.len() - k,
{
    if k == worlds.len() {
        assert(worlds.take(k) =~= worlds);
    } else {
        assert(worlds.take(k + 1).drop_last() =~= worlds.take(k));
        lemma_uuid_in_both(all_players(worlds.take(k)), worlds[k].players@, uuid);
        lemma_uuid_in_first_worlds(worlds, k + 1, uuid);
    }
}

/// The first player found among some is the first among all.
proof fn lemma_named_in_first_players(players: Seq<OnlinePlayer>, k: int, name: Seq<char>)
    requires
        0 <= k <= players.len(),
        first_named(players.take(k), name) is Some,
    ensures
        first_named(players, name) == first_named(players.take(k), name),
{
    lemma_named_in_both(players.take(k), players.skip(k), name);
    assert(players.take(k) + players.skip(k) =~= players);
}

/// The same of a uuid.
proof fn lemma_uuid_in_first_players(players: Seq<OnlinePlayer>, k: int, uuid: u128)
    requires
        0 <= k <= players.len(),
        first_with_uuid(players.take(k), uuid) is Some,
    ensures
        first_with_uuid(players, uuid) == first_with_uuid(players.take(k), uuid),
{
    lemma_uuid_in_both(players.take(k), players.skip(k), uuid);
    assert(players.take(k) + players.skip(k) =~= players);
}

/// Some of the worlds have no more players than all.
proof fn lemma_fewer_players(worlds: Seq<World>, k: int)
    requires
        0 <= k <= worlds.len(),
    ensures
        all_players(worlds.take(k)).len() <= all_players(worlds).len(),
    decreases worlds.len() - k,
{
    if k == worlds.len() {
        assert(worlds.take(k) =~= worlds);
    } else {
        lemma_fewer_players(worlds, k + 1);
        assert(worlds.take(k + 1).drop_last() =~= worlds.take(k));
    }
}

impl World {
    /// The first player in the world with the name.
    pub fn get_player_by_name(&self, name: &str) -> (r: Option<&OnlinePlayer>)
        ensures
            match r {
                Some(player) => first_named(self.players@, name@) == Some(*player),
                None => first_named(self.players@, name@) is None,
            },
    {
        let wanted: String = String::from_str(name);
        let mut i: usize = 0;
        while i < self.players.len()
            invariant
                i <= self.players@.len(),
                wanted@ == name@,
                first_named(self.players@.take(i as int), name@) is None,
            decreases self.players.len() - i,
        {
            assert(self.players@.take(i as int + 1).drop_last() =~= self.players@.take(i as int));
            if self.players[i].name == wanted {
                proof {
                    lemma_named_in_first_players(self.players@, i as int + 1, name@);
                }
                return Some(&self.players[i]);
            }
            i = i + 1;
        }
        assert(self.players@.take(i as int) =~= self.players@);
        None
    }

    /// The first player in the world with the uuid.
    pub fn get_player_by_uuid(&self, uuid: u128) -> (r: Option<&OnlinePlayer>)
        ensures
            match r {
                Some(player) => first_with_uuid(self.players@, uuid) == Some(*player),
                None => first_with_uuid(self.players@, uuid) is None,
            },
    {
        let mut i: usize = 0;
        while i < self.players.len()
            invariant
                i <= self.players@.len(),
                first_with_uuid(self.players@.take(i as int), uuid) is None,
            decreases self.players.len() - i,
        {
            assert(self.players@.take(i as int + 1).drop_last() =~= self.players@.take(i as int));
            if self.players[i].uuid == uuid {
                proof {
                    lemma_uuid_in_first_players(self.players@, i as int + 1, uuid);
                }
                return Some(&self.players[i]);
            }
            i = i + 1;
        }
        assert(self.players@.take(i as int) =~= self.players@);
        None
    }
}

impl Server {
    /// All players, world by world.
    pub open spec fn spec_players(self) -> Seq<OnlinePlayer> {
        all_players(self.worlds@)
    }

    /// The first player with the name, world by world.
    pub fn get_player_by_name(&self, name: &str) -> (r: Option<&OnlinePlayer>)
        ensures
            match r {
                Some(player) => first_named(self.spec_players(), name@) == Some(*player),
                None => first_named(self.spec_players(), name@) is None,
            },
    {
        let mut i: usize = 0;
        while i < self.worlds.len()
            invariant
                i <= self.worlds@.len(),
                first_named(all_players(self.worlds@.take(i as int)), name@) is None,
            decreases self.worlds.len() - i,
        {
            proof {
                let before = self.worlds@.take(i as int);
                assert(self.worlds@.take(i as int + 1).drop_last() =~= before);
                lemma_named_in_both(
                    all_players(before),
                    self.worlds@[i as int].players@,
                    name@,
                );
            }
            let found: Option<&OnlinePlayer> = self.worlds[i].get_player_by_name(name);
            if found.is_some() {
                proof {
                    lemma_named_in_first_worlds(self.worlds@, i as int + 1, name@);
                }
                return found;
            }
            i = i + 1;
        }
        assert(self.worlds@.take(i as int) =~= self.worlds@);
        None
    }

    /// The first player with the uuid, world by world.
    pub fn get_player_by_uuid(&self, id: u128) -> (r: Option<&OnlinePlayer>)
        ensures
            match r {
                Some(player) => first_with_uuid(self.spec_players(), id) == Some(*player),
                None => first_with_uuid(self.spec_players(), id) is None,
            },
    {
        let mut i: usize = 0;
        while i < self.worlds.len()
            invariant
                i <= self.worlds@.len(),
                first_with_uuid(all_players(self.worlds@.take(i as int)), id) is None,
            decreases self.worlds.len() - i,
        {
            proof {
                let before = self.worlds@.take(i as int);
                assert(self.worlds@.take(i as int + 1).drop_last() =~= before);
                lemma_uuid_in_both(all_players(before), self.worlds@[i as int].players@, id);
            }
            let found: Option<&OnlinePlayer> = self.worlds[i].get_player_by_uuid(id);
            if found.is_some() {
                proof {
                    lemma_uuid_in_first_worlds(self.worlds@, i as int + 1, id);
                }
                return found;
            }
            i = i + 1;
        }
        assert(self.worlds@.take(i as int) =~= self.worlds@);
        None
    }

    /// All players, world by world.
    pub fn get_all_players(&self) -> (r: Vec<&OnlinePlayer>)
        ensures
            pointed_at(r@) == self.spec_players(),
            r@.len() == self.spec_players().len(),
    {
        let mut players: Vec<&OnlinePlayer> = Vec::new();
        let mut i: usize = 0;
        assert(pointed_at(players@) =~= all_players(self.worlds@.take(0)));
        while i < self.worlds.len()
            invariant
                i <= self.worlds@.len(),
                pointed_at(players@) == all_players(self.worlds@.take(i as int)),
            decreases self.worlds.len() - i,
        {
            let world: &World = &self.worlds[i];
            let ghost before = all_players(self.worlds@.take(i as int));
            assert(self.worlds@.take(i as int + 1).drop_last() =~= self.worlds@.take(i as int));
            let mut j: usize = 0;
            assert(pointed_at(players@) =~= before + world.players@.take(0));
            while j < world.players.len()
                invariant
                    j <= world.players@.len(),
                    pointed_at(players@) == before + world.players@.take(j as int),
                decreases world.players.len() - j,
            {
                let ghost so_far = players@;
                players.push(&world.players[j]);
                assert(pointed_at(players@) =~= pointed_at(so_far).push(world.players@[j as int]));
                j = j + 1;
                assert(pointed_at(players@) =~= before + world.players@.take(j as int));
            }
            assert(world.players@.take(j as int) =~= world.players@);
            i = i + 1;
        }
        assert(self.worlds@.take(i as int) =~= self.worlds@);
        players
    }

    /// The players whose clients have the address, world by world.
    pub fn get_players_by_ip(&self, ip: IpAddr) -> (r: Vec<&OnlinePlayer>)
        ensures
            pointed_at(r@) == self.spec_players().filter(|player: OnlinePlayer| player.ip == ip),
    {
        let players: Vec<&OnlinePlayer> = self.get_all_players();
        let ghost at_ip = |player: OnlinePlayer| player.ip == ip;
        let ghost all = self.spec_players();
        let mut found: Vec<&OnlinePlayer> = Vec::new();
        let mut i: usize = 0;
        proof {
            reveal(Seq::filter);
            assert(pointed_at(found@) =~= all.take(0).filter(at_ip));
        }
        assert(all.len() == players@.len());
        while i < players.len()
            invariant
                i <= players@.len(),
                all == pointed_at(players@),
                all.len() == players@.len(),
                at_ip == (|player: OnlinePlayer| player.ip == ip),
                pointed_at(found@) == all.take(i as int).filter(at_ip),
            decreases players.len() - i,
        {
            let player: &OnlinePlayer = players[i];
            let ghost so_far = found@;
            proof {
                reveal(Seq::filter);
                assert(all.take(i as int + 1).drop_last() =~= all.take(i as int));
                assert(all[i as int] == *player);
            }
            if player.ip == ip {
                found.push(player);
                assert(pointed_at(found@) =~= pointed_at(so_far).push(*player));
            }
            i = i + 1;
        }
        assert(all.take(i as int) =~= all);
        found
    }

    /// Calls the function once with every player in turn, world by world, and with no one
    /// else. Each call gets what the one before it returned, the first one `start`; what the
    /// last one returns comes back.
    pub fn for_each_player<S, F: Fn(S, &OnlinePlayer) -> S>(&self, start: S, f: F) -> (end: S)
        requires
            can_visit(self.spec_players(), f, start),
        ensures
            exists|states: Seq<S>| #[trigger]
                visits(self.spec_players(), f, states) && states.first() == start && states.last()
                    == end,
    {
        let players: Vec<&OnlinePlayer> = self.get_all_players();
        let ghost all = self.spec_players();
        let mut state: S = start;
        let ghost mut states: Seq<S> = seq![state];
        let mut i: usize = 0;
        assert(all.len() == players@.len());
        while i < players.len()
            invariant
                i <= players@.len(),
                all == pointed_at(players@),
                all.len() == players@.len(),
                can_visit(all, f, start),
                visits(all.take(i as int), f, states),
                states.first() == start,
                states.last() == state,
            decreases players.len() - i,
        {
            let player: &OnlinePlayer = players[i];
            let ghost before = states;
            assert(all[i as int] == *player);
            assert(call_requires(f, (before.last(), &all[i as int])));
            state = f(state, player);
            proof {
                states = before.push(state);
                let visited = all.take(i as int + 1);
                assert forall|k: int| 0 <= k < visited.len() implies call_ensures(
                    f,
                    (states[k], &#[trigger] visited[k]),
                    states[k + 1],
                ) by {
                    if k < i {
                        assert(all.take(i as int)[k] == visited[k]);
                    }
                }
            }
            i = i + 1;
        }
        assert(all.take(i as int) =~= all);
        state
    }

    /// A player drawn by lot, where there is any.
    pub fn get_random_player(&self) -> (r: Option<&OnlinePlayer>)
        ensures
            r is None <==> self.spec_players().len() == 0,
            r matches Some(player) ==> self.spec_players().contains(*player),
    {
        let players: Vec<&OnlinePlayer> = self.get_all_players();
        assert(pointed_at(players@).len() == players@.len());
        match draw_one(&players) {
            Some(player) => {
                proof {
                    let i = choose|i: int| 0 <= i < players@.len() && players@[i] == *player;
                    assert(pointed_at(players@)[i] == **player);
                }
                Some(*player)
            },
            None => None,
        }
    }

    /// How many players there are.
    pub fn get_player_count(&self) -> (r: usize)
        requires
            self.spec_players().len() <= usize::MAX,
        ensures
            r == self.spec_players().len(),
    {
        let mut count: usize = 0;
        let mut i: usize = 0;
        while i < self.worlds.len()
            invariant
                i <= self.worlds@.len(),
                self.spec_players().len() <= usize::MAX,
                count == all_players(self.worlds@.take(i as int)).len(),
            decreases self.worlds.len() - i,
        {
            proof {
                assert(self.worlds@.take(i as int + 1).drop_last() =~= self.worlds@.take(i as int));
                lemma_fewer_players(self.worlds@, i as int + 1);
            }
            count = count + self.worlds[i].players.len();
            i = i + 1;
        }
        assert(self.worlds@.take(i as int) =~= self.worlds@);
        count
    }

    /// Whether there are as many players, without counting more than it takes.
    pub fn has_n_players(&self, n: usize) -> (r: bool)
        requires
            self.spec_players().len() <= usize::MAX,
        ensures
            r == (self.spec_players().len() >= n),
    {
        if n == 0 {
            return true;
        }
        let mut count: usize = 0;
        let mut i: usize = 0;
        while i < self.worlds.len()
            invariant
                i <= self.worlds@.len(),
                self.spec_players().len() <= usize::MAX,
                count == all_players(self.worlds@.take(i as int)).len(),
                count < n,
            decreases self.worlds.len() - i,
        {
            proof {
                assert(self.worlds@.take(i as int + 1).drop_last() =~= self.worlds@.take(i as int));
                lemma_fewer_players(self.worlds@, i as int + 1);
            }
            count = count + self.worlds[i].players.len();
            if count >= n {
                return true;
            }
            i = i + 1;
        }
        assert(self.worlds@.take(i as int) =~= self.worlds@);
        false
    }
}

/// How many players there are, world by world.
pub open spec fn players_counted(worlds: Seq<World>) -> nat
    decreases worlds.len(),
{
    if worlds.len() == 0 {
        0
    } else {
        players_counted(worlds.drop_last()) + worlds.last().players@.len()
    }
}

/// The function was called once with each of the players, in order and with no one else, each
/// time with a state that the call before it returned.
pub open spec fn visits<S, F: Fn(S, &OnlinePlayer) -> S>(
    players: Seq<OnlinePlayer>,
    f: F,
    states: Seq<S>,
) -> bool {
    &&& states.len() == players.len() + 1
    &&& forall|i: int|
        0 <= i < players.len() ==> call_ensures(
            f,
            (states[i], &#[trigger] players[i]),
            states[i + 1],
        )
}

/// The function can be called with each of the players in turn, from the state on.
pub open spec fn can_visit<S, F: Fn(S, &OnlinePlayer) -> S>(
    players: Seq<OnlinePlayer>,
    f: F,
    start: S,
) -> bool {
    forall|i: int, states: Seq<S>|
        0 <= i < players.len() && #[trigger] visits(players.take(i), f, states) && states.first()
            == start ==> call_requires(f, (states.last(), &players[i]))
}

/// Law: a function that notes the player that it is called with notes all players of the
/// server in the order in which they are listed, each once, and no one else. So it is called
/// as often as there are players in all worlds together.
pub proof fn law_every_player_is_visited_once<S, F: Fn(S, &OnlinePlayer) -> S>(
    server: Server,
    f: F,
    states: Seq<S>,
    notes: spec_fn(S) -> Seq<OnlinePlayer>,
)
    requires
        visits(server.spec_players(), f, states),
        forall|state: S, player: OnlinePlayer, next: S| #[trigger]
            call_ensures(f, (state, &player), next) ==> notes(next) == notes(state).push(player),
    ensures
        notes(states.last()) == notes(states.first()) + server.spec_players(),
        notes(states.last()).len() - notes(states.first()).len() == players_counted(server.worlds@),
{
    lemma_visits_note(server.spec_players(), f, states, notes);
    lemma_players_counted(server.worlds@);
}

/// A function that notes the player that it is called with notes all that it is called with.
proof fn lemma_visits_note<S, F: Fn(S, &OnlinePlayer) -> S>(
    players: Seq<OnlinePlayer>,
    f: F,
    states: Seq<S>,
    notes: spec_fn(S) -> Seq<OnlinePlayer>,
)
    requires
        visits(players, f, states),
        forall|state: S, player: OnlinePlayer, next: S| #[trigger]
            call_ensures(f, (state, &player), next) ==> notes(next) == notes(state).push(player),
    ensures
        notes(states.last()) == notes(states.first()) + players,
    decreases players.len(),
{
    if players.len() > 0 {
        let last = players.len() - 1;
        let before = players.drop_last();
        let earlier = states.drop_last();
        assert forall|i: int| 0 <= i < before.len() implies call_ensures(
            f,
            (earlier[i], &#[trigger] before[i]),
            earlier[i + 1],
        ) by {
            assert(players[i] == before[i]);
        }
        lemma_visits_note(before, f, earlier, notes);
        assert(call_ensures(f, (states[last], &players[last]), states[last + 1]));
        assert(notes(states.first()) + players =~= (notes(states.first()) + before).push(
            players[last],
        ));
    } else {
        assert(notes(states.first()) + players =~= notes(states.first()));
    }
}

/// Law: the count of all players is the sum over the worlds of the players in each, and there
/// are as many players as are asked for exactly when that sum says so, without worlds too.
pub proof fn law_has_n_players_is_the_count(server: Server, n: usize)
    ensures
        server.spec_players().len() == players_counted(server.worlds@),
        server.spec_players().len() >= n <==> players_counted(server.worlds@) >= n,
{
    lemma_players_counted(server.worlds@);
}

/// The players of all worlds are as many as the sum over the worlds says.
proof fn lemma_players_counted(worlds: Seq<World>)
    ensures
        all_players(worlds).len() == players_counted(worlds),
    decreases worlds.len(),
{
    if worlds.len() > 0 {
        lemma_players_counted(worlds.drop_last());
    }
}

/// Law: a player is found by its name, and by its uuid, exactly when someone on the server
/// has that name or that uuid; whoever is found has it.
pub proof fn law_players_are_found(players: Seq<OnlinePlayer>, name: Seq<char>, uuid: u128)
    ensures
        first_named(players, name) is Some <==> exists|i: int|
            0 <= i < players.len() && (#[trigger] players[i]).name@ == name,
        first_named(players, name) matches Some(player) ==> player.name@ == name
            && players.contains(player),
        first_with_uuid(players, uuid) is Some <==> exists|i: int|
            0 <= i < players.len() && (#[trigger] players[i]).uuid == uuid,
        first_with_uuid(players, uuid) matches Some(player) ==> player.uuid == uuid
            && players.contains(player),
    decreases players.len(),
{
    if players.len() > 0 {
        let before = players.drop_last();
        law_players_are_found(before, name, uuid);
        assert(forall|i: int| 0 <= i < before.len() ==> #[trigger] players[i] == before[i]);
        let last = players.len() - 1;
        assert(players[last] == players.last());
        if first_named(before, name) is Some {
            let i = choose|i: int| 0 <= i < before.len() && (#[trigger] before[i]).name@ == name;
            assert(players[i].name@ == name);
            let found = first_named(before, name)->0;
            let j = choose|j: int| 0 <= j < before.len() && before[j] == found;
            assert(players[j] == found);
        }
        if first_with_uuid(before, uuid) is Some {
            let i = choose|i: int| 0 <= i < before.len() && (#[trigger] before[i]).uuid == uuid;
            assert(players[i].uuid == uuid);
            let found = first_with_uuid(before, uuid)->0;
            let j = choose|j: int| 0 <= j < before.len() && before[j] == found;
            assert(players[j] == found);
        }
        assert(forall|i: int|
            0 <= i < before.len() && (#[trigger] before[i]).name@ == name ==> players[i].name@
                == name);
        assert(forall|i: int|
            0 <= i < players.len() && (#[trigger] players[i]).name@ == name ==> i == last
                || before[i].name@ == name);
        assert(forall|i: int|
            0 <= i < players.len() && (#[trigger] players[i]).uuid == uuid ==> i == last
                || before[i].uuid == uuid);
    }
}

// ---------------------------------------------------------------------------
// Coming in.
// ---------------------------------------------------------------------------

/// What became of the saved data of a player that wants to come in.
pub enum LoadedData {
    /// There is none: the player is new.
    NewPlayer,
    Found { nbt: NbtCompound },
    /// There is some, but it cannot be read, for the reason that is given.
    Unreadable { reason: String },
}

/// Whether a player may come in.
pub enum Admission {
    /// It comes into the world with the number, and is read from its saved data where it has
    /// some.
    Enter { world: usize, reads_saved: bool },
    /// It is turned away, with the message.
    Refuse { message: String },
}

/// What coming in asks for.
#[derive(Clone, Copy, Debug, PartialEq, Eq, Structural)]
pub enum LoginStep {
    /// The player is turned away.
    Kick,
    /// The screens of the player know whose they are.
    BindScreens,
    /// The player is added to its world.
    AddToWorld,
    /// The server remembers the name of the player.
    RememberName,
    /// The player is shown in the list of the server.
    ShowInListing,
}

/// What a player is told whose data cannot be read.
pub open spec fn refusal_text(reason: Seq<char>) -> Seq<char> {
    "Failed to load your player data: "@ + reason
        + "\nYour save file has been preserved. Please contact a server administrator."@
}

/// The world that a player with saved data comes into: that of its dimension, or the first
/// where it names none or one that there is not. `worlds` gives the world of each dimension.
pub open spec fn world_of(
    nbt: NbtCompound,
    dimensions: Seq<String>,
    worlds: Seq<usize>,
) -> usize {
    match as_text(nbt.spec_get("Dimension"@)) {
        Some(name) => match dimension_named(dimensions, name) {
            Some(place) => worlds[place],
            None => 0,
        },
        None => 0,
    }
}

impl Server {
    /// Decides whether a player may come in, and into which world. A player whose data cannot
    /// be read is turned away: it is not let in as a new one, so that its data is not
    /// overwritten.
    pub fn admit_player(
        &self,
        loaded: &LoadedData,
        dimensions: &Vec<String>,
        dimension_worlds: &Vec<usize>,
    ) -> (r: Admission)
        requires
            loaded !is Unreadable ==> self.worlds@.len() > 0,
            dimensions@.len() == dimension_worlds@.len(),
        ensures
            match loaded {
                LoadedData::NewPlayer => r == (Admission::Enter { world: 0, reads_saved: false }),
                LoadedData::Found { nbt } => r == (Admission::Enter {
                    world: world_of(*nbt, dimensions@, dimension_worlds@),
                    reads_saved: true,
                }),
                LoadedData::Unreadable { reason } => r matches Admission::Refuse { message }
                    && message@ == refusal_text(reason@),
            },
    {
        match loaded {
            LoadedData::NewPlayer => Admission::Enter { world: 0, reads_saved: false },
            LoadedData::Found { nbt } => {
                let world: usize = match nbt.get_string("Dimension") {
                    Some(name) => {
                        proof {
                            lemma_dimension_place(dimensions@, name@);
                        }
                        match find_dimension(dimensions, name) {
                            Some(place) => dimension_worlds[place],
                            None => 0,
                        }
                    },
                    None => 0,
                };
                Admission::Enter { world, reads_saved: true }
            },
            LoadedData::Unreadable { reason } => Admission::Refuse {
                message: join(
                    "Failed to load your player data: ",
                    reason.as_str(),
                    "\nYour save file has been preserved. Please contact a server administrator.",
                ),
            },
        }
    }

    /// What follows once everyone has been asked whether the player may come in.
    pub fn begin_login(cancelled: bool) -> (r: Vec<LoginStep>)
        ensures
            r@ == (if cancelled {
                seq![LoginStep::Kick]
            } else {
                seq![LoginStep::BindScreens, LoginStep::AddToWorld]
            }),
    {
        let mut plan: Vec<LoginStep> = Vec::new();
        if cancelled {
            plan.push(LoginStep::Kick);
        } else {
            plan.push(LoginStep::BindScreens);
            plan.push(LoginStep::AddToWorld);
        }
        assert(plan@ =~= (if cancelled {
            seq![LoginStep::Kick]
        } else {
            seq![LoginStep::BindScreens, LoginStep::AddToWorld]
        }));
        plan
    }

    /// What follows once the player has been added to its world, or could not be. Returns
    /// whether the player is in. `wants_listing` says whether the player wants to be shown in
    /// the list of the server, where it has said.
    pub fn end_login(added: bool, wants_listing: Option<bool>) -> (r: (bool, Vec<LoginStep>))
        ensures
            r.0 == added,
            r.1@ == only_if(added, LoginStep::RememberName) + only_if(
                added && wants_listing == Some(true),
                LoginStep::ShowInListing,
            ),
    {
        let mut plan: Vec<LoginStep> = Vec::new();
        push_if(&mut plan, added, LoginStep::RememberName);
        assert(plan@ =~= only_if(added, LoginStep::RememberName));
        let listed: bool = match wants_listing {
            Some(wants) => wants,
            None => false,
        };
        push_if(&mut plan, added && listed, LoginStep::ShowInListing);
        (added, plan)
    }
}

/// A dimension that is found has a place among them.
proof fn lemma_dimension_place(dimensions: Seq<String>, name: Seq<char>)
    ensures
        dimension_named(dimensions, name) matches Some(place) ==> 0 <= place < dimensions.len(),
    decreases dimensions.len(),
{
    if dimensions.len() > 0 {
        lemma_dimension_place(dimensions.drop_last(), name);
    }
}

/// Law: a player is found by its name and by its uuid in all worlds, whenever someone has that name or
/// that uuid, and whoever is found has it.
pub proof fn law_server_finds_its_players(
    server: Server,
    name: &str,
    uuid: u128,
    named: Option<&OnlinePlayer>,
    known: Option<&OnlinePlayer>,
    i: int,
)
    requires
        call_ensures(Server::get_player_by_name, (&server, name), named),
        call_ensures(Server::get_player_by_uuid, (&server, uuid), known),
    ensures
        named is Some ==> named->0.name@ == name@,
        known is Some ==> known->0.uuid == uuid,
        0 <= i < server.spec_players().len() && server.spec_players()[i].name@ == name@
            ==> named is Some,
        0 <= i < server.spec_players().len() && server.spec_players()[i].uuid == uuid
            ==> known is Some,
{
    law_players_are_found(server.spec_players(), name@, uuid);
}

/// Law: a player in a world is found there by its name and by its uuid, and nobody else is.
pub proof fn law_world_finds_its_players(
    world: World,
    name: &str,
    uuid: u128,
    named: Option<&OnlinePlayer>,
    known: Option<&OnlinePlayer>,
    i: int,
)
    requires
        call_ensures(World::get_player_by_name, (&world, name), named),
        call_ensures(World::get_player_by_uuid, (&world, uuid), known),
    ensures
        named is Some ==> named->0.name@ == name@ && world.players@.contains(*named->0),
        known is Some ==> known->0.uuid == uuid && world.players@.contains(*known->0),
        0 <= i < world.players@.len() && world.players@[i].name@ == name@ ==> named is Some,
        0 <= i < world.players@.len() && world.players@[i].uuid == uuid ==> known is Some,
{
    law_players_are_found(world.players@, name@, uuid);
}

/// The players of a world are among all players.
proof fn lemma_world_players_are_listed(worlds: Seq<World>, w: int, i: int)
    requires
        0 <= w < worlds.len(),
        0 <= i < worlds[w].players@.len(),
    ensures
        all_players(worlds).contains(worlds[w].players@[i]),
    decreases worlds.len(),
{
    let before = worlds.drop_last();
    let rest = all_players(before);
    let last = worlds.last().players@;
    let all = all_players(worlds);
    if w < before.len() {
        assert(before[w] == worlds[w]);
        lemma_world_players_are_listed(before, w, i);
        let k = choose|k: int| 0 <= k < rest.len() && rest[k] == worlds[w].players@[i];
        assert(all[k] == worlds[w].players@[i]);
    } else {
        assert(all[rest.len() + i] == last[i]);
    }
}

/// Law: every player of every world is listed, counted and among those whose clients have its address;
/// those with an address have just that one.
pub proof fn law_every_player_is_listed(
    server: Server,
    all: Vec<&OnlinePlayer>,
    ip: IpAddr,
    by_ip: Vec<&OnlinePlayer>,
    count: usize,
    n: usize,
    enough: bool,
    w: int,
    i: int,
    k: int,
)
    requires
        call_ensures(Server::get_all_players, (&server,), all),
        call_ensures(Server::get_players_by_ip, (&server, ip), by_ip),
        call_ensures(Server::get_player_count, (&server,), count),
        call_ensures(Server::has_n_players, (&server, n), enough),
    ensures
        count == all@.len(),
        enough <==> count >= n,
        0 <= w < server.worlds@.len() && 0 <= i < server.worlds@[w].players@.len() ==> exists|
            j: int,
        |
            0 <= j < all@.len() && *(#[trigger] all@[j]) == server.worlds@[w].players@[i],
        0 <= k < by_ip@.len() ==> by_ip@[k].ip == ip && server.spec_players().contains(*by_ip@[k]),
        0 <= w < server.worlds@.len() && 0 <= i < server.worlds@[w].players@.len()
            && server.worlds@[w].players@[i].ip == ip ==> exists|j: int|
            0 <= j < by_ip@.len() && *(#[trigger] by_ip@[j]) == server.worlds@[w].players@[i],
{
    let players = server.spec_players();
    let matches = |player: OnlinePlayer| player.ip == ip;
    broadcast use vstd::seq_lib::group_seq_properties;

    if 0 <= w < server.worlds@.len() && 0 <= i < server.worlds@[w].players@.len() {
        let player = server.worlds@[w].players@[i];
        lemma_world_players_are_listed(server.worlds@, w, i);
        let j = choose|j: int| 0 <= j < players.len() && players[j] == player;
        assert(pointed_at(all@)[j] == player);
        assert(*all@[j] == player);
        if player.ip == ip {
            assert(players.filter(matches).contains(player));
            let found = pointed_at(by_ip@);
            let m = choose|m: int| 0 <= m < found.len() && found[m] == player;
            assert(*by_ip@[m] == player);
        }
    }
    if 0 <= k < by_ip@.len() {
        assert(pointed_at(by_ip@)[k] == *by_ip@[k]);
        players.lemma_filter_contains_rev(matches, *by_ip@[k]);
        let kept = players.filter(matches);
        assert(kept[k] == *by_ip@[k]);
        players.lemma_filter_pred(matches, k);
    }
}

/// Law: a new player comes into the first world and one with saved data into that of its dimension, or
/// the first where it names none. One whose data cannot be read is turned away and told why, and that
/// its data is kept.
pub proof fn law_who_comes_in(
    server: Server,
    loaded: LoadedData,
    dimensions: Vec<String>,
    dimension_worlds: Vec<usize>,
    r: Admission,
)
    requires
        call_ensures(Server::admit_player, (&server, &loaded, &dimensions, &dimension_worlds), r),
    ensures
        loaded is NewPlayer ==> r == (Admission::Enter { world: 0, reads_saved: false }),
        loaded is Found ==> r is Enter && r->reads_saved,
        loaded is Found && loaded->nbt.spec_get("Dimension"@) is None ==> r->world == 0,
        loaded is Found && dimensions@.len() == 1 && loaded->nbt.spec_get("Dimension"@) == Some(
            crate::data::nbt::NbtValue::Text(dimensions@[0]@),
        ) ==> r->world == dimension_worlds@[0],
        loaded is Unreadable ==> r is Refuse && r->message@
            == "Failed to load your player data: "@ + loaded->reason@
            + "\nYour save file has been preserved. Please contact a server administrator."@,
{
    if dimensions@.len() == 1 {
        reveal_with_fuel(dimension_named, 2);
        assert(dimensions@.last() == dimensions@[0]);
    }
}

/// Law: a player whose coming in is called off is turned away; any other is added to its world. Once it
/// is in, its name is remembered, and it is shown in the list where it wants to be.
pub proof fn law_steps_of_a_login(
    cancelled: bool,
    begun: Vec<LoginStep>,
    added: bool,
    wants_listing: Option<bool>,
    ended: (bool, Vec<LoginStep>),
)
    requires
        call_ensures(Server::begin_login, (cancelled,), begun),
        call_ensures(Server::end_login, (added, wants_listing), ended),
    ensures
        cancelled ==> begun@.len() == 1 && begun@[0] == LoginStep::Kick,
        !cancelled ==> begun@.len() == 2 && begun@[0] == LoginStep::BindScreens && begun@[1]
            == LoginStep::AddToWorld,
        ended.0 == added,
        !added ==> ended.1@.len() == 0,
        added ==> ended.1@[0] == LoginStep::RememberName,
        added && wants_listing == Some(true) ==> ended.1@.len() == 2 && ended.1@[1]
            == LoginStep::ShowInListing,
        added && wants_listing != Some(true) ==> ended.1@.len() == 1,
{
}

/// Law: the player that is drawn is one of some world, and there is one just where there are players.
pub proof fn law_drawn_player_is_online(server: Server, r: Option<&OnlinePlayer>, count: usize)
    requires
        call_ensures(Server::get_random_player, (&server,), r),
        call_ensures(Server::get_player_count, (&server,), count),
    ensures
        r is Some <==> count > 0,
        r is Some ==> server.spec_players().contains(*r->0),
{
}

/// Law: every player is visited once, in turn: where each visit returns the player's number after those
/// before it, what comes back tells as many as there are players.
pub proof fn law_every_player_is_visited<F: Fn(nat, &OnlinePlayer) -> nat>(
    server: Server,
    f: F,
    end: nat,
    count: usize,
)
    requires
        call_ensures(Server::for_each_player::<nat, F>, (&server, 0nat, f), end),
        call_ensures(Server::get_player_count, (&server,), count),
        forall|before: nat, player: OnlinePlayer, after: nat| #[trigger]
            call_ensures(f, (before, &player), after) ==> after == before + 1,
    ensures
        end == count,
{
    let players = server.spec_players();
    let states = choose|states: Seq<nat>| #[trigger]
        visits(players, f, states) && states.first() == 0 && states.last() == end;
    lemma_visits_count(players, f, states, players.len() as int);
}

/// A count of visits grows by one with each of them.
proof fn lemma_visits_count<F: Fn(nat, &OnlinePlayer) -> nat>(
    players: Seq<OnlinePlayer>,
    f: F,
    states: Seq<nat>,
    n: int,
)
    requires
        visits(players, f, states),
        states.first() == 0,
        0 <= n <= players.len(),
        forall|before: nat, player: OnlinePlayer, after: nat| #[trigger]
            call_ensures(f, (before, &player), after) ==> after == before + 1,
    ensures
        states[n] == n,
    decreases n,
{
    if n > 0 {
        lemma_visits_count(players, f, states, n - 1);
        let player = players[n - 1];
        assert(call_ensures(f, (states[n - 1], &player), states[n]));
    }
}

} // verus!
