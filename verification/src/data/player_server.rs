//! When the data of players is saved.

use vstd::prelude::*;

use crate::server::player::{pointed_at, OnlinePlayer, Server};

verus! {

/// A span of time, or a moment since some moment, in nanoseconds.
pub type Nanos = u128;

/// When the data of players was last saved, and how often that is done.
#[derive(Clone, Copy, Debug, PartialEq, Eq, Structural)]
pub struct ServerPlayerData {
    pub save_enabled: bool,
    pub save_interval: Nanos,
    pub last_save: Nanos,
}

/// The uuids of players, in order.
pub open spec fn uuids_of(players: Seq<OnlinePlayer>) -> Seq<u128> {
    players.map_values(|player: OnlinePlayer| player.uuid)
}

/// How many of the saves went well.
pub open spec fn saves_done(results: Seq<bool>) -> nat {
    results.filter(|saved: bool| saved).len()
}

impl ServerPlayerData {
    /// Nothing has been saved yet: the first span of time begins now.
    pub fn new(save_interval: Nanos, enabled: bool, now: Nanos) -> (r: Self)
        ensures
            r == (ServerPlayerData { save_enabled: enabled, save_interval, last_save: now }),
    {
        ServerPlayerData { save_enabled: enabled, save_interval, last_save: now }
    }

    /// It is time to save the data of all players: the span of time has gone by since it was
    /// last done, and it is done at all. A moment that is not after the last save is no time
    /// after it.
    pub open spec fn spec_is_due(self, now: Nanos) -> bool {
        self.save_enabled && (if now >= self.last_save {
            now - self.last_save >= self.save_interval
        } else {
            self.save_interval == 0
        })
    }

    /// Looks whether it is time to save the data of all players, and takes note if it is.
    /// Returns the players whose data is to be saved, in order.
    pub fn tick(&mut self, now: Nanos, server: &Server) -> (r: Vec<u128>)
        ensures
            *final(self) == (ServerPlayerData {
                last_save: if old(self).spec_is_due(now) {
                    now
                } else {
                    old(self).last_save
                },
                ..*old(self)
            }),
            r@ == (if old(self).spec_is_due(now) {
                uuids_of(server.spec_players())
            } else {
                Seq::empty()
            }),
    {
        let gone: Nanos = if now >= self.last_save {
            now - self.last_save
        } else {
            0
        };
        if gone >= self.save_interval && self.save_enabled {
            self.last_save = now;
            Self::players_to_save(server)
        } else {
            Vec::new()
        }
    }

    /// All players whose data is to be saved when all of it is, in order: a save that fails
    /// is no reason to leave out those after it.
    pub fn players_to_save(server: &Server) -> (r: Vec<u128>)
        ensures
            r@ == uuids_of(server.spec_players()),
    {
        let players: Vec<&OnlinePlayer> = server.get_all_players();
        let ghost all = server.spec_players();
        let mut uuids: Vec<u128> = Vec::new();
        let mut i: usize = 0;
        assert(all.len() == players@.len());
        while i < players.len()
            invariant
                i <= players@.len(),
                all.len() == players@.len(),
                all == pointed_at(players@),
                uuids@ == uuids_of(all.take(i as int)),
            decreases players.len() - i,
        {
            let player: &OnlinePlayer = players[i];
            assert(all[i as int] == *player);
            uuids.push(player.uuid);
            i = i + 1;
            assert(uuids@ =~= uuids_of(all.take(i as int)));
        }
        assert(all.take(i as int) =~= all);
        uuids
    }

    /// Saves the data of all players at once: counts those of whom it went well, whatever
    /// became of the others.
    pub fn save_all_players(results: &Vec<bool>) -> (r: usize)
        ensures
            r == saves_done(results@),
    {
        let mut done: usize = 0;
        let mut i: usize = 0;
        proof {
            reveal(Seq::filter);
        }
        while i < results.len()
            invariant
                i <= results@.len(),
                done == saves_done(results@.take(i as int)),
                done <= i,
            decreases results.len() - i,
        {
            proof {
                reveal(Seq::filter);
                assert(results@.take(i as int + 1).drop_last() =~= results@.take(i as int));
            }
            if results[i] {
                done = done + 1;
            }
            i = i + 1;
        }
        assert(results@.take(i as int) =~= results@);
        done
    }

    /// Whether the data of a single player is extracted and written at all; where it is not,
    /// that counts as done.
    pub fn extract_data_and_save_player(&self) -> (r: bool)
        ensures
            r == self.save_enabled,
    {
        self.save_enabled
    }
}

/// Law: right after a save it is not time for another before the span of time has gone by,
/// and where nothing is saved at all it never is.
pub proof fn law_saves_keep_their_distance(data: ServerPlayerData, saved_at: Nanos, now: Nanos)
    requires
        data.last_save == saved_at,
        now >= saved_at,
    ensures
        data.spec_is_due(now) ==> now - saved_at >= data.save_interval,
        now - saved_at >= data.save_interval && data.save_enabled ==> data.spec_is_due(now),
        !data.save_enabled ==> !data.spec_is_due(now),
{
}

/// Law: the data of all players is saved whenever the span of time has gone by since it was last, and
/// then of every player that there is, in order; else of none. The moment is remembered.
pub proof fn law_all_players_are_saved_in_time(
    data: &mut ServerPlayerData,
    now: Nanos,
    server: Server,
    r: Vec<u128>,
    all: Vec<u128>,
    i: int,
)
    requires
        call_ensures(ServerPlayerData::tick, (data, now, &server), r),
        call_ensures(ServerPlayerData::players_to_save, (&server,), all),
        now >= old(data).last_save,
    ensures
        ({
            let due = old(data).save_enabled && now - old(data).last_save
                >= old(data).save_interval;
            &&& due ==> r@ == all@ && final(data).last_save == now
            &&& !due ==> r@.len() == 0 && *final(data) == *old(data)
        }),
        all@.len() == server.spec_players().len(),
        0 <= i < all@.len() ==> all@[i] == server.spec_players()[i].uuid,
        final(data).save_interval == old(data).save_interval,
        final(data).save_enabled == old(data).save_enabled,
{
}

/// Law: nothing has been saved of a new server, whose first span begins at once; and a single player is
/// saved just where saving is done at all.
pub proof fn law_first_span_begins_at_once(
    save_interval: Nanos,
    enabled: bool,
    now: Nanos,
    r: ServerPlayerData,
    single: bool,
)
    requires
        call_ensures(ServerPlayerData::new, (save_interval, enabled, now), r),
        call_ensures(ServerPlayerData::extract_data_and_save_player, (&r,), single),
    ensures
        r.last_save == now,
        r.save_interval == save_interval,
        r.save_enabled == enabled,
        single == enabled,
{
}

/// How many saves went well grows by one with each that does, and by none with each that does not.
proof fn lemma_saves_done(results: Seq<bool>, saved: bool)
    ensures
        saves_done(results.push(saved)) == saves_done(results) + (if saved {
            1nat
        } else {
            0
        }),
{
    reveal(Seq::filter);
    assert(results.push(saved).drop_last() =~= results);
}

/// Law: of the saves those that went well are counted, each once, whatever became of the others.
pub proof fn law_saves_that_went_well_count(
    results: Vec<bool>,
    more: Vec<bool>,
    saved: bool,
    r: usize,
    of_more: usize,
)
    requires
        call_ensures(ServerPlayerData::save_all_players, (&results,), r),
        call_ensures(ServerPlayerData::save_all_players, (&more,), of_more),
        more@ == results@.push(saved),
    ensures
        results@.len() == 0 ==> r == 0,
        saved ==> of_more == r + 1,
        !saved ==> of_more == r,
{
    lemma_saves_done(results@, saved);
    reveal(Seq::filter);
}

} // verus!
