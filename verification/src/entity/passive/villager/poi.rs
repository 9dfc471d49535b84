//! The places that villagers lay claim to, and the tickets that stand for a claim.
//!
//! A place has a number of tickets. Who takes one lays claim to the place; a place
//! without free tickets cannot be claimed. So it is the tickets that keep two
//! villagers from claiming one bed.

use vstd::prelude::*;

use super::VillagerEntity;
use crate::data::position::BlockPos;

verus! {

/// What a place of interest is.
#[derive(Clone, Copy, Debug, PartialEq, Eq, Structural)]
pub enum PoiType {
    Home,
    Meeting,
    Armorer,
    Butcher,
    Cartographer,
    Cleric,
    Farmer,
    Fisherman,
    Fletcher,
    Leatherworker,
    Librarian,
    Mason,
    Shepherd,
    Toolsmith,
    Weaponsmith,
    Beehive,
    BeeNest,
    NetherPortal,
    Lodestone,
    LightningRod,
}

/// How many villagers may gather at one bell.
pub const MEETING_TICKETS: i32 = 32;

impl PoiType {
    /// Villagers of some profession work at the place.
    pub open spec fn spec_acquirable_job_site(self) -> bool {
        match self {
            PoiType::Armorer
            | PoiType::Butcher
            | PoiType::Cartographer
            | PoiType::Cleric
            | PoiType::Farmer
            | PoiType::Fisherman
            | PoiType::Fletcher
            | PoiType::Leatherworker
            | PoiType::Librarian
            | PoiType::Mason
            | PoiType::Shepherd
            | PoiType::Toolsmith
            | PoiType::Weaponsmith => true,
            _ => false,
        }
    }

    /// How many tickets the place has.
    pub open spec fn spec_max_tickets(self) -> i32 {
        if self == PoiType::Home || self.spec_acquirable_job_site() {
            1
        } else if self == PoiType::Meeting {
            MEETING_TICKETS
        } else {
            0
        }
    }

    /// Whether villagers of some profession work at the place.
    pub fn acquirable_job_site(self) -> (r: bool)
        ensures
            r == self.spec_acquirable_job_site(),
    {
        match self {
            PoiType::Armorer
            | PoiType::Butcher
            | PoiType::Cartographer
            | PoiType::Cleric
            | PoiType::Farmer
            | PoiType::Fisherman
            | PoiType::Fletcher
            | PoiType::Leatherworker
            | PoiType::Librarian
            | PoiType::Mason
            | PoiType::Shepherd
            | PoiType::Toolsmith
            | PoiType::Weaponsmith => true,
            _ => false,
        }
    }

    /// Whether the place makes a village.
    pub fn village(self) -> (r: bool)
        ensures
            r == (self == PoiType::Home || self == PoiType::Meeting
                || self.spec_acquirable_job_site()),
    {
        self == PoiType::Home || self == PoiType::Meeting || self.acquirable_job_site()
    }

    /// How many tickets the place has.
    pub fn max_tickets(self) -> (r: i32)
        ensures
            r == self.spec_max_tickets(),
    {
        if self == PoiType::Home || self.acquirable_job_site() {
            1
        } else if self == PoiType::Meeting {
            MEETING_TICKETS
        } else {
            0
        }
    }

    /// All that a place of interest may be.
    pub fn all() -> (r: Vec<PoiType>)
        ensures
            forall|poi_type: PoiType| #[trigger] r@.contains(poi_type),
    {
        let mut list: Vec<PoiType> = Vec::new();
        list.push(PoiType::Home);
        list.push(PoiType::Meeting);
        list.push(PoiType::Armorer);
        list.push(PoiType::Butcher);
        list.push(PoiType::Cartographer);
        list.push(PoiType::Cleric);
        list.push(PoiType::Farmer);
        list.push(PoiType::Fisherman);
        list.push(PoiType::Fletcher);
        list.push(PoiType::Leatherworker);
        list.push(PoiType::Librarian);
        list.push(PoiType::Mason);
        list.push(PoiType::Shepherd);
        list.push(PoiType::Toolsmith);
        list.push(PoiType::Weaponsmith);
        list.push(PoiType::Beehive);
        list.push(PoiType::BeeNest);
        list.push(PoiType::NetherPortal);
        list.push(PoiType::Lodestone);
        list.push(PoiType::LightningRod);
        proof {
            assert forall|poi_type: PoiType| #[trigger] list@.contains(poi_type) by {
                assert(list@[0] == PoiType::Home);
                assert(list@[1] == PoiType::Meeting);
                assert(list@[2] == PoiType::Armorer);
                assert(list@[3] == PoiType::Butcher);
                assert(list@[4] == PoiType::Cartographer);
                assert(list@[5] == PoiType::Cleric);
                assert(list@[6] == PoiType::Farmer);
                assert(list@[7] == PoiType::Fisherman);
                assert(list@[8] == PoiType::Fletcher);
                assert(list@[9] == PoiType::Leatherworker);
                assert(list@[10] == PoiType::Librarian);
                assert(list@[11] == PoiType::Mason);
                assert(list@[12] == PoiType::Shepherd);
                assert(list@[13] == PoiType::Toolsmith);
                assert(list@[14] == PoiType::Weaponsmith);
                assert(list@[15] == PoiType::Beehive);
                assert(list@[16] == PoiType::BeeNest);
                assert(list@[17] == PoiType::NetherPortal);
                assert(list@[18] == PoiType::Lodestone);
                assert(list@[19] == PoiType::LightningRod);
            }
        }
        list
    }
}

/// Whether the place is a bed.
pub fn is_home_poi(poi_type: &PoiType) -> (r: bool)
    ensures
        r == (*poi_type == PoiType::Home),
{
    *poi_type == PoiType::Home
}

/// Whether villagers of some profession work at the place.
pub fn is_acquirable_job_site_poi(poi_type: &PoiType) -> (r: bool)
    ensures
        r == poi_type.spec_acquirable_job_site(),
{
    poi_type.acquirable_job_site()
}

/// Law: every place that a villager lays claim to by itself has one ticket.
pub proof fn law_claimable_places_have_one_ticket(poi_type: PoiType)
    requires
        poi_type == PoiType::Home || poi_type.spec_acquirable_job_site(),
    ensures
        poi_type.spec_max_tickets() == 1,
{
}

// ---------------------------------------------------------------------------
// Tickets.
// ---------------------------------------------------------------------------

/// A place of interest, with its free tickets.
#[derive(Clone, Copy, Debug, PartialEq, Eq, Structural)]
pub struct PoiEntry {
    pub pos: BlockPos,
    pub poi_type: PoiType,
    pub free_tickets: i32,
}

impl PoiEntry {
    /// The place has no more free tickets than it has tickets.
    pub open spec fn wf(self) -> bool {
        0 <= self.free_tickets <= self.poi_type.spec_max_tickets()
    }

    /// The place with a ticket taken.
    pub open spec fn spec_taken(self) -> PoiEntry {
        PoiEntry { free_tickets: (self.free_tickets - 1) as i32, ..self }
    }

    /// The place with a ticket given back, where one was taken.
    pub open spec fn spec_returned(self) -> PoiEntry {
        if self.free_tickets < self.poi_type.spec_max_tickets() {
            PoiEntry { free_tickets: (self.free_tickets + 1) as i32, ..self }
        } else {
            self
        }
    }

    /// A place with all its tickets free.
    pub fn new(pos: BlockPos, poi_type: PoiType) -> (r: Self)
        ensures
            r.wf(),
            r == (PoiEntry { pos, poi_type, free_tickets: poi_type.spec_max_tickets() }),
    {
        PoiEntry { pos, poi_type, free_tickets: poi_type.max_tickets() }
    }

    /// Whether a ticket is free.
    pub fn has_space(&self) -> (r: bool)
        ensures
            r == (self.free_tickets > 0),
    {
        self.free_tickets > 0
    }

    /// Whether a ticket is taken.
    pub fn is_occupied(&self) -> (r: bool)
        ensures
            r == (self.free_tickets != self.poi_type.spec_max_tickets()),
    {
        self.free_tickets != self.poi_type.max_tickets()
    }

    /// Takes a ticket, if one is free.
    pub fn acquire_ticket(&mut self) -> (r: bool)
        requires
            old(self).wf(),
        ensures
            final(self).wf(),
            r == (old(self).free_tickets > 0),
            *final(self) == (if r {
                old(self).spec_taken()
            } else {
                *old(self)
            }),
    {
        if self.free_tickets > 0 {
            self.free_tickets = self.free_tickets - 1;
            true
        } else {
            false
        }
    }

    /// Gives a ticket back, if one was taken.
    pub fn release_ticket(&mut self) -> (r: bool)
        requires
            old(self).wf(),
        ensures
            final(self).wf(),
            r == (old(self).free_tickets < old(self).poi_type.spec_max_tickets()),
            *final(self) == old(self).spec_returned(),
    {
        if self.free_tickets < self.poi_type.max_tickets() {
            self.free_tickets = self.free_tickets + 1;
            true
        } else {
            false
        }
    }
}

/// Law: the ticket of a place with one ticket is exclusive. Once it is taken no other is
/// free, and giving it back makes the place as it was.
pub proof fn law_single_ticket_is_exclusive(entry: PoiEntry)
    requires
        entry.wf(),
        entry.poi_type.spec_max_tickets() == 1,
        entry.free_tickets > 0,
    ensures
        entry.spec_taken().free_tickets == 0,
        entry.spec_taken().spec_returned() == entry,
        entry.spec_returned() == entry,
{
}

/// The places of interest of a world.
pub struct PoiStorage {
    pub entries: Vec<PoiEntry>,
}

/// Which places a villager looks for.
#[derive(Clone, Copy, Debug, PartialEq, Eq, Structural)]
pub enum PoiFilter {
    Home,
    JobSite,
}

impl PoiFilter {
    /// The place is one of those.
    pub open spec fn spec_matches(self, poi_type: PoiType) -> bool {
        match self {
            PoiFilter::Home => poi_type == PoiType::Home,
            PoiFilter::JobSite => poi_type.spec_acquirable_job_site(),
        }
    }

    /// Whether the place is one of those.
    pub fn matches(self, poi_type: &PoiType) -> (r: bool)
        ensures
            r == self.spec_matches(*poi_type),
    {
        match self {
            PoiFilter::Home => is_home_poi(poi_type),
            PoiFilter::JobSite => is_acquirable_job_site_poi(poi_type),
        }
    }
}

/// Where the first entry for the position stands.
pub open spec fn entry_at(entries: Seq<PoiEntry>, pos: BlockPos) -> Option<int>
    decreases entries.len(),
{
    if entries.len() == 0 {
        None
    } else {
        match entry_at(entries.drop_last(), pos) {
            Some(i) => Some(i),
            None => if entries.last().pos == pos {
                Some(entries.len() - 1)
            } else {
                None
            },
        }
    }
}

/// The first entry for a position is found, and none is before it.
proof fn lemma_entry_at(entries: Seq<PoiEntry>, pos: BlockPos)
    ensures
        entry_at(entries, pos) matches Some(i) ==> {
            &&& 0 <= i < entries.len()
            &&& entries[i].pos == pos
            &&& forall|j: int| 0 <= j < i ==> (#[trigger] entries[j]).pos != pos
        },
        entry_at(entries, pos) is None ==> forall|j: int|
            0 <= j < entries.len() ==> (#[trigger] entries[j]).pos != pos,
    decreases entries.len(),
{
    if entries.len() > 0 {
        let rest = entries.drop_last();
        lemma_entry_at(rest, pos);
        assert forall|j: int| 0 <= j < rest.len() implies #[trigger] entries[j] == rest[j] by {}
    }
}

/// The first entry for a position is where nothing before it is for the position.
proof fn lemma_entry_found(entries: Seq<PoiEntry>, pos: BlockPos, i: int)
    requires
        0 <= i < entries.len(),
        entries[i].pos == pos,
        forall|j: int| 0 <= j < i ==> (#[trigger] entries[j]).pos != pos,
    ensures
        entry_at(entries, pos) == Some(i),
{
    lemma_entry_at(entries, pos);
    match entry_at(entries, pos) {
        Some(k) => {
            if k < i {
                assert(entries[k].pos != pos);
            }
        },
        None => {
            assert(entries[i].pos != pos);
        },
    }
}

/// There is a place at the position that the filter looks for.
pub open spec fn poi_exists(entries: Seq<PoiEntry>, pos: BlockPos, filter: PoiFilter) -> bool {
    entry_at(entries, pos) matches Some(i) && filter.spec_matches(entries[i].poi_type)
}

/// There is such a place, and a ticket of it is free.
pub open spec fn poi_takeable(entries: Seq<PoiEntry>, pos: BlockPos, filter: PoiFilter) -> bool {
    poi_exists(entries, pos, filter) && entries[entry_at(entries, pos)->0].free_tickets > 0
}

/// The entries with a ticket of the place at the position taken.
pub open spec fn with_taken(entries: Seq<PoiEntry>, pos: BlockPos) -> Seq<PoiEntry> {
    let i = entry_at(entries, pos)->0;
    entries.update(i, entries[i].spec_taken())
}

/// The entries with a ticket of the place at the position given back.
pub open spec fn with_returned(entries: Seq<PoiEntry>, pos: BlockPos) -> Seq<PoiEntry> {
    let i = entry_at(entries, pos)->0;
    entries.update(i, entries[i].spec_returned())
}

impl PoiStorage {
    /// No place has more free tickets than it has tickets.
    pub open spec fn wf(self) -> bool {
        forall|i: int| 0 <= i < self.entries@.len() ==> (#[trigger] self.entries@[i]).wf()
    }

    /// Where the first entry for the position stands.
    fn find(&self, pos: &BlockPos) -> (r: Option<usize>)
        ensures
            r is Some <==> entry_at(self.entries@, *pos) is Some,
            r matches Some(i) ==> i < self.entries@.len() && entry_at(self.entries@, *pos) == Some(
                i as int,
            ),
    {
        let mut i: usize = 0;
        while i < self.entries.len()
            invariant
                i <= self.entries@.len(),
                forall|j: int| 0 <= j < i ==> (#[trigger] self.entries@[j]).pos != *pos,
            decreases self.entries.len() - i,
        {
            if self.entries[i].pos == *pos {
                proof {
                    lemma_entry_found(self.entries@, *pos, i as int);
                }
                return Some(i);
            }
            i = i + 1;
        }
        proof {
            lemma_entry_at(self.entries@, *pos);
        }
        None
    }

    /// Whether there is a place at the position that the filter looks for.
    pub fn has_poi(&self, pos: &BlockPos, filter: PoiFilter) -> (r: bool)
        ensures
            r == poi_exists(self.entries@, *pos, filter),
    {
        match self.find(pos) {
            Some(i) => filter.matches(&self.entries[i].poi_type),
            None => false,
        }
    }

    /// Takes a ticket of the place at the position, if there is one that is free.
    pub fn acquire(&mut self, pos: &BlockPos) -> (r: bool)
        requires
            old(self).wf(),
        ensures
            final(self).wf(),
            r == (entry_at(old(self).entries@, *pos) matches Some(i) && old(
                self,
            ).entries@[i].free_tickets > 0),
            final(self).entries@ == (if r {
                with_taken(old(self).entries@, *pos)
            } else {
                old(self).entries@
            }),
    {
        match self.find(pos) {
            Some(i) => {
                let mut entry: PoiEntry = self.entries[i];
                let taken: bool = entry.acquire_ticket();
                let ghost before = self.entries@;
                self.entries.set(i, entry);
                assert(!taken ==> self.entries@ =~= before);
                taken
            },
            None => false,
        }
    }

    /// Gives a ticket of the place at the position back. Returns nothing where there is no
    /// place, and else whether a ticket was taken.
    pub fn release(&mut self, pos: &BlockPos) -> (r: Option<bool>)
        requires
            old(self).wf(),
        ensures
            final(self).wf(),
            r == (match entry_at(old(self).entries@, *pos) {
                Some(i) => Some(
                    old(self).entries@[i].free_tickets < old(
                        self,
                    ).entries@[i].poi_type.spec_max_tickets(),
                ),
                None => None,
            }),
            final(self).entries@ == (if r is Some {
                with_returned(old(self).entries@, *pos)
            } else {
                old(self).entries@
            }),
    {
        match self.find(pos) {
            Some(i) => {
                let mut entry: PoiEntry = self.entries[i];
                let returned: bool = entry.release_ticket();
                self.entries.set(i, entry);
                Some(returned)
            },
            None => None,
        }
    }
}

// ---------------------------------------------------------------------------
// The claims of a villager.
// ---------------------------------------------------------------------------

/// Which tickets a villager holds, so that it gives none back that is not its own.
pub struct HeldTickets {
    home: bool,
    job_site: bool,
}

impl Default for HeldTickets {
    fn default() -> (r: Self)
        ensures
            !r.spec_home(),
            !r.spec_job_site(),
    {
        HeldTickets { home: false, job_site: false }
    }
}

impl HeldTickets {
    /// The ticket of the bed is held.
    pub closed spec fn spec_home(self) -> bool {
        self.home
    }

    /// The ticket of the workplace is held.
    pub closed spec fn spec_job_site(self) -> bool {
        self.job_site
    }

    /// Whether the ticket of the bed is held.
    pub fn home(&self) -> (r: bool)
        ensures
            r == self.spec_home(),
    {
        self.home
    }

    /// Notes whether the ticket of the bed is held.
    pub fn set_home(&mut self, held: bool)
        ensures
            final(self).spec_home() == held,
            final(self).spec_job_site() == old(self).spec_job_site(),
    {
        self.home = held;
    }

    /// Whether the ticket of the workplace is held.
    pub fn job_site(&self) -> (r: bool)
        ensures
            r == self.spec_job_site(),
    {
        self.job_site
    }

    /// Notes whether the ticket of the workplace is held.
    pub fn set_job_site(&mut self, held: bool)
        ensures
            final(self).spec_job_site() == held,
            final(self).spec_home() == old(self).spec_home(),
    {
        self.job_site = held;
    }
}

/// The first of the positions whose ticket can be taken.
pub open spec fn first_takeable(
    entries: Seq<PoiEntry>,
    candidates: Seq<BlockPos>,
    filter: PoiFilter,
) -> Option<BlockPos>
    decreases candidates.len(),
{
    if candidates.len() == 0 {
        None
    } else if poi_takeable(entries, candidates.first(), filter) {
        Some(candidates.first())
    } else {
        first_takeable(entries, candidates.skip(1), filter)
    }
}

/// The entries once the first ticket that can be had has been taken.
pub open spec fn claimed(
    entries: Seq<PoiEntry>,
    candidates: Seq<BlockPos>,
    filter: PoiFilter,
) -> Seq<PoiEntry> {
    match first_takeable(entries, candidates, filter) {
        Some(pos) => with_taken(entries, pos),
        None => entries,
    }
}

impl VillagerEntity {
    /// Takes a ticket of the first of the positions where one can be had. The positions
    /// come with the nearest first.
    fn take_poi_ticket(
        storage: &mut PoiStorage,
        candidates: &Vec<BlockPos>,
        filter: PoiFilter,
    ) -> (r: Option<BlockPos>)
        requires
            old(storage).wf(),
        ensures
            final(storage).wf(),
            r == first_takeable(old(storage).entries@, candidates@, filter),
            final(storage).entries@ == claimed(old(storage).entries@, candidates@, filter),
    {
        let mut i: usize = 0;
        assert(candidates@.skip(0) =~= candidates@);
        while i < candidates.len()
            invariant
                i <= candidates@.len(),
                storage.wf(),
                storage.entries@ == old(storage).entries@,
                first_takeable(storage.entries@, candidates@, filter) == first_takeable(
                    storage.entries@,
                    candidates@.skip(i as int),
                    filter,
                ),
            decreases candidates.len() - i,
        {
            let pos: BlockPos = candidates[i];
            assert(candidates@.skip(i as int).skip(1) =~= candidates@.skip(i as int + 1));
            if storage.has_poi(&pos, filter) && storage.acquire(&pos) {
                return Some(pos);
            }
            i = i + 1;
        }
        None
    }

    /// Lays claim to a bed: the first of the positions whose ticket can be had. Returns
    /// whether there was one.
    pub fn acquire_home(&mut self, storage: &mut PoiStorage, candidates: &Vec<BlockPos>) -> (r: bool)
        requires
            old(storage).wf(),
        ensures
            final(storage).wf(),
            final(storage).entries@ == claimed(
                old(storage).entries@,
                candidates@,
                PoiFilter::Home,
            ),
            r == (first_takeable(old(storage).entries@, candidates@, PoiFilter::Home) is Some),
            !r ==> *final(self) == *old(self),
            r ==> {
                &&& final(self).held_tickets.spec_home()
                &&& final(self).held_tickets.spec_job_site() == old(
                    self,
                ).held_tickets.spec_job_site()
                &&& *final(self) == (VillagerEntity {
                    home_pos: first_takeable(
                        old(storage).entries@,
                        candidates@,
                        PoiFilter::Home,
                    ),
                    held_tickets: final(self).held_tickets,
                    ..*old(self)
                })
            },
    {
        match Self::take_poi_ticket(storage, candidates, PoiFilter::Home) {
            Some(pos) => {
                self.home_pos = Some(pos);
                self.held_tickets.set_home(true);
                true
            },
            None => false,
        }
    }

    /// Lays claim to a workplace: the first of the positions whose ticket can be had.
    /// Returns it.
    pub fn acquire_job_site(
        &mut self,
        storage: &mut PoiStorage,
        candidates: &Vec<BlockPos>,
    ) -> (r: Option<BlockPos>)
        requires
            old(storage).wf(),
        ensures
            final(storage).wf(),
            final(storage).entries@ == claimed(
                old(storage).entries@,
                candidates@,
                PoiFilter::JobSite,
            ),
            r == first_takeable(old(storage).entries@, candidates@, PoiFilter::JobSite),
            r is None ==> *final(self) == *old(self),
            r is Some ==> {
                &&& final(self).held_tickets.spec_job_site()
                &&& final(self).held_tickets.spec_home() == old(self).held_tickets.spec_home()
                &&& *final(self) == (VillagerEntity {
                    job_site: r,
                    held_tickets: final(self).held_tickets,
                    ..*old(self)
                })
            },
    {
        match Self::take_poi_ticket(storage, candidates, PoiFilter::JobSite) {
            Some(pos) => {
                self.job_site = Some(pos);
                self.held_tickets.set_job_site(true);
                Some(pos)
            },
            None => None,
        }
    }

    /// Takes a ticket that should have been taken already, if it is free.
    fn top_up_poi_ticket(storage: &mut PoiStorage, pos: BlockPos, filter: PoiFilter)
        requires
            old(storage).wf(),
        ensures
            final(storage).wf(),
            final(storage).entries@ == (if poi_takeable(old(storage).entries@, pos, filter) {
                with_taken(old(storage).entries@, pos)
            } else {
                old(storage).entries@
            }),
    {
        if storage.has_poi(&pos, filter) {
            storage.acquire(&pos);
        }
    }

    /// Makes sure of the claim to a bed. A villager that holds the ticket keeps the claim,
    /// and takes the ticket again where it was free; any other has to lay claim anew.
    /// Returns whether the claim stands.
    pub fn ensure_home_ticket(&mut self, storage: &mut PoiStorage, pos: BlockPos) -> (r: bool)
        requires
            old(storage).wf(),
        ensures
            final(storage).wf(),
            final(storage).entries@ == (if poi_takeable(
                old(storage).entries@,
                pos,
                PoiFilter::Home,
            ) {
                with_taken(old(storage).entries@, pos)
            } else {
                old(storage).entries@
            }),
            r == (old(self).held_tickets.spec_home() || poi_takeable(
                old(storage).entries@,
                pos,
                PoiFilter::Home,
            )),
            old(self).held_tickets.spec_home() || !r ==> *final(self) == *old(self),
            !old(self).held_tickets.spec_home() && r ==> {
                &&& final(self).held_tickets.spec_home()
                &&& final(self).held_tickets.spec_job_site() == old(
                    self,
                ).held_tickets.spec_job_site()
                &&& *final(self) == (VillagerEntity {
                    home_pos: Some(pos),
                    held_tickets: final(self).held_tickets,
                    ..*old(self)
                })
            },
    {
        if self.held_tickets.home() {
            Self::top_up_poi_ticket(storage, pos, PoiFilter::Home);
            return true;
        }
        let mut candidates: Vec<BlockPos> = Vec::new();
        candidates.push(pos);
        proof {
            reveal_with_fuel(first_takeable, 2);
            assert(candidates@.first() == pos);
        }
        self.acquire_home(storage, &candidates)
    }

    /// Makes sure of the claim to a workplace, as with a bed.
    pub fn ensure_job_site_ticket(&mut self, storage: &mut PoiStorage, pos: BlockPos) -> (r: bool)
        requires
            old(storage).wf(),
        ensures
            final(storage).wf(),
            final(storage).entries@ == (if poi_takeable(
                old(storage).entries@,
                pos,
                PoiFilter::JobSite,
            ) {
                with_taken(old(storage).entries@, pos)
            } else {
                old(storage).entries@
            }),
            r == (old(self).held_tickets.spec_job_site() || poi_takeable(
                old(storage).entries@,
                pos,
                PoiFilter::JobSite,
            )),
            old(self).held_tickets.spec_job_site() || !r ==> *final(self) == *old(self),
            !old(self).held_tickets.spec_job_site() && r ==> {
                &&& final(self).held_tickets.spec_job_site()
                &&& final(self).held_tickets.spec_home() == old(self).held_tickets.spec_home()
                &&& *final(self) == (VillagerEntity {
                    job_site: Some(pos),
                    held_tickets: final(self).held_tickets,
                    ..*old(self)
                })
            },
    {
        if self.held_tickets.job_site() {
            Self::top_up_poi_ticket(storage, pos, PoiFilter::JobSite);
            return true;
        }
        let mut candidates: Vec<BlockPos> = Vec::new();
        candidates.push(pos);
        proof {
            reveal_with_fuel(first_takeable, 2);
            assert(candidates@.first() == pos);
        }
        self.acquire_job_site(storage, &candidates).is_some()
    }

    /// Notes which tickets the villager holds, as its claims were saved.
    pub fn restore_held_tickets(&mut self, home: bool, job_site: bool)
        ensures
            final(self).held_tickets.spec_home() == home,
            final(self).held_tickets.spec_job_site() == job_site,
            *final(self) == (VillagerEntity {
                held_tickets: final(self).held_tickets,
                ..*old(self)
            }),
    {
        self.held_tickets.set_home(home);
        self.held_tickets.set_job_site(job_site);
    }

    /// Gives a ticket back, if the place is still there and is what it was.
    fn yield_poi_ticket(storage: &mut PoiStorage, pos: BlockPos, filter: PoiFilter)
        requires
            old(storage).wf(),
        ensures
            final(storage).wf(),
            final(storage).entries@ == yielded(old(storage).entries@, pos, filter),
    {
        if storage.has_poi(&pos, filter) {
            storage.release(&pos);
        }
    }

    /// The entries after the villager has given up its bed.
    pub open spec fn spec_home_released(self, entries: Seq<PoiEntry>) -> Seq<PoiEntry> {
        match self.home_pos {
            Some(pos) => if self.held_tickets.spec_home() {
                yielded(entries, pos, PoiFilter::Home)
            } else {
                entries
            },
            None => entries,
        }
    }

    /// The entries after the villager has given up its workplace.
    pub open spec fn spec_job_site_released(self, entries: Seq<PoiEntry>) -> Seq<PoiEntry> {
        match self.job_site {
            Some(pos) => if self.held_tickets.spec_job_site() {
                yielded(entries, pos, PoiFilter::JobSite)
            } else {
                entries
            },
            None => entries,
        }
    }

    /// Gives up the bed, and its ticket if that is held.
    pub fn clear_home(&mut self, storage: &mut PoiStorage)
        requires
            old(storage).wf(),
        ensures
            final(storage).wf(),
            final(storage).entries@ == old(self).spec_home_released(old(storage).entries@),
            !final(self).held_tickets.spec_home(),
            final(self).held_tickets.spec_job_site() == old(self).held_tickets.spec_job_site(),
            *final(self) == (VillagerEntity {
                home_pos: None,
                held_tickets: final(self).held_tickets,
                ..*old(self)
            }),
    {
        let previous: Option<BlockPos> = self.home_pos;
        self.home_pos = None;
        let held: bool = self.held_tickets.home();
        self.held_tickets.set_home(false);
        if held {
            if let Some(pos) = previous {
                Self::yield_poi_ticket(storage, pos, PoiFilter::Home);
            }
        }
    }

    /// Gives up the workplace, and its ticket if that is held.
    pub fn clear_job_site(&mut self, storage: &mut PoiStorage)
        requires
            old(storage).wf(),
        ensures
            final(storage).wf(),
            final(storage).entries@ == old(self).spec_job_site_released(old(storage).entries@),
            !final(self).held_tickets.spec_job_site(),
            final(self).held_tickets.spec_home() == old(self).held_tickets.spec_home(),
            *final(self) == (VillagerEntity {
                job_site: None,
                held_tickets: final(self).held_tickets,
                ..*old(self)
            }),
    {
        let previous: Option<BlockPos> = self.job_site;
        self.job_site = None;
        let held: bool = self.held_tickets.job_site();
        self.held_tickets.set_job_site(false);
        if held {
            if let Some(pos) = previous {
                Self::yield_poi_ticket(storage, pos, PoiFilter::JobSite);
            }
        }
    }

    /// Gives up all claims, and all tickets that are held.
    pub fn release_all_pois(&mut self, storage: &mut PoiStorage)
        requires
            old(storage).wf(),
        ensures
            final(storage).wf(),
            final(storage).entries@ == old(self).spec_job_site_released(
                old(self).spec_home_released(old(storage).entries@),
            ),
            !final(self).held_tickets.spec_home(),
            !final(self).held_tickets.spec_job_site(),
            *final(self) == (VillagerEntity {
                home_pos: None,
                job_site: None,
                held_tickets: final(self).held_tickets,
                ..*old(self)
            }),
    {
        self.clear_home(storage);
        self.clear_job_site(storage);
    }
}

/// The entries with a ticket given back, if the place is still there and is what it was.
pub open spec fn yielded(entries: Seq<PoiEntry>, pos: BlockPos, filter: PoiFilter) -> Seq<PoiEntry> {
    if poi_exists(entries, pos, filter) {
        with_returned(entries, pos)
    } else {
        entries
    }
}

// ---------------------------------------------------------------------------
// Laws.
// ---------------------------------------------------------------------------

/// Taking and returning a ticket moves no entry.
proof fn lemma_entry_at_updated(entries: Seq<PoiEntry>, i: int, entry: PoiEntry, pos: BlockPos)
    requires
        0 <= i < entries.len(),
        entry.pos == entries[i].pos,
    ensures
        entry_at(entries.update(i, entry), pos) == entry_at(entries, pos),
{
    let after = entries.update(i, entry);
    lemma_entry_at(entries, pos);
    lemma_entry_at(after, pos);
    assert forall|j: int| 0 <= j < entries.len() implies (#[trigger] after[j]).pos
        == entries[j].pos by {}
    match entry_at(entries, pos) {
        Some(k) => {
            assert(after[k].pos == pos);
            assert forall|j: int| 0 <= j < k implies (#[trigger] after[j]).pos != pos by {
                assert(entries[j].pos != pos);
            }
            lemma_entry_found(after, pos, k);
        },
        None => {
            match entry_at(after, pos) {
                Some(k) => {
                    assert(entries[k].pos == pos);
                },
                None => {},
            }
        },
    }
}

/// Law: a claim that is given up leaves no trace. Taking the first ticket that can be had
/// and giving it back leaves all places as they were.
pub proof fn law_released_claim_leaves_no_trace(
    entries: Seq<PoiEntry>,
    candidates: Seq<BlockPos>,
    filter: PoiFilter,
)
    requires
        forall|i: int| 0 <= i < entries.len() ==> (#[trigger] entries[i]).wf(),
        first_takeable(entries, candidates, filter) is Some,
    ensures
        yielded(
            claimed(entries, candidates, filter),
            first_takeable(entries, candidates, filter)->0,
            filter,
        ) == entries,
{
    let pos = first_takeable(entries, candidates, filter)->0;
    lemma_first_takeable(entries, candidates, filter);
    lemma_entry_at(entries, pos);
    let i = entry_at(entries, pos)->0;
    let taken = with_taken(entries, pos);
    lemma_entry_at_updated(entries, i, entries[i].spec_taken(), pos);
    assert(entries[i].wf());
    assert(taken[i].spec_returned() == entries[i]);
    assert(with_returned(taken, pos) =~= entries);
}

/// The first position whose ticket can be taken is one of the positions, and its ticket
/// can be taken.
proof fn lemma_first_takeable(
    entries: Seq<PoiEntry>,
    candidates: Seq<BlockPos>,
    filter: PoiFilter,
)
    ensures
        first_takeable(entries, candidates, filter) matches Some(pos) ==> poi_takeable(
            entries,
            pos,
            filter,
        ) && candidates.contains(pos),
    decreases candidates.len(),
{
    if candidates.len() > 0 {
        let rest = candidates.skip(1);
        lemma_first_takeable(entries, rest, filter);
        assert(candidates[0] == candidates.first());
        if let Some(pos) = first_takeable(entries, rest, filter) {
            let k = choose|k: int| 0 <= k < rest.len() && rest[k] == pos;
            assert(candidates[k + 1] == pos);
        }
    }
}

/// Law: two villagers never claim one bed or one workplace. Once a claim has been laid to
/// a place, no other can be laid to it.
pub proof fn law_claimed_place_cannot_be_claimed_again(
    entries: Seq<PoiEntry>,
    candidates: Seq<BlockPos>,
    others: Seq<BlockPos>,
    filter: PoiFilter,
)
    requires
        forall|i: int| 0 <= i < entries.len() ==> (#[trigger] entries[i]).wf(),
        first_takeable(entries, candidates, filter) is Some,
    ensures
        first_takeable(claimed(entries, candidates, filter), others, filter) is Some
            ==> first_takeable(claimed(entries, candidates, filter), others, filter)
            != first_takeable(entries, candidates, filter),
{
    let pos = first_takeable(entries, candidates, filter)->0;
    let after = claimed(entries, candidates, filter);
    lemma_first_takeable(entries, candidates, filter);
    lemma_first_takeable(after, others, filter);
    lemma_entry_at(entries, pos);
    let i = entry_at(entries, pos)->0;
    lemma_entry_at_updated(entries, i, entries[i].spec_taken(), pos);
    assert(entries[i].wf());
    assert(after[i].free_tickets == 0);
    assert(!poi_takeable(after, pos, filter));
}

/// Law: a bed and a workplace have one ticket each, a bell has 32, and no other place has any.
/// Beds, bells and workplaces make a village.
pub proof fn law_tickets_of_the_places(
    poi_type: PoiType,
    tickets: i32,
    job_site: bool,
    village: bool,
    is_home: bool,
    is_job_site: bool,
)
    requires
        call_ensures(PoiType::max_tickets, (poi_type,), tickets),
        call_ensures(PoiType::acquirable_job_site, (poi_type,), job_site),
        call_ensures(PoiType::village, (poi_type,), village),
        call_ensures(is_home_poi, (&poi_type,), is_home),
        call_ensures(is_acquirable_job_site_poi, (&poi_type,), is_job_site),
    ensures
        poi_type == PoiType::Home ==> tickets == 1 && village && is_home,
        poi_type == PoiType::Meeting ==> tickets == 32 && village,
        poi_type == PoiType::Beehive || poi_type == PoiType::BeeNest || poi_type
            == PoiType::NetherPortal || poi_type == PoiType::Lodestone || poi_type
            == PoiType::LightningRod ==> tickets == 0 && !village && !job_site,
        poi_type == PoiType::Armorer || poi_type == PoiType::Butcher || poi_type
            == PoiType::Cartographer || poi_type == PoiType::Cleric || poi_type == PoiType::Farmer
            || poi_type == PoiType::Fisherman || poi_type == PoiType::Fletcher || poi_type
            == PoiType::Leatherworker || poi_type == PoiType::Librarian || poi_type
            == PoiType::Mason || poi_type == PoiType::Shepherd || poi_type == PoiType::Toolsmith
            || poi_type == PoiType::Weaponsmith ==> job_site && tickets == 1 && village,
        job_site ==> poi_type != PoiType::Home && poi_type != PoiType::Meeting,
        is_job_site == job_site,
        is_home <==> poi_type == PoiType::Home,
{
}

/// Law: a ticket can be taken while one is free, and each that is taken is one less; one can be
/// given back while one is taken, and each that is given back is one more. A new place has all its
/// tickets free.
pub proof fn law_tickets_are_counted(
    taken: &mut PoiEntry,
    given: &mut PoiEntry,
    took: bool,
    gave: bool,
)
    requires
        call_ensures(PoiEntry::acquire_ticket, (taken,), took),
        call_ensures(PoiEntry::release_ticket, (given,), gave),
        old(taken).wf(),
        old(given).wf(),
        old(given).poi_type == PoiType::Home,
    ensures
        took <==> old(taken).free_tickets >= 1,
        took ==> final(taken).free_tickets == old(taken).free_tickets - 1,
        !took ==> final(taken).free_tickets == old(taken).free_tickets,
        final(taken).pos == old(taken).pos,
        final(taken).poi_type == old(taken).poi_type,
        gave <==> old(given).free_tickets == 0,
        final(given).free_tickets == 1,
        final(given).pos == old(given).pos,
        final(given).poi_type == old(given).poi_type,
{
}

/// Law: a new place has all its tickets free, so nobody occupies it.
pub proof fn law_new_place_is_free(
    pos: BlockPos,
    poi_type: PoiType,
    entry: PoiEntry,
    has_space: bool,
    occupied: bool,
)
    requires
        call_ensures(PoiEntry::new, (pos, poi_type), entry),
        call_ensures(PoiEntry::has_space, (&entry,), has_space),
        call_ensures(PoiEntry::is_occupied, (&entry,), occupied),
    ensures
        entry.pos == pos,
        entry.poi_type == poi_type,
        !occupied,
        poi_type == PoiType::Home || poi_type == PoiType::Meeting || poi_type == PoiType::Librarian
            ==> has_space,
        poi_type == PoiType::Lodestone ==> !has_space,
{
}

/// Law: a ticket comes from the first place that is noted for the position, where it has one free.
/// No other place changes.
pub proof fn law_ticket_comes_from_its_place(
    storage: &mut PoiStorage,
    pos: BlockPos,
    r: bool,
    i: int,
)
    requires
        call_ensures(PoiStorage::acquire, (storage, &pos), r),
        old(storage).wf(),
        0 <= i < old(storage).entries@.len(),
        old(storage).entries@[i].pos == pos,
        forall|j: int| 0 <= j < i ==> (#[trigger] old(storage).entries@[j]).pos != pos,
    ensures
        r <==> old(storage).entries@[i].free_tickets > 0,
        final(storage).entries@.len() == old(storage).entries@.len(),
        r ==> final(storage).entries@[i].free_tickets == old(storage).entries@[i].free_tickets - 1,
        forall|j: int|
            0 <= j < old(storage).entries@.len() && (j != i || !r) ==> #[trigger] final(storage).entries@[j] == old(storage).entries@[j],
{
    lemma_entry_found(old(storage).entries@, pos, i);
}

/// Law: a ticket goes back to the first place that is noted for the position, where one was taken.
/// Where no place is noted nothing happens.
pub proof fn law_ticket_goes_back_to_its_place(
    storage: &mut PoiStorage,
    pos: BlockPos,
    r: Option<bool>,
    i: int,
)
    requires
        call_ensures(PoiStorage::release, (storage, &pos), r),
        old(storage).wf(),
    ensures
        (forall|j: int|
            0 <= j < old(storage).entries@.len() ==> (#[trigger] old(storage).entries@[j]).pos
                != pos) ==> r is None && final(storage).entries@ == old(storage).entries@,
        0 <= i < old(storage).entries@.len() && old(storage).entries@[i].pos == pos && old(storage).entries@[i].poi_type == PoiType::Home && (forall|j: int|
            0 <= j < i ==> (#[trigger] old(storage).entries@[j]).pos != pos) ==> {
            &&& r == Some(old(storage).entries@[i].free_tickets == 0)
            &&& final(storage).entries@.len() == old(storage).entries@.len()
            &&& final(storage).entries@[i].free_tickets == 1
            &&& forall|j: int|
                0 <= j < old(storage).entries@.len() && j != i ==> #[trigger] final(storage).entries@[j] == old(storage).entries@[j]
        },
{
    lemma_entry_at(old(storage).entries@, pos);
    if 0 <= i < old(storage).entries@.len() && old(storage).entries@[i].pos == pos && (forall|
        j: int,
    |
        0 <= j < i ==> (#[trigger] old(storage).entries@[j]).pos != pos) {
        lemma_entry_found(old(storage).entries@, pos, i);
    }
}

/// Where the first position is whose ticket can be had.
proof fn lemma_first_takeable_is_first(
    entries: Seq<PoiEntry>,
    candidates: Seq<BlockPos>,
    filter: PoiFilter,
    k: int,
)
    requires
        0 <= k <= candidates.len(),
        forall|j: int| 0 <= j < k ==> !poi_takeable(entries, #[trigger] candidates[j], filter),
        k < candidates.len() ==> poi_takeable(entries, candidates[k], filter),
    ensures
        k < candidates.len() ==> first_takeable(entries, candidates, filter) == Some(candidates[k]),
        k == candidates.len() ==> first_takeable(entries, candidates, filter) is None,
    decreases candidates.len(),
{
    if k > 0 {
        assert(!poi_takeable(entries, candidates[0], filter));
        let rest = candidates.skip(1);
        if k < candidates.len() {
            assert(rest[k - 1] == candidates[k]);
        }
        assert forall|j: int| 0 <= j < k - 1 implies !poi_takeable(
            entries,
            #[trigger] rest[j],
            filter,
        ) by {
            assert(rest[j] == candidates[j + 1]);
        }
        lemma_first_takeable_is_first(entries, rest, filter, k - 1);
    }
}

/// Law: a villager takes the first bed among the positions that has its ticket free, and then holds
/// that ticket and no bed else; no other place changes. Where there is no such bed nothing happens.
pub proof fn law_villager_takes_the_first_free_bed(
    villager: &mut VillagerEntity,
    storage: &mut PoiStorage,
    candidates: Vec<BlockPos>,
    r: bool,
    k: int,
    i: int,
)
    requires
        call_ensures(VillagerEntity::acquire_home, (villager, storage, &candidates), r),
        old(storage).wf(),
        0 <= k <= candidates@.len(),
        forall|j: int, m: int|
            0 <= j < k && 0 <= m < old(storage).entries@.len() && (#[trigger] old(storage).entries@[m]).pos == #[trigger] candidates@[j] ==> old(storage).entries@[m].poi_type
                != PoiType::Home || old(storage).entries@[m].free_tickets == 0,
    ensures
        k == candidates@.len() ==> !r && *final(villager) == *old(villager) && final(storage).entries@ == old(storage).entries@,
        k < candidates@.len() && 0 <= i < old(storage).entries@.len() && old(storage).entries@[i].pos == candidates@[k] && (forall|j: int|
            0 <= j < i ==> (#[trigger] old(storage).entries@[j]).pos != candidates@[k]) && old(storage).entries@[i].poi_type == PoiType::Home && old(storage).entries@[i].free_tickets > 0 ==> {
            &&& r
            &&& final(villager).home_pos == Some(candidates@[k])
            &&& final(villager).held_tickets.spec_home()
            &&& final(villager).job_site == old(villager).job_site
            &&& final(storage).entries@.len() == old(storage).entries@.len()
            &&& final(storage).entries@[i].free_tickets == old(storage).entries@[i].free_tickets - 1
            &&& forall|j: int|
                0 <= j < old(storage).entries@.len() && j != i ==> #[trigger] final(storage).entries@[j] == old(storage).entries@[j]
        },
{
    let entries = old(storage).entries@;
    assert forall|j: int| 0 <= j < k implies !poi_takeable(
        entries,
        #[trigger] candidates@[j],
        PoiFilter::Home,
    ) by {
        lemma_entry_at(entries, candidates@[j]);
    }
    if k == candidates@.len() {
        lemma_first_takeable_is_first(entries, candidates@, PoiFilter::Home, k);
    } else if 0 <= i < entries.len() && entries[i].pos == candidates@[k] && (forall|j: int|
        0 <= j < i ==> (#[trigger] entries[j]).pos != candidates@[k]) && entries[i].poi_type
        == PoiType::Home && entries[i].free_tickets > 0 {
        lemma_entry_found(entries, candidates@[k], i);
        lemma_first_takeable_is_first(entries, candidates@, PoiFilter::Home, k);
    }
}

/// Law: a villager takes the first workplace among the positions that has its ticket free, and then
/// holds that ticket; its bed stays what it was. No bed, bell or other place will do.
pub proof fn law_villager_takes_the_first_free_workplace(
    villager: &mut VillagerEntity,
    storage: &mut PoiStorage,
    candidates: Vec<BlockPos>,
    r: Option<BlockPos>,
    i: int,
)
    requires
        call_ensures(VillagerEntity::acquire_job_site, (villager, storage, &candidates), r),
        old(storage).wf(),
    ensures
        r is None ==> *final(villager) == *old(villager) && final(storage).entries@ == old(storage).entries@,
        r is Some ==> {
            &&& candidates@.contains(r->0)
            &&& final(villager).job_site == r
            &&& final(villager).held_tickets.spec_job_site()
            &&& final(villager).home_pos == old(villager).home_pos
        },
        candidates@.len() > 0 && 0 <= i < old(storage).entries@.len() && old(storage).entries@[i].pos == candidates@[0] && (forall|j: int|
            0 <= j < i ==> (#[trigger] old(storage).entries@[j]).pos != candidates@[0]) && old(storage).entries@[i].free_tickets > 0 ==> {
            &&& old(storage).entries@[i].poi_type == PoiType::Farmer || old(storage).entries@[i].poi_type == PoiType::Librarian || old(storage).entries@[i].poi_type
                == PoiType::Weaponsmith ==> r == Some(candidates@[0]) && final(storage).entries@[i].free_tickets == old(storage).entries@[i].free_tickets - 1
            &&& (old(storage).entries@[i].poi_type == PoiType::Home || old(storage).entries@[i].poi_type == PoiType::Meeting) && candidates@.len() == 1 ==> r is None
        },
{
    let entries = old(storage).entries@;
    lemma_first_takeable(entries, candidates@, PoiFilter::JobSite);
    if candidates@.len() > 0 && 0 <= i < entries.len() && entries[i].pos == candidates@[0] && (
    forall|j: int| 0 <= j < i ==> (#[trigger] entries[j]).pos != candidates@[0]) {
        lemma_entry_found(entries, candidates@[0], i);
        if poi_takeable(entries, candidates@[0], PoiFilter::JobSite) {
            lemma_first_takeable_is_first(entries, candidates@, PoiFilter::JobSite, 0);
        } else if candidates@.len() == 1 {
            lemma_first_takeable_is_first(entries, candidates@, PoiFilter::JobSite, 1);
        }
    }
}

/// Law: a villager that gives all up claims nothing any more and holds no ticket. A bed whose ticket
/// it held has it free again, and one whose ticket it did not hold stays as it was.
pub proof fn law_villager_gives_all_up(
    villager: &mut VillagerEntity,
    storage: &mut PoiStorage,
    i: int,
)
    requires
        call_ensures(VillagerEntity::release_all_pois, (villager, storage), ()),
        old(storage).wf(),
    ensures
        final(villager).home_pos is None,
        final(villager).job_site is None,
        !final(villager).held_tickets.spec_home(),
        !final(villager).held_tickets.spec_job_site(),
        final(villager).inventory == old(villager).inventory,
        !old(villager).held_tickets.spec_home() && !old(villager).held_tickets.spec_job_site()
            ==> final(storage).entries@ == old(storage).entries@,
        old(villager).held_tickets.spec_home() && old(villager).job_site is None && 0 <= i < old(storage).entries@.len() && old(villager).home_pos == Some(old(storage).entries@[i].pos) && old(storage).entries@[i].poi_type == PoiType::Home && (forall|j: int|
            0 <= j < i ==> (#[trigger] old(storage).entries@[j]).pos != old(storage).entries@[i].pos) ==> final(storage).entries@[i].free_tickets == 1,
{
    if 0 <= i < old(storage).entries@.len() && (forall|j: int|
        0 <= j < i ==> (#[trigger] old(storage).entries@[j]).pos != old(storage).entries@[i].pos) {
        lemma_entry_found(old(storage).entries@, old(storage).entries@[i].pos, i);
    }
}

/// Law: a villager that gives up its bed keeps its workplace, and the other way round.
pub proof fn law_bed_and_workplace_are_apart(
    sleeper: &mut VillagerEntity,
    worker: &mut VillagerEntity,
    beds: &mut PoiStorage,
    workplaces: &mut PoiStorage,
)
    requires
        call_ensures(VillagerEntity::clear_home, (sleeper, beds), ()),
        call_ensures(VillagerEntity::clear_job_site, (worker, workplaces), ()),
    ensures
        final(sleeper).home_pos is None,
        !final(sleeper).held_tickets.spec_home(),
        final(sleeper).job_site == old(sleeper).job_site,
        final(sleeper).held_tickets.spec_job_site() == old(sleeper).held_tickets.spec_job_site(),
        final(worker).job_site is None,
        !final(worker).held_tickets.spec_job_site(),
        final(worker).home_pos == old(worker).home_pos,
        final(worker).held_tickets.spec_home() == old(worker).held_tickets.spec_home(),
        old(sleeper).home_pos is None || !old(sleeper).held_tickets.spec_home() ==> final(beds).entries@ == old(beds).entries@,
{
}

/// Law: a claim stands while its ticket is held or can be had, and then it is held and the place is
/// the villager's.
pub proof fn law_claim_stands_while_it_is_held(
    villager: &mut VillagerEntity,
    storage: &mut PoiStorage,
    pos: BlockPos,
    r: bool,
)
    requires
        call_ensures(VillagerEntity::ensure_home_ticket, (villager, storage, pos), r),
    ensures
        old(villager).held_tickets.spec_home() ==> r && *final(villager) == *old(villager),
        r ==> final(villager).held_tickets.spec_home(),
        r && !old(villager).held_tickets.spec_home() ==> final(villager).home_pos == Some(pos),
        !r ==> *final(villager) == *old(villager) && final(storage).entries@ == old(storage).entries@,
        final(villager).job_site == old(villager).job_site,
        old(storage).entries@.len() == 0 && !old(villager).held_tickets.spec_home() ==> !r,
{
}

/// Law: a bed is looked for as a home, and everything that gives a profession as a workplace; nothing is
/// both. A place is there just where the storage has such a one at the position.
pub proof fn law_what_places_are_looked_for(
    poi_type: PoiType,
    home: bool,
    job: bool,
    storage: PoiStorage,
    pos: BlockPos,
    has_home: bool,
    has_job: bool,
)
    requires
        call_ensures(PoiFilter::matches, (PoiFilter::Home, &poi_type), home),
        call_ensures(PoiFilter::matches, (PoiFilter::JobSite, &poi_type), job),
        call_ensures(PoiStorage::has_poi, (&storage, &pos, PoiFilter::Home), has_home),
        call_ensures(PoiStorage::has_poi, (&storage, &pos, PoiFilter::JobSite), has_job),
    ensures
        home <==> poi_type == PoiType::Home,
        !(home && job),
        !(has_home && has_job),
        storage.entries@.len() == 0 ==> !has_home && !has_job,
{
}

/// Law: what is noted of the tickets that are held is what is told of them, for bed and workplace apart.
pub proof fn law_held_tickets_are_noted(
    tickets: &mut HeldTickets,
    others: &mut HeldTickets,
    held: bool,
    home: bool,
    home_after_job: bool,
    job: bool,
    job_after_home: bool,
    villager: &mut VillagerEntity,
    restored_home: bool,
    restored_job: bool,
)
    requires
        call_ensures(HeldTickets::set_home, (tickets, held), ()),
        call_ensures(HeldTickets::home, (&*final(tickets),), home),
        call_ensures(HeldTickets::job_site, (&*final(tickets),), job_after_home),
        call_ensures(HeldTickets::set_job_site, (others, held), ()),
        call_ensures(HeldTickets::job_site, (&*final(others),), job),
        call_ensures(HeldTickets::home, (&*final(others),), home_after_job),
        call_ensures(
            VillagerEntity::restore_held_tickets,
            (villager, restored_home, restored_job),
            (),
        ),
    ensures
        home == held,
        job == held,
        job_after_home == old(tickets).spec_job_site(),
        home_after_job == old(others).spec_home(),
        final(villager).held_tickets.spec_home() == restored_home,
        final(villager).held_tickets.spec_job_site() == restored_job,
        final(villager).home_pos == old(villager).home_pos,
        final(villager).job_site == old(villager).job_site,
{
}

/// Law: a claim to a workplace stands while its ticket is held or can be had, and then it is held and the
/// place is the villager's; the bed is not touched.
pub proof fn law_workplace_stands_while_it_is_held(
    villager: &mut VillagerEntity,
    storage: &mut PoiStorage,
    pos: BlockPos,
    r: bool,
)
    requires
        call_ensures(VillagerEntity::ensure_job_site_ticket, (villager, storage, pos), r),
    ensures
        old(villager).held_tickets.spec_job_site() ==> r && *final(villager) == *old(villager),
        r ==> final(villager).held_tickets.spec_job_site(),
        r && !old(villager).held_tickets.spec_job_site() ==> final(villager).job_site == Some(pos),
        !r ==> *final(villager) == *old(villager) && final(storage).entries@ == old(storage).entries@,
        final(villager).home_pos == old(villager).home_pos,
        final(villager).held_tickets.spec_home() == old(villager).held_tickets.spec_home(),
        old(storage).entries@.len() == 0 && !old(villager).held_tickets.spec_job_site() ==> !r,
{
}

} // verus!
