//! The places that a path is made of.

use vstd::prelude::*;

use crate::data::position::BlockPos;
use crate::data::rank::Rank32;

verus! {

/// What a mob finds at a place: the kinds that a rule names, and the others by
/// number.
#[derive(Clone, Copy, Debug, PartialEq, Eq, Structural)]
pub enum PathType {
    Walkable,
    Water,
    WaterBorder,
    Other(u8),
}

/// A place that a search has seen.
#[derive(Clone, Copy, Debug, PartialEq, Eq, Structural)]
pub struct Node {
    pub pos: BlockPos,
    /// The place before this one.
    pub came_from: Option<BlockPos>,
    pub path_type: PathType,
    /// What entering the place costs on top of the distance.
    pub cost_malus: Rank32,
    /// The cost of the way so far.
    pub g: Rank32,
    /// The cost of the way so far and the estimate of what is left.
    pub f: Rank32,
    /// The length of the way so far.
    pub walked_dist: Rank32,
    /// Whether the search is done with the place.
    pub closed: bool,
}

/// Whether a search may go from one place on to another: not into one that it is
/// done with, and not from a place that can be entered into one that cannot.
pub fn is_neighbor_valid(neighbor: Option<&Node>, current: &Node) -> (r: bool)
    ensures
        r == match neighbor {
            Some(neighbor) => !neighbor.closed && (neighbor.cost_malus >= 0 || current.cost_malus
                < 0),
            None => false,
        },
{
    match neighbor {
        Some(neighbor) => !neighbor.closed && (neighbor.cost_malus >= 0 || current.cost_malus < 0),
        None => false,
    }
}

/// What it costs extra to enter places, by what a mob finds there.
pub struct MalusTable {
    entries: Vec<(PathType, Rank32)>,
}

/// The extra cost that the entries give to the kind of place: the first one counts.
pub open spec fn first_malus(entries: Seq<(PathType, Rank32)>, path_type: PathType) -> Option<
    Rank32,
>
    decreases entries.len(),
{
    if entries.len() == 0 {
        None
    } else if entries.first().0 == path_type {
        Some(entries.first().1)
    } else {
        first_malus(entries.skip(1), path_type)
    }
}

/// The first entry for a kind of place is found from any place before it.
proof fn lemma_first_malus_from(entries: Seq<(PathType, Rank32)>, path_type: PathType, k: int)
    requires
        0 <= k <= entries.len(),
        forall|j: int| 0 <= j < k ==> (#[trigger] entries[j]).0 != path_type,
    ensures
        first_malus(entries, path_type) == first_malus(entries.skip(k), path_type),
    decreases k,
{
    if k == 0 {
        assert(entries.skip(0) =~= entries);
    } else {
        lemma_first_malus_from(entries, path_type, k - 1);
        assert(entries.skip(k - 1).skip(1) =~= entries.skip(k));
        assert(entries.skip(k - 1).first() == entries[k - 1]);
    }
}

/// Changing the first entry of a kind changes what is found for that kind alone.
proof fn lemma_first_malus_updated(
    entries: Seq<(PathType, Rank32)>,
    k: int,
    malus: Rank32,
    path_type: PathType,
)
    requires
        0 <= k < entries.len(),
        forall|j: int| 0 <= j < k ==> (#[trigger] entries[j]).0 != entries[k].0,
    ensures
        first_malus(entries.update(k, (entries[k].0, malus)), path_type) == (if path_type
            == entries[k].0 {
            Some(malus)
        } else {
            first_malus(entries, path_type)
        }),
    decreases entries.len(),
{
    let changed = entries.update(k, (entries[k].0, malus));
    if k > 0 {
        let rest = entries.skip(1);
        assert(rest[k - 1] == entries[k]);
        assert forall|j: int| 0 <= j < k - 1 implies (#[trigger] rest[j]).0 != rest[k - 1].0 by {
            assert(rest[j] == entries[j + 1]);
        }
        lemma_first_malus_updated(rest, k - 1, malus, path_type);
        assert(changed.skip(1) =~= rest.update(k - 1, (rest[k - 1].0, malus)));
        assert(changed.first() == entries.first());
        assert(entries[0].0 != entries[k].0);
    } else {
        assert(changed.skip(1) =~= entries.skip(1));
    }
}

/// A new entry at the end is found where no other is.
proof fn lemma_first_malus_pushed(
    entries: Seq<(PathType, Rank32)>,
    entry: (PathType, Rank32),
    path_type: PathType,
)
    ensures
        first_malus(entries.push(entry), path_type) == (if first_malus(entries, path_type) is Some {
            first_malus(entries, path_type)
        } else if path_type == entry.0 {
            Some(entry.1)
        } else {
            None
        }),
    decreases entries.len(),
{
    let longer = entries.push(entry);
    if entries.len() == 0 {
        assert(longer.skip(1) =~= entries);
        assert(longer.first() == entry);
    } else {
        lemma_first_malus_pushed(entries.skip(1), entry, path_type);
        assert(longer.skip(1) =~= entries.skip(1).push(entry));
        assert(longer.first() == entries.first());
    }
}

impl MalusTable {
    /// The extra cost that the table gives to the kind of place.
    pub closed spec fn spec_get(self, path_type: PathType) -> Option<Rank32> {
        first_malus(self.entries@, path_type)
    }

    /// The table after others have been copied over it says what it said, of every kind of
    /// place of which they say nothing.
    pub open spec fn keeps_unless(self, overrides: MalusTable, after: MalusTable) -> bool {
        forall|path_type: PathType|
            overrides.spec_get(path_type) is None ==> #[trigger] after.spec_get(path_type)
                == self.spec_get(path_type)
    }

    /// A table that says nothing.
    pub fn new() -> (r: Self)
        ensures
            forall|path_type: PathType| #[trigger] r.spec_get(path_type) is None,
    {
        MalusTable { entries: Vec::new() }
    }

    /// The extra cost that the table gives to the kind of place, where it gives one.
    pub fn get(&self, path_type: PathType) -> (r: Option<Rank32>)
        ensures
            r == self.spec_get(path_type),
    {
        match self.find(path_type) {
            Some(i) => {
                proof {
                    lemma_first_malus_from(self.entries@, path_type, i as int);
                }
                Some(self.entries[i].1)
            },
            None => {
                proof {
                    lemma_first_malus_from(
                        self.entries@,
                        path_type,
                        self.entries@.len() as int,
                    );
                }
                None
            },
        }
    }

    /// Where the first entry for the kind of place stands.
    fn find(&self, path_type: PathType) -> (r: Option<usize>)
        ensures
            r matches Some(i) ==> {
                &&& i < self.entries@.len()
                &&& self.entries@[i as int].0 == path_type
                &&& forall|j: int| 0 <= j < i ==> (#[trigger] self.entries@[j]).0 != path_type
            },
            r is None ==> forall|j: int|
                0 <= j < self.entries@.len() ==> (#[trigger] self.entries@[j]).0 != path_type,
    {
        let mut i: usize = 0;
        while i < self.entries.len()
            invariant
                i <= self.entries@.len(),
                forall|j: int| 0 <= j < i ==> (#[trigger] self.entries@[j]).0 != path_type,
            decreases self.entries.len() - i,
        {
            if self.entries[i].0 == path_type {
                return Some(i);
            }
            i = i + 1;
        }
        None
    }

    /// Gives the kind of place the extra cost, and leaves all others as they are.
    pub fn set(&mut self, path_type: PathType, malus: Rank32)
        ensures
            final(self).spec_get(path_type) == Some(malus),
            forall|other: PathType|
                other != path_type ==> #[trigger] final(self).spec_get(other) == old(
                    self,
                ).spec_get(other),
    {
        let ghost before = self.entries@;
        match self.find(path_type) {
            Some(i) => {
                self.entries.set(i, (path_type, malus));
                proof {
                    assert forall|kind: PathType| #[trigger] self.spec_get(kind) == (if kind
                        == path_type {
                        Some(malus)
                    } else {
                        first_malus(before, kind)
                    }) by {
                        lemma_first_malus_updated(before, i as int, malus, kind);
                    }
                }
            },
            None => {
                self.entries.push((path_type, malus));
                proof {
                    lemma_first_malus_from(before, path_type, before.len() as int);
                    assert forall|kind: PathType| #[trigger] self.spec_get(kind) == (if kind
                        == path_type {
                        Some(malus)
                    } else {
                        first_malus(before, kind)
                    }) by {
                        lemma_first_malus_pushed(before, (path_type, malus), kind);
                    }
                }
            },
        }
    }

    /// Copies all that `overrides` says over what the table says.
    pub fn apply(&mut self, overrides: &MalusTable)
        ensures
            forall|path_type: PathType| #[trigger]
                final(self).spec_get(path_type) == (if overrides.spec_get(path_type) is Some {
                    overrides.spec_get(path_type)
                } else {
                    old(self).spec_get(path_type)
                }),
            old(self).keeps_unless(*overrides, *final(self)),
    {
        let mut i: usize = overrides.entries.len();
        assert(overrides.entries@.skip(i as int) =~= Seq::<(PathType, Rank32)>::empty());
        while i > 0
            invariant
                i <= overrides.entries@.len(),
                forall|path_type: PathType| #[trigger]
                    self.spec_get(path_type) == (if first_malus(
                        overrides.entries@.skip(i as int),
                        path_type,
                    ) is Some {
                        first_malus(overrides.entries@.skip(i as int), path_type)
                    } else {
                        old(self).spec_get(path_type)
                    }),
            decreases i,
        {
            i = i - 1;
            proof {
                assert(overrides.entries@.skip(i as int).skip(1) =~= overrides.entries@.skip(
                    i as int + 1,
                ));
                assert(overrides.entries@.skip(i as int).first() == overrides.entries@[i as int]);
            }
            let entry: (PathType, Rank32) = overrides.entries[i];
            self.set(entry.0, entry.1);
        }
        assert(overrides.entries@.skip(0) =~= overrides.entries@);
    }
}

/// A path: places to go to in turn.
pub struct Path {
    pub nodes: Vec<Node>,
    /// The place to go to next.
    pub next_index: usize,
    /// Where the path was to lead.
    pub target: BlockPos,
    /// Whether it leads there.
    pub reached: bool,
}

impl Path {
    /// A path through the places.
    pub fn new(nodes: Vec<Node>, target: BlockPos, reached: bool) -> (r: Self)
        ensures
            r == (Path { nodes, next_index: 0, target, reached }),
    {
        Path { nodes, next_index: 0, target, reached }
    }

    /// The place to go to next.
    pub open spec fn spec_next(self) -> Option<BlockPos> {
        if self.next_index < self.nodes@.len() {
            Some(self.nodes@[self.next_index as int].pos)
        } else {
            None
        }
    }

    /// The path a place further on.
    pub open spec fn advanced(self) -> Path {
        Path { next_index: (self.next_index + 1) as usize, ..self }
    }

    /// Whether no place is left to go to.
    pub fn is_done(&self) -> (r: bool)
        ensures
            r == (self.spec_next() is None),
    {
        self.next_index >= self.nodes.len()
    }

    /// The place to go to next.
    pub fn get_next_node_pos(&self) -> (r: Option<BlockPos>)
        ensures
            r == self.spec_next(),
    {
        if self.next_index < self.nodes.len() {
            Some(self.nodes[self.next_index].pos)
        } else {
            None
        }
    }

    /// Goes on to the next place.
    pub fn advance(&mut self)
        requires
            old(self).spec_next() is Some,
        ensures
            *final(self) == old(self).advanced(),
    {
        if self.next_index < self.nodes.len() {
            self.next_index = self.next_index + 1;
        }
    }
}

/// Law: a search goes on to a known place that it is not done with, and out of a place that can be
/// entered only into another such place.
pub proof fn law_where_a_search_goes_on(neighbor: Option<&Node>, current: Node, r: bool)
    requires
        call_ensures(is_neighbor_valid, (neighbor, &current), r),
    ensures
        neighbor is None ==> !r,
        neighbor is Some && neighbor->0.closed ==> !r,
        neighbor is Some && neighbor->0.cost_malus < 0 && current.cost_malus >= 0 ==> !r,
        neighbor is Some && !neighbor->0.closed && neighbor->0.cost_malus >= 0 ==> r,
        neighbor is Some && !neighbor->0.closed && current.cost_malus < 0 ==> r,
{
}

/// Law: a path leads through its places from the first to the last, and is done after as many steps
/// as it has places.
pub proof fn law_path_goes_place_by_place(
    path: &mut Path,
    next: Option<BlockPos>,
    done: bool,
    after: Option<BlockPos>,
    nodes: Vec<Node>,
    target: BlockPos,
    reached: bool,
    made: Path,
)
    requires
        call_ensures(Path::get_next_node_pos, (&*old(path),), next),
        call_ensures(Path::is_done, (&*old(path),), done),
        old(path).next_index < old(path).nodes@.len() <= usize::MAX,
        call_ensures(Path::advance, (path,), ()),
        call_ensures(Path::get_next_node_pos, (&*final(path),), after),
        call_ensures(Path::new, (nodes, target, reached), made),
    ensures
        !done,
        next == Some(old(path).nodes@[old(path).next_index as int].pos),
        final(path).next_index == old(path).next_index + 1,
        final(path).nodes == old(path).nodes,
        final(path).target == old(path).target,
        after is None <==> old(path).next_index + 1 == old(path).nodes@.len(),
        after is Some ==> after->0 == old(path).nodes@[old(path).next_index + 1].pos,
        made.nodes@ == nodes@,
        made.next_index == 0,
        made.target == target,
        made.reached == reached,
{
}

/// Law: what is copied over a table counts before what the table said, and where it says nothing that
/// stays.
pub proof fn law_overrides_come_first(
    overrides: MalusTable,
    table: &mut MalusTable,
    path_type: PathType,
)
    requires
        call_ensures(MalusTable::apply, (table, &overrides), ()),
    ensures
        overrides.spec_get(path_type) is Some ==> final(table).spec_get(path_type)
            == overrides.spec_get(path_type),
        overrides.spec_get(path_type) is None ==> final(table).spec_get(path_type) == old(table).spec_get(path_type),
{
}

/// Law: what is set of a kind of place is what is found of it, and of every other
/// kind what was found before.
pub proof fn law_table_says_what_was_set(
    table: &mut MalusTable,
    path_type: PathType,
    malus: Rank32,
    found: Option<Rank32>,
    other: PathType,
    others: Option<Rank32>,
    before: Option<Rank32>,
)
    requires
        call_ensures(MalusTable::set, (table, path_type, malus), ()),
        call_ensures(MalusTable::get, (&*final(table), path_type), found),
        call_ensures(MalusTable::get, (&*final(table), other), others),
        call_ensures(MalusTable::get, (&*old(table), other), before),
    ensures
        found == Some(malus),
        other != path_type ==> others == before,
{
}

} // verus!
