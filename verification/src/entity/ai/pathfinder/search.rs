//! The search for a path: best first, by the cost of the way so far and an
//! estimate of what is left.
//!
//! A search goes in rounds. [`PathSearch::visit`] picks the next place; the
//! caller looks around there and hands every neighbour to
//! [`PathSearch::relax`]. Once no place is left to visit, the target has been
//! reached or enough places have been seen, [`PathSearch::finish`] puts the path
//! together.

use vstd::prelude::*;

use super::node::{Node, Path, PathType};
use crate::data::position::BlockPos;
use crate::data::rank::{max32, rank_max, Rank32};

verus! {

/// A path may be at least this long (16.0).
pub const REQUIRED_PATH_LENGTH: Rank32 = 0x4180_0000;

/// A path that leads to a place ends next to it.
pub const DEFAULT_REACH_RANGE: i32 = 1;

/// How long a path may be, for a mob that follows others over the given range.
pub fn max_path_length(follow_range: Rank32) -> (r: Rank32)
    ensures
        r == rank_max(follow_range as int, REQUIRED_PATH_LENGTH as int),
{
    max32(follow_range, REQUIRED_PATH_LENGTH)
}

/// The distance between two places, along the axes.
pub open spec fn manhattan(a: BlockPos, b: BlockPos) -> int {
    axis_distance(a.x, b.x) + axis_distance(a.y, b.y) + axis_distance(a.z, b.z)
}

/// The distance along one axis.
pub open spec fn axis_distance(a: i32, b: i32) -> int {
    if a >= b {
        a - b
    } else {
        b - a
    }
}

/// The distance along one axis.
fn axis_gap(a: i32, b: i32) -> (r: i64)
    ensures
        r == axis_distance(a, b),
        0 <= r <= 0xFFFF_FFFF,
{
    if a >= b {
        a as i64 - b as i64
    } else {
        b as i64 - a as i64
    }
}

/// A neighbour of the place being visited, and what the way to it through that
/// place comes to.
#[derive(Clone, Copy, Debug, PartialEq, Eq, Structural)]
pub struct Neighbor {
    pub pos: BlockPos,
    pub path_type: PathType,
    pub cost_malus: Rank32,
    /// The length of the way.
    pub walked_dist: Rank32,
    /// The cost of the way.
    pub tentative_g: Rank32,
    /// The distance from the neighbour to the target.
    pub dist_to_target: Rank32,
    /// The cost of the way and the estimate of what is left.
    pub f: Rank32,
}

/// The place nearest to the target that a search has seen.
#[derive(Clone, Copy, Debug, PartialEq, Eq, Structural)]
pub struct Best {
    pub distance: Rank32,
    pub node: Node,
}

/// What a round of a search comes to.
#[derive(Clone, Copy, Debug, PartialEq, Eq, Structural)]
pub enum Visit {
    /// The search is over.
    Done,
    /// The caller is to look around at the place.
    Expand(Node),
}

/// A search for a path.
pub struct PathSearch {
    pub target: BlockPos,
    pub reach_range: i32,
    pub max_path_length: Rank32,
    /// The search is over once it has seen this many places.
    pub max_visited: usize,
    pub count: usize,
    /// The places still to be visited.
    pub open: Vec<Node>,
    /// The places that the search is done with, in the order in which it came to them.
    pub closed: Vec<Node>,
    pub best: Best,
    pub reached: bool,
}

/// The place is that of one of the nodes.
pub open spec fn holds_pos(nodes: Seq<Node>, pos: BlockPos) -> bool {
    exists|i: int| 0 <= i < nodes.len() && #[trigger] nodes[i].pos == pos
}

/// No two of the nodes are at one place.
pub open spec fn places_distinct(nodes: Seq<Node>) -> bool {
    forall|i: int, j: int|
        0 <= i < j < nodes.len() ==> #[trigger] nodes[i].pos != #[trigger] nodes[j].pos
}

/// Where the node at the place stands.
pub open spec fn index_of_pos(nodes: Seq<Node>, pos: BlockPos) -> int {
    choose|i: int| 0 <= i < nodes.len() && #[trigger] nodes[i].pos == pos
}

/// The node comes from one of the places that the search is done with, or is where
/// it started.
pub open spec fn comes_from(closed: Seq<Node>, node: Node) -> bool {
    node.came_from matches Some(pos) ==> holds_pos(closed, pos)
}

/// The search started at the first of the places that it is done with, and every
/// other one of them comes from one before it.
pub open spec fn is_tree(closed: Seq<Node>) -> bool {
    &&& forall|i: int|
        0 <= i < closed.len() ==> comes_from(closed.take(i), #[trigger] closed[i])
    &&& forall|i: int|
        0 < i < closed.len() ==> (#[trigger] closed[i]).came_from is Some
}

/// The way to the node: the places that it leads through, from where the search
/// started.
pub open spec fn way_to(closed: Seq<Node>, node: Node) -> Seq<Node>
    decreases closed.len(),
{
    match node.came_from {
        None => seq![node],
        Some(pos) => {
            let k = index_of_pos(closed, pos);
            if holds_pos(closed, pos) {
                way_to(closed.take(k), closed[k]).push(node)
            } else {
                seq![node]
            }
        },
    }
}

/// The way to a place leads from place to place: each one is where the next one
/// comes from, it begins where the search started, and it passes no place twice.
pub open spec fn is_way(nodes: Seq<Node>) -> bool {
    &&& nodes.len() > 0
    &&& nodes[0].came_from is None
    &&& forall|i: int|
        0 < i < nodes.len() ==> (#[trigger] nodes[i]).came_from == Some(nodes[i - 1].pos)
    &&& places_distinct(nodes)
}

/// The node at a place is found where it stands.
proof fn lemma_index_of_pos(nodes: Seq<Node>, i: int)
    requires
        places_distinct(nodes),
        0 <= i < nodes.len(),
    ensures
        holds_pos(nodes, nodes[i].pos),
        index_of_pos(nodes, nodes[i].pos) == i,
{
    let pos = nodes[i].pos;
    let k = index_of_pos(nodes, pos);
    assert(nodes[i].pos == pos);
    assert(0 <= k < nodes.len() && nodes[k].pos == pos);
    if k < i {
        assert(nodes[k].pos != nodes[i].pos);
    } else if i < k {
        assert(nodes[i].pos != nodes[k].pos);
    }
}

/// The first nodes of distinct places are at distinct places.
proof fn lemma_prefix_distinct(nodes: Seq<Node>, k: int)
    requires
        places_distinct(nodes),
        0 <= k <= nodes.len(),
    ensures
        places_distinct(nodes.take(k)),
{
    let prefix = nodes.take(k);
    assert forall|i: int, j: int| 0 <= i < j < prefix.len() implies #[trigger] prefix[i].pos
        != #[trigger] prefix[j].pos by {
        assert(prefix[i] == nodes[i]);
        assert(prefix[j] == nodes[j]);
    }
}

/// The first nodes of a tree are a tree.
proof fn lemma_prefix_tree(closed: Seq<Node>, k: int)
    requires
        is_tree(closed),
        0 <= k <= closed.len(),
    ensures
        is_tree(closed.take(k)),
{
    let prefix = closed.take(k);
    assert forall|i: int| 0 <= i < prefix.len() implies comes_from(
        prefix.take(i),
        #[trigger] prefix[i],
    ) by {
        assert(prefix.take(i) =~= closed.take(i));
        assert(prefix[i] == closed[i]);
    }
    assert forall|i: int| 0 < i < prefix.len() implies (#[trigger] prefix[i]).came_from is Some by {
        assert(prefix[i] == closed[i]);
    }
}

/// The node is at none of the places that the way to it leads through.
pub open spec fn off_its_way(closed: Seq<Node>, node: Node) -> bool {
    node.came_from matches Some(pos) ==> !holds_pos(
        closed.take(index_of_pos(closed, pos) + 1),
        node.pos,
    )
}

/// In a tree, the way to a node that comes from it is a way, and it ends with the
/// node.
proof fn lemma_way_is_way(closed: Seq<Node>, node: Node)
    requires
        is_tree(closed),
        places_distinct(closed),
        comes_from(closed, node),
        off_its_way(closed, node),
    ensures
        is_way(way_to(closed, node)),
        way_to(closed, node).last() == node,
        forall|i: int|
            0 <= i < way_to(closed, node).len() - 1 ==> holds_pos(
                closed,
                (#[trigger] way_to(closed, node)[i]).pos,
            ),
    decreases closed.len(),
{
    if let Some(pos) = node.came_from {
        let k = index_of_pos(closed, pos);
        assert(0 <= k < closed.len() && closed[k].pos == pos);
        let rest = closed.take(k);
        let parent = closed[k];
        lemma_prefix_distinct(closed, k);
        lemma_prefix_tree(closed, k);
        assert(comes_from(rest, parent));
        assert(off_its_way(rest, parent)) by {
            if let Some(before) = parent.came_from {
                let j = index_of_pos(rest, before);
                assert(0 <= j < rest.len() && rest[j].pos == before);
                let seen = rest.take(j + 1);
                if holds_pos(seen, parent.pos) {
                    let m = index_of_pos(seen, parent.pos);
                    assert(seen[m] == closed[m]);
                    assert(closed[m].pos != closed[k].pos);
                }
            }
        }
        lemma_way_is_way(rest, parent);
        let way = way_to(rest, parent);
        let whole = way_to(closed, node);
        assert(whole == way.push(node));
        assert forall|i: int| 0 <= i < whole.len() - 1 implies holds_pos(
            closed.take(k + 1),
            (#[trigger] whole[i]).pos,
        ) by {
            assert(whole[i] == way[i]);
            if i == way.len() - 1 {
                assert(closed.take(k + 1)[k].pos == whole[i].pos);
            } else {
                let m = index_of_pos(rest, way[i].pos);
                assert(rest[m].pos == way[i].pos);
                assert(closed.take(k + 1)[m] == rest[m]);
            }
        }
        assert forall|i: int| 0 <= i < whole.len() - 1 implies holds_pos(
            closed,
            (#[trigger] whole[i]).pos,
        ) by {
            let m = index_of_pos(closed.take(k + 1), whole[i].pos);
            assert(closed.take(k + 1)[m].pos == whole[i].pos);
            assert(closed[m].pos == whole[i].pos);
        }
        assert(places_distinct(whole)) by {
            assert forall|i: int, j: int| 0 <= i < j < whole.len() implies #[trigger] whole[i].pos
                != #[trigger] whole[j].pos by {
                assert(whole[i] == way[i]);
                if j < way.len() {
                    assert(whole[j] == way[j]);
                } else {
                    assert(holds_pos(closed.take(k + 1), whole[i].pos));
                }
            }
        }
        assert forall|i: int| 0 < i < whole.len() implies (#[trigger] whole[i]).came_from == Some(
            whole[i - 1].pos,
        ) by {
            if i < way.len() {
                assert(whole[i] == way[i]);
                assert(whole[i - 1] == way[i - 1]);
            } else {
                assert(whole[i - 1] == way.last());
            }
        }
        assert(whole[0] == way[0]);
    }
}

/// In a tree, the way to a node that comes from it begins where the search started.
proof fn lemma_way_begins(closed: Seq<Node>, node: Node)
    requires
        is_tree(closed),
        comes_from(closed, node),
        node.came_from is Some,
    ensures
        closed.len() > 0,
        way_to(closed, node).len() > 0,
        way_to(closed, node)[0] == closed[0],
    decreases closed.len(),
{
    let pos = node.came_from->0;
    let k = index_of_pos(closed, pos);
    assert(0 <= k < closed.len() && closed[k].pos == pos);
    let rest = closed.take(k);
    let parent = closed[k];
    lemma_prefix_tree(closed, k);
    assert(comes_from(rest, parent));
    if parent.came_from is Some {
        lemma_way_begins(rest, parent);
    } else {
        assert(k == 0);
        assert(way_to(rest, parent) == seq![parent]);
    }
    assert(way_to(closed, node) == way_to(rest, parent).push(node));
}

// ---------------------------------------------------------------------------
// The open places.
// ---------------------------------------------------------------------------

/// The place that comes next: one of the least `f`, and the first of those.
pub open spec fn is_least(nodes: Seq<Node>, i: int) -> bool {
    &&& 0 <= i < nodes.len()
    &&& forall|j: int| 0 <= j < nodes.len() ==> nodes[i].f <= (#[trigger] nodes[j]).f
    &&& forall|j: int| 0 <= j < i ==> nodes[i].f < (#[trigger] nodes[j]).f
}

/// Where the place that comes next stands.
pub open spec fn least_index(nodes: Seq<Node>) -> int {
    choose|i: int| is_least(nodes, i)
}

/// There is only one place that comes next.
proof fn lemma_least_is_unique(nodes: Seq<Node>, i: int)
    requires
        is_least(nodes, i),
    ensures
        least_index(nodes) == i,
{
    let k = least_index(nodes);
    assert(is_least(nodes, k));
    if k < i {
        assert(nodes[i].f < nodes[k].f);
    } else if i < k {
        assert(nodes[k].f < nodes[i].f);
    }
}

/// Where the place that comes next stands.
fn find_least(nodes: &Vec<Node>) -> (r: usize)
    requires
        nodes@.len() > 0,
    ensures
        is_least(nodes@, r as int),
        r == least_index(nodes@),
{
    let mut least: usize = 0;
    let mut i: usize = 1;
    while i < nodes.len()
        invariant
            least < i <= nodes@.len(),
            forall|j: int| 0 <= j < i ==> nodes@[least as int].f <= (#[trigger] nodes@[j]).f,
            forall|j: int| 0 <= j < least ==> nodes@[least as int].f < (#[trigger] nodes@[j]).f,
        decreases nodes.len() - i,
    {
        if nodes[i].f < nodes[least].f {
            least = i;
        }
        i = i + 1;
    }
    proof {
        lemma_least_is_unique(nodes@, least as int);
    }
    least
}

/// Where the node at the place stands.
fn find_pos(nodes: &Vec<Node>, pos: BlockPos) -> (r: Option<usize>)
    requires
        places_distinct(nodes@),
    ensures
        r is Some <==> holds_pos(nodes@, pos),
        r matches Some(i) ==> i < nodes@.len() && nodes@[i as int].pos == pos && i
            == index_of_pos(nodes@, pos),
{
    let mut i: usize = 0;
    while i < nodes.len()
        invariant
            i <= nodes@.len(),
            forall|j: int| 0 <= j < i ==> (#[trigger] nodes@[j]).pos != pos,
            places_distinct(nodes@),
        decreases nodes.len() - i,
    {
        if nodes[i].pos == pos {
            proof {
                lemma_index_of_pos(nodes@, i as int);
            }
            return Some(i);
        }
        i = i + 1;
    }
    None
}

// ---------------------------------------------------------------------------
// The search.
// ---------------------------------------------------------------------------

impl PathSearch {
    /// The search knows every place once, is done with the places that it comes from,
    /// and knows the way to each place.
    pub open spec fn wf(self) -> bool {
        &&& places_distinct(self.open@)
        &&& places_distinct(self.closed@)
        &&& forall|i: int|
            0 <= i < self.open@.len() ==> !holds_pos(self.closed@, (#[trigger] self.open@[i]).pos)
        &&& is_tree(self.closed@)
        &&& forall|i: int|
            0 <= i < self.open@.len() ==> comes_from(self.closed@, #[trigger] self.open@[i])
        &&& self.closed@.len() > 0 ==> forall|i: int|
            0 <= i < self.open@.len() ==> (#[trigger] self.open@[i]).came_from is Some
        &&& self.closed@.len() == 0 ==> self.open@.len() <= 1
        &&& comes_from(self.closed@, self.best.node)
        &&& off_its_way(self.closed@, self.best.node)
        &&& self.closed@.len() <= self.count <= self.max_visited
    }

    /// The search began at the start, at the given distance from the target: that is the first
    /// place that it is done with, or is still to visit, and the place nearest to the target
    /// is no farther from it.
    pub open spec fn spec_begun(self, start: BlockPos, start_distance: Rank32) -> bool {
        &&& self.closed@.len() > 0 ==> self.closed@[0].pos == start
        &&& self.closed@.len() == 0 ==> forall|i: int|
            0 <= i < self.open@.len() ==> (#[trigger] self.open@[i]).pos == start
        &&& self.best.node.came_from is None ==> self.best.node.pos == start
        &&& self.best.distance <= start_distance
    }

    /// A search from the start, which is at the given distance from the target.
    pub fn new(
        start: BlockPos,
        path_type: PathType,
        cost_malus: Rank32,
        start_distance: Rank32,
        target: BlockPos,
        reach_range: i32,
        max_path_length: Rank32,
        max_visited: usize,
    ) -> (r: Self)
        ensures
            r.wf(),
            r.spec_begun(start, start_distance),
            r.target == target,
            r.reach_range == reach_range,
            r.max_path_length == max_path_length,
            r.max_visited == max_visited,
            r.count == 0,
            r.closed@ == Seq::<Node>::empty(),
            !r.reached,
            r.best.distance == start_distance,
            r.best.node == (Node {
                pos: start,
                came_from: None,
                path_type,
                cost_malus,
                g: 0,
                f: start_distance,
                walked_dist: 0,
                closed: false,
            }),
            r.open@ == seq![r.best.node],
    {
        let node: Node = Node {
            pos: start,
            came_from: None,
            path_type,
            cost_malus,
            g: 0,
            f: start_distance,
            walked_dist: 0,
            closed: false,
        };
        let mut open: Vec<Node> = Vec::new();
        open.push(node);
        PathSearch {
            target,
            reach_range,
            max_path_length,
            max_visited,
            count: 0,
            open,
            closed: Vec::new(),
            best: Best { distance: start_distance, node },
            reached: false,
        }
    }

    /// The search goes on: there is a place to visit, and not enough places have been
    /// seen.
    pub open spec fn spec_goes_on(self) -> bool {
        self.open@.len() > 0 && self.count + 1 < self.max_visited
    }

    /// The place that the next round visits, as the search is done with it.
    pub open spec fn spec_visited(self) -> Node {
        Node { closed: true, ..self.open@[least_index(self.open@)] }
    }

    /// Goes a round further: takes the place with the least cost out of those still to
    /// be visited. It is over if that place is near enough to the target.
    pub fn visit(&mut self) -> (r: Visit)
        requires
            old(self).wf(),
        ensures
            final(self).wf(),
            forall|start: BlockPos, start_distance: Rank32| #[trigger]
                old(self).spec_begun(start, start_distance) ==> final(self).spec_begun(
                    start,
                    start_distance,
                ),
            final(self).target == old(self).target,
            final(self).reach_range == old(self).reach_range,
            final(self).max_path_length == old(self).max_path_length,
            final(self).max_visited == old(self).max_visited,
            final(self).best == old(self).best,
            !old(self).spec_goes_on() ==> {
                &&& r == Visit::Done
                &&& final(self).count == (if old(self).open@.len() > 0 && old(self).count
                    < old(self).max_visited {
                    old(self).count + 1
                } else {
                    old(self).count as int
                })
                &&& final(self).open@ == old(self).open@
                &&& final(self).closed@ == old(self).closed@
                &&& final(self).reached == old(self).reached
            },
            old(self).spec_goes_on() ==> {
                &&& final(self).count == old(self).count + 1
                &&& final(self).open@ == old(self).open@.remove(least_index(old(self).open@))
                &&& final(self).closed@ == old(self).closed@.push(old(self).spec_visited())
                &&& manhattan(old(self).spec_visited().pos, old(self).target) <= old(
                    self,
                ).reach_range ==> r == Visit::Done && final(self).reached
                &&& manhattan(old(self).spec_visited().pos, old(self).target) > old(
                    self,
                ).reach_range ==> r == Visit::Expand(old(self).spec_visited())
                    && final(self).reached == old(self).reached
            },
    {
        if self.open.len() == 0 {
            return Visit::Done;
        }
        if self.count < self.max_visited {
            self.count = self.count + 1;
        }
        if self.count >= self.max_visited {
            return Visit::Done;
        }
        let ghost open = self.open@;
        let ghost closed = self.closed@;
        let least: usize = find_least(&self.open);
        let mut current: Node = self.open.remove(least);
        let ghost taken = current;
        current.closed = true;
        self.closed.push(current);
        proof {
            assert(open[least as int] == taken);
            self.lemma_visited(open, closed, least as int, current);
        }
        let distance: i64 = axis_gap(current.pos.x, self.target.x) + axis_gap(
            current.pos.y,
            self.target.y,
        ) + axis_gap(current.pos.z, self.target.z);
        if distance <= self.reach_range as i64 {
            self.reached = true;
            return Visit::Done;
        }
        Visit::Expand(current)
    }

    /// Visiting a place keeps the search in order.
    proof fn lemma_visited(self, open: Seq<Node>, closed: Seq<Node>, least: int, current: Node)
        requires
            0 <= least < open.len(),
            current == (Node { closed: true, ..open[least] }),
            self.open@ == open.remove(least),
            self.closed@ == closed.push(current),
            places_distinct(open),
            places_distinct(closed),
            forall|i: int|
                0 <= i < open.len() ==> !holds_pos(closed, (#[trigger] open[i]).pos),
            is_tree(closed),
            forall|i: int| 0 <= i < open.len() ==> comes_from(closed, #[trigger] open[i]),
            closed.len() > 0 ==> forall|i: int|
                0 <= i < open.len() ==> (#[trigger] open[i]).came_from is Some,
            closed.len() == 0 ==> open.len() <= 1,
            comes_from(closed, self.best.node),
            off_its_way(closed, self.best.node),
            closed.len() < self.count <= self.max_visited,
        ensures
            self.wf(),
    {
        let left = self.open@;
        let done = self.closed@;
        let last = closed.len() as int;
        assert(places_distinct(left)) by {
            assert forall|i: int, j: int| 0 <= i < j < left.len() implies #[trigger] left[i].pos
                != #[trigger] left[j].pos by {
                let i2 = if i < least {
                    i
                } else {
                    i + 1
                };
                let j2 = if j < least {
                    j
                } else {
                    j + 1
                };
                assert(open[i2].pos != open[j2].pos);
            }
        }
        assert(places_distinct(done)) by {
            assert forall|i: int, j: int| 0 <= i < j < done.len() implies #[trigger] done[i].pos
                != #[trigger] done[j].pos by {
                assert(done[i] == closed[i]);
                if j < last {
                    assert(done[j] == closed[j]);
                } else {
                    assert(!holds_pos(closed, open[least].pos));
                }
            }
        }
        assert forall|i: int| 0 <= i < left.len() implies !holds_pos(
            done,
            (#[trigger] left[i]).pos,
        ) && comes_from(done, left[i]) by {
            let j = if i < least {
                i
            } else {
                i + 1
            };
            assert(open[j] == left[i]);
            if holds_pos(done, left[i].pos) {
                let m = index_of_pos(done, left[i].pos);
                if m < last {
                    assert(closed[m].pos == open[j].pos);
                    assert(holds_pos(closed, open[j].pos));
                } else {
                    assert(open[least].pos == open[j].pos);
                    if least < j {
                        assert(open[least].pos != open[j].pos);
                    } else {
                        assert(open[j].pos != open[least].pos);
                    }
                }
            }
            assert(comes_from(closed, open[j]));
            if let Some(pos) = left[i].came_from {
                let m = index_of_pos(closed, pos);
                assert(done[m].pos == pos);
            }
        }
        assert(is_tree(done)) by {
            assert forall|i: int| 0 <= i < done.len() implies comes_from(
                done.take(i),
                #[trigger] done[i],
            ) by {
                assert(done.take(i) =~= closed.take(i));
                if i < last {
                    assert(done[i] == closed[i]);
                } else {
                    assert(closed.take(i) =~= closed);
                    assert(comes_from(closed, open[least]));
                }
            }
            assert forall|i: int| 0 < i < done.len() implies (
            #[trigger] done[i]).came_from is Some by {
                if i < last {
                    assert(done[i] == closed[i]);
                } else {
                    assert(open[least].came_from is Some);
                }
            }
        }
        if closed.len() == 0 {
            assert(left.len() == 0);
        } else {
            assert forall|i: int| 0 <= i < left.len() implies (
            #[trigger] left[i]).came_from is Some by {
                let j = if i < least {
                    i
                } else {
                    i + 1
                };
                assert(open[j] == left[i]);
                assert(open[j].came_from is Some);
            }
        }
        if let Some(pos) = self.best.node.came_from {
            let m = index_of_pos(closed, pos);
            assert(closed[m].pos == pos);
            assert(done[m].pos == pos);
            lemma_index_of_pos(done, m);
            assert(done.take(m + 1) =~= closed.take(m + 1));
        }
    }

    /// Whether a place is near enough to the start to be looked around at.
    pub fn may_expand(&self, distance_from_start: Rank32) -> (r: bool)
        ensures
            r == (distance_from_start < self.max_path_length),
    {
        distance_from_start < self.max_path_length
    }

    /// The neighbour as the place last visited leads to it.
    pub open spec fn spec_reached_node(self, neighbor: Neighbor) -> Node {
        Node {
            pos: neighbor.pos,
            came_from: Some(self.closed@.last().pos),
            path_type: neighbor.path_type,
            cost_malus: neighbor.cost_malus,
            g: neighbor.tentative_g,
            f: neighbor.f,
            walked_dist: neighbor.walked_dist,
            closed: false,
        }
    }

    /// The way to the neighbour is worth keeping: the search is not done with it, the
    /// way is not too long, and it is cheaper than any way there known so far.
    pub open spec fn spec_improves(self, neighbor: Neighbor) -> bool {
        &&& !holds_pos(self.closed@, neighbor.pos)
        &&& neighbor.walked_dist < self.max_path_length
        &&& holds_pos(self.open@, neighbor.pos) ==> neighbor.tentative_g < self.open@[index_of_pos(
            self.open@,
            neighbor.pos,
        )].g
    }

    /// Notes the way to a neighbour of the place last visited, if it is worth keeping.
    pub fn relax(&mut self, neighbor: &Neighbor)
        requires
            old(self).wf(),
            old(self).closed@.len() > 0,
        ensures
            final(self).wf(),
            forall|start: BlockPos, start_distance: Rank32| #[trigger]
                old(self).spec_begun(start, start_distance) ==> final(self).spec_begun(
                    start,
                    start_distance,
                ),
            final(self).target == old(self).target,
            final(self).reach_range == old(self).reach_range,
            final(self).max_path_length == old(self).max_path_length,
            final(self).max_visited == old(self).max_visited,
            final(self).count == old(self).count,
            final(self).reached == old(self).reached,
            final(self).closed@ == old(self).closed@,
            final(self).open@ == (if !old(self).spec_improves(*neighbor) {
                old(self).open@
            } else if holds_pos(old(self).open@, neighbor.pos) {
                old(self).open@.update(
                    index_of_pos(old(self).open@, neighbor.pos),
                    old(self).spec_reached_node(*neighbor),
                )
            } else {
                old(self).open@.push(old(self).spec_reached_node(*neighbor))
            }),
            final(self).best == (if old(self).spec_improves(*neighbor) && neighbor.dist_to_target
                < old(self).best.distance {
                Best {
                    distance: neighbor.dist_to_target,
                    node: old(self).spec_reached_node(*neighbor),
                }
            } else {
                old(self).best
            }),
    {
        if find_pos(&self.closed, neighbor.pos).is_some() {
            return;
        }
        let known: Option<usize> = find_pos(&self.open, neighbor.pos);
        let cheaper: bool = match known {
            Some(i) => neighbor.tentative_g < self.open[i].g,
            None => true,
        };
        if !(neighbor.walked_dist < self.max_path_length && cheaper) {
            return;
        }
        let last: usize = self.closed.len() - 1;
        let node: Node = Node {
            pos: neighbor.pos,
            came_from: Some(self.closed[last].pos),
            path_type: neighbor.path_type,
            cost_malus: neighbor.cost_malus,
            g: neighbor.tentative_g,
            f: neighbor.f,
            walked_dist: neighbor.walked_dist,
            closed: false,
        };
        let ghost open = self.open@;
        let ghost closed = self.closed@;
        proof {
            lemma_index_of_pos(closed, last as int);
            assert(closed.take(last as int + 1) =~= closed);
        }
        if neighbor.dist_to_target < self.best.distance {
            self.best = Best { distance: neighbor.dist_to_target, node };
        }
        match known {
            Some(i) => {
                self.open.set(i, node);
                proof {
                    let after = self.open@;
                    assert forall|a: int, b: int| 0 <= a < b < after.len() implies #[trigger] after[a].pos
                        != #[trigger] after[b].pos by {
                        assert(after[a].pos == open[a].pos);
                        assert(after[b].pos == open[b].pos);
                    }
                    assert forall|a: int| 0 <= a < after.len() implies !holds_pos(
                        closed,
                        (#[trigger] after[a]).pos,
                    ) && comes_from(closed, after[a]) && after[a].came_from is Some by {
                        assert(after[a].pos == open[a].pos);
                        assert(comes_from(closed, open[a]));
                    }
                }
            },
            None => {
                self.open.push(node);
                proof {
                    let after = self.open@;
                    assert forall|a: int, b: int| 0 <= a < b < after.len() implies #[trigger] after[a].pos
                        != #[trigger] after[b].pos by {
                        assert(after[a] == open[a]);
                        if b < open.len() {
                            assert(after[b] == open[b]);
                        }
                    }
                    assert forall|a: int| 0 <= a < after.len() implies !holds_pos(
                        closed,
                        (#[trigger] after[a]).pos,
                    ) && comes_from(closed, after[a]) && after[a].came_from is Some by {
                        if a < open.len() {
                            assert(after[a] == open[a]);
                            assert(comes_from(closed, open[a]));
                        }
                    }
                }
            },
        }
    }

    /// Puts together the path to the place nearest to the target that the search has
    /// seen.
    pub fn finish(&self) -> (r: Path)
        requires
            self.wf(),
        ensures
            r.nodes@ == way_to(self.closed@, self.best.node),
            is_way(r.nodes@),
            r.nodes@.last() == self.best.node,
            forall|start: BlockPos, start_distance: Rank32| #[trigger]
                self.spec_begun(start, start_distance) ==> r.nodes@[0].pos == start,
            r.next_index == 0,
            r.target == self.target,
            r.reached == self.reached,
    {
        let ghost closed = self.closed@;
        let ghost whole = way_to(closed, self.best.node);
        proof {
            lemma_way_is_way(closed, self.best.node);
            if self.best.node.came_from is Some {
                lemma_way_begins(closed, self.best.node);
            }
        }
        let mut back: Vec<Node> = Vec::new();
        let mut current: Node = self.best.node;
        let ghost mut prefix: int = closed.len() as int;
        proof {
            assert(closed.take(prefix) =~= closed);
            assert(whole =~= way_to(closed.take(prefix), current) + back@.reverse());
        }
        while current.came_from.is_some()
            invariant
                closed == self.closed@,
                self.wf(),
                0 <= prefix <= closed.len(),
                comes_from(closed.take(prefix), current),
                whole == way_to(closed.take(prefix), current) + back@.reverse(),
            decreases prefix,
        {
            let pos: BlockPos = current.came_from.unwrap();
            proof {
                lemma_prefix_distinct(closed, prefix);
                let k = index_of_pos(closed.take(prefix), pos);
                assert(closed.take(prefix)[k].pos == pos);
                assert(closed[k].pos == pos);
                lemma_index_of_pos(closed, k);
            }
            let k: usize = find_pos(&self.closed, pos).unwrap();
            let ghost longer = back@.push(current);
            proof {
                let inner = closed.take(prefix);
                assert(inner.take(k as int) =~= closed.take(k as int));
                assert(way_to(inner, current) == way_to(
                    closed.take(k as int),
                    closed[k as int],
                ).push(current));
                assert(way_to(inner, current) + back@.reverse() =~= way_to(
                    closed.take(k as int),
                    closed[k as int],
                ) + longer.reverse());
                assert(comes_from(closed.take(k as int), closed[k as int]));
            }
            back.push(current);
            current = self.closed[k];
            proof {
                prefix = k as int;
            }
        }
        let mut nodes: Vec<Node> = Vec::new();
        nodes.push(current);
        let mut i: usize = back.len();
        assert(nodes@ =~= seq![current] + back@.skip(i as int).reverse());
        while i > 0
            invariant
                i <= back@.len(),
                nodes@ == seq![current] + back@.skip(i as int).reverse(),
            decreases i,
        {
            i = i - 1;
            nodes.push(back[i]);
            assert(nodes@ =~= seq![current] + back@.skip(i as int).reverse());
        }
        assert(back@.skip(0) =~= back@);
        assert(nodes@ =~= whole);
        Path::new(nodes, self.target, self.reached)
    }
}

/// Law: however far a search has gone, the path that it finds begins where the search began,
/// leads from place to place, passes no place twice, and ends no farther from the target than it
/// began.
pub proof fn law_path_leads_from_the_start(
    search: PathSearch,
    start: BlockPos,
    start_distance: Rank32,
)
    requires
        search.wf(),
        search.spec_begun(start, start_distance),
    ensures
        is_way(way_to(search.closed@, search.best.node)),
        way_to(search.closed@, search.best.node)[0].pos == start,
        places_distinct(way_to(search.closed@, search.best.node)),
        way_to(search.closed@, search.best.node).last() == search.best.node,
        search.best.distance <= start_distance,
{
    lemma_way_is_way(search.closed@, search.best.node);
    if search.best.node.came_from is Some {
        lemma_way_begins(search.closed@, search.best.node);
    }
}

/// Law: two places are as far from each other as the steps along the three axes come to. So the
/// distance is 0 between a place and itself alone, is the same either way, is no less than that
/// along any one axis, and a detour is never shorter.
pub proof fn law_distance_counts_every_axis(a: BlockPos, b: BlockPos, c: BlockPos)
    ensures
        manhattan(a, b) == 0 <==> a.x == b.x && a.y == b.y && a.z == b.z,
        manhattan(a, b) == manhattan(b, a),
        -manhattan(a, b) <= a.x - b.x <= manhattan(a, b),
        -manhattan(a, b) <= a.y - b.y <= manhattan(a, b),
        -manhattan(a, b) <= a.z - b.z <= manhattan(a, b),
        manhattan(a, c) <= manhattan(a, b) + manhattan(b, c),
        a.x <= b.x && a.y <= b.y && a.z <= b.z ==> manhattan(a, b) == (b.x - a.x) + (b.y - a.y) + (
        b.z - a.z),
        a.x >= b.x && a.y <= b.y && a.z <= b.z ==> manhattan(a, b) == (a.x - b.x) + (b.y - a.y) + (
        b.z - a.z),
        a.x <= b.x && a.y >= b.y && a.z <= b.z ==> manhattan(a, b) == (b.x - a.x) + (a.y - b.y) + (
        b.z - a.z),
        a.x <= b.x && a.y <= b.y && a.z >= b.z ==> manhattan(a, b) == (b.x - a.x) + (b.y - a.y) + (
        a.z - b.z),
{
}

/// Law: a search that ends as reached has visited a place within reach of its target: along each
/// axis, the height among them, the two are no farther apart than the range, and neither are the
/// three distances together. While there are places to visit, a visited place within reach ends
/// the search, and one out of reach is looked around at.
pub proof fn law_reached_target_is_within_reach(search: &mut PathSearch, r: Visit)
    requires
        call_ensures(PathSearch::visit, (search,), r),
        old(search).wf(),
        !old(search).reached,
    ensures
        final(search).reached ==> r == Visit::Done,
        final(search).reached ==> final(search).closed@.len() > 0 && {
            let place = final(search).closed@.last().pos;
            let target = old(search).target;
            let range = old(search).reach_range as int;
            &&& -range <= place.x - target.x <= range
            &&& -range <= place.y - target.y <= range
            &&& -range <= place.z - target.z <= range
            &&& (place.x - target.x) + (place.y - target.y) + (place.z - target.z) <= range
            &&& (target.x - place.x) + (target.y - place.y) + (target.z - place.z) <= range
            &&& (target.x - place.x) + (place.y - target.y) + (target.z - place.z) <= range
        },
        r is Expand ==> final(search).closed@.len() > 0 && r->0 == final(search).closed@.last()
            && !final(search).reached && {
            let place = final(search).closed@.last().pos;
            let target = old(search).target;
            &&& old(search).reach_range >= 0 ==> place != target
            &&& place.y == target.y && place.z == target.z ==> place.x - target.x > old(search).reach_range || target.x - place.x > old(search).reach_range
            &&& place.x == target.x && place.z == target.z ==> place.y - target.y > old(search).reach_range || target.y - place.y > old(search).reach_range
            &&& place.x == target.x && place.y == target.y ==> place.z - target.z > old(search).reach_range || target.z - place.z > old(search).reach_range
        },
        final(search).closed@.len() > old(search).closed@.len() && final(search).closed@.last().pos
            == old(search).target && old(search).reach_range >= 0 ==> final(search).reached,
{
}

/// Law: a round visits a place of the least cost, and takes it out of the places to visit. Nothing
/// is visited once there is none left or as many places as allowed have been seen.
pub proof fn law_cheapest_place_comes_next(search: &mut PathSearch, r: Visit, j: int)
    requires
        call_ensures(PathSearch::visit, (search,), r),
        old(search).wf(),
    ensures
        old(search).open@.len() == 0 || old(search).count + 1 >= old(search).max_visited ==> r
            == Visit::Done && final(search).closed@ == old(search).closed@ && final(search).open@
            == old(search).open@ && final(search).reached == old(search).reached,
        old(search).open@.len() > 0 && old(search).count + 1 < old(search).max_visited ==> {
            &&& final(search).count == old(search).count + 1
            &&& final(search).closed@.len() == old(search).closed@.len() + 1
            &&& final(search).open@.len() == old(search).open@.len() - 1
            &&& final(search).closed@.last().closed
            &&& holds_pos(old(search).open@, final(search).closed@.last().pos)
            &&& 0 <= j < old(search).open@.len() ==> final(search).closed@.last().f <= old(search).open@[j].f
        },
{
    if old(search).open@.len() > 0 && old(search).count + 1 < old(search).max_visited {
        lemma_some_place_is_least(old(search).open@);
        let least = least_index(old(search).open@);
        assert(is_least(old(search).open@, least));
        assert(old(search).open@[least].pos == final(search).closed@.last().pos);
    }
}

/// Of some places one comes next.
proof fn lemma_some_place_is_least(nodes: Seq<Node>)
    requires
        nodes.len() > 0,
    ensures
        is_least(nodes, least_index(nodes)),
    decreases nodes.len(),
{
    let last = nodes.len() - 1;
    if last == 0 {
        assert(is_least(nodes, 0));
    } else {
        let before = nodes.drop_last();
        lemma_some_place_is_least(before);
        let i = least_index(before);
        assert forall|j: int| 0 <= j < before.len() implies before[j] == #[trigger] nodes[j] by {}
        if nodes[last].f < nodes[i].f {
            assert forall|j: int| 0 <= j < nodes.len() implies nodes[last].f <= (
            #[trigger] nodes[j]).f by {
                if j < last {
                    assert(before[i].f <= before[j].f);
                }
            }
            assert forall|j: int| 0 <= j < last implies nodes[last].f < (#[trigger] nodes[j]).f by {
                assert(before[i].f <= before[j].f);
            }
            assert(is_least(nodes, last));
        } else {
            assert forall|j: int| 0 <= j < nodes.len() implies nodes[i].f <= (
            #[trigger] nodes[j]).f by {
                if j < last {
                    assert(before[i].f <= before[j].f);
                }
            }
            assert forall|j: int| 0 <= j < i implies nodes[i].f < (#[trigger] nodes[j]).f by {
                assert(before[i].f < before[j].f);
            }
            assert(is_least(nodes, i));
        }
    }
}

/// Law: a way to a neighbour is kept where the search is not done with it, the way is shorter than
/// a path may be, and no cheaper way to it is known; then the neighbour is to be visited, coming
/// from the place last visited. The place nearest to the target is remembered, and all else stays.
pub proof fn law_cheaper_way_is_kept(search: &mut PathSearch, neighbor: Neighbor)
    requires
        call_ensures(PathSearch::relax, (search, &neighbor), ()),
        old(search).wf(),
        old(search).closed@.len() > 0,
    ensures
        holds_pos(old(search).closed@, neighbor.pos) || neighbor.walked_dist >= old(search).max_path_length ==> final(search).open@ == old(search).open@ && final(search).best == old(search).best,
        !holds_pos(old(search).closed@, neighbor.pos) && neighbor.walked_dist < old(search).max_path_length && !holds_pos(old(search).open@, neighbor.pos) ==> {
            let added = final(search).open@.last();
            &&& final(search).open@.len() == old(search).open@.len() + 1
            &&& added.pos == neighbor.pos
            &&& added.came_from == Some(old(search).closed@.last().pos)
            &&& added.g == neighbor.tentative_g
            &&& added.f == neighbor.f
            &&& added.walked_dist == neighbor.walked_dist
            &&& added.path_type == neighbor.path_type
            &&& added.cost_malus == neighbor.cost_malus
            &&& !added.closed
            &&& neighbor.dist_to_target < old(search).best.distance ==> final(search).best.distance
                == neighbor.dist_to_target && final(search).best.node.pos == neighbor.pos
        },
        final(search).best.distance <= old(search).best.distance,
        final(search).best.distance == old(search).best.distance || final(search).best.distance
            == neighbor.dist_to_target,
        final(search).closed@ == old(search).closed@,
        final(search).reached == old(search).reached,
{
}

/// Law: where a dearer way to a place is known, the cheaper one takes its place; where a cheaper one
/// is known, it stays.
pub proof fn law_dearer_way_is_replaced(search: &mut PathSearch, neighbor: Neighbor, i: int)
    requires
        call_ensures(PathSearch::relax, (search, &neighbor), ()),
        old(search).wf(),
        old(search).closed@.len() > 0,
        0 <= i < old(search).open@.len(),
        old(search).open@[i].pos == neighbor.pos,
    ensures
        final(search).open@.len() == old(search).open@.len(),
        neighbor.tentative_g >= old(search).open@[i].g ==> final(search).open@ == old(search).open@,
        neighbor.tentative_g < old(search).open@[i].g && neighbor.walked_dist < old(search).max_path_length ==> final(search).open@[i].g == neighbor.tentative_g && final(search).open@[i].came_from == Some(old(search).closed@.last().pos) && final(search).open@[i].f
            == neighbor.f,
        forall|j: int|
            0 <= j < old(search).open@.len() && j != i ==> #[trigger] final(search).open@[j] == old(search).open@[j],
{
    lemma_index_of_pos(old(search).open@, i);
}

/// Law: a path may be 16 blocks long, and longer for a mob that follows others farther.
pub proof fn law_paths_may_be_long(follow_range: Rank32, r: Rank32)
    requires
        call_ensures(max_path_length, (follow_range,), r),
    ensures
        r >= 0x4180_0000,
        r >= follow_range,
        r == follow_range || r == 0x4180_0000,
{
}

/// Law: a search starts at its start alone, having visited nothing and reached nothing, and a path
/// that it finds at once is that place.
pub proof fn law_search_begins_at_its_start(
    start: BlockPos,
    path_type: PathType,
    cost_malus: Rank32,
    start_distance: Rank32,
    target: BlockPos,
    reach_range: i32,
    max_path_length: Rank32,
    max_visited: usize,
    r: PathSearch,
    path: Path,
)
    requires
        call_ensures(
            PathSearch::new,
            (
                start,
                path_type,
                cost_malus,
                start_distance,
                target,
                reach_range,
                max_path_length,
                max_visited,
            ),
            r,
        ),
        call_ensures(PathSearch::finish, (&r,), path),
    ensures
        r.open@.len() == 1,
        r.open@[0].pos == start,
        r.open@[0].came_from is None,
        r.open@[0].g == 0,
        r.open@[0].f == start_distance,
        r.open@[0].walked_dist == 0,
        r.closed@.len() == 0,
        r.count == 0,
        !r.reached,
        r.target == target,
        r.reach_range == reach_range,
        r.max_path_length == max_path_length,
        r.max_visited == max_visited,
        r.best.node.pos == start,
        r.best.distance == start_distance,
        path.nodes@.len() == 1,
        path.nodes@[0].pos == start,
        path.next_index == 0,
        path.target == target,
        !path.reached,
{
}

/// Law: a place is looked around at while it is nearer to the start than a path may be long, and a
/// path that is found is not begun and says whether its target was reached.
pub proof fn law_places_near_the_start_are_looked_at(
    search: PathSearch,
    distance_from_start: Rank32,
    r: bool,
    path: Path,
)
    requires
        call_ensures(PathSearch::may_expand, (&search, distance_from_start), r),
        call_ensures(PathSearch::finish, (&search,), path),
    ensures
        r <==> distance_from_start < search.max_path_length,
        path.reached == search.reached,
        path.target == search.target,
        path.next_index == 0,
        path.nodes@.len() > 0,
        path.nodes@.last().pos == search.best.node.pos,
        path.nodes@[0].came_from is None,
{
}

} // verus!
