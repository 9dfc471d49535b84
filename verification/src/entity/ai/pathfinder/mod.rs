//! Finding the way and following it.

use vstd::prelude::*;

use self::node::{MalusTable, Path, PathType};
use crate::data::position::{BlockPos, Position};
use crate::data::rank::{max32, rank_max, Rank32, Rank64};

pub mod node;
pub mod search;

verus! {

/// How far up or down (1.0) a mob may be from a place to have reached it.
pub const NODE_REACH_Y: Rank64 = 0x3FF0_0000_0000_0000;

/// How far up or down (0.5) a swimmer may be from a place to have reached it.
pub const SWIM_NODE_REACH_Y: Rank64 = 0x3FE0_0000_0000_0000;

/// How far (1.05) a mob steps down to a place.
pub const STEP_DOWN_REACH_Y: Rank64 = 0x3FF0_CCCC_CCCC_CCCD;

/// How far (3.25) a mob falls after a place.
pub const MAX_FALL_FOLLOW_Y: Rank64 = 0x400A_0000_0000_0000;

/// How near sideways (0.6) a mob has at least to be to a place to fall after it.
pub const FALL_FOLLOW_XZ: Rank64 = 0x3FE3_3333_3333_3333;

/// How near sideways (2.0) a mob is on the lip of a step down.
pub const LIP_DISTANCE: Rank64 = 0x4000_0000_0000_0000;

/// A mob gives up a place after this many ticks.
pub const STUCK_TICKS: u32 = 100;

/// On the lip of a step down no more than this many ticks count.
pub const LIP_TICKS: u32 = 40;

/// Every how many ticks a mob looks back on its way.
pub const PROGRESS_TICKS: u32 = 100;

/// A new path is looked for after this many ticks at the earliest.
pub const REPATH_COOLDOWN: u32 = 10;

/// The width (0.6) of a mob that says nothing of it.
pub const DEFAULT_WIDTH: Rank32 = 0x3F19_999A;

/// The height (1.95) of a mob that says nothing of it.
pub const DEFAULT_HEIGHT: Rank32 = 0x3FF9_999A;

/// How a mob gets about.
#[derive(Clone, Copy, Debug, PartialEq, Eq, Structural)]
pub enum EvaluatorKind {
    Walk,
    Swim { allow_breaching: bool },
    Amphibious { prefers_shallow: bool },
}

/// Where a mob is to go.
#[derive(Clone, Copy, Debug, PartialEq, Eq, Structural)]
pub struct NavigatorGoal {
    pub current_progress: Position,
    pub destination: Position,
    pub speed: Rank64,
}

impl NavigatorGoal {
    /// The way from one place to another, at the speed.
    pub fn new(current_progress: Position, destination: Position, speed: Rank64) -> (r: Self)
        ensures
            r == (NavigatorGoal { current_progress, destination, speed }),
    {
        NavigatorGoal { current_progress, destination, speed }
    }
}

/// What keeps a mob on its way.
pub struct Navigator {
    pub current_goal: Option<NavigatorGoal>,
    pub evaluator_kind: EvaluatorKind,
    /// Whether the mob opens doors. None leaves that to the way it gets about.
    pub can_open_doors: Option<bool>,
    pub current_path: Option<Path>,
    pub ticks_on_current_node: u32,
    pub last_node_index: usize,
    pub total_ticks: u32,
    pub path_start_pos: Option<Position>,
    /// What it costs this mob extra to enter places.
    pub path_type_overrides: MalusTable,
    pub mob_width: Rank32,
    pub mob_height: Rank32,
    pub repath_cooldown: u32,
    pub is_idle: bool,
}

/// What following a path asks the world to do.
#[derive(Clone, Copy, Debug, PartialEq, Eq, Structural)]
pub enum NavStep {
    ClearSpeed,
    StopMoveControl,
    /// Goes to the middle of the place.
    MoveToNode { node: BlockPos, speed: Rank64 },
    /// Goes to the position.
    MoveTo { pos: Position, speed: Rank64 },
}

/// Standing still.
pub open spec fn halt() -> Seq<NavStep> {
    seq![NavStep::ClearSpeed, NavStep::StopMoveControl]
}

/// Standing still.
fn halt_steps() -> (steps: Vec<NavStep>)
    ensures
        steps@ == halt(),
{
    let mut steps: Vec<NavStep> = Vec::new();
    steps.push(NavStep::ClearSpeed);
    steps.push(NavStep::StopMoveControl);
    assert(steps@ =~= halt());
    steps
}

impl Default for Navigator {
    fn default() -> (r: Self)
        ensures
            r.is_new(),
            r.can_open_doors is None,
    {
        Navigator {
            current_goal: None,
            evaluator_kind: EvaluatorKind::Walk,
            can_open_doors: None,
            current_path: None,
            ticks_on_current_node: 0,
            last_node_index: 0,
            total_ticks: 0,
            path_start_pos: None,
            path_type_overrides: MalusTable::new(),
            mob_width: DEFAULT_WIDTH,
            mob_height: DEFAULT_HEIGHT,
            repath_cooldown: 0,
            is_idle: true,
        }
    }
}

impl Navigator {
    /// As it is to begin with, whatever has been said of doors: on no way, on foot, with no
    /// place that costs this mob extra.
    pub open spec fn is_new(self) -> bool {
        &&& self.current_goal is None
        &&& self.evaluator_kind == EvaluatorKind::Walk
        &&& self.current_path is None
        &&& self.ticks_on_current_node == 0
        &&& self.last_node_index == 0
        &&& self.total_ticks == 0
        &&& self.path_start_pos is None
        &&& forall|path_type: PathType| #[trigger]
            self.path_type_overrides.spec_get(path_type) is None
        &&& self.mob_width == DEFAULT_WIDTH
        &&& self.mob_height == DEFAULT_HEIGHT
        &&& self.repath_cooldown == 0
        &&& self.is_idle
    }

    /// Sends the mob on a new way.
    pub fn set_progress(&mut self, goal: NavigatorGoal)
        ensures
            *final(self) == (Navigator {
                is_idle: false,
                current_goal: Some(goal),
                current_path: None,
                ..*old(self)
            }),
    {
        self.is_idle = false;
        self.current_goal = Some(goal);
        self.current_path = None;
    }

    /// Changes the speed of the mob on its way, if it is on one.
    pub fn set_speed(&mut self, speed: Rank64)
        ensures
            *final(self) == (Navigator {
                current_goal: match old(self).current_goal {
                    Some(goal) => Some(NavigatorGoal { speed, ..goal }),
                    None => None,
                },
                ..*old(self)
            }),
    {
        if let Some(goal) = self.current_goal {
            self.current_goal = Some(
                NavigatorGoal {
                    current_progress: goal.current_progress,
                    destination: goal.destination,
                    speed,
                },
            );
        }
    }

    /// Gives up the way that the mob is on.
    pub fn stop(&mut self)
        ensures
            *final(self) == (Navigator {
                is_idle: true,
                current_goal: None,
                current_path: None,
                ticks_on_current_node: 0,
                total_ticks: 0,
                path_start_pos: None,
                ..*old(self)
            }),
    {
        self.is_idle = true;
        self.current_goal = None;
        self.current_path = None;
        self.ticks_on_current_node = 0;
        self.total_ticks = 0;
        self.path_start_pos = None;
    }

    /// The path that the mob follows.
    pub fn current_path(&self) -> (r: Option<&Path>)
        ensures
            r is Some <==> self.current_path is Some,
            r matches Some(path) ==> *path == self.current_path->0,
    {
        self.current_path.as_ref()
    }

    /// Says whether the mob opens doors.
    pub fn set_can_open_doors(&mut self, can_open: bool)
        ensures
            *final(self) == (Navigator { can_open_doors: Some(can_open), ..*old(self) }),
    {
        self.can_open_doors = Some(can_open);
    }

    /// Says how the mob gets about. A change forgets what has been said of doors;
    /// returns whether there was one.
    pub fn set_evaluator_kind(&mut self, kind: EvaluatorKind) -> (changed: bool)
        ensures
            changed == (old(self).evaluator_kind != kind),
            *final(self) == (Navigator {
                evaluator_kind: kind,
                can_open_doors: if changed {
                    None
                } else {
                    old(self).can_open_doors
                },
                ..*old(self)
            }),
    {
        if self.evaluator_kind != kind {
            self.evaluator_kind = kind;
            self.can_open_doors = None;
            true
        } else {
            false
        }
    }

    /// Says what it costs this mob extra to enter places of the kind.
    pub fn set_pathfinding_malus(&mut self, path_type: PathType, malus: Rank32)
        ensures
            final(self).path_type_overrides.spec_get(path_type) == Some(malus),
            forall|other: PathType|
                other != path_type ==> #[trigger] final(self).path_type_overrides.spec_get(other)
                    == old(self).path_type_overrides.spec_get(other),
            *final(self) == (Navigator {
                path_type_overrides: final(self).path_type_overrides,
                ..*old(self)
            }),
    {
        self.path_type_overrides.set(path_type, malus);
    }

    /// Copies what this mob says of extra costs over what a search goes by.
    pub fn apply_malus_overrides(&self, mob_data: &mut MalusTable)
        ensures
            forall|path_type: PathType| #[trigger]
                final(mob_data).spec_get(path_type) == (if self.path_type_overrides.spec_get(
                    path_type,
                ) is Some {
                    self.path_type_overrides.spec_get(path_type)
                } else {
                    old(mob_data).spec_get(path_type)
                }),
            old(mob_data).keeps_unless(self.path_type_overrides, *final(mob_data)),
    {
        mob_data.apply(&self.path_type_overrides);
    }

    /// What it costs this mob extra to enter places of the kind: what has been said of
    /// it, or else what holds for all mobs.
    pub fn get_pathfinding_malus(&self, path_type: PathType, default_malus: Rank32) -> (r: Rank32)
        ensures
            r == match self.path_type_overrides.spec_get(path_type) {
                Some(malus) => malus,
                None => default_malus,
            },
    {
        match self.path_type_overrides.get(path_type) {
            Some(malus) => malus,
            None => default_malus,
        }
    }

    /// Says how wide and how high the mob is.
    pub fn set_mob_dimensions(&mut self, width: Rank32, height: Rank32)
        ensures
            *final(self) == (Navigator { mob_width: width, mob_height: height, ..*old(self) }),
    {
        self.mob_width = width;
        self.mob_height = height;
    }

    /// How wide and how high a search takes the mob to be: what has been said of it,
    /// where that is more than what it measures now.
    pub fn search_dimensions(&self, width: Rank32, height: Rank32) -> (r: (Rank32, Rank32))
        ensures
            r.0 == (if self.mob_width > 0 {
                rank_max(self.mob_width as int, width as int)
            } else {
                width as int
            }),
            r.1 == (if self.mob_height > 0 {
                rank_max(self.mob_height as int, height as int)
            } else {
                height as int
            }),
    {
        (
            if self.mob_width > 0 {
                max32(self.mob_width, width)
            } else {
                width
            },
            if self.mob_height > 0 {
                max32(self.mob_height, height)
            } else {
                height
            },
        )
    }

    /// Whether the mob is on no way.
    pub fn is_idle(&self) -> (r: bool)
        ensures
            r == self.is_idle,
    {
        self.is_idle
    }

    /// A new path is needed: there is none, or the goal has moved away from where it
    /// leads and it is time to look for one again.
    pub open spec fn spec_needs_new_path(self, target_moved: bool) -> bool {
        self.current_path is None || self.repath_cooldown == 0 && target_moved
    }

    /// Whether a new path is needed. `target_moved` says whether the goal is too far
    /// from where the path leads.
    pub fn needs_new_path(&self, target_moved: bool) -> (r: bool)
        ensures
            r == self.spec_needs_new_path(target_moved),
    {
        if self.current_path.is_none() {
            return true;
        }
        if self.repath_cooldown > 0 {
            return false;
        }
        target_moved
    }
}

// ---------------------------------------------------------------------------
// The start of a path.
// ---------------------------------------------------------------------------

/// What a mob makes of a place on a new path.
#[derive(Clone, Copy, Debug, PartialEq, Eq, Structural)]
pub struct NodeView {
    /// Whether the mob stands on the place.
    pub reached: bool,
    /// Whether the place is behind the mob, seen from where the path leads.
    pub behind: bool,
}

/// The first place from `from` on that the mob has to go to: neither one that it
/// stands on nor one behind it, but in any case the last.
pub open spec fn first_ahead(views: Seq<NodeView>, from: int) -> int
    decreases views.len() - from,
{
    if 0 <= from && from + 1 < views.len() && (views[from].reached || views[from].behind) {
        first_ahead(views, from + 1)
    } else {
        from
    }
}

impl Navigator {
    /// Goes past the places at the start of a new path that the mob has no need to go
    /// to. There is a view of each place of the path.
    pub fn skip_nodes_already_reached(path: &mut Path, views: &Vec<NodeView>)
        requires
            views@.len() == old(path).nodes@.len(),
        ensures
            *final(path) == (Path {
                next_index: first_ahead(views@, old(path).next_index as int) as usize,
                ..*old(path)
            }),
    {
        let count: usize = path.nodes.len();
        while path.next_index < count && path.next_index + 1 < count && (
        views[path.next_index].reached || views[path.next_index].behind)
            invariant
                count == path.nodes@.len(),
                count == views@.len(),
                old(path).next_index <= path.next_index,
                first_ahead(views@, old(path).next_index as int) == first_ahead(
                    views@,
                    path.next_index as int,
                ),
                *path == (Path { next_index: path.next_index, ..*old(path) }),
            decreases count - path.next_index,
        {
            path.advance();
        }
    }
}

// ---------------------------------------------------------------------------
// Following a path.
// ---------------------------------------------------------------------------

/// What a mob on its way sees in a tick.
#[derive(Clone, Copy, Debug, PartialEq, Eq, Structural)]
pub struct NavView {
    pub strafing: bool,
    /// Whether the way the mob gets about lets it look for a path here.
    pub can_update_path: bool,
    /// Whether the goal is too far from where the path leads.
    pub target_moved: bool,
    /// Whether the path can still be followed.
    pub path_valid: bool,
    pub pos: Position,
    pub block_x: i32,
    pub block_z: i32,
    pub on_ground: bool,
    /// Whether the mob is above the next place.
    pub above_next: bool,
    /// Whether the mob has hardly moved since it last looked back.
    pub hardly_moved: bool,
    /// The position to go to for the next place.
    pub target: Position,
    /// How far that position is to the east, up and to the south.
    pub dx: Rank64,
    pub dy: Rank64,
    pub dz: Rank64,
    /// How far that position is sideways.
    pub horizontal_dist: Rank64,
    /// How near sideways the mob has to be to a place.
    pub max_waypoint: Rank64,
}

/// The rank of the absolute value.
pub open spec fn rank_abs(rank: Rank64) -> int {
    if rank < 0 {
        -rank
    } else {
        rank as int
    }
}

impl NavView {
    /// The mob is as near sideways as it has to be.
    pub open spec fn spec_near(self, limit: int) -> bool {
        rank_abs(self.dx) < limit && rank_abs(self.dz) < limit
    }

    /// The mob has come to the next place, or is about to drop onto it.
    pub open spec fn spec_reaches_next(self, kind: EvaluatorKind) -> bool {
        let swims = kind is Swim;
        let near = self.spec_near(self.max_waypoint as int);
        ||| !swims && !self.on_ground && near && self.dy < 0
        ||| near && rank_abs(self.dy) < (if swims {
            SWIM_NODE_REACH_Y
        } else {
            NODE_REACH_Y
        })
        ||| !swims && near && -STEP_DOWN_REACH_Y < self.dy < 0
        ||| {
            &&& !swims
            &&& self.spec_near(rank_max(self.max_waypoint as int, FALL_FOLLOW_XZ as int))
            &&& -MAX_FALL_FOLLOW_Y < self.dy < 0
            &&& !self.on_ground || self.dy > -STEP_DOWN_REACH_Y
        }
    }

    /// The mob is on the lip of a step down.
    pub open spec fn spec_on_lip(self) -> bool {
        -MAX_FALL_FOLLOW_Y < self.dy < 0 && self.horizontal_dist < LIP_DISTANCE
    }

    /// The mob falls past the next place, in the column over it.
    pub open spec fn spec_falls_past(self, next: BlockPos) -> bool {
        self.above_next && !self.on_ground && self.block_x == next.x && self.block_z == next.z
    }

    /// Whether the distance, either way, is less than the limit.
    fn is_within(distance: Rank64, limit: Rank64) -> (r: bool)
        requires
            distance > i64::MIN,
        ensures
            r == (rank_abs(distance) < limit),
    {
        if distance < 0 {
            -distance < limit
        } else {
            distance < limit
        }
    }

    /// Whether the mob has come to the next place, or is about to drop onto it.
    fn reaches_next(&self, kind: EvaluatorKind) -> (r: bool)
        requires
            self.dx > i64::MIN,
            self.dy > i64::MIN,
            self.dz > i64::MIN,
        ensures
            r == self.spec_reaches_next(kind),
    {
        let swims: bool = matches!(kind, EvaluatorKind::Swim { .. });
        let near: bool = Self::is_within(self.dx, self.max_waypoint) && Self::is_within(
            self.dz,
            self.max_waypoint,
        );
        let reach_y: Rank64 = if swims {
            SWIM_NODE_REACH_Y
        } else {
            NODE_REACH_Y
        };
        if !swims && !self.on_ground && near && self.dy < 0 {
            return true;
        }
        if near && Self::is_within(self.dy, reach_y) {
            return true;
        }
        if !swims && near && self.dy < 0 && self.dy > -STEP_DOWN_REACH_Y {
            return true;
        }
        let wide: Rank64 = if self.max_waypoint >= FALL_FOLLOW_XZ {
            self.max_waypoint
        } else {
            FALL_FOLLOW_XZ
        };
        !swims && Self::is_within(self.dx, wide) && Self::is_within(self.dz, wide) && self.dy < 0
            && self.dy > -MAX_FALL_FOLLOW_Y && (!self.on_ground || self.dy > -STEP_DOWN_REACH_Y)
    }
}

/// How the start of a tick ended.
pub enum NavStart {
    /// The tick is over.
    Over(Vec<NavStep>),
    /// A path has to be looked for; then the tick goes on with
    /// [`Navigator::take_path`].
    Search { destination: Position },
    /// The tick goes on with [`Navigator::tick_follow`].
    Follow,
}

impl Navigator {
    /// The goal has been reached before the mob started.
    pub open spec fn spec_arrived(self) -> bool {
        self.current_goal matches Some(goal) && goal.current_progress == goal.destination
    }

    /// The navigator as the tick counts it on.
    pub open spec fn spec_counted(self) -> Navigator {
        Navigator {
            total_ticks: (self.total_ticks + 1) as u32,
            repath_cooldown: if self.repath_cooldown > 0 {
                (self.repath_cooldown - 1) as u32
            } else {
                0
            },
            ..self
        }
    }

    /// Starts a tick: a mob with nowhere to go stands still, and one that is on its
    /// way may need a new path.
    pub fn tick(&mut self, view: &NavView) -> (r: NavStart)
        requires
            old(self).current_goal is Some && !old(self).spec_arrived() ==> old(self).total_ticks
                < u32::MAX,
        ensures
            old(self).current_goal is None ==> {
                &&& r matches NavStart::Over(steps)
                &&& steps@ == (if view.strafing {
                    Seq::empty()
                } else {
                    halt()
                })
                &&& *final(self) == (Navigator { is_idle: true, ..*old(self) })
            },
            old(self).spec_arrived() ==> {
                &&& r matches NavStart::Over(steps)
                &&& steps@ == halt()
                &&& *final(self) == (Navigator {
                    is_idle: true,
                    current_goal: None,
                    current_path: None,
                    ..*old(self)
                })
            },
            old(self).current_goal is Some && !old(self).spec_arrived() ==> {
                &&& *final(self) == old(self).spec_counted()
                &&& r == (if old(self).spec_counted().spec_needs_new_path(view.target_moved)
                    && view.can_update_path {
                    NavStart::Search { destination: old(self).current_goal->0.destination }
                } else {
                    NavStart::Follow
                })
            },
    {
        let goal: NavigatorGoal = match self.current_goal {
            Some(goal) => goal,
            None => {
                self.is_idle = true;
                if view.strafing {
                    return NavStart::Over(Vec::new());
                }
                return NavStart::Over(halt_steps());
            },
        };
        if goal.current_progress == goal.destination {
            self.is_idle = true;
            self.current_goal = None;
            self.current_path = None;
            return NavStart::Over(halt_steps());
        }
        self.total_ticks = self.total_ticks + 1;
        if self.repath_cooldown > 0 {
            self.repath_cooldown = self.repath_cooldown - 1;
        }
        if self.needs_new_path(view.target_moved) && view.can_update_path {
            NavStart::Search { destination: goal.destination }
        } else {
            NavStart::Follow
        }
    }

    /// Takes up the path that a search has found, past the places that the mob has no
    /// need to go to. There is a view of each place of the path.
    pub fn take_path(&mut self, path: Option<Path>, views: &Vec<NodeView>, pos: Position)
        requires
            path matches Some(path) ==> views@.len() == path.nodes@.len(),
        ensures
            *final(self) == (Navigator {
                current_path: match path {
                    Some(path) => Some(
                        Path {
                            next_index: first_ahead(views@, path.next_index as int) as usize,
                            ..path
                        },
                    ),
                    None => None,
                },
                ticks_on_current_node: 0,
                last_node_index: 0,
                path_start_pos: Some(pos),
                repath_cooldown: REPATH_COOLDOWN,
                ..*old(self)
            }),
    {
        self.ticks_on_current_node = 0;
        self.last_node_index = 0;
        self.path_start_pos = Some(pos);
        self.repath_cooldown = REPATH_COOLDOWN;
        match path {
            Some(path) => {
                let mut taken: Path = path;
                Self::skip_nodes_already_reached(&mut taken, views);
                self.current_path = Some(taken);
            },
            None => {
                self.current_path = None;
            },
        }
    }

    /// The navigator of a mob that gives up its way.
    pub open spec fn spec_given_up(self) -> Navigator {
        Navigator { is_idle: true, current_goal: None, current_path: None, ..self }
    }

    /// The navigator with the ticks on the present place counted on.
    pub open spec fn spec_node_counted(self) -> Navigator {
        let index = self.current_path->0.next_index;
        Navigator {
            ticks_on_current_node: if index == self.last_node_index {
                (self.ticks_on_current_node + 1) as u32
            } else {
                0
            },
            last_node_index: index,
            ..self
        }
    }

    /// It is time to look back on the way.
    pub open spec fn spec_looks_back(self) -> bool {
        self.total_ticks % PROGRESS_TICKS == 0
    }

    /// The mob is stuck: too long at one place, or hardly any way since it last looked
    /// back.
    pub open spec fn spec_stuck(self, view: NavView) -> bool {
        self.ticks_on_current_node > STUCK_TICKS || self.spec_looks_back()
            && self.path_start_pos is Some && view.hardly_moved
    }

    /// The navigator after it has looked back.
    pub open spec fn spec_looked_back(self, view: NavView) -> Navigator {
        Navigator {
            path_start_pos: if self.spec_looks_back() {
                Some(view.pos)
            } else {
                self.path_start_pos
            },
            ..self
        }
    }

    /// The navigator a place further on.
    pub open spec fn spec_advanced(self) -> Navigator {
        Navigator { current_path: Some(self.current_path->0.advanced()), ..self }
    }

    /// The navigator after a tick in which it follows its path where no path can be
    /// looked for: only a place that the mob falls past counts as reached.
    pub open spec fn spec_after_drift(self, view: NavView) -> Navigator {
        if view.spec_falls_past(self.current_path->0.spec_next()->0) {
            self.spec_advanced()
        } else {
            self
        }
    }

    /// The navigator after a tick in which it follows its path.
    pub open spec fn spec_after_follow(self, view: NavView) -> Navigator {
        if self.current_path is None || self.current_path->0.spec_next() is None
            || !view.path_valid {
            self.spec_given_up()
        } else if !view.can_update_path {
            self.spec_after_drift(view)
        } else {
            let counted = self.spec_node_counted();
            if counted.spec_stuck(view) {
                Navigator { ticks_on_current_node: 0, ..counted.spec_given_up() }
            } else {
                let looked = counted.spec_looked_back(view);
                if view.spec_reaches_next(self.evaluator_kind) {
                    looked.spec_advanced()
                } else if view.spec_on_lip() && looked.ticks_on_current_node > LIP_TICKS {
                    Navigator { ticks_on_current_node: LIP_TICKS, ..looked }
                } else {
                    looked
                }
            }
        }
    }

    /// What a tick in which the mob follows its path asks for.
    pub open spec fn follow_steps(self, view: NavView) -> Seq<NavStep> {
        let speed = self.current_goal->0.speed;
        if self.current_path is None || self.current_path->0.spec_next() is None
            || !view.path_valid {
            halt()
        } else if !view.can_update_path {
            match self.spec_after_drift(view).current_path->0.spec_next() {
                Some(node) => seq![NavStep::MoveToNode { node, speed }],
                None => Seq::empty(),
            }
        } else if self.spec_node_counted().spec_stuck(view) {
            halt()
        } else if view.spec_reaches_next(self.evaluator_kind) {
            Seq::empty()
        } else {
            seq![NavStep::MoveTo { pos: view.target, speed }]
        }
    }

    /// Gives up the way that the mob is on, for this tick.
    fn give_up(&mut self) -> (steps: Vec<NavStep>)
        ensures
            *final(self) == old(self).spec_given_up(),
            steps@ == halt(),
    {
        self.is_idle = true;
        self.current_goal = None;
        self.current_path = None;
        halt_steps()
    }

    /// Goes on to the next place of the path.
    fn advance_path(&mut self)
        requires
            old(self).current_path matches Some(path) && path.spec_next() is Some,
        ensures
            *final(self) == old(self).spec_advanced(),
    {
        let taken: Option<Path> = self.current_path.take();
        if let Some(path) = taken {
            let mut path: Path = path;
            path.advance();
            self.current_path = Some(path);
        }
    }

    /// Goes on with a tick: follows the path, if there is one, and gives up where the
    /// mob is stuck.
    pub fn tick_follow(&mut self, view: &NavView) -> (steps: Vec<NavStep>)
        requires
            old(self).current_goal is Some,
            old(self).ticks_on_current_node < u32::MAX,
            view.dx > i64::MIN,
            view.dy > i64::MIN,
            view.dz > i64::MIN,
        ensures
            *final(self) == old(self).spec_after_follow(*view),
            steps@ == old(self).follow_steps(*view),
    {
        let goal: NavigatorGoal = self.current_goal.unwrap();
        let (next, index): (Option<BlockPos>, usize) = match &self.current_path {
            Some(path) => (path.get_next_node_pos(), path.next_index),
            None => (None, 0),
        };
        let node: BlockPos = match next {
            Some(node) => node,
            None => {
                return self.give_up();
            },
        };
        if !view.path_valid {
            return self.give_up();
        }
        let mut steps: Vec<NavStep> = Vec::new();
        if !view.can_update_path {
            if view.above_next && !view.on_ground && view.block_x == node.x && view.block_z
                == node.z {
                self.advance_path();
            }
            let next: Option<BlockPos> = match &self.current_path {
                Some(path) => path.get_next_node_pos(),
                None => None,
            };
            if let Some(node) = next {
                steps.push(NavStep::MoveToNode { node, speed: goal.speed });
            }
            assert(steps@ =~= old(self).follow_steps(*view));
            return steps;
        }
        if index == self.last_node_index {
            self.ticks_on_current_node = self.ticks_on_current_node + 1;
        } else {
            self.ticks_on_current_node = 0;
            self.last_node_index = index;
        }
        let looks_back: bool = self.total_ticks % PROGRESS_TICKS == 0;
        if self.ticks_on_current_node > STUCK_TICKS || (looks_back && self.path_start_pos.is_some()
            && view.hardly_moved) {
            let halted: Vec<NavStep> = self.give_up();
            self.ticks_on_current_node = 0;
            return halted;
        }
        if looks_back {
            self.path_start_pos = Some(view.pos);
        }
        if view.reaches_next(self.evaluator_kind) {
            self.advance_path();
            return steps;
        }
        steps.push(NavStep::MoveTo { pos: view.target, speed: goal.speed });
        if view.dy < 0 && view.dy > -MAX_FALL_FOLLOW_Y && view.horizontal_dist < LIP_DISTANCE
            && self.ticks_on_current_node > LIP_TICKS {
            self.ticks_on_current_node = LIP_TICKS;
        }
        assert(steps@ =~= old(self).follow_steps(*view));
        steps
    }
}

/// Law: extra costs that a mob has set are those that a search goes by, and what it
/// has said nothing of stays what holds for all mobs.
pub proof fn law_overrides_reach_the_search(
    overrides: MalusTable,
    before: MalusTable,
    after: MalusTable,
    path_type: PathType,
)
    requires
        forall|kind: PathType| #[trigger]
            after.spec_get(kind) == (if overrides.spec_get(kind) is Some {
                overrides.spec_get(kind)
            } else {
                before.spec_get(kind)
            }),
    ensures
        overrides.spec_get(path_type) matches Some(malus) ==> after.spec_get(path_type) == Some(
            malus,
        ),
        overrides.spec_get(path_type) is None ==> after.spec_get(path_type) == before.spec_get(
            path_type,
        ),
{
}

/// Law: a mob that has been at one place of its path for a hundred ticks, and in the
/// next is still there, gives up its way.
pub proof fn law_stuck_mob_gives_up(navigator: Navigator, view: NavView)
    requires
        navigator.current_path matches Some(path) && path.spec_next() is Some,
        view.path_valid,
        view.can_update_path,
        navigator.ticks_on_current_node >= STUCK_TICKS,
        navigator.ticks_on_current_node < u32::MAX,
        navigator.current_path->0.next_index == navigator.last_node_index,
    ensures
        navigator.spec_after_follow(view).is_idle,
        navigator.spec_after_follow(view).current_path is None,
        navigator.spec_after_follow(view).current_goal is None,
{
}

/// Law: a mob that has no path left after a tick is idle.
pub proof fn law_given_up_mob_is_idle(navigator: Navigator, view: NavView)
    requires
        navigator.spec_after_follow(view).current_path is None,
    ensures
        navigator.spec_after_follow(view).is_idle,
{
}

/// Law: a new navigator is idle, on foot and on no way, for a mob 0.6 wide and 1.95 high.
pub proof fn law_new_navigator_is_idle(r: Navigator)
    requires
        call_ensures(<Navigator as Default>::default, (), r),
    ensures
        r.is_idle,
        r.current_goal is None,
        r.current_path is None,
        r.evaluator_kind == EvaluatorKind::Walk,
        r.can_open_doors is None,
        r.mob_width == 0x3F19_999A,
        r.mob_height == 0x3FF9_999A,
        r.repath_cooldown == 0,
{
}

/// Law: a mob that is sent somewhere is no longer idle, and looks for a new path. One that is
/// stopped is idle, has nowhere to go and counts its ticks anew.
pub proof fn law_mob_is_sent_and_stopped(
    sent: &mut Navigator,
    goal: NavigatorGoal,
    stopped: &mut Navigator,
    hurried: &mut Navigator,
    speed: Rank64,
    needs: bool,
    moved: bool,
)
    requires
        call_ensures(Navigator::set_progress, (sent, goal), ()),
        call_ensures(Navigator::needs_new_path, (&*final(sent), moved), needs),
        call_ensures(Navigator::stop, (stopped,), ()),
        call_ensures(Navigator::set_speed, (hurried, speed), ()),
    ensures
        !final(sent).is_idle,
        final(sent).current_goal == Some(goal),
        final(sent).current_path is None,
        needs,
        final(stopped).is_idle,
        final(stopped).current_goal is None,
        final(stopped).current_path is None,
        final(stopped).ticks_on_current_node == 0,
        final(stopped).total_ticks == 0,
        final(stopped).path_start_pos is None,
        final(hurried).current_goal is Some <==> old(hurried).current_goal is Some,
        final(hurried).current_goal is Some ==> final(hurried).current_goal->0.speed == speed
            && final(hurried).current_goal->0.destination == old(hurried).current_goal->0.destination,
        final(hurried).current_path == old(hurried).current_path,
{
}

/// Law: a new path is looked for where there is none, and where the goal has moved away once the
/// last search is long enough ago.
pub proof fn law_when_a_new_path_is_needed(navigator: Navigator, target_moved: bool, r: bool)
    requires
        call_ensures(Navigator::needs_new_path, (&navigator, target_moved), r),
    ensures
        navigator.current_path is None ==> r,
        navigator.current_path is Some && !target_moved ==> !r,
        navigator.current_path is Some && navigator.repath_cooldown > 0 ==> !r,
        navigator.current_path is Some && navigator.repath_cooldown == 0 && target_moved ==> r,
{
}

/// Law: a search takes a mob to be at least as wide and as high as it measures, and as has been
/// said of it.
pub proof fn law_search_leaves_room(
    navigator: Navigator,
    width: Rank32,
    height: Rank32,
    r: (Rank32, Rank32),
)
    requires
        call_ensures(Navigator::search_dimensions, (&navigator, width, height), r),
    ensures
        r.0 >= width,
        r.1 >= height,
        navigator.mob_width > 0 ==> r.0 >= navigator.mob_width,
        navigator.mob_height > 0 ==> r.1 >= navigator.mob_height,
        r.0 == width || r.0 == navigator.mob_width,
        r.1 == height || r.1 == navigator.mob_height,
        navigator.mob_width <= 0 ==> r.0 == width,
        navigator.mob_height <= 0 ==> r.1 == height,
{
}

/// Law: what has been said of extra costs goes before what holds for all mobs, for each kind of
/// place on its own.
pub proof fn law_extra_costs_are_those_of_the_mob(
    navigator: &mut Navigator,
    path_type: PathType,
    malus: Rank32,
    other: PathType,
    default_malus: Rank32,
    of_it: Rank32,
    of_other: Rank32,
)
    requires
        call_ensures(Navigator::set_pathfinding_malus, (navigator, path_type, malus), ()),
        call_ensures(
            Navigator::get_pathfinding_malus,
            (&*final(navigator), path_type, default_malus),
            of_it,
        ),
        call_ensures(
            Navigator::get_pathfinding_malus,
            (&*final(navigator), other, default_malus),
            of_other,
        ),
    ensures
        of_it == malus,
        other != path_type && old(navigator).path_type_overrides.spec_get(other) is None
            ==> of_other == default_malus,
        other != path_type && old(navigator).path_type_overrides.spec_get(other) is Some
            ==> of_other == old(navigator).path_type_overrides.spec_get(other)->0,
{
}

/// Law: a mob that gets about in another way has yet to be told of doors; one that goes on as it did
/// has not.
pub proof fn law_other_ways_forget_doors(
    navigator: &mut Navigator,
    kind: EvaluatorKind,
    changed: bool,
)
    requires
        call_ensures(Navigator::set_evaluator_kind, (navigator, kind), changed),
    ensures
        final(navigator).evaluator_kind == kind,
        changed <==> old(navigator).evaluator_kind != kind,
        changed ==> final(navigator).can_open_doors is None,
        !changed ==> *final(navigator) == *old(navigator),
        final(navigator).current_path == old(navigator).current_path,
{
}

/// From a place on, nothing is skipped that the mob has to go to, and all before it is.
proof fn lemma_first_ahead(views: Seq<NodeView>, from: int)
    requires
        0 <= from,
    ensures
        from <= first_ahead(views, from),
        from < views.len() ==> first_ahead(views, from) < views.len(),
        from >= views.len() ==> first_ahead(views, from) == from,
        forall|i: int|
            from <= i < first_ahead(views, from) ==> (#[trigger] views[i]).reached
                || views[i].behind,
        first_ahead(views, from) + 1 < views.len() ==> !views[first_ahead(views, from)].reached
            && !views[first_ahead(views, from)].behind,
    decreases views.len() - from,
{
    if from + 1 < views.len() && (views[from].reached || views[from].behind) {
        lemma_first_ahead(views, from + 1);
    }
}

/// Law: at the start of a new path a mob passes over the places that it stands on or that are behind
/// it, and over no other; the last place is never passed over. A new search waits for 10 ticks.
pub proof fn law_path_is_taken_up_ahead(
    navigator: &mut Navigator,
    path: Path,
    views: Vec<NodeView>,
    pos: Position,
)
    requires
        call_ensures(Navigator::take_path, (navigator, Some(path), &views, pos), ()),
        views@.len() == path.nodes@.len(),
        path.next_index < path.nodes@.len() <= usize::MAX,
    ensures
        final(navigator).current_path is Some,
        ({
            let taken = final(navigator).current_path->0;
            &&& taken.nodes == path.nodes
            &&& taken.target == path.target
            &&& path.next_index <= taken.next_index < taken.nodes@.len()
            &&& forall|i: int|
                path.next_index <= i < taken.next_index ==> (#[trigger] views@[i]).reached
                    || views@[i].behind
            &&& taken.next_index + 1 < taken.nodes@.len() ==> !views@[taken.next_index as int].reached
                && !views@[taken.next_index as int].behind
        }),
        final(navigator).repath_cooldown == 10,
        final(navigator).ticks_on_current_node == 0,
        final(navigator).path_start_pos == Some(pos),
        final(navigator).current_goal == old(navigator).current_goal,
{
    lemma_first_ahead(views@, path.next_index as int);
}

/// Law: a mob with nowhere to go, or where it was to go, stands still and is idle. One on its way
/// counts the tick, and looks for a path where it needs one and can.
pub proof fn law_start_of_a_way(navigator: &mut Navigator, view: NavView, r: NavStart)
    requires
        call_ensures(Navigator::tick, (navigator, &view), r),
        old(navigator).total_ticks < u32::MAX,
    ensures
        old(navigator).current_goal is None ==> r is Over && final(navigator).is_idle,
        old(navigator).current_goal is None && view.strafing ==> r->Over_0@.len() == 0,
        old(navigator).current_goal is None && !view.strafing ==> r->Over_0@ == seq![
            NavStep::ClearSpeed,
            NavStep::StopMoveControl,
        ],
        old(navigator).current_goal is Some && old(navigator).current_goal->0.current_progress
            == old(navigator).current_goal->0.destination ==> {
            &&& r is Over
            &&& r->Over_0@ == seq![NavStep::ClearSpeed, NavStep::StopMoveControl]
            &&& final(navigator).is_idle
            &&& final(navigator).current_goal is None
            &&& final(navigator).current_path is None
        },
        old(navigator).current_goal is Some && old(navigator).current_goal->0.current_progress
            != old(navigator).current_goal->0.destination ==> {
            &&& !(r is Over)
            &&& final(navigator).total_ticks == old(navigator).total_ticks + 1
            &&& final(navigator).repath_cooldown == (if old(navigator).repath_cooldown > 0 {
                old(navigator).repath_cooldown - 1
            } else {
                0
            })
            &&& final(navigator).current_goal == old(navigator).current_goal
            &&& r is Search ==> r->destination == old(navigator).current_goal->0.destination
                && view.can_update_path
            &&& old(navigator).current_path is None && view.can_update_path ==> r is Search
            &&& !view.can_update_path ==> r is Follow
            &&& old(navigator).current_path is Some && view.can_update_path ==> (
            r is Search <==> old(navigator).repath_cooldown <= 1 && view.target_moved)
        },
{
}

/// Law: a walking mob has come to a place once it is near enough sideways and less than one block
/// above or below it; on its way down it follows a place farther down, 3.25 blocks at most. A
/// swimmer has to be within half a block of it. From then on it goes for the next place, and until
/// then for this one.
pub proof fn law_when_a_place_is_reached(
    navigator: &mut Navigator,
    view: NavView,
    steps: Vec<NavStep>,
)
    requires
        call_ensures(Navigator::tick_follow, (navigator, &view), steps),
        old(navigator).current_goal is Some,
        old(navigator).current_path is Some,
        old(navigator).current_path->0.next_index < old(navigator).current_path->0.nodes@.len(),
        old(navigator).current_path->0.next_index < usize::MAX,
        view.path_valid,
        view.can_update_path,
        old(navigator).ticks_on_current_node < 100,
        old(navigator).total_ticks % 100 != 0,
    ensures
        ({
            let near = -view.max_waypoint < view.dx < view.max_waypoint && -view.max_waypoint
                < view.dz < view.max_waypoint;
            let next = old(navigator).current_path->0.next_index;
            let went_on = final(navigator).current_path->0.next_index == next + 1;
            let swims = old(navigator).evaluator_kind is Swim;
            &&& final(navigator).current_path is Some
            &&& went_on || final(navigator).current_path->0.next_index == next
            &&& went_on ==> steps@.len() == 0
            &&& !went_on ==> steps@ == seq![
                NavStep::MoveTo {
                    pos: view.target,
                    speed: old(navigator).current_goal->0.speed,
                },
            ]
            &&& !swims && near && -0x3FF0_0000_0000_0000 < view.dy < 0x3FF0_0000_0000_0000
                ==> went_on
            &&& swims && near && -0x3FE0_0000_0000_0000 < view.dy < 0x3FE0_0000_0000_0000
                ==> went_on
            &&& swims && went_on ==> near && -0x3FE0_0000_0000_0000 < view.dy
                < 0x3FE0_0000_0000_0000
            &&& view.dy >= 0x3FF0_0000_0000_0000 ==> !went_on
            &&& view.on_ground && view.dy <= -0x3FF0_CCCC_CCCC_CCCD ==> !went_on
            &&& !near && view.dy <= -0x400A_0000_0000_0000 ==> !went_on
            &&& !swims && !view.on_ground && near && view.dy < 0 ==> went_on
            &&& !swims && near && -0x3FF0_CCCC_CCCC_CCCD < view.dy < 0 ==> went_on
            &&& (view.dx >= view.max_waypoint && view.dx >= 0x3FE3_3333_3333_3333) || (view.dz
                >= view.max_waypoint && view.dz >= 0x3FE3_3333_3333_3333) ==> !went_on
            &&& !swims && !view.on_ground && -0x3FE3_3333_3333_3333 < view.dx
                < 0x3FE3_3333_3333_3333 && -0x3FE3_3333_3333_3333 < view.dz < 0x3FE3_3333_3333_3333
                && -0x400A_0000_0000_0000 < view.dy < 0 ==> went_on
            &&& !final(navigator).is_idle || old(navigator).is_idle
        }),
{
}

/// Law: a mob gives up its way after more than 100 ticks at one place, and where in 100 ticks it
/// has hardly moved; it then stands still. On the lip of a step down no more than 40 ticks count.
pub proof fn law_when_a_way_is_given_up(
    navigator: &mut Navigator,
    view: NavView,
    steps: Vec<NavStep>,
)
    requires
        call_ensures(Navigator::tick_follow, (navigator, &view), steps),
        old(navigator).current_goal is Some,
        old(navigator).current_path is Some,
        old(navigator).current_path->0.next_index < old(navigator).current_path->0.nodes@.len(),
        old(navigator).current_path->0.next_index == old(navigator).last_node_index,
        old(navigator).ticks_on_current_node < u32::MAX,
        view.path_valid,
        view.can_update_path,
    ensures
        ({
            let stuck = old(navigator).ticks_on_current_node >= 100 || (old(navigator).total_ticks
                % 100 == 0 && old(navigator).path_start_pos is Some && view.hardly_moved);
            &&& stuck ==> {
                &&& final(navigator).is_idle
                &&& final(navigator).current_goal is None
                &&& final(navigator).current_path is None
                &&& final(navigator).ticks_on_current_node == 0
                &&& steps@ == seq![NavStep::ClearSpeed, NavStep::StopMoveControl]
            }
            &&& !stuck ==> {
                &&& final(navigator).current_goal == old(navigator).current_goal
                &&& final(navigator).current_path is Some
                &&& old(navigator).total_ticks % 100 == 0 ==> final(navigator).path_start_pos
                    == Some(view.pos)
                &&& old(navigator).total_ticks % 100 != 0 ==> final(navigator).path_start_pos == old(navigator).path_start_pos
                &&& steps@.len() > 0 && -0x400A_0000_0000_0000 < view.dy < 0
                    && view.horizontal_dist < 0x4000_0000_0000_0000 ==> final(navigator).ticks_on_current_node <= 40
                &&& old(navigator).ticks_on_current_node < 40 ==> final(navigator).ticks_on_current_node == old(navigator).ticks_on_current_node + 1
            }
        }),
{
}

/// Law: a mob whose path is gone, done or no longer passable gives it up. Where it can look for no
/// path, it goes on to its next place, and a place counts as passed only where it falls past it in
/// its column.
pub proof fn law_following_without_a_search(
    navigator: &mut Navigator,
    view: NavView,
    steps: Vec<NavStep>,
)
    requires
        call_ensures(Navigator::tick_follow, (navigator, &view), steps),
        old(navigator).current_goal is Some,
        old(navigator).current_path is Some ==> old(navigator).current_path->0.nodes@.len()
            <= usize::MAX,
    ensures
        old(navigator).current_path is None || !view.path_valid || old(navigator).current_path->0.next_index >= old(navigator).current_path->0.nodes@.len() ==> {
            &&& final(navigator).is_idle
            &&& final(navigator).current_goal is None
            &&& final(navigator).current_path is None
            &&& steps@ == seq![NavStep::ClearSpeed, NavStep::StopMoveControl]
        },
        old(navigator).current_path is Some && view.path_valid && !view.can_update_path && old(navigator).current_path->0.next_index < old(navigator).current_path->0.nodes@.len() ==> {
            let path = old(navigator).current_path->0;
            let place = path.nodes@[path.next_index as int].pos;
            let passed = view.above_next && !view.on_ground && view.block_x == place.x
                && view.block_z == place.z;
            &&& !passed ==> *final(navigator) == *old(navigator) && steps@ == seq![
                NavStep::MoveToNode { node: place, speed: old(navigator).current_goal->0.speed },
            ]
            &&& passed ==> final(navigator).current_path->0.next_index == path.next_index + 1
            &&& passed && path.next_index + 1 < path.nodes@.len() ==> steps@ == seq![
                NavStep::MoveToNode {
                    node: path.nodes@[path.next_index + 1].pos,
                    speed: old(navigator).current_goal->0.speed,
                },
            ]
        },
{
}

/// Law: at the start of a path a mob goes past just the places that it stands on or has behind it, and
/// never past the last.
pub proof fn law_places_behind_are_skipped(path: &mut Path, views: Vec<NodeView>, i: int)
    requires
        call_ensures(Navigator::skip_nodes_already_reached, (path, &views), ()),
        views@.len() == old(path).nodes@.len(),
        views@.len() <= usize::MAX,
    ensures
        final(path).next_index >= old(path).next_index,
        old(path).next_index <= i < final(path).next_index ==> views@[i].reached
            || views@[i].behind,
        old(path).next_index < views@.len() ==> final(path).next_index < views@.len(),
        final(path).next_index + 1 < views@.len() ==> !views@[final(path).next_index as int].reached && !views@[final(path).next_index as int].behind,
        final(path).nodes == old(path).nodes,
{
    lemma_first_ahead(views@, old(path).next_index as int);
}

/// Law: a navigator says what was told to it, of doors, of the size of its mob and of its way.
pub proof fn law_navigator_goes_by_what_it_was_told(
    navigator: &mut Navigator,
    sized: &mut Navigator,
    can_open: bool,
    width: Rank32,
    height: Rank32,
    idle: bool,
    path: Option<&Path>,
    any: Navigator,
)
    requires
        call_ensures(Navigator::set_can_open_doors, (navigator, can_open), ()),
        call_ensures(Navigator::set_mob_dimensions, (sized, width, height), ()),
        call_ensures(Navigator::is_idle, (&any,), idle),
        call_ensures(Navigator::current_path, (&any,), path),
    ensures
        final(navigator).can_open_doors == Some(can_open),
        final(navigator).current_path == old(navigator).current_path,
        final(sized).mob_width == width,
        final(sized).mob_height == height,
        final(sized).current_path == old(sized).current_path,
        idle == any.is_idle,
        path is Some <==> any.current_path is Some,
        path is Some ==> *path->0 == any.current_path->0,
{
}

/// Law: what a mob says of a kind of place counts before what a search goes by, and where it says nothing
/// that stays.
pub proof fn law_mob_overrides_the_search(
    navigator: Navigator,
    table: &mut MalusTable,
    path_type: PathType,
)
    requires
        call_ensures(Navigator::apply_malus_overrides, (&navigator, table), ()),
    ensures
        navigator.path_type_overrides.spec_get(path_type) is Some ==> final(table).spec_get(
            path_type,
        ) == navigator.path_type_overrides.spec_get(path_type),
        navigator.path_type_overrides.spec_get(path_type) is None ==> final(table).spec_get(
            path_type,
        ) == old(table).spec_get(path_type),
{
}

} // verus!
