//! Goals: what a mob may be doing, and the parts of its body that this takes.

use vstd::prelude::*;

pub mod chase_player;
pub mod creeper_ignite;
pub mod goal_selector;
pub mod leap_at_target;
pub mod melee_attack;
pub mod pick_up_block;
pub mod sonic_boom;

verus! {

/// A part of a mob that a goal may take hold of.
#[derive(Clone, Copy, Debug, PartialEq, Eq, Structural)]
pub enum Control {
    Move,
    Look,
    Jump,
    Target,
}

/// How many controls there are.
pub const CONTROL_COUNT: usize = 4;

impl Control {
    /// The number of the control.
    pub open spec fn spec_idx(self) -> int {
        match self {
            Control::Move => 0,
            Control::Look => 1,
            Control::Jump => 2,
            Control::Target => 3,
        }
    }

    /// The number of the control.
    pub fn idx(&self) -> (r: usize)
        ensures
            r == self.spec_idx(),
            r < CONTROL_COUNT,
    {
        match self {
            Control::Move => 0,
            Control::Look => 1,
            Control::Jump => 2,
            Control::Target => 3,
        }
    }

    /// The control with the number.
    pub open spec fn spec_from_idx(idx: int) -> Control {
        if idx == 0 {
            Control::Move
        } else if idx == 1 {
            Control::Look
        } else if idx == 2 {
            Control::Jump
        } else {
            Control::Target
        }
    }

    /// The control with the number.
    pub fn from_idx(idx: usize) -> (r: Control)
        requires
            idx < CONTROL_COUNT,
        ensures
            r == Control::spec_from_idx(idx as int),
            r.spec_idx() == idx,
    {
        if idx == 0 {
            Control::Move
        } else if idx == 1 {
            Control::Look
        } else if idx == 2 {
            Control::Jump
        } else {
            Control::Target
        }
    }
}

/// Some of the controls.
#[derive(Clone, Copy, Debug, PartialEq, Eq, Structural)]
pub struct Controls {
    pub moves: bool,
    pub looks: bool,
    pub jumps: bool,
    pub targets: bool,
}

impl Controls {
    /// The control is one of these.
    pub open spec fn has(self, control: Control) -> bool {
        match control {
            Control::Move => self.moves,
            Control::Look => self.looks,
            Control::Jump => self.jumps,
            Control::Target => self.targets,
        }
    }

    /// These controls with the one added or taken out.
    pub open spec fn with(self, control: Control, value: bool) -> Controls {
        match control {
            Control::Move => Controls { moves: value, ..self },
            Control::Look => Controls { looks: value, ..self },
            Control::Jump => Controls { jumps: value, ..self },
            Control::Target => Controls { targets: value, ..self },
        }
    }

    /// No control.
    pub fn none() -> (r: Self)
        ensures
            forall|control: Control| !(#[trigger] r.has(control)),
    {
        Controls { moves: false, looks: false, jumps: false, targets: false }
    }

    /// Whether the control is one of these.
    pub fn get(&self, control: Control) -> (r: bool)
        ensures
            r == self.has(control),
    {
        match control {
            Control::Move => self.moves,
            Control::Look => self.looks,
            Control::Jump => self.jumps,
            Control::Target => self.targets,
        }
    }

    /// Adds the control or takes it out.
    pub fn set(&mut self, control: Control, value: bool)
        ensures
            *final(self) == old(self).with(control, value),
    {
        match control {
            Control::Move => self.moves = value,
            Control::Look => self.looks = value,
            Control::Jump => self.jumps = value,
            Control::Target => self.targets = value,
        }
    }
}

/// How many ticks of a goal that runs in every other tick fit into the ticks of the
/// server, rounded up.
pub open spec fn goal_ticks(server_ticks: i32) -> int {
    (server_ticks + 1) / 2
}

/// How many ticks of a goal that runs in every other tick fit into the ticks of the
/// server, rounded up.
pub fn to_goal_ticks(server_ticks: i32) -> (r: i32)
    requires
        0 <= server_ticks < i32::MAX,
    ensures
        r == goal_ticks(server_ticks),
{
    (server_ticks + 1) / 2
}

/// How many ticks of a goal fit into the ticks of the server.
pub fn get_tick_count(every_tick: bool, server_ticks: i32) -> (r: i32)
    requires
        0 <= server_ticks < i32::MAX,
    ensures
        r == (if every_tick {
            server_ticks as int
        } else {
            goal_ticks(server_ticks)
        }),
{
    if every_tick {
        server_ticks
    } else {
        to_goal_ticks(server_ticks)
    }
}

/// A goal of a mob, with its place among the others.
#[derive(Clone, Copy, Debug, PartialEq, Eq, Structural)]
pub struct PrioritizedGoal {
    /// The number of the goal's type.
    pub type_id: u64,
    /// The less, the more the goal matters.
    pub priority: u8,
    /// What the goal takes hold of.
    pub controls: Controls,
    /// Whether a goal that matters more may take its place.
    pub interruptible: bool,
    /// Whether the goal runs in every tick, and not just in every other one.
    pub every_tick: bool,
    pub running: bool,
}

impl PrioritizedGoal {
    /// The other goal may take the place of this one.
    pub open spec fn spec_can_be_replaced_by(self, other: PrioritizedGoal) -> bool {
        self.interruptible && other.priority < self.priority
    }

    /// A goal that does not run yet.
    pub fn new(
        type_id: u64,
        priority: u8,
        controls: Controls,
        interruptible: bool,
        every_tick: bool,
    ) -> (r: Self)
        ensures
            r == (PrioritizedGoal {
                type_id,
                priority,
                controls,
                interruptible,
                every_tick,
                running: false,
            }),
    {
        PrioritizedGoal { type_id, priority, controls, interruptible, every_tick, running: false }
    }

    /// Whether the other goal may take the place of this one.
    pub fn can_be_replaced_by(&self, other: &PrioritizedGoal) -> (r: bool)
        ensures
            r == self.spec_can_be_replaced_by(*other),
    {
        self.interruptible && other.priority < self.priority
    }
}

/// Law: every control has a number of its own below 4, and comes back from it.
pub proof fn law_controls_are_numbered(control: Control, number: usize, back: Control)
    requires
        call_ensures(Control::idx, (&control,), number),
        call_ensures(Control::from_idx, (number,), back),
    ensures
        number < 4,
        back == control,
        number == 0 <==> control == Control::Move,
        number == 1 <==> control == Control::Look,
        number == 2 <==> control == Control::Jump,
        number == 3 <==> control == Control::Target,
{
}

/// Law: a control that is set is there as it was set, and no other control changes.
pub proof fn law_controls_are_apart(
    controls: &mut Controls,
    control: Control,
    value: bool,
    other: Control,
    of_it: bool,
    of_other: bool,
    before: bool,
    none: Controls,
)
    requires
        call_ensures(Controls::set, (controls, control, value), ()),
        call_ensures(Controls::get, (&*final(controls), control), of_it),
        call_ensures(Controls::get, (&*final(controls), other), of_other),
        call_ensures(Controls::get, (&*old(controls), other), before),
        call_ensures(Controls::none, (), none),
    ensures
        of_it == value,
        other != control ==> of_other == before,
        !none.moves && !none.looks && !none.jumps && !none.targets,
        control == Control::Move ==> final(controls).moves == value,
        control == Control::Look ==> final(controls).looks == value,
        control == Control::Jump ==> final(controls).jumps == value,
        control == Control::Target ==> final(controls).targets == value,
{
    assert(!none.has(Control::Move));
    assert(!none.has(Control::Look));
    assert(!none.has(Control::Jump));
    assert(!none.has(Control::Target));
}

/// Law: a goal that runs in every other tick gets half of the ticks of the server, rounded up; one
/// that runs in every tick gets them all.
pub proof fn law_goals_tick_every_other_tick(server_ticks: i32, r: i32, all: i32, half: i32)
    requires
        0 <= server_ticks < i32::MAX,
        call_ensures(to_goal_ticks, (server_ticks,), r),
        call_ensures(get_tick_count, (true, server_ticks), all),
        call_ensures(get_tick_count, (false, server_ticks), half),
    ensures
        2 * r == server_ticks || 2 * r == server_ticks + 1,
        all == server_ticks,
        half == r,
{
}

/// Law: only a goal that matters more takes the place of another, and only where that lets itself be
/// interrupted; a new goal does not run.
pub proof fn law_what_matters_more_goes_first(
    goal: PrioritizedGoal,
    other: PrioritizedGoal,
    r: bool,
    back: bool,
    type_id: u64,
    priority: u8,
    controls: Controls,
    interruptible: bool,
    every_tick: bool,
    made: PrioritizedGoal,
)
    requires
        call_ensures(PrioritizedGoal::can_be_replaced_by, (&goal, &other), r),
        call_ensures(PrioritizedGoal::can_be_replaced_by, (&other, &goal), back),
        call_ensures(
            PrioritizedGoal::new,
            (type_id, priority, controls, interruptible, every_tick),
            made,
        ),
    ensures
        r <==> goal.interruptible && other.priority < goal.priority,
        !(r && back),
        !made.running,
        made.priority == priority,
        made.controls == controls,
        made.interruptible == interruptible,
        made.every_tick == every_tick,
        made.type_id == type_id,
{
}

} // verus!
