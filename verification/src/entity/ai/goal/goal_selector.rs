//! Which of a mob's goals run.
//!
//! Whether a goal wants to go on or can start is asked of the mob, so a tick is
//! a dialogue: [`GoalSelector::must_ask`] and [`GoalSelector::may_start`] say
//! which goals to ask, [`GoalSelector::review`] and [`GoalSelector::start`] take
//! the answers. [`GoalSelector::tick`] goes through the whole dialogue with
//! answers that are known beforehand.

use vstd::prelude::*;

use super::{Control, Controls, PrioritizedGoal, CONTROL_COUNT};
use crate::plan::{only_if, push_if};

verus! {

/// Stands for no goal.
pub const NO_GOAL: usize = usize::MAX;

/// The goals of a mob.
pub struct GoalSelector {
    /// Which goal holds each control, by its place in the list.
    pub goals_by_control: [usize; 4],
    pub goals: Vec<PrioritizedGoal>,
    pub disabled_controls: Controls,
}

/// The goal takes hold of one of the controls.
pub open spec fn uses_any_of(goal: PrioritizedGoal, controls: Controls) -> bool {
    exists|control: Control| #[trigger] controls.has(control) && goal.controls.has(control)
}

/// The slots name goals of the list, or none.
pub open spec fn slots_in_range(slots: Seq<usize>, count: nat) -> bool {
    &&& slots.len() == CONTROL_COUNT
    &&& forall|c: int|
        0 <= c < CONTROL_COUNT ==> #[trigger] slots[c] == NO_GOAL || slots[c] < count
}

/// Each goal that runs holds all the controls that it takes.
pub open spec fn running_goals_hold(slots: Seq<usize>, goals: Seq<PrioritizedGoal>) -> bool {
    forall|i: int, control: Control|
        0 <= i < goals.len() && (#[trigger] goals[i]).running && #[trigger] goals[i].controls.has(
            control,
        ) ==> slots[control.spec_idx()] == i
}

/// What a tick asks of the goals.
#[derive(Clone, Copy, Debug, PartialEq, Eq, Structural)]
pub enum GoalAction {
    Stop(usize),
    Start(usize),
    Tick(usize),
}

/// What a goal answers, where it is asked.
#[derive(Clone, Copy, Debug, PartialEq, Eq, Structural)]
pub struct GoalAnswer {
    pub continues: bool,
    pub can_start: bool,
}

impl GoalSelector {
    /// The slots name goals of the list, or none.
    pub open spec fn wf(self) -> bool {
        slots_in_range(self.goals_by_control@, self.goals@.len())
    }

    /// No two goals that run share a control: each holds all that it takes.
    pub open spec fn exclusive(self) -> bool {
        running_goals_hold(self.goals_by_control@, self.goals@)
    }
}

impl GoalSelector {
    /// There is no goal, and no control is held.
    pub open spec fn is_empty(self) -> bool {
        &&& self.wf()
        &&& self.exclusive()
        &&& self.goals@ == Seq::<PrioritizedGoal>::empty()
        &&& self.goals_by_control@ == seq![NO_GOAL, NO_GOAL, NO_GOAL, NO_GOAL]
    }

    /// There is no goal, and no control is held or disabled.
    pub open spec fn is_new(self) -> bool {
        &&& self.is_empty()
        &&& forall|control: Control| !(#[trigger] self.disabled_controls.has(control))
    }

    /// The selector is empty and the controls that are disabled are those of the other.
    pub open spec fn is_emptied(self, before: GoalSelector) -> bool {
        &&& self.is_empty()
        &&& self.disabled_controls == before.disabled_controls
    }
}

impl Default for GoalSelector {
    fn default() -> (r: Self)
        ensures
            r.is_new(),
    {
        let goals_by_control: [usize; 4] = [NO_GOAL, NO_GOAL, NO_GOAL, NO_GOAL];
        assert(goals_by_control@ =~= seq![NO_GOAL, NO_GOAL, NO_GOAL, NO_GOAL]);
        GoalSelector { goals_by_control, goals: Vec::new(), disabled_controls: Controls::none() }
    }
}

impl GoalSelector {
    /// Adds a goal at the end of the list.
    pub fn add_goal(&mut self, goal: PrioritizedGoal)
        requires
            old(self).wf(),
            old(self).goals@.len() < NO_GOAL,
            !goal.running,
        ensures
            final(self).wf(),
            old(self).exclusive() ==> final(self).exclusive(),
            final(self).goals@ == old(self).goals@.push(goal),
            final(self).goals_by_control == old(self).goals_by_control,
            final(self).disabled_controls == old(self).disabled_controls,
    {
        self.goals.push(goal);
    }

    /// Whether the goal takes hold of one of the controls.
    pub fn uses_any(goal: &PrioritizedGoal, controls: Controls) -> (r: bool)
        ensures
            r == uses_any_of(*goal, controls),
    {
        let mut i: usize = 0;
        while i < CONTROL_COUNT
            invariant
                i <= CONTROL_COUNT,
                forall|control: Control|
                    control.spec_idx() < i ==> !(#[trigger] controls.has(control)
                        && goal.controls.has(control)),
            decreases CONTROL_COUNT - i,
        {
            let control: Control = Control::from_idx(i);
            if controls.get(control) && goal.controls.get(control) {
                return true;
            }
            assert forall|other: Control| other.spec_idx() < i + 1 implies !(
            #[trigger] controls.has(other) && goal.controls.has(other)) by {
                if other.spec_idx() == i {
                    assert(other == control);
                }
            }
            i = i + 1;
        }
        false
    }

    /// The goal may take the place of every goal that holds one of its controls.
    pub open spec fn spec_can_replace_all(self, goal: PrioritizedGoal) -> bool {
        forall|control: Control| #[trigger]
            goal.controls.has(control) ==> {
                let holder = self.goals_by_control@[control.spec_idx()];
                holder == NO_GOAL || self.goals@[holder as int].spec_can_be_replaced_by(goal)
            }
    }

    /// Whether the goal may take the place of every goal that holds one of its
    /// controls.
    pub fn can_replace_all(&self, goal: &PrioritizedGoal) -> (r: bool)
        requires
            self.wf(),
        ensures
            r == self.spec_can_replace_all(*goal),
    {
        let mut i: usize = 0;
        while i < CONTROL_COUNT
            invariant
                self.wf(),
                i <= CONTROL_COUNT,
                forall|control: Control|
                    control.spec_idx() < i && #[trigger] goal.controls.has(control) ==> {
                        let holder = self.goals_by_control@[control.spec_idx()];
                        holder == NO_GOAL || self.goals@[holder as int].spec_can_be_replaced_by(
                            *goal,
                        )
                    },
            decreases CONTROL_COUNT - i,
        {
            let control: Control = Control::from_idx(i);
            if goal.controls.get(control) {
                let holder: usize = self.goals_by_control[i];
                if holder != NO_GOAL && !self.goals[holder].can_be_replaced_by(goal) {
                    assert(goal.controls.has(control));
                    return false;
                }
            }
            assert forall|other: Control|
                other.spec_idx() < i + 1 && #[trigger] goal.controls.has(other) implies ({
                let holder = self.goals_by_control@[other.spec_idx()];
                holder == NO_GOAL || self.goals@[holder as int].spec_can_be_replaced_by(*goal)
            }) by {
                if other.spec_idx() == i {
                    assert(other == control);
                }
            }
            i = i + 1;
        }
        true
    }

    /// The goal that holds the control.
    pub fn get_goal_by_control(&self, control: Control) -> (r: Option<usize>)
        requires
            self.wf(),
        ensures
            r == (if self.goals_by_control@[control.spec_idx()] < self.goals@.len() {
                Some(self.goals_by_control@[control.spec_idx()])
            } else {
                None
            }),
    {
        let i: usize = self.goals_by_control[control.idx()];
        if i < self.goals.len() {
            Some(i)
        } else {
            None
        }
    }

    /// No goal that takes the control may run from now on.
    pub fn disable_control(&mut self, control: Control)
        ensures
            *final(self) == (GoalSelector {
                disabled_controls: old(self).disabled_controls.with(control, true),
                ..*old(self)
            }),
    {
        self.disabled_controls.set(control, true);
    }

    /// Goals that take the control may run again.
    pub fn enable_control(&mut self, control: Control)
        ensures
            *final(self) == (GoalSelector {
                disabled_controls: old(self).disabled_controls.with(control, false),
                ..*old(self)
            }),
    {
        self.disabled_controls.set(control, false);
    }

    /// Says whether goals that take the control may run.
    pub fn set_control_enabled(&mut self, control: Control, enabled: bool)
        ensures
            *final(self) == (GoalSelector {
                disabled_controls: old(self).disabled_controls.with(control, !enabled),
                ..*old(self)
            }),
    {
        self.disabled_controls.set(control, !enabled);
    }

    /// A mob moves and looks around by itself unless something controls it, and jumps
    /// by itself unless it also sits in a boat.
    pub fn update_control_flags(&mut self, no_controller: bool, not_in_boat: bool)
        ensures
            *final(self) == (GoalSelector {
                disabled_controls: Controls {
                    moves: !no_controller,
                    looks: !no_controller,
                    jumps: !(no_controller && not_in_boat),
                    ..old(self).disabled_controls
                },
                ..*old(self)
            }),
    {
        self.set_control_enabled(Control::Move, no_controller);
        self.set_control_enabled(Control::Jump, no_controller && not_in_boat);
        self.set_control_enabled(Control::Look, no_controller);
    }

    /// Whether no goal that takes the control may run.
    pub fn is_control_disabled(&self, control: Control) -> (r: bool)
        ensures
            r == self.disabled_controls.has(control),
    {
        self.disabled_controls.get(control)
    }
}

/// Law: a control that was disabled once comes back with the next update of the
/// flags, where nothing controls the mob and it sits in no boat; the control for
/// targets is left as it is.
pub proof fn law_update_undoes_disabling(disabled: Controls, control: Control)
    ensures
        ({
            let updated = Controls {
                moves: false,
                looks: false,
                jumps: false,
                ..disabled.with(control, true)
            };
            &&& control != Control::Target ==> !updated.has(control)
            &&& control != Control::Target ==> updated.has(Control::Target) == disabled.has(
                Control::Target,
            )
        }),
{
}

/// Law: disabling a control and enabling it again leaves no trace where it was
/// enabled, and never touches another control.
pub proof fn law_enabling_undoes_disabling(disabled: Controls, control: Control, other: Control)
    ensures
        !disabled.has(control) ==> disabled.with(control, true).with(control, false) == disabled,
        disabled.with(control, true).has(control),
        !disabled.with(control, false).has(control),
        other != control ==> disabled.with(control, true).has(other) == disabled.has(other),
        other != control ==> disabled.with(control, false).has(other) == disabled.has(other),
{
}

// ---------------------------------------------------------------------------
// A tick.
// ---------------------------------------------------------------------------

/// A goal that runs no longer.
pub open spec fn stopped(goal: PrioritizedGoal) -> PrioritizedGoal {
    PrioritizedGoal { running: false, ..goal }
}

/// A goal that runs has to stop: it takes a control that is disabled, or does not
/// want to go on.
pub open spec fn must_stop(goal: PrioritizedGoal, disabled: Controls, continues: bool) -> bool {
    goal.running && (uses_any_of(goal, disabled) || !continues)
}

/// The slots, without those of goals that do not run.
pub open spec fn freed_slots(slots: Seq<usize>, goals: Seq<PrioritizedGoal>) -> Seq<usize> {
    Seq::new(
        slots.len(),
        |c: int|
            if slots[c] != NO_GOAL && !goals[slots[c] as int].running {
                NO_GOAL
            } else {
                slots[c]
            },
    )
}

/// The goals that hold the first `k` controls that are among the given ones, control
/// by control.
pub open spec fn holders(slots: Seq<usize>, controls: Controls, count: nat, k: int) -> Seq<usize>
    decreases k,
{
    if k <= 0 {
        Seq::empty()
    } else {
        holders(slots, controls, count, k - 1) + only_if(
            controls.has(Control::spec_from_idx(k - 1)) && slots[k - 1] < count,
            slots[k - 1],
        )
    }
}

/// The goal at the place holds one of the first `k` controls that are among the given
/// ones.
pub open spec fn holds_one_of(slots: Seq<usize>, controls: Controls, i: int, k: int) -> bool {
    exists|c: int|
        0 <= c < k && #[trigger] slots[c] == i && controls.has(Control::spec_from_idx(c))
}

/// The slots once the goal at the place has taken the first `k` controls that it
/// needs.
pub open spec fn taken_slots(slots: Seq<usize>, controls: Controls, i: usize, k: int) -> Seq<usize> {
    Seq::new(
        slots.len(),
        |c: int|
            if c < k && controls.has(Control::spec_from_idx(c)) {
                i
            } else {
                slots[c]
            },
    )
}

/// The goals once the one at the place has taken the first `k` controls that it needs
/// from those that held them.
pub open spec fn yielded_goals(
    slots: Seq<usize>,
    goals: Seq<PrioritizedGoal>,
    controls: Controls,
    k: int,
) -> Seq<PrioritizedGoal> {
    Seq::new(
        goals.len(),
        |j: int|
            if holds_one_of(slots, controls, j, k) {
                stopped(goals[j])
            } else {
                goals[j]
            },
    )
}

/// The goals once the one at the place has started.
pub open spec fn started_goals(slots: Seq<usize>, goals: Seq<PrioritizedGoal>, i: int) -> Seq<
    PrioritizedGoal,
> {
    yielded_goals(slots, goals, goals[i].controls, CONTROL_COUNT as int).update(
        i,
        PrioritizedGoal { running: true, ..goals[i] },
    )
}

/// The goals that run in this tick, by their places: all that are running, or only
/// those that run in every tick.
pub open spec fn ticked(goals: Seq<PrioritizedGoal>, tick_all: bool) -> Seq<usize>
    decreases goals.len(),
{
    if goals.len() == 0 {
        Seq::empty()
    } else {
        ticked(goals.drop_last(), tick_all) + only_if(
            goals.last().running && (tick_all || goals.last().every_tick),
            (goals.len() - 1) as usize,
        )
    }
}

impl GoalSelector {
    /// Whether the goal at the place has to be asked if it wants to go on.
    pub fn must_ask(&self, i: usize) -> (r: bool)
        requires
            i < self.goals@.len(),
        ensures
            r == (self.goals@[i as int].running && !uses_any_of(
                self.goals@[i as int],
                self.disabled_controls,
            )),
    {
        self.goals[i].running && !Self::uses_any(&self.goals[i], self.disabled_controls)
    }

    /// Takes the answer of the goal at the place, if it was asked. Returns whether the
    /// goal has to be told to stop.
    pub fn review(&mut self, i: usize, continues: bool) -> (stops: bool)
        requires
            old(self).wf(),
            i < old(self).goals@.len(),
        ensures
            final(self).wf(),
            old(self).exclusive() ==> final(self).exclusive(),
            stops == must_stop(
                old(self).goals@[i as int],
                old(self).disabled_controls,
                continues,
            ),
            final(self).goals@ == (if stops {
                old(self).goals@.update(i as int, stopped(old(self).goals@[i as int]))
            } else {
                old(self).goals@
            }),
            final(self).goals_by_control == old(self).goals_by_control,
            final(self).disabled_controls == old(self).disabled_controls,
    {
        let mut goal: PrioritizedGoal = self.goals[i];
        if goal.running && (Self::uses_any(&goal, self.disabled_controls) || !continues) {
            goal.running = false;
            self.goals.set(i, goal);
            true
        } else {
            false
        }
    }

    /// Frees the controls that goals hold which do not run.
    pub fn free_slots(&mut self)
        requires
            old(self).wf(),
        ensures
            final(self).wf(),
            old(self).exclusive() ==> final(self).exclusive(),
            final(self).goals_by_control@ == freed_slots(
                old(self).goals_by_control@,
                old(self).goals@,
            ),
            final(self).goals == old(self).goals,
            final(self).disabled_controls == old(self).disabled_controls,
    {
        let ghost before = self.goals_by_control@;
        let mut c: usize = 0;
        while c < CONTROL_COUNT
            invariant
                c <= CONTROL_COUNT,
                self.goals == old(self).goals,
                self.disabled_controls == old(self).disabled_controls,
                before == old(self).goals_by_control@,
                slots_in_range(before, self.goals@.len()),
                self.goals_by_control@.len() == CONTROL_COUNT,
                forall|d: int|
                    0 <= d < c ==> #[trigger] self.goals_by_control@[d] == freed_slots(
                        before,
                        self.goals@,
                    )[d],
                forall|d: int|
                    c <= d < CONTROL_COUNT ==> #[trigger] self.goals_by_control@[d] == before[d],
            decreases CONTROL_COUNT - c,
        {
            let holder: usize = self.goals_by_control[c];
            assert(before[c as int] == holder);
            if holder != NO_GOAL && !self.goals[holder].running {
                self.goals_by_control[c] = NO_GOAL;
            }
            c = c + 1;
        }
        assert(self.goals_by_control@ =~= freed_slots(before, self.goals@));
    }

    /// The goal at the place may start, if it can: it does not run, takes no control
    /// that is disabled, and may take the place of those that hold its controls.
    pub open spec fn spec_may_start(self, i: int) -> bool {
        &&& !self.goals@[i].running
        &&& !uses_any_of(self.goals@[i], self.disabled_controls)
        &&& self.spec_can_replace_all(self.goals@[i])
    }

    /// Whether the goal at the place has to be asked if it can start.
    pub fn may_start(&self, i: usize) -> (r: bool)
        requires
            self.wf(),
            i < self.goals@.len(),
        ensures
            r == self.spec_may_start(i as int),
    {
        !self.goals[i].running && !Self::uses_any(&self.goals[i], self.disabled_controls)
            && self.can_replace_all(&self.goals[i])
    }

    /// Starts the goal at the place, which then holds all its controls. Returns the
    /// goals to be told to stop before it starts: for each control, the one that held
    /// it.
    pub fn start(&mut self, i: usize) -> (yielding: Vec<usize>)
        requires
            old(self).wf(),
            i < old(self).goals@.len(),
            old(self).spec_may_start(i as int),
        ensures
            final(self).wf(),
            old(self).exclusive() ==> final(self).exclusive(),
            yielding@ == holders(
                old(self).goals_by_control@,
                old(self).goals@[i as int].controls,
                old(self).goals@.len(),
                CONTROL_COUNT as int,
            ),
            final(self).goals@ == started_goals(
                old(self).goals_by_control@,
                old(self).goals@,
                i as int,
            ),
            final(self).goals_by_control@ == taken_slots(
                old(self).goals_by_control@,
                old(self).goals@[i as int].controls,
                i,
                CONTROL_COUNT as int,
            ),
            final(self).disabled_controls == old(self).disabled_controls,
    {
        let controls: Controls = self.goals[i].controls;
        let ghost slots = self.goals_by_control@;
        let ghost goals = self.goals@;
        let mut yielding: Vec<usize> = Vec::new();
        let mut c: usize = 0;
        proof {
            assert(self.goals@ =~= yielded_goals(slots, goals, controls, 0));
            assert(self.goals_by_control@ =~= taken_slots(slots, controls, i, 0));
        }
        while c < CONTROL_COUNT
            invariant
                c <= CONTROL_COUNT,
                slots_in_range(slots, goals.len()),
                i < goals.len(),
                controls == goals[i as int].controls,
                old(self).goals@ == goals,
                old(self).goals_by_control@ == slots,
                old(self).spec_can_replace_all(goals[i as int]),
                self.goals@ == yielded_goals(slots, goals, controls, c as int),
                self.goals_by_control@ == taken_slots(slots, controls, i, c as int),
                self.disabled_controls == old(self).disabled_controls,
                yielding@ == holders(slots, controls, goals.len(), c as int),
            decreases CONTROL_COUNT - c,
        {
            let control: Control = Control::from_idx(c);
            let takes: bool = controls.get(control);
            let holder: usize = self.goals_by_control[c];
            let held: bool = takes && holder < self.goals.len();
            assert(holder == slots[c as int]);
            push_if(&mut yielding, held, holder);
            proof {
                lemma_yielded(slots, goals, controls, c as int);
                lemma_taken(slots, controls, i, c as int);
            }
            if held {
                let mut goal: PrioritizedGoal = self.goals[holder];
                goal.running = false;
                self.goals.set(holder, goal);
            }
            if takes {
                self.goals_by_control[c] = i;
            }
            c = c + 1;
            proof {
                assert(self.goals@ =~= yielded_goals(slots, goals, controls, c as int));
                assert(self.goals_by_control@ =~= taken_slots(slots, controls, i, c as int));
            }
        }
        proof {
            assert(self.goals@[i as int] == goals[i as int]) by {
                if holds_one_of(slots, controls, i as int, CONTROL_COUNT as int) {
                    let d = choose|d: int|
                        0 <= d < CONTROL_COUNT && #[trigger] slots[d] == i && controls.has(
                            Control::spec_from_idx(d),
                        );
                    let control = Control::spec_from_idx(d);
                    assert(goals[i as int].controls.has(control));
                    assert(control.spec_idx() == d);
                }
            }
        }
        let mut goal: PrioritizedGoal = self.goals[i];
        goal.running = true;
        self.goals.set(i, goal);
        proof {
            assert(self.goals@ =~= started_goals(slots, goals, i as int));
            if old(self).exclusive() {
                lemma_started_is_exclusive(slots, goals, i);
            }
        }
        yielding
    }

    /// The goals that run in this tick, by their places, in order.
    pub fn tick_goals(&self, tick_all: bool) -> (r: Vec<usize>)
        ensures
            r@ == ticked(self.goals@, tick_all),
    {
        let mut list: Vec<usize> = Vec::new();
        let mut i: usize = 0;
        while i < self.goals.len()
            invariant
                i <= self.goals@.len(),
                list@ == ticked(self.goals@.take(i as int), tick_all),
            decreases self.goals.len() - i,
        {
            assert(self.goals@.take(i as int + 1).drop_last() =~= self.goals@.take(i as int));
            let goal: PrioritizedGoal = self.goals[i];
            push_if(&mut list, goal.running && (tick_all || goal.every_tick), i);
            i = i + 1;
        }
        assert(self.goals@.take(i as int) =~= self.goals@);
        list
    }
}

/// Taking one control more takes it from the goal that held it.
proof fn lemma_yielded(
    slots: Seq<usize>,
    goals: Seq<PrioritizedGoal>,
    controls: Controls,
    c: int,
)
    requires
        slots_in_range(slots, goals.len()),
        0 <= c < CONTROL_COUNT,
    ensures
        yielded_goals(slots, goals, controls, c + 1) == (if controls.has(
            Control::spec_from_idx(c),
        ) && slots[c] < goals.len() {
            yielded_goals(slots, goals, controls, c).update(
                slots[c] as int,
                stopped(yielded_goals(slots, goals, controls, c)[slots[c] as int]),
            )
        } else {
            yielded_goals(slots, goals, controls, c)
        }),
{
    let before = yielded_goals(slots, goals, controls, c);
    let after = yielded_goals(slots, goals, controls, c + 1);
    let takes = controls.has(Control::spec_from_idx(c));
    assert forall|j: int| 0 <= j < goals.len() implies holds_one_of(slots, controls, j, c + 1) == (
    holds_one_of(slots, controls, j, c) || takes && slots[c] == j) by {
        if takes && slots[c] == j {
            assert(slots[c] == j && controls.has(Control::spec_from_idx(c)));
        }
        if holds_one_of(slots, controls, j, c) {
            let d = choose|d: int|
                0 <= d < c && #[trigger] slots[d] == j && controls.has(Control::spec_from_idx(d));
            assert(slots[d] == j);
        }
    }
    if takes && slots[c] < goals.len() {
        assert(after =~= before.update(slots[c] as int, stopped(before[slots[c] as int])));
    } else {
        assert(after =~= before);
    }
}

/// Taking one control more changes its slot alone.
proof fn lemma_taken(slots: Seq<usize>, controls: Controls, i: usize, c: int)
    requires
        slots.len() == CONTROL_COUNT,
        0 <= c < CONTROL_COUNT,
    ensures
        taken_slots(slots, controls, i, c + 1) == (if controls.has(Control::spec_from_idx(c)) {
            taken_slots(slots, controls, i, c).update(c, i)
        } else {
            taken_slots(slots, controls, i, c)
        }),
{
    if controls.has(Control::spec_from_idx(c)) {
        assert(taken_slots(slots, controls, i, c + 1) =~= taken_slots(slots, controls, i, c).update(
            c,
            i,
        ));
    } else {
        assert(taken_slots(slots, controls, i, c + 1) =~= taken_slots(slots, controls, i, c));
    }
}

/// After a goal has started, each goal that runs holds all its controls.
proof fn lemma_started_is_exclusive(slots: Seq<usize>, goals: Seq<PrioritizedGoal>, i: usize)
    requires
        slots_in_range(slots, goals.len()),
        i < goals.len(),
        running_goals_hold(slots, goals),
    ensures
        running_goals_hold(
            taken_slots(slots, goals[i as int].controls, i, CONTROL_COUNT as int),
            started_goals(slots, goals, i as int),
        ),
{
    let controls = goals[i as int].controls;
    let after = started_goals(slots, goals, i as int);
    let taken = taken_slots(slots, controls, i, CONTROL_COUNT as int);
    assert forall|j: int, control: Control|
        0 <= j < after.len() && (#[trigger] after[j]).running && #[trigger] after[j].controls.has(
            control,
        ) implies taken[control.spec_idx()] == j by {
        let c = control.spec_idx();
        assert(Control::spec_from_idx(c) == control);
        if j != i {
            assert(goals[j].running && goals[j].controls.has(control));
            assert(slots[c] == j);
            if controls.has(control) {
                assert(holds_one_of(slots, controls, j, CONTROL_COUNT as int));
            }
        }
    }
}

/// The goals and who holds which control.
pub struct Selection {
    pub slots: Seq<usize>,
    pub goals: Seq<PrioritizedGoal>,
}

/// The first `k` goals have been reviewed.
pub open spec fn reviewed(
    goals: Seq<PrioritizedGoal>,
    disabled: Controls,
    answers: Seq<GoalAnswer>,
    k: int,
) -> Seq<PrioritizedGoal> {
    Seq::new(
        goals.len(),
        |i: int|
            if i < k && must_stop(goals[i], disabled, answers[i].continues) {
                stopped(goals[i])
            } else {
                goals[i]
            },
    )
}

/// The goals among the first `k` that are told to stop in the review.
pub open spec fn review_stops(
    goals: Seq<PrioritizedGoal>,
    disabled: Controls,
    answers: Seq<GoalAnswer>,
    k: int,
) -> Seq<GoalAction>
    decreases k,
{
    if k <= 0 {
        Seq::empty()
    } else {
        review_stops(goals, disabled, answers, k - 1) + only_if(
            must_stop(goals[k - 1], disabled, answers[k - 1].continues),
            GoalAction::Stop((k - 1) as usize),
        )
    }
}

/// The goal at the place starts.
pub open spec fn starts_at(
    selection: Selection,
    disabled: Controls,
    answers: Seq<GoalAnswer>,
    i: int,
) -> bool {
    let goal = selection.goals[i];
    &&& !goal.running
    &&& !uses_any_of(goal, disabled)
    &&& forall|control: Control| #[trigger]
        goal.controls.has(control) ==> {
            let holder = selection.slots[control.spec_idx()];
            holder == NO_GOAL || selection.goals[holder as int].spec_can_be_replaced_by(goal)
        }
    &&& answers[i].can_start
}

/// The first `k` goals have had their chance to start.
pub open spec fn selected(
    selection: Selection,
    disabled: Controls,
    answers: Seq<GoalAnswer>,
    k: int,
) -> Selection
    decreases k,
{
    if k <= 0 {
        selection
    } else {
        let before = selected(selection, disabled, answers, k - 1);
        if starts_at(before, disabled, answers, k - 1) {
            Selection {
                slots: taken_slots(
                    before.slots,
                    before.goals[k - 1].controls,
                    (k - 1) as usize,
                    CONTROL_COUNT as int,
                ),
                goals: started_goals(before.slots, before.goals, k - 1),
            }
        } else {
            before
        }
    }
}

/// Telling each of the goals to stop.
pub open spec fn stop_each(yielding: Seq<usize>) -> Seq<GoalAction> {
    yielding.map_values(|i: usize| GoalAction::Stop(i))
}

/// Running each of the goals.
pub open spec fn tick_each(ticking: Seq<usize>) -> Seq<GoalAction> {
    ticking.map_values(|i: usize| GoalAction::Tick(i))
}

/// What the chances of the first `k` goals to start come to.
pub open spec fn selecting_actions(
    selection: Selection,
    disabled: Controls,
    answers: Seq<GoalAnswer>,
    k: int,
) -> Seq<GoalAction>
    decreases k,
{
    if k <= 0 {
        Seq::empty()
    } else {
        let before = selected(selection, disabled, answers, k - 1);
        let so_far = selecting_actions(selection, disabled, answers, k - 1);
        if starts_at(before, disabled, answers, k - 1) {
            so_far + stop_each(
                holders(
                    before.slots,
                    before.goals[k - 1].controls,
                    before.goals.len(),
                    CONTROL_COUNT as int,
                ),
            ) + seq![GoalAction::Start((k - 1) as usize)]
        } else {
            so_far
        }
    }
}

impl GoalSelector {
    /// The goals after the review, with the controls of those that stopped freed.
    pub open spec fn spec_reviewed(self, answers: Seq<GoalAnswer>) -> Selection {
        let goals = reviewed(
            self.goals@,
            self.disabled_controls,
            answers,
            self.goals@.len() as int,
        );
        Selection { slots: freed_slots(self.goals_by_control@, goals), goals }
    }

    /// The goals after the tick.
    pub open spec fn spec_ticked(self, answers: Seq<GoalAnswer>) -> Selection {
        selected(
            self.spec_reviewed(answers),
            self.disabled_controls,
            answers,
            self.goals@.len() as int,
        )
    }

    /// What the tick comes to: first goals stop that have to, then goals start that
    /// can, and then all that are running run.
    pub open spec fn tick_actions(self, answers: Seq<GoalAnswer>) -> Seq<GoalAction> {
        review_stops(
            self.goals@,
            self.disabled_controls,
            answers,
            self.goals@.len() as int,
        ) + selecting_actions(
            self.spec_reviewed(answers),
            self.disabled_controls,
            answers,
            self.goals@.len() as int,
        ) + tick_each(ticked(self.spec_ticked(answers).goals, true))
    }

    /// Lets a tick go by, with the answers of the goals known beforehand. Only the
    /// answers of goals that are asked count.
    pub fn tick(&mut self, answers: &Vec<GoalAnswer>) -> (actions: Vec<GoalAction>)
        requires
            old(self).wf(),
            answers@.len() == old(self).goals@.len(),
        ensures
            final(self).wf(),
            old(self).exclusive() ==> final(self).exclusive(),
            final(self).goals@ == old(self).spec_ticked(answers@).goals,
            final(self).goals_by_control@ == old(self).spec_ticked(answers@).slots,
            final(self).disabled_controls == old(self).disabled_controls,
            actions@ == old(self).tick_actions(answers@),
    {
        let mut actions: Vec<GoalAction> = Vec::new();
        let ghost goals = self.goals@;
        let ghost slots = self.goals_by_control@;
        let ghost disabled = self.disabled_controls;
        let count: usize = self.goals.len();
        let mut i: usize = 0;
        assert(self.goals@ =~= reviewed(goals, disabled, answers@, 0));
        while i < count
            invariant
                self.wf(),
                old(self).exclusive() ==> self.exclusive(),
                i <= count,
                count == goals.len(),
                answers@.len() == count,
                goals == old(self).goals@,
                disabled == old(self).disabled_controls,
                self.disabled_controls == disabled,
                self.goals_by_control@ == slots,
                self.goals@ == reviewed(goals, disabled, answers@, i as int),
                actions@ == review_stops(goals, disabled, answers@, i as int),
            decreases count - i,
        {
            assert(self.goals@[i as int] == goals[i as int]);
            let continues: bool = answers[i].continues;
            let stops: bool = self.review(i, continues);
            push_if(&mut actions, stops, GoalAction::Stop(i));
            i = i + 1;
            assert(self.goals@ =~= reviewed(goals, disabled, answers@, i as int));
        }
        self.free_slots();
        let ghost start = Selection { slots: self.goals_by_control@, goals: self.goals@ };
        let ghost stops = actions@;
        let mut k: usize = 0;
        assert(actions@ =~= stops + selecting_actions(start, disabled, answers@, 0));
        while k < count
            invariant
                self.wf(),
                old(self).exclusive() ==> self.exclusive(),
                k <= count,
                count == self.goals@.len(),
                answers@.len() == count,
                self.disabled_controls == disabled,
                self.goals@ == selected(start, disabled, answers@, k as int).goals,
                self.goals_by_control@ == selected(start, disabled, answers@, k as int).slots,
                actions@ == stops + selecting_actions(start, disabled, answers@, k as int),
            decreases count - k,
        {
            let ghost before = selected(start, disabled, answers@, k as int);
            let ghost so_far = actions@;
            if self.may_start(k) && answers[k].can_start {
                assert(starts_at(before, disabled, answers@, k as int));
                let yielding: Vec<usize> = self.start(k);
                let mut n: usize = 0;
                while n < yielding.len()
                    invariant
                        n <= yielding@.len(),
                        actions@ == so_far + stop_each(yielding@.take(n as int)),
                    decreases yielding.len() - n,
                {
                    actions.push(GoalAction::Stop(yielding[n]));
                    n = n + 1;
                    assert(actions@ =~= so_far + stop_each(yielding@.take(n as int)));
                }
                assert(yielding@.take(n as int) =~= yielding@);
                actions.push(GoalAction::Start(k));
                assert(actions@ =~= stops + selecting_actions(
                    start,
                    disabled,
                    answers@,
                    k as int + 1,
                ));
            } else {
                assert(!starts_at(before, disabled, answers@, k as int));
            }
            k = k + 1;
        }
        let ticking: Vec<usize> = self.tick_goals(true);
        let ghost so_far = actions@;
        let mut n: usize = 0;
        assert(actions@ =~= so_far + tick_each(ticking@.take(0)));
        while n < ticking.len()
            invariant
                n <= ticking@.len(),
                actions@ == so_far + tick_each(ticking@.take(n as int)),
            decreases ticking.len() - n,
        {
            actions.push(GoalAction::Tick(ticking[n]));
            n = n + 1;
            assert(actions@ =~= so_far + tick_each(ticking@.take(n as int)));
        }
        assert(ticking@.take(n as int) =~= ticking@);
        actions
    }
}

/// Law: two goals that run never share a control.
pub proof fn law_running_goals_share_no_control(
    selector: GoalSelector,
    first: int,
    second: int,
    control: Control,
)
    requires
        selector.exclusive(),
        0 <= first < selector.goals@.len(),
        0 <= second < selector.goals@.len(),
        selector.goals@[first].running,
        selector.goals@[second].running,
        selector.goals@[first].controls.has(control),
        selector.goals@[second].controls.has(control),
    ensures
        first == second,
{
}

/// Law: after a tick no goal runs that takes a control which is disabled.
pub proof fn law_no_goal_runs_on_a_disabled_control(
    selector: GoalSelector,
    answers: Seq<GoalAnswer>,
    i: int,
)
    requires
        0 <= i < selector.goals@.len(),
        selector.spec_ticked(answers).goals[i].running,
    ensures
        !uses_any_of(selector.spec_ticked(answers).goals[i], selector.disabled_controls),
{
    let start = selector.spec_reviewed(answers);
    assert forall|j: int| 0 <= j < start.goals.len() && (
    #[trigger] start.goals[j]).running implies !uses_any_of(
        start.goals[j],
        selector.disabled_controls,
    ) by {
        assert(start.goals[j] == selector.goals@[j]);
    }
    lemma_selected_keeps_off(
        start,
        selector.disabled_controls,
        answers,
        selector.goals@.len() as int,
    );
}

/// Starting goals starts none that takes a disabled control.
proof fn lemma_selected_keeps_off(
    selection: Selection,
    disabled: Controls,
    answers: Seq<GoalAnswer>,
    k: int,
)
    requires
        0 <= k <= selection.goals.len(),
        forall|j: int|
            0 <= j < selection.goals.len() && (#[trigger] selection.goals[j]).running
                ==> !uses_any_of(selection.goals[j], disabled),
    ensures
        selected(selection, disabled, answers, k).goals.len() == selection.goals.len(),
        forall|j: int|
            0 <= j < selection.goals.len() && (#[trigger] selected(
                selection,
                disabled,
                answers,
                k,
            ).goals[j]).running ==> !uses_any_of(
                selected(selection, disabled, answers, k).goals[j],
                disabled,
            ),
    decreases k,
{
    if k > 0 {
        lemma_selected_keeps_off(selection, disabled, answers, k - 1);
        let before = selected(selection, disabled, answers, k - 1);
        let after = selected(selection, disabled, answers, k);
        assert forall|j: int|
            0 <= j < selection.goals.len() && (
            #[trigger] after.goals[j]).running implies !uses_any_of(after.goals[j], disabled) by {
            if starts_at(before, disabled, answers, k - 1) && j != k - 1 {
                assert(after.goals[j] == before.goals[j]);
            } else if starts_at(before, disabled, answers, k - 1) {
                assert(after.goals[j].controls == before.goals[j].controls);
                if uses_any_of(after.goals[j], disabled) {
                    let control = choose|control: Control| #[trigger]
                        disabled.has(control) && after.goals[j].controls.has(control);
                    assert(disabled.has(control) && before.goals[j].controls.has(control));
                }
            }
        }
    }
}

// ---------------------------------------------------------------------------
// Removing goals.
// ---------------------------------------------------------------------------

/// The places of the goals that run, in order.
pub open spec fn running_places(goals: Seq<PrioritizedGoal>) -> Seq<usize>
    decreases goals.len(),
{
    if goals.len() == 0 {
        Seq::empty()
    } else {
        running_places(goals.drop_last()) + only_if(
            goals.last().running,
            (goals.len() - 1) as usize,
        )
    }
}

impl GoalSelector {
    /// Takes all goals out of the list. Returns those that ran, which have to be told to
    /// stop.
    pub fn clear_all_goals(&mut self) -> (stops: Vec<usize>)
        requires
            old(self).wf(),
        ensures
            stops@ == running_places(old(self).goals@),
            final(self).is_emptied(*old(self)),
    {
        let mut stops: Vec<usize> = Vec::new();
        let mut i: usize = 0;
        while i < self.goals.len()
            invariant
                *self == *old(self),
                i <= self.goals@.len(),
                stops@ == running_places(self.goals@.take(i as int)),
            decreases self.goals.len() - i,
        {
            assert(self.goals@.take(i as int + 1).drop_last() =~= self.goals@.take(i as int));
            push_if(&mut stops, self.goals[i].running, i);
            i = i + 1;
        }
        assert(self.goals@.take(i as int) =~= self.goals@);
        self.goals = Vec::new();
        self.goals_by_control = [NO_GOAL, NO_GOAL, NO_GOAL, NO_GOAL];
        assert(self.goals_by_control@ =~= seq![NO_GOAL, NO_GOAL, NO_GOAL, NO_GOAL]);
        stops
    }
}

/// The places of the goals of the type, in order.
pub open spec fn places_of(goals: Seq<PrioritizedGoal>, type_id: u64) -> Seq<usize>
    decreases goals.len(),
{
    if goals.len() == 0 {
        Seq::empty()
    } else {
        places_of(goals.drop_last(), type_id) + only_if(
            goals.last().type_id == type_id,
            (goals.len() - 1) as usize,
        )
    }
}

/// The places of the goals of the type that run, in order.
pub open spec fn running_places_of(goals: Seq<PrioritizedGoal>, type_id: u64) -> Seq<usize>
    decreases goals.len(),
{
    if goals.len() == 0 {
        Seq::empty()
    } else {
        running_places_of(goals.drop_last(), type_id) + only_if(
            goals.last().type_id == type_id && goals.last().running,
            (goals.len() - 1) as usize,
        )
    }
}

/// The goals can be taken out one after the other: each place is still there when its
/// turn comes.
pub open spec fn removable(goals: Seq<PrioritizedGoal>, type_id: u64) -> bool {
    let places = places_of(goals, type_id);
    forall|k: int| 0 <= k < places.len() ==> #[trigger] places[k] < goals.len() - k
}

/// The goals once those at the first `k` places have been taken out, the last goal
/// moving into the gap each time.
pub open spec fn taken_out(goals: Seq<PrioritizedGoal>, places: Seq<usize>, k: int) -> Seq<
    PrioritizedGoal,
>
    decreases k,
{
    if k <= 0 {
        goals
    } else {
        let before = taken_out(goals, places, k - 1);
        before.update(places[k - 1] as int, before.last()).drop_last()
    }
}

/// A slot once the goal at the place has been taken out: its own slot is free, and that of
/// the last goal, which moves into the gap, names the gap.
pub open spec fn moved_slot(slot: usize, place: usize, last: int) -> usize {
    if slot == NO_GOAL || slot == place {
        NO_GOAL
    } else if slot == last {
        place
    } else {
        slot
    }
}

/// The slots once the goals at the first `k` places of as many goals have been taken out.
pub open spec fn moved_slots(slots: Seq<usize>, places: Seq<usize>, count: int, k: int) -> Seq<usize>
    decreases k,
{
    if k <= 0 {
        slots
    } else {
        moved_slots(slots, places, count, k - 1).map_values(
            |slot: usize| moved_slot(slot, places[k - 1], count - k),
        )
    }
}

/// Each goal that runs still holds its controls once another has been taken out, the last
/// one moving into the gap.
proof fn lemma_taken_out_is_exclusive(
    slots: Seq<usize>,
    goals: Seq<PrioritizedGoal>,
    place: usize,
)
    requires
        slots_in_range(slots, goals.len()),
        running_goals_hold(slots, goals),
        place < goals.len() <= NO_GOAL,
    ensures
        running_goals_hold(
            slots.map_values(|slot: usize| moved_slot(slot, place, goals.len() - 1)),
            goals.update(place as int, goals.last()).drop_last(),
        ),
{
    let last = goals.len() - 1;
    let moved = slots.map_values(|slot: usize| moved_slot(slot, place, last));
    let after = goals.update(place as int, goals.last()).drop_last();
    assert forall|i: int, control: Control|
        0 <= i < after.len() && (#[trigger] after[i]).running && #[trigger] after[i].controls.has(
            control,
        ) implies moved[control.spec_idx()] == i by {
        let origin = if i == place {
            last
        } else {
            i
        };
        assert(after[i] == goals[origin]);
        assert(goals[origin].running && goals[origin].controls.has(control));
        assert(slots[control.spec_idx()] == origin);
    }
}

/// The places of the goals of a type are in order, within the list, and there is one
/// for each of them.
proof fn lemma_places_of(goals: Seq<PrioritizedGoal>, type_id: u64)
    requires
        goals.len() <= NO_GOAL,
    ensures
        places_of(goals, type_id).len() <= goals.len(),
        forall|k: int|
            0 <= k < places_of(goals, type_id).len() ==> (#[trigger] places_of(goals, type_id)[k])
                < goals.len() && goals[places_of(goals, type_id)[k] as int].type_id == type_id,
        forall|k: int, m: int|
            0 <= k < m < places_of(goals, type_id).len() ==> #[trigger] places_of(
                goals,
                type_id,
            )[k] < #[trigger] places_of(goals, type_id)[m],
        forall|p: int|
            0 <= p < goals.len() && (#[trigger] goals[p]).type_id == type_id ==> places_of(
                goals,
                type_id,
            ).contains(p as usize),
    decreases goals.len(),
{
    if goals.len() > 0 {
        let rest = goals.drop_last();
        let before = places_of(rest, type_id);
        let places = places_of(goals, type_id);
        lemma_places_of(rest, type_id);
        assert forall|p: int|
            0 <= p < goals.len() && (
            #[trigger] goals[p]).type_id == type_id implies places.contains(p as usize) by {
            if p < rest.len() {
                assert(rest[p] == goals[p]);
                assert(before.contains(p as usize));
                let k = choose|k: int| 0 <= k < before.len() && before[k] == p as usize;
                assert(places[k] == p as usize);
            } else {
                assert(places[before.len() as int] == p as usize);
            }
        }
        assert forall|k: int| 0 <= k < places.len() implies (#[trigger] places[k]) < goals.len()
            && goals[places[k] as int].type_id == type_id by {
            if k < before.len() {
                assert(places[k] == before[k]);
                assert(rest[before[k] as int] == goals[before[k] as int]);
            }
        }
        assert forall|k: int, m: int| 0 <= k < m < places.len() implies #[trigger] places[k]
            < #[trigger] places[m] by {
            assert(places[k] == before[k]);
            if m < before.len() {
                assert(places[m] == before[m]);
            }
        }
    }
}

/// While goals of a type are taken out, those that are left stay at their places.
proof fn lemma_taken_out(goals: Seq<PrioritizedGoal>, type_id: u64, k: int)
    requires
        goals.len() <= NO_GOAL,
        removable(goals, type_id),
        0 <= k <= places_of(goals, type_id).len(),
    ensures
        taken_out(goals, places_of(goals, type_id), k).len() == goals.len() - k,
        forall|p: int|
            0 <= p < goals.len() - k ==> ((#[trigger] taken_out(
                goals,
                places_of(goals, type_id),
                k,
            )[p]).type_id == type_id <==> exists|m: int|
                k <= m < places_of(goals, type_id).len() && #[trigger] places_of(
                    goals,
                    type_id,
                )[m] == p),
    decreases k,
{
    let places = places_of(goals, type_id);
    lemma_places_of(goals, type_id);
    if k <= 0 {
        assert forall|p: int| 0 <= p < goals.len() implies ((
        #[trigger] goals[p]).type_id == type_id <==> exists|m: int|
            0 <= m < places.len() && #[trigger] places[m] == p) by {
            if goals[p].type_id == type_id {
                assert(places.contains(p as usize));
                let m = choose|m: int| 0 <= m < places.len() && places[m] == p as usize;
                assert(places[m] == p);
            }
        }
    } else {
        lemma_taken_out(goals, type_id, k - 1);
        let before = taken_out(goals, places, k - 1);
        let after = taken_out(goals, places, k);
        let gap = places[k - 1] as int;
        let last = before.len() - 1;
        assert(gap < goals.len() - (k - 1));
        // The goal that moves into the gap is of another type.
        assert(gap < last ==> before[last].type_id != type_id) by {
            if gap < last && before[last].type_id == type_id {
                let m = choose|m: int| k - 1 <= m < places.len() && #[trigger] places[m] == last;
                assert(places[m] < goals.len() - m);
                assert(m > k - 1);
            }
        }
        assert forall|p: int| 0 <= p < after.len() implies ((
        #[trigger] after[p]).type_id == type_id <==> exists|m: int|
            k <= m < places.len() && #[trigger] places[m] == p) by {
            if p == gap {
                assert(after[p] == before[last]);
                if exists|m: int| k <= m < places.len() && #[trigger] places[m] == p {
                    let m = choose|m: int| k <= m < places.len() && #[trigger] places[m] == p;
                    assert(places[k - 1] < places[m]);
                }
            } else {
                assert(after[p] == before[p]);
                if before[p].type_id == type_id {
                    let m = choose|m: int| k - 1 <= m < places.len() && #[trigger] places[m] == p;
                    assert(m != k - 1);
                    assert(places[m] == p);
                }
                if exists|m: int| k <= m < places.len() && #[trigger] places[m] == p {
                    let m = choose|m: int| k <= m < places.len() && #[trigger] places[m] == p;
                    assert(places[m] == p);
                }
            }
        }
    }
}

/// A control that a goal of another type holds is held by that goal still, while goals of a
/// type are taken out.
proof fn lemma_holder_stays(
    slots: Seq<usize>,
    goals: Seq<PrioritizedGoal>,
    type_id: u64,
    c: int,
    k: int,
)
    requires
        slots_in_range(slots, goals.len()),
        goals.len() <= NO_GOAL,
        removable(goals, type_id),
        0 <= c < CONTROL_COUNT,
        slots[c] != NO_GOAL,
        goals[slots[c] as int].type_id != type_id,
        0 <= k <= places_of(goals, type_id).len(),
    ensures
        ({
            let places = places_of(goals, type_id);
            let moved = moved_slots(slots, places, goals.len() as int, k);
            &&& moved.len() == CONTROL_COUNT
            &&& moved[c] < goals.len() - k
            &&& taken_out(goals, places, k)[moved[c] as int] == goals[slots[c] as int]
        }),
    decreases k,
{
    if k > 0 {
        let places = places_of(goals, type_id);
        lemma_holder_stays(slots, goals, type_id, c, k - 1);
        lemma_taken_out(goals, type_id, k - 1);
        lemma_taken_out(goals, type_id, k);
        let before = taken_out(goals, places, k - 1);
        let slot = moved_slots(slots, places, goals.len() as int, k - 1)[c];
        let place = places[k - 1];
        assert(place < goals.len() - (k - 1));
        assert(before[place as int].type_id == type_id);
        assert(slot != place);
        assert(moved_slots(slots, places, goals.len() as int, k)[c] == moved_slot(
            slot,
            place,
            goals.len() - k,
        ));
    }
}

/// Law: removing the goals of a type takes no control away from any other goal: whichever goal
/// held a control is the one that the table names for it still, wherever the goal has moved.
pub proof fn law_removal_keeps_holders(
    selector: GoalSelector,
    type_id: u64,
    after: GoalSelector,
    control: Control,
)
    requires
        selector.wf(),
        selector.goals@.len() <= NO_GOAL,
        removable(selector.goals@, type_id),
        selector.goals_by_control@[control.spec_idx()] != NO_GOAL,
        selector.goals@[selector.goals_by_control@[control.spec_idx()] as int].type_id != type_id,
        after.goals@ == taken_out(
            selector.goals@,
            places_of(selector.goals@, type_id),
            places_of(selector.goals@, type_id).len() as int,
        ),
        after.goals_by_control@ == moved_slots(
            selector.goals_by_control@,
            places_of(selector.goals@, type_id),
            selector.goals@.len() as int,
            places_of(selector.goals@, type_id).len() as int,
        ),
    ensures
        after.goals_by_control@[control.spec_idx()] < after.goals@.len(),
        after.goals@[after.goals_by_control@[control.spec_idx()] as int]
            == selector.goals@[selector.goals_by_control@[control.spec_idx()] as int],
{
    let count = places_of(selector.goals@, type_id).len() as int;
    lemma_holder_stays(
        selector.goals_by_control@,
        selector.goals@,
        type_id,
        control.spec_idx(),
        count,
    );
    lemma_taken_out(selector.goals@, type_id, count);
}

impl GoalSelector {
    /// Takes all goals of the type out of the list, the last goal moving into each gap.
    /// Returns those that ran, by their places before, which have to be told to stop. All
    /// other goals keep the controls that they hold.
    pub fn remove_goal(&mut self, type_id: u64) -> (stops: Vec<usize>)
        requires
            old(self).wf(),
            old(self).goals@.len() <= NO_GOAL,
            removable(old(self).goals@, type_id),
        ensures
            final(self).wf(),
            stops@ == running_places_of(old(self).goals@, type_id),
            final(self).goals@ == taken_out(
                old(self).goals@,
                places_of(old(self).goals@, type_id),
                places_of(old(self).goals@, type_id).len() as int,
            ),
            old(self).exclusive() ==> final(self).exclusive(),
            final(self).goals_by_control@ == moved_slots(
                old(self).goals_by_control@,
                places_of(old(self).goals@, type_id),
                old(self).goals@.len() as int,
                places_of(old(self).goals@, type_id).len() as int,
            ),
            final(self).disabled_controls == old(self).disabled_controls,
            final(self).goals@.len() == old(self).goals@.len() - places_of(
                old(self).goals@,
                type_id,
            ).len(),
            forall|i: int|
                0 <= i < final(self).goals@.len() ==> (
                #[trigger] final(self).goals@[i]).type_id != type_id,
    {
        let ghost goals = self.goals@;
        let ghost slots = self.goals_by_control@;
        let mut stops: Vec<usize> = Vec::new();
        let mut places: Vec<usize> = Vec::new();
        let mut i: usize = 0;
        while i < self.goals.len()
            invariant
                *self == *old(self),
                self.goals@ == goals,
                i <= goals.len(),
                stops@ == running_places_of(goals.take(i as int), type_id),
                places@ == places_of(goals.take(i as int), type_id),
            decreases self.goals.len() - i,
        {
            assert(goals.take(i as int + 1).drop_last() =~= goals.take(i as int));
            let goal: PrioritizedGoal = self.goals[i];
            push_if(&mut stops, goal.type_id == type_id && goal.running, i);
            push_if(&mut places, goal.type_id == type_id, i);
            i = i + 1;
        }
        assert(goals.take(i as int) =~= goals);
        let mut k: usize = 0;
        while k < places.len()
            invariant
                k <= places@.len(),
                places@ == places_of(goals, type_id),
                removable(goals, type_id),
                goals.len() <= NO_GOAL,
                self.disabled_controls == old(self).disabled_controls,
                self.wf(),
                old(self).exclusive() ==> self.exclusive(),
                self.goals@ == taken_out(goals, places@, k as int),
                self.goals_by_control@ == moved_slots(
                    slots,
                    places@,
                    goals.len() as int,
                    k as int,
                ),
            decreases places.len() - k,
        {
            let place: usize = places[k];
            proof {
                lemma_taken_out(goals, type_id, k as int);
            }
            let last: usize = self.goals.len() - 1;
            proof {
                if old(self).exclusive() {
                    lemma_taken_out_is_exclusive(self.goals_by_control@, self.goals@, place);
                }
            }
            self.goals.swap_remove(place);
            assert(self.goals@ =~= taken_out(goals, places@, k as int + 1));
            let ghost before = self.goals_by_control@;
            let mut c: usize = 0;
            while c < CONTROL_COUNT
                invariant
                    c <= CONTROL_COUNT,
                    before.len() == CONTROL_COUNT,
                    self.goals_by_control@.len() == CONTROL_COUNT,
                    self.goals@ == taken_out(goals, places@, k as int + 1),
                    self.disabled_controls == old(self).disabled_controls,
                    forall|d: int|
                        0 <= d < c ==> #[trigger] self.goals_by_control@[d] == moved_slot(
                            before[d],
                            place,
                            last as int,
                        ),
                    forall|d: int|
                        c <= d < CONTROL_COUNT ==> #[trigger] self.goals_by_control@[d]
                            == before[d],
                decreases CONTROL_COUNT - c,
            {
                let slot: usize = self.goals_by_control[c];
                if slot != NO_GOAL {
                    if slot == place {
                        self.goals_by_control[c] = NO_GOAL;
                    } else if slot == last {
                        self.goals_by_control[c] = place;
                    }
                }
                c = c + 1;
            }
            k = k + 1;
            assert(self.goals_by_control@ =~= before.map_values(
                |slot: usize| moved_slot(slot, place, last as int),
            ));
            assert(self.goals_by_control@ =~= moved_slots(
                slots,
                places@,
                goals.len() as int,
                k as int,
            ));
        }
        proof {
            lemma_taken_out(goals, type_id, places@.len() as int);
        }
        stops
    }
}

// ---------------------------------------------------------------------------
// Further laws.
// ---------------------------------------------------------------------------

/// Law: a control is disabled from the time that it is disabled until it is enabled; nothing is
/// disabled to begin with, and the goals and who holds what do not change with it.
pub proof fn law_disabled_until_enabled(
    first: &mut GoalSelector,
    second: &mut GoalSelector,
    third: &mut GoalSelector,
    control: Control,
    enabled: bool,
    other: Control,
    of_first: bool,
    of_second: bool,
    of_third: bool,
    of_other: bool,
)
    requires
        call_ensures(GoalSelector::disable_control, (first, control), ()),
        call_ensures(GoalSelector::enable_control, (second, control), ()),
        call_ensures(GoalSelector::set_control_enabled, (third, control, enabled), ()),
        call_ensures(GoalSelector::is_control_disabled, (&*final(first), control), of_first),
        call_ensures(GoalSelector::is_control_disabled, (&*final(second), control), of_second),
        call_ensures(GoalSelector::is_control_disabled, (&*final(third), control), of_third),
        call_ensures(GoalSelector::is_control_disabled, (&*final(first), other), of_other),
    ensures
        of_first,
        !of_second,
        of_third == !enabled,
        other != control ==> of_other == old(first).disabled_controls.has(other),
        final(first).goals == old(first).goals,
        final(second).goals == old(second).goals,
        final(third).goals == old(third).goals,
        final(first).goals_by_control == old(first).goals_by_control,
{
}

/// Law: something that controls a mob keeps it from moving, looking and jumping by itself, and a
/// boat from jumping; whom it targets is its own affair.
pub proof fn law_controlled_mobs_do_not_move(
    selector: &mut GoalSelector,
    no_controller: bool,
    not_in_boat: bool,
)
    requires
        call_ensures(GoalSelector::update_control_flags, (selector, no_controller, not_in_boat), ()),
    ensures
        final(selector).disabled_controls.has(Control::Move) <==> !no_controller,
        final(selector).disabled_controls.has(Control::Look) <==> !no_controller,
        final(selector).disabled_controls.has(Control::Jump) <==> !no_controller || !not_in_boat,
        final(selector).disabled_controls.has(Control::Target) == old(selector).disabled_controls.has(Control::Target),
        final(selector).goals == old(selector).goals,
{
}

/// Law: a goal is asked to go on while it runs on controls that are enabled. It has to stop where it
/// does not want to go on, or where one of its controls is disabled; nothing else stops with it.
pub proof fn law_when_a_goal_stops(
    selector: &mut GoalSelector,
    i: usize,
    continues: bool,
    stops: bool,
    asked: bool,
)
    requires
        call_ensures(GoalSelector::review, (selector, i, continues), stops),
        call_ensures(GoalSelector::must_ask, (&*old(selector), i), asked),
        i < old(selector).goals@.len(),
    ensures
        ({
            let goal = old(selector).goals@[i as int];
            let disabled = old(selector).disabled_controls;
            let blocked = goal.controls.moves && disabled.moves || goal.controls.looks
                && disabled.looks || goal.controls.jumps && disabled.jumps || goal.controls.targets
                && disabled.targets;
            &&& asked <==> goal.running && !blocked
            &&& stops <==> goal.running && (blocked || !continues)
            &&& final(selector).goals@.len() == old(selector).goals@.len()
            &&& stops ==> !final(selector).goals@[i as int].running
            &&& !stops ==> final(selector).goals@ == old(selector).goals@
            &&& forall|j: int|
                0 <= j < old(selector).goals@.len() && j != i ==> #[trigger] final(selector).goals@[j] == old(selector).goals@[j]
            &&& final(selector).goals@[i as int].priority == goal.priority
        }),
{
    lemma_uses_any(old(selector).goals@[i as int], old(selector).disabled_controls);
}

/// A goal takes one of some controls where it takes one of the four and that is among them.
proof fn lemma_uses_any(goal: PrioritizedGoal, controls: Controls)
    ensures
        uses_any_of(goal, controls) <==> goal.controls.moves && controls.moves
            || goal.controls.looks && controls.looks || goal.controls.jumps && controls.jumps
            || goal.controls.targets && controls.targets,
{
    if goal.controls.moves && controls.moves {
        assert(controls.has(Control::Move) && goal.controls.has(Control::Move));
    }
    if goal.controls.looks && controls.looks {
        assert(controls.has(Control::Look) && goal.controls.has(Control::Look));
    }
    if goal.controls.jumps && controls.jumps {
        assert(controls.has(Control::Jump) && goal.controls.has(Control::Jump));
    }
    if goal.controls.targets && controls.targets {
        assert(controls.has(Control::Target) && goal.controls.has(Control::Target));
    }
}

/// Law: a goal may start that does not run, takes no control that is disabled, and matters more than
/// whatever holds one of its controls, all of which let themselves be interrupted.
pub proof fn law_when_a_goal_may_start(
    selector: GoalSelector,
    i: usize,
    r: bool,
    control: Control,
)
    requires
        call_ensures(GoalSelector::may_start, (&selector, i), r),
        selector.wf(),
        i < selector.goals@.len() <= usize::MAX,
    ensures
        r ==> !selector.goals@[i as int].running,
        r && selector.goals@[i as int].controls.has(control) ==> !selector.disabled_controls.has(
            control,
        ),
        r && selector.goals@[i as int].controls.has(control) && selector.goals_by_control@[(
        match control {
            Control::Move => 0int,
            Control::Look => 1,
            Control::Jump => 2,
            Control::Target => 3,
        })] < selector.goals@.len() ==> {
            let holder = selector.goals@[selector.goals_by_control@[(match control {
                Control::Move => 0int,
                Control::Look => 1,
                Control::Jump => 2,
                Control::Target => 3,
            })] as int];
            holder.interruptible && selector.goals@[i as int].priority < holder.priority
        },
        !selector.goals@[i as int].running && !selector.disabled_controls.moves
            && !selector.disabled_controls.looks && !selector.disabled_controls.jumps
            && !selector.disabled_controls.targets && (forall|c: int|
            0 <= c < 4 ==> #[trigger] selector.goals_by_control@[c] == usize::MAX) ==> r,
{
    lemma_uses_any(selector.goals@[i as int], selector.disabled_controls);
    if r && selector.goals@[i as int].controls.has(control) && selector.disabled_controls.has(
        control,
    ) {
        assert(uses_any_of(selector.goals@[i as int], selector.disabled_controls));
    }
    if forall|c: int| 0 <= c < 4 ==> #[trigger] selector.goals_by_control@[c] == usize::MAX {
        assert(selector.goals_by_control@[0] == usize::MAX);
        assert(selector.goals_by_control@[1] == usize::MAX);
        assert(selector.goals_by_control@[2] == usize::MAX);
        assert(selector.goals_by_control@[3] == usize::MAX);
    }
}

/// Law: a goal that starts runs and holds all its controls. Whoever held one of them stops, and all
/// other goals and controls are as they were.
pub proof fn law_started_goal_holds_its_controls(
    selector: &mut GoalSelector,
    i: usize,
    yielding: Vec<usize>,
    control: Control,
    j: int,
)
    requires
        call_ensures(GoalSelector::start, (selector, i), yielding),
        old(selector).wf(),
        i < old(selector).goals@.len(),
    ensures
        final(selector).goals@.len() == old(selector).goals@.len(),
        final(selector).goals@[i as int].running,
        final(selector).goals@[i as int].controls == old(selector).goals@[i as int].controls,
        old(selector).goals@[i as int].controls.has(control) ==> final(selector).goals_by_control@[control.spec_idx()] == i,
        !old(selector).goals@[i as int].controls.has(control) ==> final(selector).goals_by_control@[control.spec_idx()] == old(selector).goals_by_control@[control.spec_idx()],
        0 <= j < old(selector).goals@.len() && j != i && old(selector).goals@[i as int].controls.has(control) && old(selector).goals_by_control@[control.spec_idx()] == j ==> !final(selector).goals@[j].running,
        0 <= j < old(selector).goals@.len() && j != i && final(selector).goals@[j].running ==> old(selector).goals@[j].running,
        0 <= j < old(selector).goals@.len() && j != i && old(selector).goals@[j].running && (forall|
            c: int,
        |
            0 <= c < 4 ==> #[trigger] old(selector).goals_by_control@[c] != j) ==> final(selector).goals@[j].running,
{
    let c = control.spec_idx();
    assert(Control::spec_from_idx(c) == control);
    if 0 <= j < old(selector).goals@.len() && old(selector).goals_by_control@[c] == j && old(selector).goals@[i as int].controls.has(control) {
        assert(holds_one_of(
            old(selector).goals_by_control@,
            old(selector).goals@[i as int].controls,
            j,
            4,
        ));
    }
}

/// The goals of a tick are those that run, in every tick or in all.
proof fn lemma_ticked(goals: Seq<PrioritizedGoal>, tick_all: bool, i: usize)
    requires
        goals.len() <= usize::MAX,
    ensures
        ticked(goals, tick_all).contains(i) <==> i < goals.len() && goals[i as int].running && (
        tick_all || goals[i as int].every_tick),
    decreases goals.len(),
{
    broadcast use crate::plan::lemma_plan_contains;
    broadcast use crate::plan::lemma_only_if_contains;

    if goals.len() > 0 {
        lemma_ticked(goals.drop_last(), tick_all, i);
        if i < goals.len() - 1 {
            assert(goals.drop_last()[i as int] == goals[i as int]);
        }
    }
}

/// Law: the goals that run in a tick are those that are running, all of them or just those that run
/// in every tick.
pub proof fn law_running_goals_tick(
    selector: GoalSelector,
    tick_all: bool,
    r: Vec<usize>,
    i: usize,
)
    requires
        call_ensures(GoalSelector::tick_goals, (&selector, tick_all), r),
        selector.goals@.len() <= usize::MAX,
    ensures
        r@.contains(i) <==> i < selector.goals@.len() && selector.goals@[i as int].running && (
        tick_all || selector.goals@[i as int].every_tick),
{
    lemma_ticked(selector.goals@, tick_all, i);
}

/// Giving goals their chance to start runs none of them, and neither starts what cannot start nor
/// runs what did not run.
proof fn lemma_selecting(
    selection: Selection,
    disabled: Controls,
    answers: Seq<GoalAnswer>,
    k: int,
    i: usize,
)
    requires
        0 <= k <= selection.goals.len() <= usize::MAX,
    ensures
        !selecting_actions(selection, disabled, answers, k).contains(GoalAction::Tick(i)),
        selected(selection, disabled, answers, k).goals.len() == selection.goals.len(),
        i < selection.goals.len() && !selection.goals[i as int].running
            && !answers[i as int].can_start ==> !selected(
            selection,
            disabled,
            answers,
            k,
        ).goals[i as int].running,
        i < selection.goals.len() && !answers[i as int].can_start ==> !selecting_actions(
            selection,
            disabled,
            answers,
            k,
        ).contains(GoalAction::Start(i)),
    decreases k,
{
    broadcast use crate::plan::lemma_plan_contains;
    broadcast use crate::plan::lemma_single_contains;

    if k > 0 {
        lemma_selecting(selection, disabled, answers, k - 1, i);
        let before = selected(selection, disabled, answers, k - 1);
        let yielding = holders(
            before.slots,
            before.goals[k - 1].controls,
            before.goals.len(),
            CONTROL_COUNT as int,
        );
        lemma_stop_each(yielding, i);
    }
}

/// Telling goals to stop neither runs nor starts any.
proof fn lemma_stop_each(yielding: Seq<usize>, i: usize)
    ensures
        !stop_each(yielding).contains(GoalAction::Tick(i)),
        !stop_each(yielding).contains(GoalAction::Start(i)),
        stop_each(yielding).contains(GoalAction::Stop(i)) <==> yielding.contains(i),
{
    let stops = stop_each(yielding);
    if yielding.contains(i) {
        let k = choose|k: int| 0 <= k < yielding.len() && yielding[k] == i;
        assert(stops[k] == GoalAction::Stop(i));
    }
    if stops.contains(GoalAction::Stop(i)) {
        let k = choose|k: int| 0 <= k < stops.len() && stops[k] == GoalAction::Stop(i);
        assert(yielding[k] == i);
    }
}

/// Running goals runs each of them.
proof fn lemma_tick_each(ticking: Seq<usize>, i: usize)
    ensures
        tick_each(ticking).contains(GoalAction::Tick(i)) <==> ticking.contains(i),
        !tick_each(ticking).contains(GoalAction::Start(i)),
        !tick_each(ticking).contains(GoalAction::Stop(i)),
{
    let ticks = tick_each(ticking);
    if ticking.contains(i) {
        let k = choose|k: int| 0 <= k < ticking.len() && ticking[k] == i;
        assert(ticks[k] == GoalAction::Tick(i));
    }
    if ticks.contains(GoalAction::Tick(i)) {
        let k = choose|k: int| 0 <= k < ticks.len() && ticks[k] == GoalAction::Tick(i);
        assert(ticking[k] == i);
    }
}

/// The review tells just those to stop that have to.
proof fn lemma_review_stops(
    goals: Seq<PrioritizedGoal>,
    disabled: Controls,
    answers: Seq<GoalAnswer>,
    k: int,
    i: usize,
)
    requires
        0 <= k <= goals.len() <= usize::MAX,
    ensures
        !review_stops(goals, disabled, answers, k).contains(GoalAction::Tick(i)),
        !review_stops(goals, disabled, answers, k).contains(GoalAction::Start(i)),
        review_stops(goals, disabled, answers, k).contains(GoalAction::Stop(i)) <==> i < k
            && must_stop(goals[i as int], disabled, answers[i as int].continues),
    decreases k,
{
    broadcast use crate::plan::lemma_plan_contains;
    broadcast use crate::plan::lemma_only_if_contains;

    if k > 0 {
        lemma_review_stops(goals, disabled, answers, k - 1, i);
    }
}

/// Law: a tick runs exactly the goals that are running after it. A goal that does not want to go on
/// is told to stop and, where it cannot start either, does not run; one that cannot start is not
/// started.
pub proof fn law_tick_runs_what_is_running(
    selector: &mut GoalSelector,
    answers: Vec<GoalAnswer>,
    actions: Vec<GoalAction>,
    i: usize,
)
    requires
        call_ensures(GoalSelector::tick, (selector, &answers), actions),
        answers@.len() == old(selector).goals@.len() <= usize::MAX,
    ensures
        final(selector).goals@.len() == old(selector).goals@.len(),
        actions@.contains(GoalAction::Tick(i)) <==> i < final(selector).goals@.len() && final(selector).goals@[i as int].running,
        i < answers@.len() && !answers@[i as int].can_start ==> !actions@.contains(
            GoalAction::Start(i),
        ),
        i < answers@.len() && !answers@[i as int].can_start && !answers@[i as int].continues
            ==> !final(selector).goals@[i as int].running,
        i < answers@.len() && !answers@[i as int].continues && old(selector).goals@[i as int].running ==> actions@.contains(GoalAction::Stop(i)),
        final(selector).disabled_controls == old(selector).disabled_controls,
{
    broadcast use crate::plan::lemma_plan_contains;

    let goals = old(selector).goals@;
    let disabled = old(selector).disabled_controls;
    let count = goals.len() as int;
    let reviewed_ones = old(selector).spec_reviewed(answers@);
    lemma_review_stops(goals, disabled, answers@, count, i);
    lemma_selecting(reviewed_ones, disabled, answers@, count, i);
    lemma_ticked(final(selector).goals@, true, i);
    lemma_tick_each(ticked(final(selector).goals@, true), i);
}

/// The places of running goals are where goals run.
pub proof fn lemma_running_places(goals: Seq<PrioritizedGoal>, type_id: u64, i: usize)
    requires
        goals.len() <= usize::MAX,
    ensures
        running_places(goals).contains(i) <==> i < goals.len() && goals[i as int].running,
        running_places_of(goals, type_id).contains(i) <==> i < goals.len()
            && goals[i as int].running && goals[i as int].type_id == type_id,
    decreases goals.len(),
{
    broadcast use crate::plan::lemma_plan_contains;
    broadcast use crate::plan::lemma_only_if_contains;

    if goals.len() > 0 {
        lemma_running_places(goals.drop_last(), type_id, i);
        if i < goals.len() - 1 {
            assert(goals.drop_last()[i as int] == goals[i as int]);
        }
    }
}

/// Law: once all goals are cleared there is none, and no control is held; just those that ran are
/// told to stop. What is disabled stays so.
pub proof fn law_cleared_goals_are_gone(
    selector: &mut GoalSelector,
    stops: Vec<usize>,
    i: usize,
    control: Control,
    holder: Option<usize>,
)
    requires
        call_ensures(GoalSelector::clear_all_goals, (selector,), stops),
        call_ensures(GoalSelector::get_goal_by_control, (&*final(selector), control), holder),
        old(selector).goals@.len() <= usize::MAX,
    ensures
        stops@.contains(i) <==> i < old(selector).goals@.len() && old(selector).goals@[i as int].running,
        final(selector).goals@.len() == 0,
        holder is None,
        final(selector).disabled_controls == old(selector).disabled_controls,
{
    lemma_running_places(old(selector).goals@, 0, i);
}

/// Law: removing the goals of a type removes all of them and tells just those that ran to stop; what
/// is disabled stays so.
pub proof fn law_removed_goals_are_gone(
    selector: &mut GoalSelector,
    type_id: u64,
    stops: Vec<usize>,
    i: usize,
)
    requires
        call_ensures(GoalSelector::remove_goal, (selector, type_id), stops),
        old(selector).goals@.len() <= usize::MAX,
    ensures
        stops@.contains(i) <==> i < old(selector).goals@.len() && old(selector).goals@[i as int].running && old(selector).goals@[i as int].type_id == type_id,
        i < final(selector).goals@.len() ==> final(selector).goals@[i as int].type_id != type_id,
        final(selector).goals@.len() <= old(selector).goals@.len(),
        final(selector).disabled_controls == old(selector).disabled_controls,
{
    lemma_running_places(old(selector).goals@, type_id, i);
}

/// Law: a goal that is added comes last and holds nothing; the others stay as they are. To begin with
/// there is no goal.
pub proof fn law_added_goal_comes_last(
    selector: &mut GoalSelector,
    goal: PrioritizedGoal,
    i: int,
    fresh: GoalSelector,
)
    requires
        call_ensures(GoalSelector::add_goal, (selector, goal), ()),
        call_ensures(<GoalSelector as Default>::default, (), fresh),
    ensures
        final(selector).goals@.len() == old(selector).goals@.len() + 1,
        final(selector).goals@.last() == goal,
        0 <= i < old(selector).goals@.len() ==> final(selector).goals@[i] == old(selector).goals@[i],
        final(selector).goals_by_control@ == old(selector).goals_by_control@,
        fresh.goals@.len() == 0,
        0 <= i < 4 ==> fresh.goals_by_control@[i] == usize::MAX,
{
}

/// Law: a goal is touched by controls just where it takes hold of one of them, of whatever kind.
pub proof fn law_touched_goals_share_a_control(goal: PrioritizedGoal, controls: Controls, r: bool)
    requires
        call_ensures(GoalSelector::uses_any, (&goal, controls), r),
    ensures
        r <==> (goal.controls.moves && controls.moves) || (goal.controls.looks && controls.looks)
            || (goal.controls.jumps && controls.jumps) || (goal.controls.targets
            && controls.targets),
{
    lemma_uses_any(goal, controls);
}

/// Law: where goals do not run, the controls that they hold are freed; every other control stays with
/// whoever holds it.
pub proof fn law_idle_goals_hold_nothing(selector: &mut GoalSelector, c: int)
    requires
        call_ensures(GoalSelector::free_slots, (selector,), ()),
        old(selector).wf(),
        old(selector).goals@.len() <= usize::MAX,
        0 <= c < 4,
    ensures
        ({
            let holder = old(selector).goals_by_control@[c];
            &&& holder < old(selector).goals@.len() && !old(selector).goals@[holder as int].running ==> final(selector).goals_by_control@[c] == usize::MAX
            &&& holder < old(selector).goals@.len() && old(selector).goals@[holder as int].running ==> final(selector).goals_by_control@[c] == holder
            &&& holder == usize::MAX ==> final(selector).goals_by_control@[c] == usize::MAX
        }),
        final(selector).goals == old(selector).goals,
        final(selector).disabled_controls == old(selector).disabled_controls,
{
}

/// Law: a goal takes the place of those that hold its controls just where each of them lets itself be
/// interrupted and matters less.
pub proof fn law_more_important_goals_replace(
    selector: GoalSelector,
    goal: PrioritizedGoal,
    r: bool,
    control: Control,
)
    requires
        call_ensures(GoalSelector::can_replace_all, (&selector, &goal), r),
        selector.wf(),
        selector.goals@.len() <= usize::MAX,
    ensures
        ({
            let place = match control {
                Control::Move => 0int,
                Control::Look => 1,
                Control::Jump => 2,
                Control::Target => 3,
            };
            let holder = selector.goals_by_control@[place];
            r && goal.controls.has(control) && holder < selector.goals@.len() ==> {
                &&& selector.goals@[holder as int].interruptible
                &&& goal.priority < selector.goals@[holder as int].priority
            }
        }),
        !goal.controls.moves && !goal.controls.looks && !goal.controls.jumps
            && !goal.controls.targets ==> r,
{
}

} // verus!
