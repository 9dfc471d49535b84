//! Plans: ordered lists of effects, some of which happen only under a condition.

use vstd::prelude::*;

verus! {

/// `item` alone where `condition` holds, nothing otherwise.
pub open spec fn only_if<T>(condition: bool, item: T) -> Seq<T> {
    if condition {
        seq![item]
    } else {
        Seq::empty()
    }
}

/// Adds `item` at the end of the plan where `condition` holds.
pub fn push_if<T>(plan: &mut Vec<T>, condition: bool, item: T)
    ensures
        final(plan)@ == old(plan)@ + only_if(condition, item),
{
    if condition {
        plan.push(item);
    }
    assert(plan@ =~= old(plan)@ + only_if(condition, item));
}

/// Adds `item` at the end of the plan.
pub fn push_step<T>(plan: &mut Vec<T>, item: T)
    ensures
        final(plan)@ == old(plan)@ + seq![item],
{
    plan.push(item);
    assert(plan@ =~= old(plan)@ + seq![item]);
}

/// Adds all of `items`, in order, at the end of the plan.
pub fn push_plan<T>(plan: &mut Vec<T>, items: Vec<T>)
    ensures
        final(plan)@ == old(plan)@ + items@,
{
    let mut rest: Vec<T> = items;
    plan.append(&mut rest);
}

/// What a plan holds: a step is in a conditional part exactly when the
/// condition holds and it is the step.
pub broadcast proof fn lemma_only_if_contains<T>(condition: bool, item: T, step: T)
    ensures
        #[trigger] only_if(condition, item).contains(step) <==> condition && step == item,
{
    if condition {
        assert(only_if(condition, item)[0] == item);
    }
}

/// What a plan holds: a plan of one step holds that step alone.
pub broadcast proof fn lemma_single_contains<T>(item: T, step: T)
    ensures
        #[trigger] seq![item].contains(step) <==> step == item,
{
    assert(seq![item][0] == item);
}

/// What a plan holds: a step is in two plans put together exactly when it is
/// in one of them.
pub broadcast proof fn lemma_plan_contains<T>(first: Seq<T>, second: Seq<T>, step: T)
    ensures
        #[trigger] (first + second).contains(step) <==> first.contains(step) || second.contains(
            step,
        ),
{
    let both = first + second;
    if first.contains(step) {
        let i = choose|i: int| 0 <= i < first.len() && first[i] == step;
        assert(both[i] == step);
    }
    if second.contains(step) {
        let i = choose|i: int| 0 <= i < second.len() && second[i] == step;
        assert(both[first.len() + i] == step);
    }
    if both.contains(step) {
        let i = choose|i: int| 0 <= i < both.len() && both[i] == step;
        if i < first.len() {
            assert(first[i] == step);
        } else {
            assert(second[i - first.len()] == step);
        }
    }
}

/// Law: what is added to a plan stands at its end, all of it and in its order, and nothing that stood in
/// the plan changes; what is added on a condition is added just where that holds.
pub proof fn law_plans_grow_at_their_end<T>(
    plan: &mut Vec<T>,
    item: T,
    chosen: &mut Vec<T>,
    condition: bool,
    joined: &mut Vec<T>,
    items: Vec<T>,
    i: int,
)
    requires
        call_ensures(push_step::<T>, (plan, item), ()),
        call_ensures(push_if::<T>, (chosen, condition, item), ()),
        call_ensures(push_plan::<T>, (joined, items), ()),
    ensures
        final(plan)@ == old(plan)@.push(item),
        condition ==> final(chosen)@ == old(chosen)@.push(item),
        !condition ==> final(chosen)@ == old(chosen)@,
        final(joined)@.len() == old(joined)@.len() + items@.len(),
        0 <= i < old(joined)@.len() ==> final(joined)@[i] == old(joined)@[i],
        0 <= i < items@.len() ==> final(joined)@[old(joined)@.len() + i] == items@[i],
{
    assert(old(plan)@ + seq![item] =~= old(plan)@.push(item));
    assert(old(chosen)@ + seq![item] =~= old(chosen)@.push(item));
    assert(old(chosen)@ + Seq::<T>::empty() =~= old(chosen)@);
}

} // verus!
