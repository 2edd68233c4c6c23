//! The transition: what handling one action does to the state. The worker
//! runs `step` on the state signal's cell; the rest of the module says what
//! that amounts to over a run of actions.

use crate::bounds::{Action, Deps, EffectReducer, State};
use crate::effect::Effect;
use vstd::prelude::*;

verus! {

/// The state a commit leaves: the new one if it replaced the current one.
pub open spec fn committed<S>(current: S, next: S, changed: bool) -> S {
    if changed {
        next
    } else {
        current
    }
}

/// What the commit rule decides: `changed` is what the state type's `!=`
/// answers for the current state and the new one.
pub open spec fn commit_rule<S: PartialEq>(current: S, next: S, changed: bool) -> bool {
    call_ensures(<S as PartialEq>::ne, (&current, &next), changed)
}

/// One handled action, in full: the reducer was given a clone of the state
/// `before` and returned `next` and `effect`, and the commit rule left `after`.
pub open spec fn outcome<S: State, A: Action, D: Deps, R: EffectReducer<S, A, D>>(
    reducer: R,
    before: S,
    snapshot: S,
    action: A,
    next: S,
    effect: Effect<A, D>,
    changed: bool,
    after: S,
) -> bool {
    &&& cloned(before, snapshot)
    &&& call_ensures(reducer, (snapshot, action), (next, effect))
    &&& commit_rule(before, next, changed)
    &&& after == committed(before, next, changed)
}

/// One handled action, as seen from outside: the state went from `before` to
/// `after`, dependents are told if `changed`, and `effect` is to be launched.
pub open spec fn handles<S: State, A: Action, D: Deps, R: EffectReducer<S, A, D>>(
    reducer: R,
    before: S,
    action: A,
    after: S,
    changed: bool,
    effect: Effect<A, D>,
) -> bool {
    exists|snapshot: S, next: S|
        outcome(reducer, before, snapshot, action, next, effect, changed, after)
}

/// The commit rule: a new state replaces the current one only if it differs
/// from it by `==`. The result says whether it did, and so whether the
/// dependents of the state are to be notified.
pub fn replace_if_changed<S: State>(current: &mut S, next: S) -> (changed: bool)
    ensures
        *final(current) == committed(*old(current), next, changed),
        commit_rule(*old(current), next, changed),
{
    if *current != next {
        *current = next;
        true
    } else {
        false
    }
}

/// Handles one action on the cell that holds the state: applies the reducer to
/// a clone of the state and commits what it returns. Returns whether the state
/// was replaced, and the effect to launch.
pub fn step<S: State, A: Action, D: Deps, R: EffectReducer<S, A, D>>(
    reducer: &R,
    cell: &mut S,
    action: A,
) -> (out: (bool, Effect<A, D>))
    requires
        forall|s: S| call_requires(*reducer, (s, action)),
    ensures
        handles(*reducer, *old(cell), action, *final(cell), out.0, out.1),
{
    let snapshot = cell.clone();
    let (next, effect) = reducer(snapshot, action);
    let ghost planned = next;
    let changed = replace_if_changed(cell, next);
    proof {
        assert(outcome(
            *reducer,
            *old(cell),
            snapshot,
            action,
            planned,
            effect,
            changed,
            *cell,
        ));
    }
    (changed, effect)
}

} // verus!
