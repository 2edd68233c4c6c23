//! What follows from the transition for whole runs of actions.

use crate::bounds::{Action, Deps, EffectReducer, State};
use crate::effect::Effect;
use crate::graph::is_news;
use crate::transition::{handles, outcome};
use vstd::prelude::*;
use vstd::std_specs::cmp::PartialEqSpec;

verus! {

/// The state type is plain data: its `==` is equality itself, and a clone is
/// equal to what it was cloned from.
pub open spec fn plain_data<S: State>() -> bool {
    &&& S::obeys_eq_spec()
    &&& forall|a: S, b: S| #[trigger] a.eq_spec(&b) <==> a == b
    &&& forall|a: S, b: S| #[trigger] cloned(a, b) ==> a == b
}

/// The reducer is pure: the state it returns is `f` of the state and the
/// action it was given, whatever effect comes with it.
pub open spec fn computes<S: State, A: Action, D: Deps, R: EffectReducer<S, A, D>>(
    reducer: R,
    f: spec_fn(S, A) -> S,
) -> bool {
    forall|s: S, a: A, out: (S, Effect<A, D>)| #[trigger]
        call_ensures(reducer, (s, a), out) ==> out.0 == f(s, a)
}

/// A run: starting in `from`, the worker handled `actions` one after the
/// other, in this order, and left the state `to`.
pub open spec fn runs<S: State, A: Action, D: Deps, R: EffectReducer<S, A, D>>(
    reducer: R,
    from: S,
    actions: Seq<A>,
    to: S,
) -> bool
    decreases actions.len(),
{
    if actions.len() == 0 {
        to == from
    } else {
        exists|mid: S, changed: bool, effect: Effect<A, D>|
            {
                &&& runs(reducer, from, actions.drop_last(), mid)
                &&& #[trigger] handles(reducer, mid, actions.last(), to, changed, effect)
            }
    }
}

/// An equal state is not published: where the reducer returns a state that is
/// `==` to the current one, the current one stays and dependents are not
/// told; where it returns another, that one is committed and they are told.
pub proof fn lemma_only_changes_are_published<
    S: State,
    A: Action,
    D: Deps,
    R: EffectReducer<S, A, D>,
>(
    reducer: R,
    before: S,
    snapshot: S,
    action: A,
    next: S,
    effect: Effect<A, D>,
    changed: bool,
    after: S,
)
    requires
        S::obeys_eq_spec(),
        outcome(reducer, before, snapshot, action, next, effect, changed, after),
    ensures
        before.eq_spec(&next) ==> !changed && after == before,
        !before.eq_spec(&next) ==> changed && after == next,
{
}

/// A watcher hears only news: a value is handed to its callback exactly if it
/// is not `==` to the value the watcher saw before, and a watcher that finds
/// no value hears nothing.
pub proof fn lemma_watcher_hears_only_news<S: State>(value: S, previous: S, fired: bool)
    requires
        S::obeys_eq_spec(),
    ensures
        is_news(Some(value), Some(&Some(previous)), fired) ==> (fired <==> !previous.eq_spec(
            &value,
        )),
        is_news(None::<S>, Some(&Some(previous)), fired) ==> !fired,
{
}

/// One step of a pure reducer on plain data leaves `f` of the state and the
/// action, and dependents are told exactly if that is another state.
pub proof fn lemma_step_of_pure_reducer<S: State, A: Action, D: Deps, R: EffectReducer<S, A, D>>(
    reducer: R,
    f: spec_fn(S, A) -> S,
    before: S,
    action: A,
    after: S,
    changed: bool,
    effect: Effect<A, D>,
)
    requires
        plain_data::<S>(),
        computes(reducer, f),
        handles(reducer, before, action, after, changed, effect),
    ensures
        after == f(before, action),
        changed <==> after != before,
{
    let (snapshot, next) = choose|snapshot: S, next: S|
        outcome(reducer, before, snapshot, action, next, effect, changed, after);
}

/// Determinism: for a pure reducer on plain data, the state after a run over
/// `actions` is the left fold of `f` over them, starting from the initial
/// state.
pub proof fn lemma_run_is_fold<S: State, A: Action, D: Deps, R: EffectReducer<S, A, D>>(
    reducer: R,
    f: spec_fn(S, A) -> S,
    initial: S,
    actions: Seq<A>,
    last: S,
)
    requires
        plain_data::<S>(),
        computes(reducer, f),
        runs(reducer, initial, actions, last),
    ensures
        last == actions.fold_left(initial, f),
    decreases actions.len(),
{
    if actions.len() > 0 {
        let (mid, changed, effect) = choose|mid: S, changed: bool, effect: Effect<A, D>|
            {
                &&& runs(reducer, initial, actions.drop_last(), mid)
                &&& #[trigger] handles(reducer, mid, actions.last(), last, changed, effect)
            };
        lemma_run_is_fold(reducer, f, initial, actions.drop_last(), mid);
        lemma_step_of_pure_reducer(reducer, f, mid, actions.last(), last, changed, effect);
    }
}

} // verus!
