//! The reactive graph: the state signal, memos over it, watchers, and the
//! scopes that own them. The graph itself is `reactive_graph`; this module
//! holds the rules the store adds to it and the calls into it.

use crate::bounds::{Action, Deps, EffectReducer, State};
use crate::effect::Effect;
use crate::transition::step;
use reactive_graph::owner::{Owner, SyncStorage};
use reactive_graph::signal::RwSignal;
use vstd::prelude::*;

verus! {

/// `reactive_graph::owner::Owner`, a scope of the graph, as an opaque value.
#[verifier::external_type_specification]
#[verifier::external_body]
pub struct ExOwner(Owner);

/// `reactive_graph::owner::SyncStorage`, the marker of thread-safe storage
/// that the signal type is parameterised by.
#[verifier::external_type_specification]
#[verifier::external_body]
pub struct ExSyncStorage(SyncStorage);

/// `reactive_graph::signal::RwSignal`, a copyable handle on a signal in the
/// graph's arena, as an opaque value.
#[verifier::external_type_specification]
#[verifier::external_body]
#[verifier::reject_recursive_types(T)]
#[verifier::reject_recursive_types(S)]
pub struct ExRwSignal<T, S>(RwSignal<T, S>);

/// A memo of `reactive_graph`, kept behind a handle of the library's own: the
/// outside type is declared with a bound that Verus cannot read.
#[verifier::external_body]
#[verifier::reject_recursive_types(T)]
pub(crate) struct MemoCell<T: Send + Sync + 'static> {
    memo: reactive_graph::computed::Memo<T>,
}

/// What a read yields: the value read, or a clone of the seed where the
/// signal or memo is gone.
pub fn current_or<S: Clone>(read: Option<S>, seed: &S) -> (value: S)
    ensures
        read matches Some(v) ==> value == v,
        read is None ==> cloned(*seed, value),
{
    match read {
        Some(v) => v,
        None => seed.clone(),
    }
}

/// Whether a watched value is news: there is a value, and it is the first
/// the watcher sees or the state type's `!=` tells it from the one seen
/// before.
pub open spec fn is_news<S: PartialEq>(
    value: Option<S>,
    previous: Option<&Option<S>>,
    fired: bool,
) -> bool {
    match (value, previous) {
        (None, _) => !fired,
        (Some(v), Some(Some(p))) => call_ensures(<S as PartialEq>::ne, (p, &v), fired),
        (Some(_), _) => fired,
    }
}

/// Hands a watched value to the callback if it is news, and says whether it
/// did. A value that is `==` to the one the watcher saw before is held back.
pub fn deliver<S: State, F: Fn(&S)>(
    callback: &F,
    value: &Option<S>,
    previous: Option<&Option<S>>,
) -> (fired: bool)
    requires
        forall|s: S| call_requires(*callback, (&s,)),
    ensures
        is_news(*value, previous, fired),
        fired ==> value is Some && call_ensures(*callback, (&value->0,), ()),
{
    match value {
        Some(v) => {
            let fresh = match previous {
                Some(Some(p)) => *p != *v,
                _ => true,
            };
            if fresh {
                callback(v);
            }
            fresh
        },
        None => false,
    }
}

/// The value of a memo: the selector applied to the state, or a clone of the
/// seed where the state signal is gone.
pub fn project<S, T: Clone, F: Fn(&S) -> T>(selector: &F, state: Option<S>, seed: &T) -> (value: T)
    requires
        forall|s: S| call_requires(*selector, (&s,)),
    ensures
        state matches Some(s) ==> call_ensures(*selector, (&s,), value),
        state is None ==> cloned(*seed, value),
{
    match state {
        Some(s) => selector(&s),
        None => seed.clone(),
    }
}

/// `Owner::new`: a scope, child of the scope that is current on this thread,
/// if there is one.
pub assume_specification[ Owner::new ]() -> (scope: Owner)
;

/// `Owner::cleanup`: cleans up the children of the scope, then drops every
/// node registered under it.
pub assume_specification[ Owner::cleanup ](scope: &Owner)
;

/// `Owner::with` around `Owner::new`: a scope that is a child of `parent`.
#[verifier::external_body]
pub(crate) fn child_scope(parent: &Owner) -> (scope: Owner) {
    parent.with(Owner::new)
}

/// `Owner::with` around `RwSignal::new`: a signal holding `value`, owned by
/// `scope`.
#[verifier::external_body]
pub(crate) fn signal_in<S: State>(scope: &Owner, value: S) -> (signal: RwSignal<S>) {
    scope.with(|| RwSignal::new(value))
}

/// `GetUntracked::try_get_untracked` on a signal: a clone of its value, read
/// without subscribing, or `None` once the signal is disposed. The value is
/// whatever was last written, by anyone, so nothing is promised of it.
#[verifier::external_body]
pub(crate) fn read_signal<S: State>(signal: &RwSignal<S>) -> (value: Option<S>) {
    reactive_graph::traits::GetUntracked::try_get_untracked(signal)
}

/// `Update::try_maybe_update` on a signal, with `step` as the update: under
/// the signal's write guard the reducer handles `action` on the signal's
/// value, and subscribers are notified when the guard is released only if
/// `step` replaced the value. Returns the effect that `step` returned, or
/// `None`, with nothing done, where the guard cannot be had: the signal is
/// disposed, or a panic under the guard has poisoned it.
#[verifier::external_body]
pub(crate) fn update_signal<S: State, A: Action, D: Deps, R: EffectReducer<S, A, D>>(
    signal: &RwSignal<S>,
    reducer: &R,
    action: A,
) -> (effect: Option<Effect<A, D>>)
    requires
        forall|s: S, a: A| call_requires(*reducer, (s, a)),
{
    reactive_graph::traits::Update::try_maybe_update(
        signal,
        move |cell| step(reducer, cell, action),
    )
}

/// `Owner::with` around `Memo::new`: a memo owned by `scope` whose value is
/// `project` of the selector and a tracked read of the signal.
#[verifier::external_body]
pub(crate) fn memo_in<S: State, T: State, F>(
    scope: &Owner,
    signal: RwSignal<S>,
    selector: F,
    seed: T,
) -> (memo: MemoCell<T>) where F: Fn(&S) -> T + Send + Sync + 'static
    requires
        forall|s: S| call_requires(selector, (&s,)),
{
    scope.with(
        || MemoCell {
            memo: reactive_graph::computed::Memo::new(
                move |_| project(&selector, reactive_graph::traits::Get::try_get(&signal), &seed),
            ),
        },
    )
}

/// `GetUntracked::try_get_untracked` on a memo: a clone of its value, brought
/// up to date first, or `None` once the memo is disposed.
#[verifier::external_body]
pub(crate) fn read_memo<T: State>(memo: &MemoCell<T>) -> (value: Option<T>) {
    reactive_graph::traits::GetUntracked::try_get_untracked(&memo.memo)
}

/// `Owner::with` around `Effect::watch` on a signal, not immediate: the
/// callback is registered under `scope` and gets each later value through
/// `deliver`. It needs a spawner installed for local tasks.
#[verifier::external_body]
pub(crate) fn watch_signal_in<S: State, F>(scope: &Owner, signal: RwSignal<S>, callback: F) where
    F: Fn(&S) + Send + Sync + 'static,

    requires
        forall|s: S| call_requires(callback, (&s,)),
{
    scope.with(
        || {
            reactive_graph::effect::Effect::watch(
                move || reactive_graph::traits::Get::try_get(&signal),
                move |value, previous, _| deliver(&callback, value, previous),
                false,
            );
        },
    )
}

/// `Owner::with` around `Effect::watch` on a memo, not immediate: as
/// `watch_signal_in`, for the values of the memo.
#[verifier::external_body]
pub(crate) fn watch_memo_in<T: State, F>(scope: &Owner, memo: &MemoCell<T>, callback: F) where
    F: Fn(&T) + Send + Sync + 'static,

    requires
        forall|t: T| call_requires(callback, (&t,)),
{
    let memo = memo.memo;
    scope.with(
        || {
            reactive_graph::effect::Effect::watch(
                move || reactive_graph::traits::Get::try_get(&memo),
                move |value, previous, _| deliver(&callback, value, previous),
                false,
            );
        },
    )
}

} // verus!
