//! The store: the queue's sending end, the state signal and its scopes, and
//! the worker that applies the reducer to each queued action.

use crate::bounds::{Action, Deps, EffectReducer, Reducer, State};
use crate::effect::{Context, Effect};
use crate::graph::{
    child_scope, current_or, read_signal, signal_in, update_signal, watch_signal_in,
};
use crate::queue::{
    capacity_in_range, handle_dispatch_result, try_send, DispatchError, DEFAULT_CAPACITY,
};
use futures::channel::mpsc::{channel, Receiver, Sender};
use reactive_graph::owner::Owner;
use reactive_graph::signal::RwSignal;
use std::marker::PhantomData;
use vstd::prelude::*;

verus! {

/// Reading the current value.
pub trait Get<S: State> {
    /// A snapshot of the current value, taken without subscribing to it.
    fn get(&self) -> S;
}

/// Watching a value for changes.
pub trait Watch<S: State> {
    /// Registers a callback for every later change of the value. It is not
    /// called with the value that is current at registration.
    fn watch<F>(&self, callback: F) where F: Fn(&S) + Send + Sync + 'static
        requires
            forall|s: S| call_requires(callback, (&s,)),
    ;

    /// Removes every callback registered so far. Reading goes on working, and
    /// new callbacks may be registered.
    fn disconnect(&self);
}

/// The single consumer of a store's queue: what it needs to handle one action.
#[verifier::reject_recursive_types(S)]
#[verifier::reject_recursive_types(A)]
pub(crate) struct Worker<S: State, A: Action, D: Deps, R: EffectReducer<S, A, D>> {
    state: RwSignal<S>,
    reducer: R,
    sender: Sender<A>,
    deps: D,
}

impl<S: State, A: Action, D: Deps, R: EffectReducer<S, A, D>> Worker<S, A, D, R> {
    /// The reducer accepts every state and every action.
    #[verifier::type_invariant]
    spec fn reducer_is_total(self) -> bool {
        forall|s: S, a: A| call_requires(self.reducer, (s, a))
    }

    fn new(state: RwSignal<S>, reducer: R, sender: Sender<A>, deps: D) -> (worker: Self)
        requires
            forall|s: S, a: A| call_requires(reducer, (s, a)),
        ensures
            worker.state == state,
            worker.reducer == reducer,
            worker.sender == sender,
            worker.deps == deps,
    {
        Self { state, reducer, sender, deps }
    }

    /// Handles one action: runs `step` on the state and, if it returned an
    /// effect, launches it with a fresh context on the same queue and a clone
    /// of the dependencies. Where the state signal is gone the action is
    /// dropped. The effect is not awaited.
    pub(crate) fn process(&self, action: A) {
        proof {
            use_type_invariant(self);
        }
        match update_signal(&self.state, &self.reducer, action) {
            Some(effect) => {
                if !effect.is_inert() {
                    let ctx = Context::new(self.sender.clone(), self.deps.clone());
                    effect.run(ctx);
                }
            },
            None => {},
        }
    }
}

/// `any_spawner::Executor::spawn` on `StreamExt::for_each` over the receiving
/// end: a task that hands each queued action, in the order the queue yields
/// them, to `Worker::process`, and ends when the queue is closed and empty.
/// It needs a spawner installed in the process.
#[verifier::external_body]
fn spawn_worker<S: State, A: Action, D: Deps, R: EffectReducer<S, A, D>>(
    receiver: Receiver<A>,
    worker: Worker<S, A, D, R>,
) {
    any_spawner::Executor::spawn(
        futures::StreamExt::for_each(
            receiver,
            move |action| {
                worker.process(action);
                futures::future::ready(())
            },
        ),
    );
}

/// What the effect-returning form of a plain reducer returns: the plain
/// reducer's state, and no effect.
pub open spec fn lifts<S: State, A: Action, R: Reducer<S, A>>(
    reducer: &R,
    state: S,
    action: A,
    out: (S, Effect<A, ()>),
) -> bool {
    &&& call_ensures(*reducer, (state, action), out.0)
    &&& out.1.is_none()
}

/// A store of a state `S`, changed only by actions `A` that a reducer applies
/// one at a time, with dependencies `D` for the effects the reducer returns.
#[verifier::reject_recursive_types(S)]
#[verifier::reject_recursive_types(A)]
pub struct Store<S: State, A: Action, D: Deps = ()> {
    state: RwSignal<S>,
    owner: Owner,
    watch_owner: Owner,
    sender: Sender<A>,
    seed: S,
    closed: bool,
    bound: Ghost<usize>,
    _deps: PhantomData<D>,
}

impl<S: State, A: Action> Store<S, A, ()> {
    /// A store with a plain reducer, no dependencies, and a queue of the given
    /// capacity. The reducer is run as one that returns no effect.
    pub fn new_with_capacity<R: Reducer<S, A>>(state: S, reducer: R, capacity: usize) -> (store:
        Self)
        requires
            capacity_in_range(capacity),
            forall|s: S, a: A| call_requires(reducer, (s, a)),
        ensures
            store.bound() == capacity,
            !store.is_closed(),
            cloned(state, store.seed()),
    {
        let effect_reducer = move |s: S, a: A| -> (out: (S, Effect<A, ()>))
            ensures
                lifts(&reducer, s, a, out),
            { (reducer(s, a), Effect::none()) };
        Store::<S, A, ()>::new_with_deps_and_capacity(state, effect_reducer, (), capacity)
    }

    /// A store with a plain reducer, no dependencies, and a queue of the
    /// default capacity.
    pub fn new<R: Reducer<S, A>>(state: S, reducer: R) -> (store: Self)
        requires
            forall|s: S, a: A| call_requires(reducer, (s, a)),
        ensures
            store.bound() == DEFAULT_CAPACITY,
            !store.is_closed(),
            cloned(state, store.seed()),
    {
        Self::new_with_capacity(state, reducer, DEFAULT_CAPACITY)
    }
}

impl<S: State, A: Action, D: Deps> Store<S, A, D> {
    /// The capacity the queue was made with.
    pub closed spec fn bound(&self) -> usize {
        self.bound@
    }

    /// Whether the store has been shut down through this handle.
    pub closed spec fn is_closed(&self) -> bool {
        self.closed
    }

    /// The state the store was made with.
    pub closed spec fn seed(&self) -> S {
        self.seed
    }

    /// The scope that owns the state signal.
    pub(crate) fn scope(&self) -> (scope: &Owner)
        ensures
            *scope == self.scope_view(),
    {
        &self.owner
    }

    /// The state signal.
    pub(crate) fn signal(&self) -> (signal: RwSignal<S>)
        ensures
            signal == self.signal_view(),
    {
        self.state
    }

    /// The scope that owns the state signal.
    pub closed spec fn scope_view(&self) -> Owner {
        self.owner
    }

    /// The handle on the state signal.
    pub closed spec fn signal_view(&self) -> RwSignal<S> {
        self.state
    }

    /// A store with an effect-returning reducer, injected dependencies, and a
    /// queue of the given capacity. Its worker is spawned at once, so a
    /// spawner must be installed in the process before.
    pub fn new_with_deps_and_capacity<R: EffectReducer<S, A, D>>(
        state: S,
        reducer: R,
        deps: D,
        capacity: usize,
    ) -> (store: Self)
        requires
            capacity_in_range(capacity),
            forall|s: S, a: A| call_requires(reducer, (s, a)),
        ensures
            store.bound() == capacity,
            !store.is_closed(),
            cloned(state, store.seed()),
    {
        let seed = state.clone();
        let owner = Owner::new();
        let signal = signal_in(&owner, state);
        let watch_owner = child_scope(&owner);
        let (sender, receiver) = channel(capacity);
        let worker = Worker::new(signal, reducer, sender.clone(), deps);
        spawn_worker(receiver, worker);
        Self {
            state: signal,
            owner,
            watch_owner,
            sender,
            seed,
            closed: false,
            bound: Ghost(capacity),
            _deps: PhantomData,
        }
    }

    /// A store with an effect-returning reducer, injected dependencies, and a
    /// queue of the default capacity.
    pub fn new_with_deps<R: EffectReducer<S, A, D>>(state: S, reducer: R, deps: D) -> (store: Self)
        requires
            forall|s: S, a: A| call_requires(reducer, (s, a)),
        ensures
            store.bound() == DEFAULT_CAPACITY,
            !store.is_closed(),
            cloned(state, store.seed()),
    {
        Self::new_with_deps_and_capacity(state, reducer, deps, DEFAULT_CAPACITY)
    }

    /// Queues an action without blocking. An action that meets a closed or a
    /// full queue is dropped; nothing is reported.
    pub fn dispatch(&mut self, action: A)
        ensures
            final(self).is_closed() == old(self).is_closed(),
            final(self).bound() == old(self).bound(),
            final(self).seed() == old(self).seed(),
    {
        let _ = self.try_dispatch(action);
    }

    /// Queues an action without blocking, and reports a full queue. After a
    /// shutdown the action is dropped and the queue is not asked; before, the
    /// result is `handle_dispatch_result` of what the queue answered.
    pub fn try_dispatch(&mut self, action: A) -> (verdict: Result<(), DispatchError>)
        ensures
            old(self).is_closed() ==> verdict is Ok,
            final(self).is_closed() == old(self).is_closed(),
            final(self).bound() == old(self).bound(),
            final(self).seed() == old(self).seed(),
    {
        if self.closed {
            Ok(())
        } else {
            let result = try_send(&mut self.sender, action);
            handle_dispatch_result(result)
        }
    }

    /// Closes the queue. The worker handles what is queued and then ends;
    /// later dispatches are dropped.
    pub fn shutdown(&mut self)
        ensures
            final(self).is_closed(),
            final(self).bound() == old(self).bound(),
            final(self).seed() == old(self).seed(),
    {
        self.sender.close_channel();
        self.closed = true;
    }
}

impl<S: State, A: Action, D: Deps> Get<S> for Store<S, A, D> {
    /// The current state; where the state signal is gone, a clone of the state
    /// the store was made with.
    fn get(&self) -> S {
        current_or(read_signal(&self.state), &self.seed)
    }
}

impl<S: State, A: Action, D: Deps> Watch<S> for Store<S, A, D> {
    fn watch<F>(&self, callback: F) where F: Fn(&S) + Send + Sync + 'static {
        watch_signal_in(&self.watch_owner, self.state, callback);
    }

    fn disconnect(&self) {
        self.watch_owner.cleanup();
    }
}

} // verus!
