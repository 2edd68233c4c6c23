//! The bounds that the store places on the types it is parameterised by.

use crate::effect::Effect;
use vstd::prelude::*;

verus! {

/// A state: comparable, cloneable, and shareable across threads.
pub trait State: Clone + PartialEq + Send + Sync + 'static {

}

impl<S: Clone + PartialEq + Send + Sync + 'static> State for S {

}

/// An action: anything that can be handed to another thread.
pub trait Action: Send + 'static {

}

impl<A: Send + 'static> Action for A {

}

/// Dependencies injected into effects: cloneable and shareable across threads.
pub trait Deps: Clone + Send + Sync + 'static {

}

impl<D: Clone + Send + Sync + 'static> Deps for D {

}

/// A plain reducer: from a state and an action to the next state.
pub trait Reducer<S: State, A: Action>: Fn(S, A) -> S + Send + 'static {

}

impl<S: State, A: Action, R: Fn(S, A) -> S + Send + 'static> Reducer<S, A> for R {

}

/// A reducer that may also return an effect for the store to launch.
pub trait EffectReducer<S: State, A: Action, D: Deps>: Fn(S, A) -> (S, Effect<A, D>)
    + Send
    + 'static {

}

impl<
    S: State,
    A: Action,
    D: Deps,
    R: Fn(S, A) -> (S, Effect<A, D>) + Send + 'static,
> EffectReducer<S, A, D> for R {

}

} // verus!
