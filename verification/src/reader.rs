//! Readers: memoised projections of a store's state.

use crate::bounds::{Action, Deps, State};
use crate::graph::{child_scope, current_or, memo_in, read_memo, watch_memo_in, MemoCell};
use crate::store::{Get, Store, Watch};
use reactive_graph::owner::Owner;
use vstd::prelude::*;

verus! {

/// A value derived from a store's state by a selector, recomputed when the
/// state changes and compared by `==`, so that its watchers hear only of
/// changes of the derived value.
#[verifier::reject_recursive_types(S)]
pub struct Reader<S: State> {
    memo: MemoCell<S>,
    #[allow(dead_code)]
    owner: Owner,
    watch_owner: Owner,
    seed: S,
}

impl<S: State, A: Action, D: Deps> Store<S, A, D> {
    /// A reader of `selector` applied to the state. The memo lives in a scope
    /// of its own under the store's, with a scope for its watchers below it.
    /// The reader's seed is the selector's value for the state read now.
    pub fn reader<T, F>(&self, selector: F) -> (reader: Reader<T>) where
        F: Fn(&S) -> T + Send + Sync + 'static,
        T: State,

        requires
            forall|s: S| call_requires(selector, (&s,)),
        ensures
            exists|current: S| call_ensures(selector, (&current,), reader.seed()),
    {
        let current = self.get();
        let seed = selector(&current);
        let ghost derived = seed;
        let owner = child_scope(self.scope());
        let memo = memo_in(&owner, self.signal(), selector, seed.clone());
        let watch_owner = child_scope(&owner);
        let reader = Reader { memo, owner, watch_owner, seed };
        assert(call_ensures(selector, (&current,), reader.seed())) by {
            assert(reader.seed() == derived);
        }
        reader
    }
}

impl<S: State> Reader<S> {
    /// The value derived when the reader was made, which a read falls back
    /// on where the memo is gone.
    pub closed spec fn seed(&self) -> S {
        self.seed
    }
}

impl<S: State> Watch<S> for Reader<S> {
    fn watch<F>(&self, callback: F) where F: Fn(&S) + Send + Sync + 'static {
        watch_memo_in(&self.watch_owner, &self.memo, callback);
    }

    fn disconnect(&self) {
        self.watch_owner.cleanup();
    }
}

impl<S: State> Get<S> for Reader<S> {
    /// The current derived value; where the memo is gone, a clone of the value
    /// derived when the reader was made.
    fn get(&self) -> S {
        current_or(read_memo(&self.memo), &self.seed)
    }
}

} // verus!
