//! A unidirectional-dataflow store: actions are queued, a single worker applies
//! a reducer to the current state, and the state is published through a
//! reactive graph to selectors and watchers.

pub mod bounds;
pub mod effect;
pub mod graph;
pub mod laws;
pub mod queue;
pub mod reader;
pub mod store;
pub mod transition;

pub use any_spawner;
pub use bounds::{Action, Deps, EffectReducer, Reducer, State};
pub use effect::{Context, Effect};
pub use queue::{handle_dispatch_result, DispatchError, SendFailure, DEFAULT_CAPACITY};
pub use reader::Reader;
pub use store::{Get, Store, Watch};
pub use transition::{replace_if_changed, step};
