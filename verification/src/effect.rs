//! Effects: one-shot asynchronous work that a reducer may return, and the
//! context such work runs with.

use crate::bounds::{Action, Deps};
use crate::queue::{handle_dispatch_result, try_send, DispatchError};
use futures::channel::mpsc::Sender;
use std::future::Future;
use vstd::prelude::*;

verus! {

/// What an effect runs with: a way to dispatch further actions into the queue
/// of the store that launched it, and the store's injected dependencies.
#[verifier::reject_recursive_types(A)]
pub struct Context<A: Action, D: Deps = ()> {
    sender: Sender<A>,
    deps: D,
}

impl<A: Action, D: Deps> Clone for Context<A, D> {
    /// A second handle on the same queue, with a clone of the dependencies.
    fn clone(&self) -> (copy: Self)
        ensures
            cloned(self.deps_view(), copy.deps_view()),
    {
        Self { sender: self.sender.clone(), deps: self.deps.clone() }
    }
}

impl<A: Action, D: Deps> Context<A, D> {
    /// The injected dependencies.
    pub closed spec fn deps_view(&self) -> D {
        self.deps
    }

    /// A context over a handle on a queue and the dependencies to inject.
    pub(crate) fn new(sender: Sender<A>, deps: D) -> (ctx: Self)
        ensures
            ctx.deps_view() == deps,
    {
        Self { sender, deps }
    }

    /// Queues an action without blocking. An action that meets a closed or a
    /// full queue is dropped; nothing is reported.
    pub fn dispatch(&self, action: A) {
        let _ = self.try_dispatch(action);
    }

    /// Queues an action without blocking, and reports a full queue. An action
    /// that meets a closed queue is dropped, which is no error. The result is
    /// `handle_dispatch_result` of what the queue answered.
    pub fn try_dispatch(&self, action: A) -> (verdict: Result<(), DispatchError>) {
        let mut sender = self.sender.clone();
        let result = try_send(&mut sender, action);
        handle_dispatch_result(result)
    }

    /// The injected dependencies.
    pub fn deps(&self) -> (deps: &D)
        ensures
            *deps == self.deps_view(),
    {
        &self.deps
    }
}

/// The boxed function of an effect. It is a trait object of two traits that
/// returns a pinned future, which Verus cannot read, so the box is opaque.
#[verifier::external_body]
#[verifier::reject_recursive_types(A)]
#[verifier::reject_recursive_types(D)]
pub(crate) struct Task<A: Action, D: Deps> {
    run: Box<dyn FnOnce(Context<A, D>) -> futures::future::BoxFuture<'static, ()> + Send>,
}

/// Work for the store to launch after a transition: none, or one function from
/// a context to a future, run once.
#[verifier::reject_recursive_types(A)]
#[verifier::reject_recursive_types(D)]
pub struct Effect<A: Action, D: Deps = ()> {
    inner: Option<Task<A, D>>,
}

impl<A: Action, D: Deps> Effect<A, D> {
    /// Whether this is the effect that does nothing.
    pub closed spec fn is_none(&self) -> bool {
        self.inner is None
    }

    /// An effect that runs `f` once, with the context of the store that
    /// launches it, and drives the future it returns.
    pub fn new<F, Fut>(f: F) -> (effect: Self) where
        F: FnOnce(Context<A, D>) -> Fut + Send + 'static,
        Fut: Future<Output = ()> + Send + 'static,

        requires
            forall|ctx: Context<A, D>| call_requires(f, (ctx,)),
        ensures
            !effect.is_none(),
    {
        Self { inner: Some(box_task(f)) }
    }

    /// The effect that does nothing.
    pub fn none() -> (effect: Self)
        ensures
            effect.is_none(),
    {
        Self { inner: None }
    }

    /// Whether there is nothing to launch.
    pub fn is_inert(&self) -> (inert: bool)
        ensures
            inert == self.is_none(),
    {
        self.inner.is_none()
    }

    /// Launches the effect with `ctx`; the empty effect launches nothing. The
    /// future is handed to the spawner and not awaited.
    pub(crate) fn run(self, ctx: Context<A, D>) {
        if let Some(task) = self.inner {
            launch(task, ctx);
        }
    }
}

/// Boxes the function of an effect, pinning the future it returns
/// (`Box::new`, `Box::pin`).
#[verifier::external_body]
fn box_task<A: Action, D: Deps, F, Fut>(f: F) -> (task: Task<A, D>) where
    F: FnOnce(Context<A, D>) -> Fut + Send + 'static,
    Fut: Future<Output = ()> + Send + 'static,

    requires
        forall|ctx: Context<A, D>| call_requires(f, (ctx,)),
{
    Task { run: Box::new(move |ctx| Box::pin(f(ctx))) }
}

/// `any_spawner::Executor::spawn` on the future that the task returns for
/// `ctx`. The spawner takes the future and returns at once. It needs a
/// spawner installed in the process; effects are launched by the worker, which
/// runs only where one is.
#[verifier::external_body]
fn launch<A: Action, D: Deps>(task: Task<A, D>, ctx: Context<A, D>) {
    any_spawner::Executor::spawn((task.run)(ctx));
}

} // verus!
