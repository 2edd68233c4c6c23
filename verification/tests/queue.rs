use any_spawner::{CustomExecutor, Executor, PinnedFuture, PinnedLocalFuture};
use futures::executor::{LocalPool, LocalSpawner};
use futures::task::LocalSpawnExt;
use std::cell::RefCell;
use uniflow::{DispatchError, Get, Store};

struct TickExecutor {
    pool: RefCell<LocalPool>,
    spawner: LocalSpawner,
}

impl CustomExecutor for TickExecutor {
    fn spawn(&self, fut: PinnedFuture<()>) {
        self.spawner.spawn_local(fut).unwrap();
    }

    fn spawn_local(&self, fut: PinnedLocalFuture<()>) {
        self.spawner.spawn_local(fut).unwrap();
    }

    fn poll_local(&self) {
        if let Ok(mut pool) = self.pool.try_borrow_mut() {
            pool.run_until_stalled();
        }
    }
}

fn init_executor() {
    let pool = LocalPool::new();
    let spawner = pool.spawner();
    let _ = Executor::init_local_custom_executor(TickExecutor {
        pool: RefCell::new(pool),
        spawner,
    });
}

fn tick() {
    Executor::poll_local();
}

fn sum(state: u64, action: u64) -> u64 {
    state + action
}

#[test]
fn a_queue_at_capacity_reports_full() {
    init_executor();
    let mut store = Store::new_with_capacity(0u64, sum, 2);
    // two shared slots, and the one slot of the store's own handle
    assert_eq!(store.try_dispatch(1), Ok(()));
    assert_eq!(store.try_dispatch(2), Ok(()));
    assert_eq!(store.try_dispatch(4), Ok(()));
    assert_eq!(store.try_dispatch(8), Err(DispatchError::Full));
    tick();
    assert_eq!(store.get(), 7);
}

#[test]
fn a_drained_queue_takes_actions_again() {
    init_executor();
    let mut store = Store::new_with_capacity(0u64, sum, 0);
    assert_eq!(store.try_dispatch(1), Ok(()));
    assert_eq!(store.try_dispatch(2), Err(DispatchError::Full));
    tick();
    assert_eq!(store.try_dispatch(4), Ok(()));
    tick();
    assert_eq!(store.get(), 5);
}

#[test]
fn dispatch_drops_what_a_full_queue_refuses() {
    init_executor();
    let mut store = Store::new_with_capacity(0u64, sum, 1);
    store.dispatch(1);
    store.dispatch(2);
    store.dispatch(4);
    store.dispatch(8);
    tick();
    assert_eq!(store.get(), 3);
}

#[test]
fn the_default_queue_holds_128_and_one() {
    init_executor();
    let mut store = Store::new(0u64, sum);
    for _ in 0..129 {
        assert_eq!(store.try_dispatch(1), Ok(()));
    }
    assert_eq!(store.try_dispatch(1), Err(DispatchError::Full));
    tick();
    assert_eq!(store.get(), 129);
}

#[test]
fn the_default_queue_with_deps_holds_128_and_one() {
    init_executor();
    let mut store = Store::new_with_deps(
        0u64,
        |state: u64, action: u64| (state + action, uniflow::Effect::<u64, u8>::none()),
        7u8,
    );
    for _ in 0..129 {
        assert_eq!(store.try_dispatch(1), Ok(()));
    }
    assert_eq!(store.try_dispatch(1), Err(DispatchError::Full));
    tick();
    assert_eq!(store.get(), 129);
}

#[test]
fn dispatch_after_shutdown_is_dropped() {
    init_executor();
    let mut store = Store::new(0u64, sum);
    store.dispatch(1);
    tick();
    store.shutdown();
    store.dispatch(2);
    assert_eq!(store.try_dispatch(4), Ok(()));
    tick();
    assert_eq!(store.get(), 1);
}

#[test]
fn shutdown_lets_the_worker_drain_the_queue() {
    init_executor();
    let mut store = Store::new(0u64, sum);
    store.dispatch(1);
    store.dispatch(2);
    store.shutdown();
    tick();
    assert_eq!(store.get(), 3);
}

#[test]
fn shutdown_of_a_full_queue_still_drops_silently() {
    init_executor();
    let mut store = Store::new_with_capacity(0u64, sum, 0);
    assert_eq!(store.try_dispatch(1), Ok(()));
    assert_eq!(store.try_dispatch(2), Err(DispatchError::Full));
    store.shutdown();
    assert_eq!(store.try_dispatch(4), Ok(()));
    tick();
    assert_eq!(store.get(), 1);
}

#[test]
fn get_works_after_shutdown() {
    init_executor();
    let mut store = Store::new(5u64, sum);
    store.shutdown();
    tick();
    assert_eq!(store.get(), 5);
}
