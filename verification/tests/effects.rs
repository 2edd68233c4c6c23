use any_spawner::{CustomExecutor, Executor, PinnedFuture, PinnedLocalFuture};
use futures::executor::{LocalPool, LocalSpawner};
use futures::task::LocalSpawnExt;
use std::cell::RefCell;
use uniflow::{Context, Effect, Get, Store};

struct TickExecutor {
    pool: RefCell<LocalPool>,
    spawner: LocalSpawner,
}

impl CustomExecutor for TickExecutor {
    fn spawn(&self, fut: PinnedFuture<()>) {
        self.spawner.spawn_local(fut).unwrap();
    }

    fn spawn_local(&self, fut: PinnedLocalFuture<()>) {
        self.spawner.spawn_local(fut).unwrap();
    }

    fn poll_local(&self) {
        if let Ok(mut pool) = self.pool.try_borrow_mut() {
            pool.run_until_stalled();
        }
    }
}

fn init_executor() {
    let pool = LocalPool::new();
    let spawner = pool.spawner();
    let _ = Executor::init_local_custom_executor(TickExecutor {
        pool: RefCell::new(pool),
        spawner,
    });
}

fn tick() {
    Executor::poll_local();
}

#[test]
fn effect_dispatches_follow_up_action() {
    init_executor();

    let mut store = Store::new_with_deps(
        0i32,
        |state: i32, action: i32| -> (i32, Effect<i32>) {
            if action > 0 {
                let follow_up = action - 1;
                (
                    state + action,
                    Effect::new(move |ctx: Context<i32, ()>| async move {
                        ctx.dispatch(follow_up);
                    }),
                )
            } else {
                (state + action, Effect::none())
            }
        },
        (),
    );

    store.dispatch(3);
    tick(); // processes chain: 3 -> effect(2) -> effect(1) -> effect(0)
    assert_eq!(store.get(), 6); // 3 + 2 + 1 + 0
}

#[test]
fn effect_accesses_injected_deps() {
    #[derive(Clone)]
    struct TestDeps {
        multiplier: i32,
    }

    #[derive(Clone, Debug, PartialEq)]
    enum CountAction {
        Multiply(i32),
        Set(i32),
    }

    init_executor();

    let mut store = Store::new_with_deps(
        0i32,
        |state: i32, action: CountAction| -> (i32, Effect<CountAction, TestDeps>) {
            match action {
                CountAction::Multiply(val) => (
                    state,
                    Effect::new(move |ctx: Context<CountAction, TestDeps>| async move {
                        let result = val * ctx.deps().multiplier;
                        ctx.dispatch(CountAction::Set(result));
                    }),
                ),
                CountAction::Set(val) => (val, Effect::none()),
            }
        },
        TestDeps { multiplier: 10 },
    );

    store.dispatch(CountAction::Multiply(5));
    tick(); // reducer processes Multiply(5), effect dispatches Set(50)
    tick(); // reducer processes Set(50)
    assert_eq!(store.get(), 50);
}

#[test]
fn effect_none_is_inert() {
    init_executor();

    let mut store = Store::new_with_deps(
        0i32,
        |state: i32, action: i32| -> (i32, Effect<i32>) { (state + action, Effect::none()) },
        (),
    );

    store.dispatch(5);
    tick();
    assert_eq!(store.get(), 5);

    store.dispatch(3);
    tick();
    assert_eq!(store.get(), 8);
}
