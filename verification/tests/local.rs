use std::future::ready;
use std::rc::Rc;
use std::time::Duration;
use std::time::Instant;
use task_facade::task::delayed_local;
use task_facade::task::spawn_local;
use task_facade::task::LocalContext;

fn runtime() -> tokio::runtime::Runtime {
    tokio::runtime::Builder::new_current_thread().enable_all().build().unwrap()
}

#[test]
fn a_local_task_yields_a_value_that_cannot_leave_its_thread() {
    let rt = runtime();
    let context = LocalContext::new();
    let shared = Rc::new(41u32);
    let seen = shared.clone();
    let handle = spawn_local(&context, async move { Rc::new(*seen + 1) });
    let joined = rt.block_on(context.run_until(handle.join())).unwrap();
    assert_eq!(*joined, 42);
    assert_eq!(Rc::strong_count(&shared), 1);
}

#[test]
fn a_context_spawns_before_it_is_driven() {
    let rt = runtime();
    let context = LocalContext::new();
    let first = context.spawn_local(ready(1u8));
    let second = context.spawn_local(ready(2u8));
    let joined = rt.block_on(context.run_until(async {
        let second = second.join().await.unwrap();
        let first = first.join().await.unwrap();
        (first, second)
    }));
    assert_eq!(joined, (1, 2));
}

#[test]
fn run_until_yields_the_output_of_its_future() {
    let rt = runtime();
    let context = LocalContext::new();
    assert_eq!(rt.block_on(context.run_until(ready("done"))), "done");
}

#[test]
fn a_local_task_that_panics_is_joined_as_panicked() {
    let rt = runtime();
    let context = LocalContext::new();
    let handle = context.spawn_local(async {
        if true {
            panic!("local boom");
        }
        0u8
    });
    let error = rt.block_on(context.run_until(handle.join())).unwrap_err();
    assert!(error.is_panic());
    assert!(error.diagnostic().unwrap().contains("local boom"));
}

#[test]
fn a_delayed_local_task_runs_after_its_delay() {
    let rt = runtime();
    let context = LocalContext::new();
    let delay = Duration::from_millis(60);
    let tag = Rc::new("local");
    let submitted = Instant::now();
    let handle = delayed_local(&context, delay, move || (*tag, Instant::now()));
    let (value, ran) = rt.block_on(context.run_until(handle.join())).unwrap();
    assert_eq!(value, "local");
    assert!(ran.duration_since(submitted) >= delay);
}

#[test]
fn a_context_delays_local_work() {
    let rt = runtime();
    let context = LocalContext::new();
    let handle = context.delayed_local(Duration::from_millis(5), || 9u8);
    assert_eq!(rt.block_on(context.run_until(handle.join())), Ok(9));
}

#[test]
fn a_local_task_spawns_local_tasks_in_its_own_context() {
    let rt = runtime();
    let context = Rc::new(LocalContext::new());
    let inner_context = context.clone();
    let outer = spawn_local(&context, async move {
        let inner = spawn_local(&inner_context, ready(20u8));
        inner.join().await.map(|value| value + 1)
    });
    assert_eq!(rt.block_on(context.run_until(outer.join())), Ok(Ok(21)));
}

#[test]
fn the_free_functions_spawn_in_the_given_context_only() {
    let rt = runtime();
    let first = LocalContext::new();
    let second = LocalContext::new();
    let handle = spawn_local(&first, ready(1u8));
    let other = delayed_local(&second, Duration::from_millis(1), || 2u8);
    assert_eq!(rt.block_on(second.run_until(other.join())), Ok(2));
    assert_eq!(rt.block_on(first.run_until(handle.join())), Ok(1));
}
