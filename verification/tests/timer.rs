use std::time::Duration;
use std::time::Instant;
use task_facade::task::delayed;
use task_facade::task::sleep;
use task_facade::task::Executor;
use task_facade::task::UsageError;

fn runtime() -> tokio::runtime::Runtime {
    tokio::runtime::Builder::new_multi_thread()
        .worker_threads(2)
        .enable_all()
        .build()
        .unwrap()
}

#[test]
fn sleep_takes_at_least_its_duration() {
    let rt = runtime();
    let duration = Duration::from_millis(50);
    let started = Instant::now();
    rt.block_on(sleep(duration));
    let elapsed = started.elapsed();
    assert!(elapsed >= duration);
    assert!(elapsed < Duration::from_secs(5));
}

#[test]
fn sleep_of_nothing_completes() {
    let rt = runtime();
    let started = Instant::now();
    rt.block_on(sleep(Duration::ZERO));
    assert!(started.elapsed() < Duration::from_secs(5));
}

#[test]
fn a_timer_is_made_outside_a_runtime_and_awaited_inside() {
    let timer = sleep(Duration::from_millis(10));
    let rt = runtime();
    let started = Instant::now();
    rt.block_on(timer);
    assert!(started.elapsed() >= Duration::from_millis(10));
}

#[test]
fn sleep_inside_a_task_suspends_only_that_task() {
    let rt = runtime();
    let joined = rt.block_on(async {
        let slow = task_facade::task::spawn(async {
            sleep(Duration::from_millis(300)).await;
            Instant::now()
        })
        .unwrap();
        let fast = task_facade::task::spawn(async { Instant::now() }).unwrap();
        (slow.join().await.unwrap(), fast.join().await.unwrap())
    });
    assert!(joined.0 > joined.1);
}

#[test]
fn delayed_yields_what_the_work_returns() {
    let rt = runtime();
    let _entered = rt.enter();
    let handle = delayed(Duration::from_millis(10), || 6 * 7).unwrap();
    assert_eq!(rt.block_on(handle.join()), Ok(42));
}

#[test]
fn delayed_work_runs_no_earlier_than_its_delay() {
    let rt = runtime();
    let _entered = rt.enter();
    let delay = Duration::from_millis(1000);
    let submitted = Instant::now();
    let handle = delayed(delay, Instant::now).unwrap();
    let returned = Instant::now();
    let ran = rt.block_on(handle.join()).unwrap();
    assert!(returned.duration_since(submitted) < delay);
    assert!(ran.duration_since(submitted) >= delay);
    assert!(ran.duration_since(submitted) < Duration::from_secs(5));
}

#[test]
fn delayed_outside_a_runtime_is_a_usage_error() {
    assert_eq!(delayed(Duration::from_millis(1), || 1u8).err(), Some(UsageError::NoRuntime));
}

#[test]
fn an_executor_delays_work() {
    let rt = runtime();
    let executor = {
        let _entered = rt.enter();
        Executor::current().unwrap()
    };
    let delay = Duration::from_millis(30);
    let submitted = Instant::now();
    let handle = executor.delayed(delay, Instant::now);
    let ran = rt.block_on(handle.join()).unwrap();
    assert!(ran.duration_since(submitted) >= delay);
}

#[test]
fn delayed_work_that_panics_is_joined_as_panicked() {
    let rt = runtime();
    let _entered = rt.enter();
    let handle = delayed(Duration::from_millis(1), || -> u8 { panic!("late boom") }).unwrap();
    let error = rt.block_on(handle.join()).unwrap_err();
    assert!(error.is_panic());
    assert!(error.diagnostic().unwrap().contains("late boom"));
}

#[test]
fn a_timer_on_a_runtime_without_timers_fails_the_task_that_awaits_it() {
    let rt = tokio::runtime::Builder::new_multi_thread().worker_threads(1).build().unwrap();
    let _entered = rt.enter();
    let handle = delayed(Duration::from_millis(1), || 1u8).unwrap();
    let error = rt.block_on(handle.join()).unwrap_err();
    assert!(error.is_panic());
}
