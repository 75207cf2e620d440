//! The engine's timer: sleeping, and running work after a delay.

use crate::task::future::map_future;
use crate::task::join_handle::TaskHandle;
use crate::task::spawn::Executor;
use crate::task::spawn::LocalContext;
use crate::task::spawn::UsageError;
use std::future::Future;
use std::pin::Pin;
use std::task::Context;
use std::task::Poll;
use std::time::Duration;
use vstd::future::FutureAdditionalSpecFns;
use vstd::prelude::*;

verus! {

/// `tokio::time::Sleep`, carried through as it is.
#[verifier::external_type_specification]
#[verifier::external_body]
pub struct ExSleep(tokio::time::Sleep);

/// The future of [`sleep`]. It holds no timer of the engine until it is first
/// polled, so it can be made anywhere and is bound to the runtime that polls it.
pub struct Timer {
    duration: Duration,
    running: Option<Pin<Box<tokio::time::Sleep>>>,
}

impl Timer {
    /// How long the timer sleeps.
    pub closed spec fn duration(&self) -> Duration {
        self.duration
    }

    /// Whether the engine's timer has been made.
    pub closed spec fn started(&self) -> bool {
        self.running is Some
    }
}

impl Future for Timer {
    type Output = ();

    /// At the first poll makes the engine's timer (`tokio::time::sleep`), then polls
    /// it (`tokio::time::Sleep::poll`), which is ready once the duration has passed.
    #[verifier::external_body]
    fn poll(self: Pin<&mut Self>, cx: &mut Context<'_>) -> Poll<()> {
        let timer = self.get_mut();
        let duration = timer.duration;
        let running = timer.running.get_or_insert_with(|| Box::pin(tokio::time::sleep(duration)));
        running.as_mut().poll(cx)
    }
}

/// Suspends the task that awaits it for at least `duration`.
///
/// # Panics
///
/// The call does not panic. The first poll of the timer panics where the thread
/// that polls it has entered no runtime of the engine, or a runtime without a
/// timer.
pub fn sleep(duration: Duration) -> (timer: Timer)
    ensures
        timer.duration() == duration,
        !timer.started(),
{
    Timer { duration, running: None }
}

impl Executor {
    /// Spawns a task that sleeps for `interval` and then calls `f`. The handle is
    /// returned at once, not after the delay. Where the join yields a value, `f`
    /// returned it.
    ///
    /// Where the runtime has no timer, the task panics when it starts to sleep,
    /// and its join reports that.
    pub fn delayed<X, F>(&self, interval: Duration, f: F) -> (handle: TaskHandle<X>)
        where
            X: Send + 'static,
            F: FnOnce() -> X + 'static + Send,
        requires
            call_requires(f, ()),
        ensures
            handle.task()@ matches Ok(value) ==> call_ensures(f, (), value),
    {
        let run = move |_elapsed: ()| -> (value: X)
            ensures
                call_ensures(f, (), value),
            {
                f()
            };
        self.spawn(map_future(sleep(interval), run))
    }
}

impl LocalContext {
    /// Spawns a local task that sleeps for `interval` and then calls `f`. The
    /// handle is returned at once, not after the delay. Where the join yields a
    /// value, `f` returned it.
    ///
    /// # Panics
    ///
    /// Panics on a thread that is shutting down, as [`LocalContext::spawn_local`]
    /// does. Where the runtime that drives the context has no timer, the task
    /// panics when it starts to sleep, and its join reports that.
    pub fn delayed_local<X, F>(&self, interval: Duration, f: F) -> (handle: TaskHandle<X>)
        where
            X: 'static,
            F: 'static + FnOnce() -> X,
        requires
            call_requires(f, ()),
        ensures
            handle.task()@ matches Ok(value) ==> call_ensures(f, (), value),
    {
        let run = move |_elapsed: ()| -> (value: X)
            ensures
                call_ensures(f, (), value),
            {
                f()
            };
        self.spawn_local(map_future(sleep(interval), run))
    }
}

/// Spawns, on the runtime that the calling thread has entered, a task that sleeps
/// for `interval` and then calls `f`.
///
/// Fails with [`UsageError::NoRuntime`] where the thread has entered none. Where
/// the join yields a value, `f` returned it. Where the runtime has no timer, the
/// task panics when it starts to sleep, and its join reports that.
pub fn delayed<X, F>(interval: Duration, f: F) -> (spawned: Result<TaskHandle<X>, UsageError>)
    where
        X: Send + 'static,
        F: FnOnce() -> X + 'static + Send,
    requires
        call_requires(f, ()),
    ensures
        spawned matches Ok(handle) ==> (handle.task()@ matches Ok(value) ==> call_ensures(
            f,
            (),
            value,
        )),
        spawned matches Err(error) ==> error == UsageError::NoRuntime,
{
    match Executor::current() {
        Ok(executor) => Ok(executor.delayed(interval, f)),
        Err(error) => Err(error),
    }
}

/// Spawns, in the given context of local tasks, a task that sleeps for `interval`
/// and then calls `f`.
///
/// A local task cannot be spawned without a context, so the call takes one: a
/// caller that looks its context up ends where it finds none, and calls after
/// that. Where the join yields a value, `f` returned it.
///
/// # Panics
///
/// Panics on a thread that is shutting down, as [`LocalContext::spawn_local`] does.
/// Where the runtime that drives the context has no timer, the task panics when
/// it starts to sleep, and its join reports that.
pub fn delayed_local<X, F>(context: &LocalContext, interval: Duration, f: F) -> (handle:
    TaskHandle<X>)
    where
        X: 'static,
        F: 'static + FnOnce() -> X,
    requires
        call_requires(f, ()),
    ensures
        handle.task()@ matches Ok(value) ==> call_ensures(f, (), value),
{
    context.delayed_local(interval, f)
}

} // verus!
