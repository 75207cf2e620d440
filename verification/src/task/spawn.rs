//! Handing work to the engine: on any worker, on the calling thread, or on the
//! pool for blocking work.

use crate::task::join_handle::NativeTask;
use crate::task::join_handle::TaskHandle;
use std::future::Future;
use vstd::future::FutureAdditionalSpecFns;
use vstd::prelude::*;

verus! {

/// `tokio::runtime::Handle`, carried through as it is.
#[verifier::external_type_specification]
#[verifier::external_body]
pub struct ExHandle(tokio::runtime::Handle);

/// `tokio::task::LocalSet`, carried through as it is.
#[verifier::external_type_specification]
#[verifier::external_body]
pub struct ExLocalSet(tokio::task::LocalSet);

/// A spawn that was asked for where the engine cannot run it.
#[derive(Clone, Copy, Debug, PartialEq, Eq, Structural)]
pub enum UsageError {
    /// The calling thread has entered no runtime of the engine.
    NoRuntime,
}

/// `tokio::runtime::Handle::try_current`: the runtime that the calling thread has
/// entered, if it has entered one.
#[verifier::external_body]
fn entered_runtime() -> Option<tokio::runtime::Handle> {
    tokio::runtime::Handle::try_current().ok()
}

/// `tokio::runtime::Handle::spawn`: the task runs `future` on the runtime's
/// workers, so where its handle yields a value, it is the one `future` produced.
#[verifier::external_body]
fn spawn_on_runtime<F, T>(runtime: &tokio::runtime::Handle, future: F) -> (task: NativeTask<T>)
    where
        F: Future<Output = T> + Send + 'static,
        T: Send + 'static,
    ensures
        task@ matches Ok(value) ==> value == future@,
{
    NativeTask { inner: runtime.spawn(future) }
}

/// `tokio::runtime::Handle::spawn_blocking`: the task calls `work` once on the
/// runtime's pool for blocking work, so where its handle yields a value, `work`
/// returned it. The source panics where the system refuses the pool a thread.
#[verifier::external_body]
fn spawn_blocking_on_runtime<F, T>(runtime: &tokio::runtime::Handle, work: F) -> (task: NativeTask<
    T,
>)
    where
        F: FnOnce() -> T + Send + 'static,
        T: Send + 'static,
    requires
        call_requires(work, ()),
    ensures
        task@ matches Ok(value) ==> call_ensures(work, (), value),
{
    NativeTask { inner: runtime.spawn_blocking(work) }
}

/// `tokio::task::LocalSet::new`: an empty set of tasks bound to the calling
/// thread. The source panics on a thread that is shutting down.
#[verifier::external_body]
fn new_local_set() -> tokio::task::LocalSet {
    tokio::task::LocalSet::new()
}

/// `tokio::task::LocalSet::spawn_local`: the task runs `future` on the set's
/// thread while the set is driven, so where its handle yields a value, it is the
/// one `future` produced.
#[verifier::external_body]
fn spawn_on_local_set<F, T>(set: &tokio::task::LocalSet, future: F) -> (task: NativeTask<T>)
    where
        F: Future<Output = T> + 'static,
        T: 'static,
    ensures
        task@ matches Ok(value) ==> value == future@,
{
    NativeTask { inner: set.spawn_local(future) }
}

/// `tokio::task::LocalSet::run_until`: a future that drives the set's tasks until
/// `future` has completed, and yields the output of `future`.
#[verifier::external_body]
fn drive_local_set<'a, F>(set: &'a tokio::task::LocalSet, future: F) -> (driven: impl Future<
    Output = F::Output,
> + 'a)
    where
        F: Future + 'a,
    ensures
        driven@ == future@,
{
    set.run_until(future)
}

/// The engine's executor as an explicit context: the runtime that a thread has
/// entered.
pub struct Executor {
    runtime: tokio::runtime::Handle,
}

impl Executor {
    /// The runtime that this executor submits to.
    pub closed spec fn runtime(&self) -> tokio::runtime::Handle {
        self.runtime
    }

    /// The executor of the given runtime.
    pub fn new(runtime: tokio::runtime::Handle) -> (executor: Executor)
        ensures
            executor.runtime() == runtime,
    {
        Executor { runtime }
    }

    /// The executor of the runtime that a lookup found, or the usage error that
    /// finding none is.
    pub fn from_lookup(found: Option<tokio::runtime::Handle>) -> (looked_up: Result<
        Executor,
        UsageError,
    >)
        ensures
            found matches Some(runtime) ==> looked_up matches Ok(executor) && executor.runtime()
                == runtime,
            found is None ==> looked_up == Err::<Executor, _>(UsageError::NoRuntime),
    {
        match found {
            Some(runtime) => Ok(Executor::new(runtime)),
            None => Err(UsageError::NoRuntime),
        }
    }

    /// The executor of the runtime that the calling thread has entered. Outside
    /// every runtime there is none, which is [`UsageError::NoRuntime`].
    pub fn current() -> (looked_up: Result<Executor, UsageError>)
        ensures
            looked_up matches Err(error) ==> error == UsageError::NoRuntime,
    {
        Executor::from_lookup(entered_runtime())
    }

    /// Submits `future` for execution on any worker of the engine and returns at
    /// once. Where the join yields a value, it is the one that `future` produced.
    pub fn spawn<F, T>(&self, future: F) -> (handle: TaskHandle<T>)
        where
            F: Future<Output = T> + Send + 'static,
            T: Send + 'static,
        ensures
            handle.task()@ matches Ok(value) ==> value == future@,
    {
        TaskHandle::from_native(spawn_on_runtime(&self.runtime, future))
    }

    /// Submits `work`, which may block, to the engine's pool for blocking work and
    /// returns at once. Where the join yields a value, `work` returned it.
    ///
    /// # Panics
    ///
    /// Panics where the pool needs a new thread and the system refuses it one.
    pub fn spawn_blocking<F, T>(&self, work: F) -> (handle: TaskHandle<T>)
        where
            F: FnOnce() -> T + Send + 'static,
            T: Send + 'static,
        requires
            call_requires(work, ()),
        ensures
            handle.task()@ matches Ok(value) ==> call_ensures(work, (), value),
    {
        TaskHandle::from_native(spawn_blocking_on_runtime(&self.runtime, work))
    }
}

/// The context of local tasks: the tasks that run on the thread that made it.
pub struct LocalContext {
    set: tokio::task::LocalSet,
}

impl LocalContext {
    /// A context for the calling thread, with no task in it.
    ///
    /// # Panics
    ///
    /// Panics on a thread that is shutting down: one whose thread-local state the
    /// engine finds destroyed.
    pub fn new() -> LocalContext {
        LocalContext { set: new_local_set() }
    }

    /// Submits `future`, which need not be transferable between threads, for
    /// execution on this context's thread and returns at once. The task runs while
    /// the context is driven. Where the join yields a value, it is the one that
    /// `future` produced.
    ///
    /// # Panics
    ///
    /// Panics on a thread that is shutting down: one whose thread-local state the
    /// engine finds destroyed.
    pub fn spawn_local<F, T>(&self, future: F) -> (handle: TaskHandle<T>)
        where
            F: Future<Output = T> + 'static,
            T: 'static,
        ensures
            handle.task()@ matches Ok(value) ==> value == future@,
    {
        TaskHandle::from_native(spawn_on_local_set(&self.set, future))
    }

    /// Drives the tasks of this context until `future` has completed: a future
    /// that yields the output of `future`.
    pub fn run_until<'a, F>(&'a self, future: F) -> (driven: impl Future<Output = F::Output> + 'a)
        where
            F: Future + 'a,
        ensures
            driven@ == future@,
    {
        drive_local_set(&self.set, future)
    }
}

/// Submits `future` to the runtime that the calling thread has entered.
///
/// Fails with [`UsageError::NoRuntime`] where the thread has entered none. Where
/// the join yields a value, it is the one that `future` produced.
pub fn spawn<F, T>(future: F) -> (spawned: Result<TaskHandle<T>, UsageError>)
    where
        F: Future<Output = T> + Send + 'static,
        T: Send + 'static,
    ensures
        spawned matches Ok(handle) ==> (handle.task()@ matches Ok(value) ==> value == future@),
        spawned matches Err(error) ==> error == UsageError::NoRuntime,
{
    match Executor::current() {
        Ok(executor) => Ok(executor.spawn(future)),
        Err(error) => Err(error),
    }
}

/// Submits `future` to the given context of local tasks.
///
/// A local task cannot be spawned without a context, so the call takes one: a
/// caller that looks its context up ends where it finds none, and calls after
/// that. Where the join yields a value, it is the one that `future` produced.
///
/// # Panics
///
/// Panics on a thread that is shutting down, as [`LocalContext::spawn_local`] does.
pub fn spawn_local<F, T>(context: &LocalContext, future: F) -> (handle: TaskHandle<T>)
    where
        F: Future<Output = T> + 'static,
        T: 'static,
    ensures
        handle.task()@ matches Ok(value) ==> value == future@,
{
    context.spawn_local(future)
}

/// Submits blocking `work` to the runtime that the calling thread has entered.
///
/// Fails with [`UsageError::NoRuntime`] where the thread has entered none. Where
/// the join yields a value, `work` returned it.
///
/// # Panics
///
/// Panics where the pool needs a new thread and the system refuses it one.
pub fn spawn_blocking<F, T>(work: F) -> (spawned: Result<TaskHandle<T>, UsageError>)
    where
        F: FnOnce() -> T + Send + 'static,
        T: Send + 'static,
    requires
        call_requires(work, ()),
    ensures
        spawned matches Ok(handle) ==> (handle.task()@ matches Ok(value) ==> call_ensures(
            work,
            (),
            value,
        )),
        spawned matches Err(error) ==> error == UsageError::NoRuntime,
{
    match Executor::current() {
        Ok(executor) => Ok(executor.spawn_blocking(work)),
        Err(error) => Err(error),
    }
}

} // verus!
