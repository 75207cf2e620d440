//! The handle to a spawned task and the one operation on it: the join.

use crate::task::failure::join_result;
use crate::task::failure::joins_to;
use crate::task::failure::JoinFailure;
use crate::task::failure::NativeFailure;
use crate::task::future::map_future;
use crate::Runtime;
use std::future::Future;
use std::pin::Pin;
use std::task::Context;
use std::task::Poll;
use vstd::future::FutureAdditionalSpecFns;
use vstd::prelude::*;

verus! {

/// `tokio::task::JoinHandle`, carried through as it is.
#[verifier::external_type_specification]
#[verifier::external_body]
#[verifier::reject_recursive_types(T)]
pub struct ExJoinHandle<T>(tokio::task::JoinHandle<T>);

/// `tokio::task::JoinError`, which the engine's handle yields where a task failed.
#[verifier::external_type_specification]
#[verifier::external_body]
pub struct ExJoinError(tokio::task::JoinError);

/// The engine's own handle to a spawned task: a `tokio::task::JoinHandle`, held
/// as it is.
///
/// As a future it yields what the engine's handle yields, with the engine's error
/// written as plain values.
#[verifier::reject_recursive_types(T)]
pub struct NativeTask<T> {
    pub(crate) inner: tokio::task::JoinHandle<T>,
}

impl<T> NativeTask<T> {
    /// The engine's handle inside.
    pub closed spec fn engine_handle(&self) -> tokio::task::JoinHandle<T> {
        self.inner
    }

    /// The task that holds the engine's handle `handle`.
    pub fn from_handle(handle: tokio::task::JoinHandle<T>) -> (task: NativeTask<T>)
        ensures
            task.engine_handle() == handle,
    {
        NativeTask { inner: handle }
    }
}

impl<T> Future for NativeTask<T> {
    type Output = Result<T, NativeFailure>;

    /// Polls the engine's handle (`tokio::task::JoinHandle::poll`) and converts its
    /// error: `cancelled` from `JoinError::is_cancelled`, `text` from its `Display`.
    #[verifier::external_body]
    fn poll(self: Pin<&mut Self>, cx: &mut Context<'_>) -> Poll<Result<T, NativeFailure>> {
        Pin::new(&mut self.get_mut().inner).poll(cx).map_err(
            |e| NativeFailure { cancelled: e.is_cancelled(), text: e.to_string() },
        )
    }
}

/// An owned handle to a spawned task. It can be joined once, which consumes it;
/// dropped without a join, it leaves the task to run on its own.
#[verifier::reject_recursive_types(T)]
pub struct TaskHandle<T> {
    native: NativeTask<T>,
}

impl<T> TaskHandle<T> {
    /// The engine's handle that this handle owns.
    pub closed spec fn task(&self) -> NativeTask<T> {
        self.native
    }

    /// The handle that owns `native`.
    pub fn from_native(native: NativeTask<T>) -> (handle: TaskHandle<T>)
        ensures
            handle.task() == native,
    {
        TaskHandle { native }
    }

    /// Gives up the handle for the engine's task that it owns.
    pub fn into_native(self) -> (native: NativeTask<T>)
        ensures
            native == self.task(),
    {
        self.native
    }

    /// Waits for the task: a future that yields the task's value, or the normalized
    /// failure where the engine reports that the task was cancelled or panicked.
    pub fn join(self) -> (joined: impl Future<Output = Result<T, JoinFailure>>)
        ensures
            joins_to(self.task()@, joined@),
    {
        let normalize = |native: Result<T, NativeFailure>| -> (joined: Result<T, JoinFailure>)
            ensures
                joins_to(native, joined),
            {
                join_result(Runtime::current(), native)
            };
        map_future(self.native, normalize)
    }
}

/// A handle is made from the engine's handle to a task that the engine has spawned.
impl<T> From<tokio::task::JoinHandle<T>> for TaskHandle<T> {
    /// The handle that owns `handle` and nothing else: the task is neither polled
    /// nor cancelled by the conversion.
    fn from(handle: tokio::task::JoinHandle<T>) -> (wrapped: TaskHandle<T>)
        ensures
            wrapped.task().engine_handle() == handle,
    {
        TaskHandle::from_native(NativeTask::from_handle(handle))
    }
}

impl<T> vstd::std_specs::convert::FromSpecImpl<tokio::task::JoinHandle<T>> for TaskHandle<T> {
    open spec fn obeys_from_spec() -> bool {
        true
    }

    /// The handle whose task holds `handle`.
    closed spec fn from_spec(handle: tokio::task::JoinHandle<T>) -> TaskHandle<T> {
        TaskHandle { native: NativeTask { inner: handle } }
    }
}

} // verus!
