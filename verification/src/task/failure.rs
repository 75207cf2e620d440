//! The failures of a join, and the mapping from what an engine reports to them.

use crate::Runtime;
use vstd::prelude::*;
use vstd::string::StringExecFns;

verus! {

/// Why a wait on a task did not yield the task's value: the model of a [`JoinFailure`].
pub enum FailureView {
    /// The task was cancelled before it completed.
    Cancelled,
    /// The task panicked. The diagnostic describes the panic and is never empty.
    Panicked(Seq<char>),
}

/// What an engine's own join error says of itself, as plain values.
#[derive(Debug, PartialEq, Eq)]
pub struct NativeFailure {
    /// The engine reports a cancellation. Otherwise it reports a panic.
    pub cancelled: bool,
    /// The engine's description of the failure.
    pub text: String,
}

/// The diagnostic of a panic of which the engine gave no description.
pub open spec fn undescribed_panic() -> Seq<char> {
    "task panicked"@
}

/// The failure that a native failure is normalized to: a cancellation loses the
/// engine's text, a panic keeps it as its diagnostic.
pub open spec fn normalized(cancelled: bool, text: Seq<char>) -> FailureView {
    if cancelled {
        FailureView::Cancelled
    } else if text.len() == 0 {
        FailureView::Panicked(undescribed_panic())
    } else {
        FailureView::Panicked(text)
    }
}

/// The failures that a join on `engine` can produce.
pub open spec fn producible(engine: Runtime, failure: FailureView) -> bool {
    &&& engine.reports_failure()
    &&& failure matches FailureView::Panicked(diagnostic) ==> diagnostic.len() > 0
}

/// What a user reads of a failure.
pub open spec fn description(failure: FailureView) -> Seq<char> {
    match failure {
        FailureView::Cancelled => "task was cancelled"@,
        FailureView::Panicked(diagnostic) => diagnostic,
    }
}

/// Whether `joined` is what a join yields when the engine's handle yielded `native`:
/// the task's value unchanged, or the native failure normalized.
pub open spec fn joins_to<T>(
    native: Result<T, NativeFailure>,
    joined: Result<T, JoinFailure>,
) -> bool {
    match native {
        Ok(value) => joined matches Ok(joined_value) && joined_value == value,
        Err(reported) => joined matches Err(failure) && failure@ == normalized(
            reported.cancelled,
            reported.text@,
        ),
    }
}

/// The normalized failure of a join.
#[derive(Debug, PartialEq, Eq)]
pub struct JoinFailure {
    cancelled: bool,
    diagnostic: String,
}

impl View for JoinFailure {
    type V = FailureView;

    closed spec fn view(&self) -> FailureView {
        if self.cancelled {
            FailureView::Cancelled
        } else {
            FailureView::Panicked(self.diagnostic@)
        }
    }
}

impl JoinFailure {
    #[verifier::type_invariant]
    spec fn well_formed(self) -> bool {
        if self.cancelled {
            self.diagnostic@.len() == 0
        } else {
            self.diagnostic@.len() > 0
        }
    }

    /// Maps the failure that `engine` reported to the shared taxonomy.
    pub fn normalize(engine: Runtime, native: NativeFailure) -> (failure: JoinFailure)
        requires
            engine.reports_failure(),
        ensures
            failure@ == normalized(native.cancelled, native.text@),
            producible(engine, failure@),
            native.cancelled <==> failure@ is Cancelled,
    {
        proof {
            reveal_strlit("task panicked");
        }
        if native.cancelled {
            JoinFailure { cancelled: true, diagnostic: String::new() }
        } else if native.text.as_str().is_empty() {
            JoinFailure { cancelled: false, diagnostic: String::from_str("task panicked") }
        } else {
            JoinFailure { cancelled: false, diagnostic: native.text }
        }
    }

    /// Whether the task was cancelled.
    pub fn is_cancelled(&self) -> (cancelled: bool)
        ensures
            cancelled == (self@ is Cancelled),
    {
        self.cancelled
    }

    /// Whether the task panicked.
    pub fn is_panic(&self) -> (panicked: bool)
        ensures
            panicked == (self@ is Panicked),
    {
        !self.cancelled
    }

    /// The diagnostic of a panic; `None` for a cancellation.
    pub fn diagnostic(&self) -> (diagnostic: Option<String>)
        ensures
            match self@ {
                FailureView::Cancelled => diagnostic is None,
                FailureView::Panicked(text) => diagnostic matches Some(s) && s@ == text
                    && text.len() > 0,
            },
    {
        proof {
            use_type_invariant(self);
        }
        if self.cancelled {
            None
        } else {
            Some(self.diagnostic.clone())
        }
    }

    /// The failure in words.
    pub fn message(&self) -> (message: String)
        ensures
            message@ == description(self@),
            message@.len() > 0,
    {
        proof {
            use_type_invariant(self);
            reveal_strlit("task was cancelled");
        }
        if self.cancelled {
            String::from_str("task was cancelled")
        } else {
            self.diagnostic.clone()
        }
    }
}

/// What a join on `engine` yields for what the engine's handle yielded.
///
/// An engine that reports no failures yields values only, so the required input
/// leaves a native failure out for it, and the join then never fails.
pub fn join_result<T>(engine: Runtime, native: Result<T, NativeFailure>) -> (joined: Result<
    T,
    JoinFailure,
>)
    requires
        native is Err ==> engine.reports_failure(),
    ensures
        joins_to(native, joined),
        joined matches Err(e) ==> producible(engine, e@),
        !engine.reports_failure() ==> joined is Ok,
{
    match native {
        Ok(value) => Ok(value),
        Err(failure) => Err(JoinFailure::normalize(engine, failure)),
    }
}

/// A join yields the value that the task produced: where the engine's handle
/// yields nothing but that value, the join yields exactly it, and a join fails
/// only where the engine's handle reported a failure.
pub proof fn lemma_join_yields_task_value<T>(
    produced: T,
    native: Result<T, NativeFailure>,
    joined: Result<T, JoinFailure>,
)
    requires
        native matches Ok(value) ==> value == produced,
        joins_to(native, joined),
    ensures
        joined matches Ok(value) ==> value == produced,
        native is Ok ==> joined == Ok::<T, JoinFailure>(produced),
        joined is Err <==> native is Err,
{
}

/// A panic that the engine reports is joined as `Panicked`, with a diagnostic that
/// is not empty: the engine's text where it gave one.
pub proof fn lemma_panic_has_diagnostic<T>(
    native: Result<T, NativeFailure>,
    joined: Result<T, JoinFailure>,
)
    requires
        native matches Err(reported) && !reported.cancelled,
        joins_to(native, joined),
    ensures
        ({
            &&& native matches Err(reported)
            &&& joined matches Err(failure)
            &&& failure@ matches FailureView::Panicked(diagnostic)
            &&& diagnostic.len() > 0
            &&& reported.text@.len() > 0 ==> diagnostic == reported.text@
        }),
{
    reveal_strlit("task panicked");
}

/// On an engine that reports no failures a join never fails, whatever the task
/// was: what such an engine's handle can yield is a value, and the join yields it.
pub proof fn lemma_join_is_infallible_without_failures<T>(
    engine: Runtime,
    native: Result<T, NativeFailure>,
    joined: Result<T, JoinFailure>,
)
    requires
        !engine.reports_failure(),
        native is Err ==> engine.reports_failure(),
        joins_to(native, joined),
    ensures
        joined is Ok,
{
}

/// No failure is made up: every failure that normalizing yields is one that the
/// engine which reported it can produce, and engines that report none produce none.
pub proof fn lemma_normalized_is_producible(engine: Runtime, cancelled: bool, text: Seq<char>)
    ensures
        producible(engine, normalized(cancelled, text)) <==> engine.reports_failure(),
{
    reveal_strlit("task panicked");
}

} // verus!
