//! One task interface over an asynchronous execution engine: spawning, joining,
//! sleeping and delayed execution, with one failure taxonomy for every engine.
//!
//! A build is bound to exactly one engine. The three flags below say which, and
//! the proof of [`Runtime::current`] goes through only while exactly one is set.
//! The task functions call tokio, whose handles report failures: their proofs go
//! through only while the selected engine is one that does.

use vstd::pervasive::unreached;
use vstd::prelude::*;
use vstd::string::StringExecFns;

pub mod task;
pub mod x_deps;

verus! {

/// Whether this build is bound to async-std.
pub const RUNTIME_ASYNC_STD: bool = false;

/// Whether this build is bound to smol.
pub const RUNTIME_SMOL: bool = false;

/// Whether this build is bound to tokio.
pub const RUNTIME_TOKIO: bool = true;

/// The execution engines that the task interface knows.
#[derive(Clone, Copy, Debug, PartialEq, Eq, Structural)]
pub enum Runtime {
    AsyncStd,
    Smol,
    Tokio,
}

/// An engine selection that no build can have.
#[derive(Clone, Copy, Debug, PartialEq, Eq, Structural)]
pub enum BuildConfigurationError {
    /// No engine is selected.
    NoEngine,
    /// More than one engine is selected.
    SeveralEngines,
}

/// How many of the three engine flags are set.
pub open spec fn selected_count(async_std: bool, smol: bool, tokio: bool) -> nat {
    (if async_std { 1nat } else { 0nat })
        + (if smol { 1nat } else { 0nat })
        + (if tokio { 1nat } else { 0nat })
}

impl BuildConfigurationError {
    /// The rule that the selection broke.
    pub fn message(&self) -> (message: String)
        ensures
            message@ == "one and only one engine can be selected at the same time"@,
    {
        String::from_str("one and only one engine can be selected at the same time")
    }
}

impl Runtime {
    /// Whether the flag of this engine is set among the three.
    pub open spec fn is_selected(self, async_std: bool, smol: bool, tokio: bool) -> bool {
        match self {
            Runtime::AsyncStd => async_std,
            Runtime::Smol => smol,
            Runtime::Tokio => tokio,
        }
    }

    /// The engine that this build is bound to: the one whose flag is set.
    pub open spec fn active() -> Runtime {
        if RUNTIME_ASYNC_STD {
            Runtime::AsyncStd
        } else if RUNTIME_SMOL {
            Runtime::Smol
        } else {
            Runtime::Tokio
        }
    }

    /// Whether a join on this engine can report that the task was cancelled or
    /// panicked. The other engines' handles yield the task's value or nothing.
    pub open spec fn reports_failure(self) -> bool {
        self is Tokio
    }

    /// The engine that the three flags select: the one whose flag is set, where
    /// exactly one is set; the broken rule otherwise.
    pub fn select(async_std: bool, smol: bool, tokio: bool) -> (selected: Result<
        Runtime,
        BuildConfigurationError,
    >)
        ensures
            selected is Ok <==> selected_count(async_std, smol, tokio) == 1,
            selected matches Ok(engine) ==> engine.is_selected(async_std, smol, tokio),
            selected == Err::<Runtime, _>(BuildConfigurationError::NoEngine) <==> selected_count(
                async_std,
                smol,
                tokio,
            ) == 0,
            selected == Err::<Runtime, _>(BuildConfigurationError::SeveralEngines)
                <==> selected_count(async_std, smol, tokio) >= 2,
    {
        match (async_std, smol, tokio) {
            (true, false, false) => Ok(Runtime::AsyncStd),
            (false, true, false) => Ok(Runtime::Smol),
            (false, false, true) => Ok(Runtime::Tokio),
            (false, false, false) => Err(BuildConfigurationError::NoEngine),
            _ => Err(BuildConfigurationError::SeveralEngines),
        }
    }

    /// Which engine is active: the one that the flags of this build select.
    pub fn current() -> (engine: Runtime)
        ensures
            engine == Runtime::active(),
            engine.is_selected(RUNTIME_ASYNC_STD, RUNTIME_SMOL, RUNTIME_TOKIO),
            selected_count(RUNTIME_ASYNC_STD, RUNTIME_SMOL, RUNTIME_TOKIO) == 1,
    {
        match Runtime::select(RUNTIME_ASYNC_STD, RUNTIME_SMOL, RUNTIME_TOKIO) {
            Ok(engine) => engine,
            Err(_) => unreached(),
        }
    }

    /// Executable form of [`Runtime::reports_failure`].
    pub fn has_structured_failure(&self) -> (structured: bool)
        ensures
            structured == self.reports_failure(),
    {
        match self {
            Runtime::Tokio => true,
            Runtime::AsyncStd => false,
            Runtime::Smol => false,
        }
    }
}

} // verus!
