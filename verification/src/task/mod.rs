//! Tasks: spawning them, waiting for them, and the failures of a wait.

pub mod failure;
pub mod future;
pub mod join_handle;
pub mod join_order;
pub mod sleep;
pub mod spawn;

pub use failure::FailureView;
pub use failure::JoinFailure;
pub use failure::NativeFailure;
pub use join_handle::NativeTask;
pub use join_handle::TaskHandle;
pub use sleep::delayed;
pub use sleep::delayed_local;
pub use sleep::sleep;
pub use sleep::Timer;
pub use spawn::spawn;
pub use spawn::spawn_blocking;
pub use spawn::spawn_local;
pub use spawn::Executor;
pub use spawn::LocalContext;
pub use spawn::UsageError;
