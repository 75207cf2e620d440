//! The crate of the engine that this build is bound to, for callers that set the
//! engine up.

pub use tokio;
