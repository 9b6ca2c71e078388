//! The Tokio backend: each actor runs as a Tokio task and takes its messages,
//! one at a time, from a bounded `tokio::sync::mpsc` channel. The waiting
//! sends are `async` and live with the task runner outside this crate; what
//! they decide is here.

pub mod addr;
pub mod channel;
pub mod context;
pub mod runtime;

pub use addr::{TokioAddr, TokioEnvelope, TokioEnvelopeInner};
pub use context::TokioContext;
pub use runtime::TokioRuntime;
