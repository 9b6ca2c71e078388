//! A runtime-agnostic actor framework.
//!
//! Actors are written once against the traits in [`traits`]; a backend
//! (a thread per actor in [`sync_backend`], a Tokio task per actor in
//! [`tokio_backend`]) carries the messages. The run loop that both backends
//! share is the state machine in [`lifecycle`]: it decides, event by event,
//! which hook to call or which message to take next.

pub mod dispatch;
pub mod envelope;
pub mod error;
pub mod lifecycle;
pub mod prelude;
pub mod std_channel;
pub mod sync_backend;
pub mod tokio_backend;
pub mod traits;

pub use envelope::{Envelope, EnvelopeProxy};
pub use error::{MailboxRejection, SendError};
pub use lifecycle::{ActorLoop, LoopAction, LoopEvent, Phase};
pub use sync_backend::{SyncAddr, SyncContext, SyncRuntime};
pub use tokio_backend::{TokioAddr, TokioContext, TokioRuntime};
pub use traits::{Actor, ActorBase, ActorContext, Handler, Message, Running};
