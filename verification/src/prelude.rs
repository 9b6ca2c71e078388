//! Everything needed to write actors.

pub use crate::error::SendError;
pub use crate::traits::{Actor, ActorBase, ActorContext, Handler, Message, Running};
