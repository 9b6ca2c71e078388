//! The synchronous backend: each actor runs on a thread of its own and takes
//! its messages, one at a time, from a bounded `std::sync::mpsc` channel.

pub mod addr;
pub mod context;
pub mod runtime;

pub use addr::SyncAddr;
pub use context::SyncContext;
pub use runtime::SyncRuntime;
