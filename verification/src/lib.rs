//! Lifecycle core of a single-actor runtime.
//!
//! One manager owns one actor together with the dispatch context for its
//! mailbox.  The manager drives a three-phase lifecycle: a startup hook, a
//! suspending receive loop, and a non-suspending drain of deferred entries
//! once a stop has been decided.  The decision logic of that lifecycle is
//! verified here; the asynchronous plumbing around it (awaiting the mailbox,
//! invoking type-erased envelopes, handle bookkeeping) lives with the caller,
//! which drives the state machine through the commands it hands back.

pub mod context;
pub mod entry;
pub mod laws;
pub mod lifecycle;
pub mod mailbox;
pub mod manager;
