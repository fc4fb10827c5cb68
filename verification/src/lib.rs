//! Asynchronous waiting on process-handle termination.
//!
//! The verified core of a reactor-based waiter: a registration table of
//! process handles, the dispatch logic of the single background reactor
//! loop, the state machine of the per-process completion future, and the
//! validation and error model around the OS-call facade. The OS plumbing
//! itself (file descriptors, the wake pipe, the blocking multiplex wait)
//! lives outside this crate and drives these functions with plain values.

pub mod error;
pub mod future;
pub mod pid;
pub mod reactor;
pub mod table;
