//! Start/stop coordination for a background network server.
//!
//! The library holds the decisions: what the shared server slot holds, what a
//! stop request does with it, and what outcome each requester is told. The
//! controller keeps the slot behind a lock; the caller runs the server and
//! performs the shutdown that a decision asks for, with the lock released.

pub mod outcome;
pub mod slot;
pub mod panel;
pub mod laws;
mod shared;
