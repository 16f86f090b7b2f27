//! Dispatch core of a single-threaded, reactor-style event loop.
//!
//! The library routes low-level readiness and timer events to pluggable
//! handler objects ("states") through a two-level identifier scheme:
//! reactor-scoped resource tokens resolve to core-scoped contexts, and
//! contexts resolve to shared state handles.  A separate call-once
//! envelope lets other threads inject work into the loop thread.

pub mod dispatch;
pub mod envelope;
mod handle;
pub mod laws;
