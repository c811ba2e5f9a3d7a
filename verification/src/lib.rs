//! Native side of a bridge between an asynchronous runtime and a managed
//! host environment.
//!
//! The host calls synchronous entry points; the native side registers a
//! pending operation with the host, runs the work on a thread pool, and
//! completes the host-side pending-operation object exactly once.  This
//! crate holds the verified decision logic of that protocol: initialization,
//! the per-operation state machine, the cached call-site table, and the log
//! delegation rules.  The foreign-function glue that carries the decisions
//! into the host runtime lives outside the library.

pub mod bridge;
pub mod error;
pub mod logger;
pub mod method_invoker;
