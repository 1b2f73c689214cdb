//! Bootstrap wiring for a small HTTP service.
//!
//! The library models and verifies the construction of a server handle:
//! a caller supplies an already-bound listener and a database connection
//! pool; the bootstrap wraps the pool for shared ownership, attaches
//! request-scoped logging around dispatch, registers a fixed route table,
//! and returns a handle that the caller starts and stops explicitly.

pub mod lifecycle;
pub mod listener;
pub mod logging;
pub mod pipeline;
pub mod pool;
pub mod routes;
pub mod startup;
