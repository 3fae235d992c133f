//! Asynchronous job-dispatch and callback-delivery bridge for a
//! single-threaded, cooperatively scheduled host.
//!
//! The host submits database operations as jobs; a worker pool executes them
//! elsewhere and hands completed jobs back over a delivery channel, and the
//! host drains that channel at a safe point of its own tick. The library
//! verifies the bookkeeping that makes this safe: the pending-callback
//! counter, the one-shot poll-hook registration, the routing of completed
//! jobs, and the construction of the delivery plan that the host executes.

pub mod callbacks;
pub mod config;
pub mod error;
pub mod pending;
pub mod runtime;
pub mod upstream;
pub mod worker;
