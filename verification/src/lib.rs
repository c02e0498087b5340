//! Supervision of a locally spawned backend service for a desktop shell:
//! locating the executable, deciding the outcome of start-up, framing the
//! child's output into log lines, polling for readiness within a time budget,
//! and releasing the child exactly once at shutdown.
//!
//! The library decides; the embedding program performs the file-system
//! probes, the spawn, the sleeps and the network requests, and hands their
//! results in as plain values.

pub mod drain;
pub mod liveness;
pub mod locator;
pub mod paths;
pub mod proxy;
pub mod readiness;
pub mod shutdown;
pub mod slot;
pub mod supervisor;

pub use crate::proxy::HttpResponse;
