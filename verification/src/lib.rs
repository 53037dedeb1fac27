//! A benchmarking harness library: drives an HTTP endpoint with a
//! configurable number of concurrent request streams for a bounded duration
//! and reports throughput (requests per second).
//!
//! The library holds the verified core: the termination policy that bounds a
//! worker's loop, the observation logger that records per-request timing and
//! merges results across workers, the per-worker loop state machine, response
//! classification, the server-lifecycle state machine, and the configuration
//! factory. Process spawning, HTTP transport and file reading are performed
//! by a thin unverified shell around this library.

pub mod clock;
pub mod config;
pub mod decimal;
pub mod observation_logger;
pub mod request_generator;
pub mod runner;
pub mod server;
pub mod termination;
