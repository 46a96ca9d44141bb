//! Estimates what fraction of the nodes in a payment-routing network graph
//! are reachable from the local vantage point for a given payment amount.
//!
//! The library holds the verified core: configuration parsing, the probe
//! request/outcome model, the bounded-concurrency dispatcher state machine,
//! the startup driver, and the aggregation of probe results into a report.
//! Network transport, credential files and worker threads live outside it.

pub mod config;
pub mod dispatcher;
pub mod driver;
pub mod errors;
pub mod probe;
pub mod report;
