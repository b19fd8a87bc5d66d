//! A small finance backend: it relays a financial goal to a budgeting service,
//! fetches currency exchange rates from a market-data service and keeps the
//! most recent successful rate in a single-slot cache.
//!
//! The network transport lives with the host; this library builds every
//! outbound request, normalises and checks every response, decodes the rate
//! document and owns the cache.
pub mod goal;
pub mod json;
pub mod outcall;
pub mod rate;
pub mod service;
