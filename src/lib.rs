//! Verified core of an authenticated read-through cache for user recap data.
//!
//! The library holds the request-signing rules, the error taxonomy, the
//! cache-aside request protocol as a state machine, the startup retry policy,
//! the configuration defaults, the per-route outcome tally and the conversion of
//! stored counters to response fields. Network, database
//! and cache I/O are performed by the caller, who feeds results back in.
pub mod auth;
pub mod cache;
pub mod config;
pub mod decimal;
pub mod errors;
pub mod metrics;
pub mod models;
pub mod request;
pub mod startup;
