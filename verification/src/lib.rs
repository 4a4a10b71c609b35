//! Request/response exporter: payloads from a telemetry pipeline are cached, oldest first, and
//! handed one at a time to clients that ask for them and acknowledge them.
pub mod cache;
pub mod client;
pub mod config;
pub mod crypto;
pub mod exporter;
pub mod laws;
pub mod metrics;
pub mod payload;
pub mod text;
