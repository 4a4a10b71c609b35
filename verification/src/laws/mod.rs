//! What holds of the library as a whole.
pub mod cache;
pub mod client;
pub mod config;
pub mod crypto;
pub mod exporter;
pub mod metrics;
pub mod payload;
pub mod words;
