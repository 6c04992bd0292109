//! A simulated blockchain-oracle node for exercising monitoring pipelines.
//!
//! The engine fabricates one request per tick, decides under a quality-tier
//! policy whether it fails and how long it takes, folds the outcome into a
//! small set of counters and gauges, and renders the whole state in the
//! plaintext metrics exposition format.

pub mod tier;

pub mod text;

pub mod metrics;

pub mod render;

pub mod policy;

pub mod engine;

pub mod laws;

