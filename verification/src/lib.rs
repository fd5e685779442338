//! Host-metrics monitor: collectors sample CPU, memory, network, GPU, process
//! and system-summary facts, and an aggregator folds their tagged updates into
//! one latest-value snapshot.

pub mod config;
pub mod error;
pub mod state;
pub mod data_sources;
pub mod app_core;
pub mod relay;
