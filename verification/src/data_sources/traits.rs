use vstd::prelude::*;
use std::sync::Arc;
use crate::config::Config;
use crate::error::AppError;

verus! {

/// A unit that samples one kind of metric. Each collector is owned by the one
/// thread that polls it.
pub trait MetricsCollector: Sized + Send + 'static {
    /// The value one sample gives.
    type CollectedData;

    /// Opens whatever session the collector needs.
    fn new(config: Arc<Config>) -> (result: Result<Self, AppError>);

    /// Takes exactly one sample.
    fn collect(&mut self) -> (result: Result<Self::CollectedData, AppError>);

    /// Whether the first real sample must follow a throwaway one.
    fn needs_warm_up(&self) -> (needed: bool);

    /// Takes the throwaway sample and returns the time in milliseconds that
    /// must pass before the first real one.
    fn prime(&mut self) -> (wait_ms: u64);
}

} // verus!
