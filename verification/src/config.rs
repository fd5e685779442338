use vstd::prelude::*;

verus! {

/// Milliseconds between two samples when nothing else is configured.
pub const DEFAULT_REFRESH_INTERVAL_MS: u64 = 1000;

/// Immutable settings shared by every collector.
#[derive(Debug, Clone, Copy, PartialEq, Eq)]
pub struct Config {
    /// Time a polling loop sleeps between two samples, in milliseconds.
    pub refresh_interval_ms: u64,
}

impl Config {
    /// A configuration with the given sampling interval.
    pub fn with_interval(refresh_interval_ms: u64) -> (config: Config)
        ensures
            config.refresh_interval_ms == refresh_interval_ms,
    {
        Config { refresh_interval_ms }
    }
}

impl Default for Config {
    fn default() -> (config: Config)
        ensures
            config.refresh_interval_ms == DEFAULT_REFRESH_INTERVAL_MS,
    {
        Config { refresh_interval_ms: DEFAULT_REFRESH_INTERVAL_MS }
    }
}

} // verus!
