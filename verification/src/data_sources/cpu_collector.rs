use vstd::prelude::*;
use std::sync::Arc;
use crate::config::Config;
use crate::data_sources::os_queries::{
    bits_of, core_usages, global_cpu_usage, held_core_usages, held_global_cpu_usage,
    minimum_cpu_update_interval_ms, refresh_cpu_usage, system_new_all,
};
use crate::data_sources::traits::MetricsCollector;
use crate::error::AppError;
use crate::state::data_types::{CpuData, GlobalCpuMetrics};

verus! {

/// Samples processor usage. Usage is measured between two refreshes, so the
/// first real sample has to follow a throwaway one.
pub struct CpuCollector {
    system: sysinfo::System,
}

impl CpuCollector {
    /// The collector's session with the operating system.
    pub closed spec fn session(self) -> sysinfo::System {
        self.system
    }
}

impl MetricsCollector for CpuCollector {
    type CollectedData = CpuData;

    /// Never fails.
    fn new(_config: Arc<Config>) -> (result: Result<Self, AppError>)
        ensures
            result is Ok,
    {
        Ok(CpuCollector { system: system_new_all() })
    }

    /// Never fails. Refreshes the session and returns the usage it then
    /// holds: overall, and per core in the order of the session's core list.
    fn collect(&mut self) -> (result: Result<CpuData, AppError>)
        ensures
            result is Ok,
            result->Ok_0->GlobalCpuMetrics_0.total_usage_percent.bits == held_global_cpu_usage(
                final(self).session(),
            ),
            bits_of(result->Ok_0->GlobalCpuMetrics_0.core_usages_percent@) == held_core_usages(
                final(self).session(),
            ),
    {
        refresh_cpu_usage(&mut self.system);
        let total_usage_percent = global_cpu_usage(&self.system);
        let core_usages_percent = core_usages(&self.system);
        Ok(CpuData::GlobalCpuMetrics(GlobalCpuMetrics { total_usage_percent, core_usages_percent }))
    }

    fn needs_warm_up(&self) -> (needed: bool)
        ensures
            needed,
    {
        true
    }

    /// Refreshes once and asks for the system's minimum interval between refreshes.
    fn prime(&mut self) -> (wait_ms: u64) {
        refresh_cpu_usage(&mut self.system);
        minimum_cpu_update_interval_ms()
    }
}

} // verus!
