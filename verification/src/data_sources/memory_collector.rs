use vstd::prelude::*;
use std::sync::Arc;
use crate::config::Config;
use crate::data_sources::os_queries::{
    available_memory, free_swap, held_available_memory, held_free_swap, held_total_memory,
    held_total_swap, refresh_memory, system_new, total_memory, total_swap,
};
use crate::data_sources::traits::MetricsCollector;
use crate::error::AppError;
use crate::state::data_types::{kb_of_bytes, used_of, GlobalMemoryMetrics, MemoryData};

verus! {

/// Samples memory and swap.
pub struct MemoryCollector {
    system: sysinfo::System,
}

/// The memory figures that a session's byte counts give: each count in whole
/// kilobytes, used memory derived from total and available memory, and used
/// swap from total and free swap, neither ever below zero.
pub open spec fn memory_held(system: sysinfo::System) -> GlobalMemoryMetrics {
    GlobalMemoryMetrics {
        total_memory_kb: kb_of_bytes(held_total_memory(system)),
        available_memory_kb: kb_of_bytes(held_available_memory(system)),
        used_memory_kb: used_of(
            kb_of_bytes(held_total_memory(system)),
            kb_of_bytes(held_available_memory(system)),
        ),
        total_swap_kb: kb_of_bytes(held_total_swap(system)),
        used_swap_kb: kb_of_bytes(used_of(held_total_swap(system), held_free_swap(system))),
    }
}

impl MemoryCollector {
    /// The collector's session with the operating system.
    pub closed spec fn session(self) -> sysinfo::System {
        self.system
    }
}

impl MetricsCollector for MemoryCollector {
    type CollectedData = MemoryData;

    /// Never fails.
    fn new(_config: Arc<Config>) -> (result: Result<Self, AppError>)
        ensures
            result is Ok,
    {
        Ok(MemoryCollector { system: system_new() })
    }

    /// Never fails. Refreshes the session and returns what it then holds:
    /// its byte counts in kilobytes, with used memory derived from total and
    /// available memory.
    fn collect(&mut self) -> (result: Result<MemoryData, AppError>)
        ensures
            result is Ok,
            result->Ok_0 == MemoryData::Global(memory_held(final(self).session())),
            result->Ok_0->Global_0.consistent(),
    {
        refresh_memory(&mut self.system);
        let total = total_memory(&self.system);
        let available = available_memory(&self.system);
        let swap = total_swap(&self.system);
        let swap_used = swap.saturating_sub(free_swap(&self.system));
        Ok(MemoryData::Global(GlobalMemoryMetrics::from_bytes(total, available, swap, swap_used)))
    }

    fn needs_warm_up(&self) -> (needed: bool)
        ensures
            !needed,
    {
        false
    }

    fn prime(&mut self) -> (wait_ms: u64)
        ensures
            wait_ms == 0,
    {
        0
    }
}

} // verus!
