pub mod cpu_collector;
pub mod memory_collector;
pub mod network_collector;
pub mod os_queries;
pub mod polling;
pub mod process_collector;
pub mod system_stats_collector;
pub mod traits;
pub mod gpu_collector;
