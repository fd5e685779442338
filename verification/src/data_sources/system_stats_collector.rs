use vstd::prelude::*;
use std::sync::Arc;
use crate::config::Config;
use crate::data_sources::os_queries::{
    host_name, kernel_version, load_average, os_version, refresh_all, system_new, uptime,
};
use crate::data_sources::traits::MetricsCollector;
use crate::error::AppError;
use crate::state::data_types::{LoadAverages, SystemStats, SystemStatsData};

verus! {

/// Samples the host's summary: name, uptime, load, versions.
pub struct SystemStatsCollector {
    system: sysinfo::System,
}

impl SystemStats {
    /// The summary from what the system reports. The number of users is not
    /// measured and stays absent.
    pub fn from_readings(
        hostname: Option<String>,
        uptime_secs: u64,
        load_average: LoadAverages,
        os_version: Option<String>,
        kernel_version: Option<String>,
    ) -> (stats: SystemStats)
        ensures
            stats == (SystemStats {
                hostname,
                uptime_secs,
                load_average,
                os_version,
                kernel_version,
                total_users: None,
            }),
    {
        SystemStats {
            hostname,
            uptime_secs,
            load_average,
            os_version,
            kernel_version,
            total_users: None,
        }
    }
}

impl MetricsCollector for SystemStatsCollector {
    type CollectedData = SystemStatsData;

    /// Never fails.
    fn new(_config: Arc<Config>) -> (result: Result<Self, AppError>)
        ensures
            result is Ok,
    {
        Ok(SystemStatsCollector { system: system_new() })
    }

    /// Never fails. What the system does not report stays absent.
    fn collect(&mut self) -> (result: Result<SystemStatsData, AppError>)
        ensures
            result is Ok,
            result->Ok_0->Global_0.total_users is None,
    {
        refresh_all(&mut self.system);
        let hostname = host_name();
        let uptime_secs = uptime();
        let load = load_average();
        let os = os_version();
        let kernel = kernel_version();
        Ok(
            SystemStatsData::Global(
                SystemStats::from_readings(hostname, uptime_secs, load, os, kernel),
            ),
        )
    }

    fn needs_warm_up(&self) -> (needed: bool)
        ensures
            !needed,
    {
        false
    }

    fn prime(&mut self) -> (wait_ms: u64)
        ensures
            wait_ms == 0,
    {
        0
    }
}

} // verus!
