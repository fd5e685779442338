use hostmon::config::Config;
use hostmon::data_sources::cpu_collector::CpuCollector;
use hostmon::data_sources::gpu_collector::GpuCollector;
use hostmon::data_sources::memory_collector::MemoryCollector;
use hostmon::data_sources::network_collector::NetworkCollector;
use hostmon::data_sources::process_collector::ProcessCollector;
use hostmon::data_sources::system_stats_collector::SystemStatsCollector;
use hostmon::data_sources::traits::MetricsCollector;
use hostmon::error::AppError;
use hostmon::state::app_state::AppState;
use hostmon::state::data_types::{
    AppStateUpdate, CpuData, MemoryData, MetricKind, NetworkData, ProcessStatus, SystemStatsData,
};
use std::sync::Arc;

fn config() -> Arc<Config> {
    Arc::new(Config::with_interval(10))
}

#[test]
fn memory_sample_is_consistent() {
    let mut collector = MemoryCollector::new(config()).unwrap();
    assert!(!collector.needs_warm_up());
    assert_eq!(collector.prime(), 0);
    let MemoryData::Global(metrics) = collector.collect().unwrap();
    assert!(metrics.total_memory_kb > 0);
    assert_eq!(
        metrics.used_memory_kb,
        metrics.total_memory_kb.saturating_sub(metrics.available_memory_kb)
    );
    assert!(metrics.used_swap_kb <= metrics.total_swap_kb);
}

#[test]
fn cpu_collector_asks_for_a_warm_up() {
    let mut collector = CpuCollector::new(config()).unwrap();
    assert!(collector.needs_warm_up());
    let wait_ms = collector.prime();
    assert_eq!(wait_ms as u128, sysinfo::MINIMUM_CPU_UPDATE_INTERVAL.as_millis());
    let CpuData::GlobalCpuMetrics(metrics) = collector.collect().unwrap();
    assert!(!metrics.core_usages_percent.is_empty());
    let total = f32::from_bits(metrics.total_usage_percent.bits);
    assert!(total >= 0.0);
}

#[test]
fn process_sample_lists_processes() {
    let mut collector = ProcessCollector::new(config()).unwrap();
    match collector.collect() {
        Ok(processes) => {
            assert!(!processes.is_empty());
            assert!(processes.iter().any(|p| !p.name.is_empty()));
            let own = sysinfo::get_current_pid().unwrap().as_u32();
            let me = processes.iter().find(|p| p.pid == own).unwrap();
            assert!(matches!(me.status, ProcessStatus::Run | ProcessStatus::Sleep));
            for process in &processes {
                if let ProcessStatus::Unknown(text) = &process.status {
                    assert!(!text.is_empty());
                    assert!(!["Runnable", "Sleeping", "Idle", "Zombie"].contains(&text.as_str()));
                }
            }
        }
        Err(error) => assert!(matches!(error, AppError::CollectionError(_))),
    }
}

#[test]
fn network_sample_succeeds() {
    let mut collector = NetworkCollector::new(config()).unwrap();
    let NetworkData::Global(first) = collector.collect().unwrap();
    let NetworkData::Global(second) = collector.collect().unwrap();
    assert_eq!(first.len(), second.len());
    let mut names: Vec<&String> = first.iter().map(|m| &m.interface_name).collect();
    names.sort();
    names.dedup();
    assert_eq!(names.len(), first.len());
    let listed = sysinfo::Networks::new_with_refreshed_list();
    assert_eq!(first.len(), listed.list().len());
    for metrics in &first {
        assert!(listed.list().contains_key(&metrics.interface_name));
    }
}

#[test]
fn process_sample_lists_each_process_once() {
    let mut collector = ProcessCollector::new(config()).unwrap();
    if let Ok(processes) = collector.collect() {
        let mut pids: Vec<u32> = processes.iter().map(|p| p.pid).collect();
        pids.sort();
        pids.dedup();
        assert_eq!(pids.len(), processes.len());
    }
}

#[test]
fn cpu_sample_has_one_entry_per_core() {
    let mut collector = CpuCollector::new(config()).unwrap();
    collector.prime();
    let CpuData::GlobalCpuMetrics(metrics) = collector.collect().unwrap();
    let system = sysinfo::System::new_all();
    assert_eq!(metrics.core_usages_percent.len(), system.cpus().len());
    for usage in &metrics.core_usages_percent {
        let percent = f32::from_bits(usage.bits);
        assert!(percent >= 0.0 && percent <= 100.0);
    }
}

#[test]
fn memory_sample_matches_the_system() {
    let mut collector = MemoryCollector::new(config()).unwrap();
    let MemoryData::Global(metrics) = collector.collect().unwrap();
    let mut system = sysinfo::System::new();
    system.refresh_memory();
    assert_eq!(metrics.total_memory_kb, system.total_memory() / 1024);
    assert_eq!(metrics.total_swap_kb, system.total_swap() / 1024);
    assert!(metrics.used_swap_kb <= metrics.total_swap_kb);
    if system.free_swap() == system.total_swap() {
        assert_eq!(metrics.used_swap_kb, 0);
    }
}

#[test]
fn system_summary_sample_succeeds() {
    let mut collector = SystemStatsCollector::new(config()).unwrap();
    let SystemStatsData::Global(stats) = collector.collect().unwrap();
    assert_eq!(stats.total_users, None);
    assert!(f64::from_bits(stats.load_average.one.bits) >= 0.0);
}

#[test]
fn gpu_failure_is_a_collection_error() {
    match GpuCollector::new(config()) {
        Ok(mut collector) => match collector.collect() {
            Ok(_) => {}
            Err(error) => assert!(matches!(error, AppError::CollectionError(_))),
        },
        Err(AppError::CollectionError(message)) => {
            assert!(message.starts_with("Nvml init failed: "));
            assert!(message.len() > "Nvml init failed: ".len());
        }
        Err(other) => panic!("unexpected error {:?}", other),
    }
}

#[test]
fn other_collectors_publish_when_gpu_is_missing() {
    let mut state = AppState::new();
    let gpu_present = match GpuCollector::new(config()) {
        Ok(mut collector) => match collector.collect() {
            Ok(data) => {
                state.apply(AppStateUpdate::Gpu(data));
                true
            }
            Err(_) => false,
        },
        Err(_) => false,
    };
    let mut cpu = CpuCollector::new(config()).unwrap();
    cpu.prime();
    state.apply(AppStateUpdate::Cpu(cpu.collect().unwrap()));
    state.apply(AppStateUpdate::Memory(MemoryCollector::new(config()).unwrap().collect().unwrap()));
    state.apply(AppStateUpdate::Network(
        NetworkCollector::new(config()).unwrap().collect().unwrap(),
    ));
    state.apply(AppStateUpdate::SystemStats(
        SystemStatsCollector::new(config()).unwrap().collect().unwrap(),
    ));
    if let Ok(processes) = ProcessCollector::new(config()).unwrap().collect() {
        state.apply(AppStateUpdate::Processes(processes));
        assert!(state.has(MetricKind::Processes));
    }
    assert!(state.has(MetricKind::Cpu));
    assert!(state.has(MetricKind::Memory));
    assert!(state.has(MetricKind::Network));
    assert!(state.has(MetricKind::SystemStats));
    assert_eq!(state.has(MetricKind::Gpu), gpu_present);
}
