use hostmon::state::app_state::AppState;
use hostmon::state::data_types::{
    AppStateUpdate, Bits32, CpuData, GlobalCpuMetrics, GlobalMemoryMetrics, GpuData, MemoryData,
    MetricKind, NetworkData,
};

fn cpu(total: f32, cores: &[f32]) -> AppStateUpdate {
    AppStateUpdate::Cpu(CpuData::GlobalCpuMetrics(GlobalCpuMetrics {
        total_usage_percent: Bits32 { bits: total.to_bits() },
        core_usages_percent: cores.iter().map(|c| Bits32 { bits: c.to_bits() }).collect(),
    }))
}

fn memory(total: u64, available: u64) -> AppStateUpdate {
    AppStateUpdate::Memory(MemoryData::Global(GlobalMemoryMetrics::from_kb(
        total, available, 0, 0,
    )))
}

const ALL_KINDS: [MetricKind; 6] = [
    MetricKind::Cpu,
    MetricKind::Processes,
    MetricKind::Memory,
    MetricKind::Network,
    MetricKind::Gpu,
    MetricKind::SystemStats,
];

#[test]
fn new_state_is_empty() {
    let state = AppState::new();
    for kind in ALL_KINDS {
        assert!(!state.has(kind));
    }
    assert_eq!(state, AppState::default());
    assert!(state.cpu.is_none() && state.gpu.is_none() && state.system_stats.is_none());
}

#[test]
fn update_kinds_match_their_tags() {
    assert_eq!(cpu(1.0, &[]).kind(), MetricKind::Cpu);
    assert_eq!(memory(1, 1).kind(), MetricKind::Memory);
    assert_eq!(AppStateUpdate::Processes(vec![]).kind(), MetricKind::Processes);
    assert_eq!(AppStateUpdate::Network(NetworkData::Global(vec![])).kind(), MetricKind::Network);
    assert_eq!(AppStateUpdate::Gpu(GpuData::Nvidia(vec![])).kind(), MetricKind::Gpu);
}

#[test]
fn apply_fills_only_the_matching_slot() {
    let mut state = AppState::new();
    state.apply(memory(100, 40));
    assert!(state.has(MetricKind::Memory));
    for kind in ALL_KINDS {
        if kind != MetricKind::Memory {
            assert!(!state.has(kind));
        }
    }
    assert_eq!(
        state.memory,
        Some(MemoryData::Global(GlobalMemoryMetrics {
            total_memory_kb: 100,
            available_memory_kb: 40,
            used_memory_kb: 60,
            total_swap_kb: 0,
            used_swap_kb: 0,
        }))
    );
}

#[test]
fn slot_never_reverts_to_absent() {
    let mut state = AppState::new();
    state.apply(cpu(12.5, &[10.0, 15.0]));
    assert!(state.has(MetricKind::Cpu));
    state.apply(memory(8, 2));
    state.apply(AppStateUpdate::Processes(vec![]));
    state.apply(cpu(50.0, &[50.0]));
    assert!(state.has(MetricKind::Cpu));
    assert!(state.has(MetricKind::Memory));
    assert!(state.has(MetricKind::Processes));
}

#[test]
fn last_update_of_a_kind_wins_despite_other_kinds() {
    let mut state = AppState::new();
    state.apply(cpu(1.0, &[1.0]));
    state.apply(memory(10, 1));
    state.apply(cpu(2.0, &[2.0]));
    state.apply(AppStateUpdate::Gpu(GpuData::Nvidia(vec![])));
    state.apply(cpu(3.0, &[3.0, 4.0]));
    state.apply(memory(10, 7));
    let AppStateUpdate::Cpu(expected_cpu) = cpu(3.0, &[3.0, 4.0]) else { unreachable!() };
    let AppStateUpdate::Memory(expected_memory) = memory(10, 7) else { unreachable!() };
    assert_eq!(state.cpu, Some(expected_cpu));
    assert_eq!(state.memory, Some(expected_memory));
    assert_eq!(state.gpu, Some(GpuData::Nvidia(vec![])));
    assert!(state.network.is_none());
}

#[test]
fn applying_twice_changes_nothing() {
    let mut once = AppState::new();
    once.apply(memory(5, 9));
    once.apply(cpu(7.0, &[7.0]));
    let mut twice = once.clone();
    twice.apply(cpu(7.0, &[7.0]));
    assert_eq!(once, twice);
}

#[test]
fn apply_all_is_apply_in_order() {
    let updates = vec![cpu(1.0, &[]), memory(3, 1), cpu(2.0, &[]), memory(3, 2)];
    let mut one_by_one = AppState::new();
    for update in updates.clone() {
        one_by_one.apply(update);
    }
    let mut batch = AppState::new();
    batch.apply_all(updates);
    assert_eq!(batch, one_by_one);
    let AppStateUpdate::Cpu(last_cpu) = cpu(2.0, &[]) else { unreachable!() };
    assert_eq!(batch.cpu, Some(last_cpu));
    let mut untouched = batch.clone();
    untouched.apply_all(vec![]);
    assert_eq!(untouched, batch);
}
