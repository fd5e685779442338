use hostmon::app_core::{AggregatorAction, AggregatorEvent, AppCore};
use hostmon::error::AppError;
use hostmon::state::app_state::AppState;
use hostmon::state::data_types::{
    AppStateUpdate, GlobalMemoryMetrics, GlobalNetworkMetrics, MemoryData, MetricKind, NetworkData,
};

fn memory(total: u64, available: u64) -> AppStateUpdate {
    AppStateUpdate::Memory(MemoryData::Global(GlobalMemoryMetrics::from_kb(
        total, available, 0, 0,
    )))
}

fn network(name: &str, received: u64) -> AppStateUpdate {
    AppStateUpdate::Network(NetworkData::Global(vec![GlobalNetworkMetrics {
        interface_name: name.to_string(),
        received_bytes: received,
        transmitted_bytes: 0,
        received_packets: 0,
        transmitted_packets: 0,
    }]))
}

#[test]
fn aggregator_starts_empty_and_checks_the_flag() {
    let aggregator = AppCore::new();
    assert_eq!(aggregator.pending, AggregatorAction::CheckShutdown);
    assert_eq!(aggregator.state, AppState::new());
}

#[test]
fn aggregator_applies_what_it_receives_in_order() {
    let mut aggregator = AppCore::new();
    assert_eq!(aggregator.step(AggregatorEvent::Shutdown(false)), AggregatorAction::Receive);
    assert_eq!(
        aggregator.step(AggregatorEvent::Received(memory(10, 4))),
        AggregatorAction::CheckShutdown
    );
    assert_eq!(aggregator.step(AggregatorEvent::Shutdown(false)), AggregatorAction::Receive);
    aggregator.step(AggregatorEvent::Received(network("eth0", 7)));
    aggregator.step(AggregatorEvent::Shutdown(false));
    aggregator.step(AggregatorEvent::Received(memory(10, 9)));
    let mut expected = AppState::new();
    expected.apply_all(vec![memory(10, 4), network("eth0", 7), memory(10, 9)]);
    assert_eq!(aggregator.state, expected);
    assert!(aggregator.state.has(MetricKind::Network));
    let AppStateUpdate::Memory(last) = memory(10, 9) else { unreachable!() };
    assert_eq!(aggregator.state.memory, Some(last));
}

#[test]
fn aggregator_exits_when_the_flag_is_set() {
    let mut aggregator = AppCore::new();
    aggregator.step(AggregatorEvent::Shutdown(false));
    aggregator.step(AggregatorEvent::Received(memory(1, 1)));
    let before = aggregator.state.clone();
    assert_eq!(aggregator.step(AggregatorEvent::Shutdown(true)), AggregatorAction::Exit);
    assert_eq!(aggregator.step(AggregatorEvent::Received(memory(2, 1))), AggregatorAction::Exit);
    assert_eq!(aggregator.step(AggregatorEvent::Shutdown(false)), AggregatorAction::Exit);
    assert_eq!(aggregator.state, before);
}

#[test]
fn aggregator_keeps_polling_the_flag_when_the_funnel_is_closed() {
    let mut aggregator = AppCore::new();
    aggregator.step(AggregatorEvent::Shutdown(false));
    assert_eq!(aggregator.step(AggregatorEvent::Disconnected), AggregatorAction::CheckShutdown);
    assert_eq!(aggregator.state, AppState::new());
    assert_eq!(aggregator.step(AggregatorEvent::Shutdown(true)), AggregatorAction::Exit);
}

#[test]
fn aggregator_ignores_an_update_it_did_not_wait_for() {
    let mut aggregator = AppCore::new();
    assert_eq!(
        aggregator.step(AggregatorEvent::Received(memory(3, 1))),
        AggregatorAction::CheckShutdown
    );
    assert_eq!(aggregator.state, AppState::new());
}

#[test]
fn error_text_has_the_family_prefix() {
    assert_eq!(
        AppError::CollectionError("no driver".to_string()).message(),
        "Data Collection Error: no driver"
    );
    assert_eq!(
        AppError::ChannelSendError("closed".to_string()).message(),
        "Channel send error: closed"
    );
    let io = std::io::Error::new(std::io::ErrorKind::Other, "disk gone");
    assert_eq!(AppError::IoError(io).message(), "I/O error: disk gone");
}

#[test]
fn run_takes_in_events_in_order() {
    let events = vec![
        AggregatorEvent::Shutdown(false),
        AggregatorEvent::Received(memory(10, 4)),
        AggregatorEvent::Shutdown(false),
        AggregatorEvent::Disconnected,
        AggregatorEvent::Shutdown(false),
        AggregatorEvent::Received(memory(10, 6)),
    ];
    let mut step_by_step = AppCore::new();
    for event in events.clone() {
        step_by_step.step(event);
    }
    let mut batch = AppCore::new();
    assert_eq!(batch.run(events), AggregatorAction::CheckShutdown);
    assert_eq!(batch, step_by_step);
    let AppStateUpdate::Memory(last) = memory(10, 6) else { unreachable!() };
    assert_eq!(batch.state.memory, Some(last));
    assert_eq!(batch.run(vec![AggregatorEvent::Shutdown(true)]), AggregatorAction::Exit);
    assert_eq!(batch.run(vec![AggregatorEvent::Received(memory(1, 1))]), AggregatorAction::Exit);
    assert_eq!(batch.state.memory, Some(last));
}
