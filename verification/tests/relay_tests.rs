use hostmon::relay::{Relay, RelayAction, RelayEvent, RelayState, Tagged};
use hostmon::state::data_types::{
    AppStateUpdate, GlobalMemoryMetrics, GpuData, MemoryData, MetricKind, NetworkData, ProcessInfo,
};

fn memory(total: u64) -> MemoryData {
    MemoryData::Global(GlobalMemoryMetrics::from_kb(total, 0, 0, 0))
}

#[test]
fn samples_are_wrapped_under_their_own_tag() {
    assert_eq!(memory(5).into_update(), AppStateUpdate::Memory(memory(5)));
    assert_eq!(memory(5).into_update().kind(), MetricKind::Memory);
    let processes: Vec<ProcessInfo> = vec![];
    assert_eq!(processes.into_update(), AppStateUpdate::Processes(vec![]));
    assert_eq!(GpuData::Nvidia(vec![]).into_update().kind(), MetricKind::Gpu);
    assert_eq!(NetworkData::Global(vec![]).into_update().kind(), MetricKind::Network);
}

#[test]
fn relay_forwards_in_arrival_order() {
    let mut relay = Relay::new();
    let mut forwarded = vec![];
    for total in [3u64, 1, 2] {
        match relay.step(RelayEvent::Received(memory(total))) {
            Some(RelayAction::Forward(update)) => forwarded.push(update),
            other => panic!("unexpected action {:?}", other),
        }
        assert_eq!(relay.state, RelayState::Forwarding);
        assert_eq!(
            relay.step(RelayEvent::<MemoryData>::Forwarded(true)),
            Some(RelayAction::Receive)
        );
        assert_eq!(relay.state, RelayState::Receiving);
    }
    assert_eq!(
        forwarded,
        vec![
            AppStateUpdate::Memory(memory(3)),
            AppStateUpdate::Memory(memory(1)),
            AppStateUpdate::Memory(memory(2)),
        ]
    );
}

#[test]
fn relay_stops_when_its_source_closes() {
    let mut relay = Relay::new();
    assert!(!relay.is_stopped());
    assert_eq!(relay.step(RelayEvent::<MemoryData>::SourceClosed), Some(RelayAction::Exit));
    assert!(relay.is_stopped());
    assert_eq!(relay.step(RelayEvent::Received(memory(1))), None);
    assert!(relay.is_stopped());
}

#[test]
fn relay_stops_when_the_funnel_is_gone() {
    let mut relay = Relay::new();
    relay.step(RelayEvent::Received(memory(1)));
    assert_eq!(relay.step(RelayEvent::<MemoryData>::Forwarded(false)), Some(RelayAction::Exit));
    assert!(relay.is_stopped());
}

#[test]
fn relay_ignores_an_event_that_answers_nothing() {
    let mut relay = Relay::new();
    assert_eq!(relay.step(RelayEvent::<MemoryData>::Forwarded(true)), None);
    assert_eq!(relay.state, RelayState::Receiving);
    relay.step(RelayEvent::Received(memory(1)));
    assert_eq!(relay.step(RelayEvent::Received(memory(2))), None);
    assert_eq!(relay.step(RelayEvent::<MemoryData>::SourceClosed), None);
    assert_eq!(relay.state, RelayState::Forwarding);
}
