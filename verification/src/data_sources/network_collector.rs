use vstd::prelude::*;
use vstd::multiset::Multiset;
use std::sync::Arc;
use crate::config::Config;
use crate::data_sources::traits::MetricsCollector;
use crate::error::AppError;
use crate::state::data_types::{GlobalNetworkMetrics, NetworkData};

verus! {

/// Samples the traffic counters of every network interface. It holds a
/// `sysinfo::Networks`, whose contents are not visible to the proofs.
#[verifier::external_body]
pub struct NetworkCollector {
    networks: sysinfo::Networks,
}

/// `Networks::new_with_refreshed_list`: the interfaces present now. Nothing is
/// claimed of them.
#[verifier::external_body]
fn open_networks() -> (collector: NetworkCollector) {
    NetworkCollector { networks: sysinfo::Networks::new_with_refreshed_list() }
}

/// `Networks::refresh`, dropping interfaces that are no longer listed: reads
/// the counters anew. Nothing is claimed of what the list holds afterwards.
#[verifier::external_body]
fn refresh_networks(collector: &mut NetworkCollector) {
    collector.networks.refresh(true);
}

/// The counters of the interfaces that a collector's list holds since its
/// last refresh: each interface once, in no order.
pub uninterp spec fn held_interfaces(collector: NetworkCollector) -> Multiset<GlobalNetworkMetrics>;

/// `Networks::list`, walked once: one entry per interface of the list, in the
/// order in which the walk comes by them, which is left open. Of each
/// interface its name and `NetworkData::received`, `transmitted`,
/// `packets_received` and `packets_transmitted`, each computed from what the
/// list holds and nothing else.
#[verifier::external_body]
fn interface_readings(collector: &NetworkCollector) -> (readings: Vec<GlobalNetworkMetrics>)
    ensures
        readings@.to_multiset() == held_interfaces(*collector),
{
    collector.networks.list().iter().map(|(name, data)| GlobalNetworkMetrics {
        interface_name: name.clone(),
        received_bytes: data.received(),
        transmitted_bytes: data.transmitted(),
        received_packets: data.packets_received(),
        transmitted_packets: data.packets_transmitted(),
    }).collect()
}

impl MetricsCollector for NetworkCollector {
    type CollectedData = NetworkData;

    /// Never fails.
    fn new(_config: Arc<Config>) -> (result: Result<Self, AppError>)
        ensures
            result is Ok,
    {
        Ok(open_networks())
    }

    /// Never fails. Refreshes the list and returns the interfaces it then
    /// holds, each once, in the order in which the system lists them.
    fn collect(&mut self) -> (result: Result<NetworkData, AppError>)
        ensures
            result is Ok,
            result->Ok_0->Global_0@.to_multiset() == held_interfaces(*final(self)),
    {
        refresh_networks(self);
        Ok(NetworkData::Global(interface_readings(self)))
    }

    fn needs_warm_up(&self) -> (needed: bool)
        ensures
            !needed,
    {
        false
    }

    fn prime(&mut self) -> (wait_ms: u64)
        ensures
            wait_ms == 0,
    {
        0
    }
}

} // verus!
