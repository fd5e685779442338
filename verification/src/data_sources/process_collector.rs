use vstd::prelude::*;
use vstd::string::StringExecFns;
use std::sync::Arc;
use crate::config::Config;
use crate::data_sources::os_queries::{
    held_processes, process_readings, refresh_processes, system_new_all, ProcessReading,
};
use crate::data_sources::traits::MetricsCollector;
use crate::error::AppError;
use crate::state::data_types::{kb_of_bytes, ProcessInfo, ProcessStatus};

verus! {

/// Samples the process table.
pub struct ProcessCollector {
    system: sysinfo::System,
}

/// The entry that a reading with a readable name gives.
pub open spec fn info_of(reading: ProcessReading) -> ProcessInfo
    recommends
        reading.name is Some,
{
    ProcessInfo {
        pid: reading.pid,
        name: reading.name->Some_0,
        cpu_usage_percent: reading.cpu_usage_percent,
        memory_usage_kb: kb_of_bytes(reading.memory_bytes),
        status: ProcessStatus::of(reading.status, reading.status_text),
    }
}

/// Whether every reading carries a name.
pub open spec fn all_named(readings: Seq<ProcessReading>) -> bool {
    forall|i: int| 0 <= i < readings.len() ==> (#[trigger] readings[i]).name is Some
}

/// What a listing of readings gives: the entries in the listing's order
/// where every reading carries a name, and else a collection error that
/// says a name could not be read.
pub open spec fn gives(
    readings: Seq<ProcessReading>,
    result: Result<Vec<ProcessInfo>, AppError>,
) -> bool {
    &&& result is Ok <==> all_named(readings)
    &&& result matches Ok(infos) ==> infos@ == readings.map_values(
        |reading: ProcessReading| info_of(reading),
    )
    &&& result matches Err(error) ==> error matches AppError::CollectionError(message)
        && message@ == "process name is not valid UTF-8"@
}

impl ProcessCollector {
    /// The collector's session with the operating system.
    pub closed spec fn session(self) -> sysinfo::System {
        self.system
    }
}

/// The process list from the system's readings, in their order. A process
/// whose name is not valid UTF-8 makes the whole sample fail.
pub fn infos_from(readings: Vec<ProcessReading>) -> (result: Result<Vec<ProcessInfo>, AppError>)
    ensures
        gives(readings@, result),
{
    let ghost all = readings@;
    let mut infos: Vec<ProcessInfo> = Vec::new();
    for reading in it: readings.into_iter()
        invariant
            it.seq() == all,
            infos@ == all.take(it.index() as int).map_values(
                |reading: ProcessReading| info_of(reading),
            ),
            all_named(all.take(it.index() as int)),
    {
        let ghost done = it.index() as int;
        let ProcessReading { pid, name, cpu_usage_percent, memory_bytes, status, status_text } =
            reading;
        match name {
            Some(name) => {
                let info = ProcessInfo::from_reading(
                    pid,
                    name,
                    cpu_usage_percent,
                    memory_bytes,
                    ProcessStatus::from(status, status_text),
                );
                infos.push(info);
                proof {
                    assert(all.take(done + 1) =~= all.take(done).push(all[done]));
                    assert(infos@ =~= all.take(done + 1).map_values(
                        |reading: ProcessReading| info_of(reading),
                    ));
                }
            },
            None => {
                proof {
                    assert(all[done].name is None);
                }
                return Err(
                    AppError::CollectionError(
                        String::from_str("process name is not valid UTF-8"),
                    ),
                );
            },
        }
    }
    proof {
        assert(all.take(all.len() as int) =~= all);
    }
    Ok(infos)
}

impl MetricsCollector for ProcessCollector {
    type CollectedData = Vec<ProcessInfo>;

    /// Never fails.
    fn new(_config: Arc<Config>) -> (result: Result<Self, AppError>)
        ensures
            result is Ok,
    {
        Ok(ProcessCollector { system: system_new_all() })
    }

    /// Refreshes the session and returns what some listing of the process
    /// table it then holds gives: every process once, in the order of that
    /// listing. Fails, with a collection error that says so, only where a
    /// process name cannot be read.
    fn collect(&mut self) -> (result: Result<Vec<ProcessInfo>, AppError>)
        ensures
            exists|readings: Seq<ProcessReading>|
                readings.to_multiset() == held_processes(final(self).session()) && #[trigger] gives(
                    readings,
                    result,
                ),
    {
        refresh_processes(&mut self.system);
        let readings = process_readings(&self.system);
        let ghost listing = readings@;
        let result = infos_from(readings);
        proof {
            assert(listing.to_multiset() == held_processes(self.system) && gives(listing, result));
        }
        result
    }

    fn needs_warm_up(&self) -> (needed: bool)
        ensures
            !needed,
    {
        false
    }

    fn prime(&mut self) -> (wait_ms: u64)
        ensures
            wait_ms == 0,
    {
        0
    }
}

} // verus!
