use vstd::prelude::*;
use vstd::multiset::Multiset;
use crate::state::data_types::RawStatus::{
    Dead, Idle, LockBlocked, Parked, Run, Sleep, Stop, Tracing, UninterruptibleDiskSleep, Unknown,
    Wakekill, Waking, Zombie,
};
use crate::state::data_types::{Bits32, Bits64, LoadAverages, RawStatus};
use sysinfo::ProcessStatus as OsStatus;

verus! {

/// `sysinfo::System`: a session with the operating system's metrics.
#[verifier::external_type_specification]
#[verifier::external_body]
pub struct ExSystem(sysinfo::System);

/// The overall processor usage that a session holds since its last refresh,
/// as the bits of the single-precision percentage.
pub uninterp spec fn held_global_cpu_usage(system: sysinfo::System) -> u32;

/// The usage per logical core that a session holds since its last refresh,
/// in the order of its core list, each as the bits of the single-precision
/// percentage.
pub uninterp spec fn held_core_usages(system: sysinfo::System) -> Seq<u32>;

/// The installed memory in bytes that a session holds since its last refresh.
pub uninterp spec fn held_total_memory(system: sysinfo::System) -> u64;

/// The available memory in bytes that a session holds since its last refresh.
pub uninterp spec fn held_available_memory(system: sysinfo::System) -> u64;

/// The swap space in bytes that a session holds since its last refresh.
pub uninterp spec fn held_total_swap(system: sysinfo::System) -> u64;

/// The free swap space in bytes that a session holds since its last refresh.
pub uninterp spec fn held_free_swap(system: sysinfo::System) -> u64;

/// The bit patterns of a list of single-precision readings.
pub open spec fn bits_of(readings: Seq<Bits32>) -> Seq<u32> {
    readings.map_values(|reading: Bits32| reading.bits)
}

/// What the system reports of one process.
#[derive(Debug, Clone)]
pub struct ProcessReading {
    pub pid: u32,
    /// The process name, or nothing where it is not valid UTF-8.
    pub name: Option<String>,
    pub cpu_usage_percent: Bits32,
    /// Resident memory in bytes.
    pub memory_bytes: u64,
    pub status: RawStatus,
    /// The text under which the system shows the status.
    pub status_text: String,
}

/// `System::new_all`: a session with everything loaded. Nothing is claimed of
/// it. It parses the kernel's processor tables and takes them to be well formed.
#[verifier::external_body]
pub(crate) fn system_new_all() -> (system: sysinfo::System) {
    sysinfo::System::new_all()
}

/// `System::new`: a session with nothing loaded. Nothing is claimed of it.
#[verifier::external_body]
pub(crate) fn system_new() -> (system: sysinfo::System) {
    sysinfo::System::new()
}

/// `System::refresh_cpu_usage`: reads the processor counters anew. Nothing is
/// claimed of what the session holds afterwards. It parses the kernel's
/// processor table and takes it to be well formed.
#[verifier::external_body]
pub(crate) fn refresh_cpu_usage(system: &mut sysinfo::System) {
    system.refresh_cpu_usage();
}

/// `System::global_cpu_usage`: a plain read of the overall usage that the
/// session holds; the result carries the bits of the value returned.
#[verifier::external_body]
pub(crate) fn global_cpu_usage(system: &sysinfo::System) -> (usage: Bits32)
    ensures
        usage.bits == held_global_cpu_usage(*system),
{
    Bits32 { bits: system.global_cpu_usage().to_bits() }
}

/// `System::cpus` with `Cpu::cpu_usage` of each: a plain read of the usage
/// per logical core that the session holds, in the order of the slice that
/// `cpus` returns; each entry carries the bits of the value returned.
#[verifier::external_body]
pub(crate) fn core_usages(system: &sysinfo::System) -> (usages: Vec<Bits32>)
    ensures
        bits_of(usages@) == held_core_usages(*system),
{
    system.cpus().iter().map(|cpu| Bits32 { bits: cpu.cpu_usage().to_bits() }).collect()
}

/// `sysinfo::MINIMUM_CPU_UPDATE_INTERVAL`: the least time between two
/// refreshes for which usage is meaningful, in whole milliseconds.
#[verifier::external_body]
pub(crate) fn minimum_cpu_update_interval_ms() -> (wait_ms: u64) {
    sysinfo::MINIMUM_CPU_UPDATE_INTERVAL.as_millis() as u64
}

/// `System::refresh_memory`: reads the memory and swap figures anew. Nothing
/// is claimed of what the session holds afterwards.
#[verifier::external_body]
pub(crate) fn refresh_memory(system: &mut sysinfo::System) {
    system.refresh_memory();
}

/// `System::total_memory`: a plain read of the installed memory, in bytes,
/// that the session holds.
#[verifier::external_body]
pub(crate) fn total_memory(system: &sysinfo::System) -> (bytes: u64)
    ensures
        bytes == held_total_memory(*system),
{
    system.total_memory()
}

/// `System::available_memory`: a plain read of the memory available to new
/// work, in bytes, that the session holds.
#[verifier::external_body]
pub(crate) fn available_memory(system: &sysinfo::System) -> (bytes: u64)
    ensures
        bytes == held_available_memory(*system),
{
    system.available_memory()
}

/// `System::total_swap`: a plain read of the swap space, in bytes, that the
/// session holds.
#[verifier::external_body]
pub(crate) fn total_swap(system: &sysinfo::System) -> (bytes: u64)
    ensures
        bytes == held_total_swap(*system),
{
    system.total_swap()
}

/// `System::free_swap`: on Linux and macOS a plain read of the free swap
/// space, in bytes, that the session holds.
#[verifier::external_body]
pub(crate) fn free_swap(system: &sysinfo::System) -> (bytes: u64)
    ensures
        bytes == held_free_swap(*system),
{
    system.free_swap()
}

/// `System::refresh_processes` over all processes, dropping those that have
/// ended: reads the process table anew. Nothing is claimed of what the session
/// holds afterwards.
#[verifier::external_body]
pub(crate) fn refresh_processes(system: &mut sysinfo::System) {
    system.refresh_processes(sysinfo::ProcessesToUpdate::All, true);
}

/// The readings of the processes in a session's process table since its
/// last refresh: each process once, in no order.
pub uninterp spec fn held_processes(system: sysinfo::System) -> Multiset<ProcessReading>;

/// `System::processes`, walked once: one reading per entry of the table, in
/// the order in which the walk comes by them, which is left open. Of each
/// process its `Pid::as_u32`, `Process::name`, `Process::cpu_usage`,
/// `Process::memory` and `Process::status`, all plain reads; the status as
/// the variant of the same name, and beside it the text `sysinfo` displays
/// for it.
#[verifier::external_body]
pub(crate) fn process_readings(system: &sysinfo::System) -> (readings: Vec<ProcessReading>)
    ensures
        readings@.to_multiset() == held_processes(*system),
{
    system.processes().iter().map(|(pid, p)| ProcessReading {
        pid: pid.as_u32(),
        name: p.name().to_str().map(|name| name.to_string()),
        cpu_usage_percent: Bits32 { bits: p.cpu_usage().to_bits() },
        memory_bytes: p.memory(),
        status_text: p.status().to_string(),
        status: match p.status() {
            OsStatus::Idle => Idle, OsStatus::Run => Run, OsStatus::Sleep => Sleep,
            OsStatus::Stop => Stop, OsStatus::Zombie => Zombie, OsStatus::Tracing => Tracing,
            OsStatus::Dead => Dead, OsStatus::Wakekill => Wakekill, OsStatus::Waking => Waking,
            OsStatus::Parked => Parked, OsStatus::LockBlocked => LockBlocked,
            OsStatus::UninterruptibleDiskSleep => UninterruptibleDiskSleep,
            OsStatus::Unknown(number) => Unknown(number),
        },
    }).collect()
}

/// `System::refresh_all`: reads everything the session follows anew. It
/// parses the kernel's tables, the processor table among them, and takes them
/// to be well formed.
#[verifier::external_body]
pub(crate) fn refresh_all(system: &mut sysinfo::System) {
    system.refresh_all();
}

/// `System::host_name`: the host's name, where the system gives one.
#[verifier::external_body]
pub(crate) fn host_name() -> (name: Option<String>) {
    sysinfo::System::host_name()
}

/// `System::uptime`: seconds since boot.
#[verifier::external_body]
pub(crate) fn uptime() -> (secs: u64) {
    sysinfo::System::uptime()
}

/// `System::load_average`: the three load averages, each as the bits of the
/// value returned. It parses the kernel's load file and takes it to hold
/// three numbers.
#[verifier::external_body]
pub(crate) fn load_average() -> (load: LoadAverages) {
    let load = sysinfo::System::load_average();
    LoadAverages {
        one: Bits64 { bits: load.one.to_bits() },
        five: Bits64 { bits: load.five.to_bits() },
        fifteen: Bits64 { bits: load.fifteen.to_bits() },
    }
}

/// `System::os_version`: the operating system's version, where it gives one.
#[verifier::external_body]
pub(crate) fn os_version() -> (version: Option<String>) {
    sysinfo::System::os_version()
}

/// `System::kernel_version`: the kernel's version, where the system gives one.
#[verifier::external_body]
pub(crate) fn kernel_version() -> (version: Option<String>) {
    sysinfo::System::kernel_version()
}

} // verus!
