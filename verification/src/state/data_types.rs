use vstd::prelude::*;
use vstd::string::StringExecFns;

verus! {

/// A single-precision reading, carried as its IEEE-754 bit pattern.
#[derive(Debug, Clone, Copy, PartialEq, Eq)]
pub struct Bits32 {
    pub bits: u32,
}

/// A double-precision reading, carried as its IEEE-754 bit pattern.
#[derive(Debug, Clone, Copy, PartialEq, Eq)]
pub struct Bits64 {
    pub bits: u64,
}

/// Processor load over all cores and per logical core.
#[derive(Debug, Clone, PartialEq, Eq)]
pub struct GlobalCpuMetrics {
    /// Overall usage, in percent.
    pub total_usage_percent: Bits32,
    /// Usage per logical core, in percent, in the order the system lists the cores.
    pub core_usages_percent: Vec<Bits32>,
}

/// Processor load of one process.
#[derive(Debug, Clone, Copy, PartialEq, Eq)]
pub struct PerProcessCpuMetrics {
    pub pid: u32,
    pub cpu_usage_percent: Bits32,
}

/// What one processor sample gives.
#[derive(Debug, Clone, PartialEq, Eq)]
pub enum CpuData {
    GlobalCpuMetrics(GlobalCpuMetrics),
}

/// The scheduling state of a process.
#[derive(Debug, Clone, PartialEq, Eq)]
pub enum ProcessStatus {
    Run,
    Sleep,
    Idle,
    Zombie,
    /// Any other state, by the name the operating system interface gives it.
    Unknown(String),
}

/// The scheduling state of a process as the operating system interface
/// tells it, before the monitor picks the states it names.
#[derive(Debug, Clone, Copy, PartialEq, Eq)]
pub enum RawStatus {
    Idle,
    Run,
    Sleep,
    Stop,
    Zombie,
    Tracing,
    Dead,
    Wakekill,
    Waking,
    Parked,
    LockBlocked,
    UninterruptibleDiskSleep,
    /// A state the interface has no name for, by its number.
    Unknown(u32),
}

impl ProcessStatus {
    /// The monitor's state for a raw one: running, sleeping, idle and zombie
    /// stand for themselves, every other state is unknown and keeps the text
    /// under which the interface shows it.
    pub open spec fn of(raw: RawStatus, shown: String) -> ProcessStatus {
        match raw {
            RawStatus::Run => ProcessStatus::Run,
            RawStatus::Sleep => ProcessStatus::Sleep,
            RawStatus::Idle => ProcessStatus::Idle,
            RawStatus::Zombie => ProcessStatus::Zombie,
            _ => ProcessStatus::Unknown(shown),
        }
    }

    /// The monitor's state for a raw one and the text the interface shows for it.
    pub fn from(raw: RawStatus, shown: String) -> (status: ProcessStatus)
        ensures
            status == ProcessStatus::of(raw, shown),
            raw is Run ==> status == ProcessStatus::Run,
            raw is Sleep ==> status == ProcessStatus::Sleep,
            raw is Idle ==> status == ProcessStatus::Idle,
            raw is Zombie ==> status == ProcessStatus::Zombie,
            !(raw is Run || raw is Sleep || raw is Idle || raw is Zombie) ==> status
                == ProcessStatus::Unknown(shown),
    {
        match raw {
            RawStatus::Run => ProcessStatus::Run,
            RawStatus::Sleep => ProcessStatus::Sleep,
            RawStatus::Idle => ProcessStatus::Idle,
            RawStatus::Zombie => ProcessStatus::Zombie,
            _ => ProcessStatus::Unknown(shown),
        }
    }
}

/// One entry of the process list.
#[derive(Debug, Clone, PartialEq, Eq)]
pub struct ProcessInfo {
    pub pid: u32,
    pub name: String,
    pub cpu_usage_percent: Bits32,
    pub memory_usage_kb: u64,
    pub status: ProcessStatus,
}

/// Bytes in one kilobyte.
pub const BYTES_PER_KB: u64 = 1024;

/// Bytes in one megabyte.
pub const BYTES_PER_MB: u64 = 1048576;

/// Whole kilobytes in a number of bytes.
pub open spec fn kb_of_bytes(bytes: u64) -> u64 {
    bytes / BYTES_PER_KB
}

/// Whole megabytes in a number of bytes.
pub open spec fn mb_of_bytes(bytes: u64) -> u64 {
    bytes / BYTES_PER_MB
}

/// Whole kilobytes in a number of bytes, rounded down.
pub fn bytes_to_kb(bytes: u64) -> (kb: u64)
    ensures
        kb == kb_of_bytes(bytes),
{
    bytes / BYTES_PER_KB
}

/// Whole megabytes in a number of bytes, rounded down.
pub fn bytes_to_mb(bytes: u64) -> (mb: u64)
    ensures
        mb == mb_of_bytes(bytes),
{
    bytes / BYTES_PER_MB
}

impl ProcessInfo {
    /// The entry for one process, from what the system reports of it: its
    /// resident memory comes in bytes and is kept in kilobytes.
    pub fn from_reading(
        pid: u32,
        name: String,
        cpu_usage_percent: Bits32,
        memory_bytes: u64,
        status: ProcessStatus,
    ) -> (info: ProcessInfo)
        ensures
            info == (ProcessInfo {
                pid,
                name,
                cpu_usage_percent,
                memory_usage_kb: kb_of_bytes(memory_bytes),
                status,
            }),
    {
        ProcessInfo {
            pid,
            name,
            cpu_usage_percent,
            memory_usage_kb: bytes_to_kb(memory_bytes),
            status,
        }
    }
}

/// Memory and swap of the whole host, in kilobytes.
#[derive(Debug, Clone, Copy, PartialEq, Eq)]
pub struct GlobalMemoryMetrics {
    pub total_memory_kb: u64,
    pub available_memory_kb: u64,
    pub used_memory_kb: u64,
    pub total_swap_kb: u64,
    pub used_swap_kb: u64,
}

/// `total - available`, or zero where more is reported available than there is.
pub open spec fn used_of(total: u64, available: u64) -> u64 {
    if available >= total {
        0
    } else {
        (total - available) as u64
    }
}

impl GlobalMemoryMetrics {
    /// Used memory is what is not available, and never below zero.
    pub open spec fn consistent(self) -> bool {
        self.used_memory_kb == used_of(self.total_memory_kb, self.available_memory_kb)
    }

    /// The memory figures from four readings in kilobytes; used memory is derived.
    pub fn from_kb(
        total_memory_kb: u64,
        available_memory_kb: u64,
        total_swap_kb: u64,
        used_swap_kb: u64,
    ) -> (metrics: GlobalMemoryMetrics)
        ensures
            metrics == (GlobalMemoryMetrics {
                total_memory_kb,
                available_memory_kb,
                used_memory_kb: used_of(total_memory_kb, available_memory_kb),
                total_swap_kb,
                used_swap_kb,
            }),
            metrics.consistent(),
    {
        GlobalMemoryMetrics {
            total_memory_kb,
            available_memory_kb,
            used_memory_kb: total_memory_kb.saturating_sub(available_memory_kb),
            total_swap_kb,
            used_swap_kb,
        }
    }

    /// The memory figures from four readings in bytes.
    pub fn from_bytes(
        total_bytes: u64,
        available_bytes: u64,
        total_swap_bytes: u64,
        used_swap_bytes: u64,
    ) -> (metrics: GlobalMemoryMetrics)
        ensures
            metrics == (GlobalMemoryMetrics {
                total_memory_kb: kb_of_bytes(total_bytes),
                available_memory_kb: kb_of_bytes(available_bytes),
                used_memory_kb: used_of(kb_of_bytes(total_bytes), kb_of_bytes(available_bytes)),
                total_swap_kb: kb_of_bytes(total_swap_bytes),
                used_swap_kb: kb_of_bytes(used_swap_bytes),
            }),
            metrics.consistent(),
    {
        GlobalMemoryMetrics::from_kb(
            bytes_to_kb(total_bytes),
            bytes_to_kb(available_bytes),
            bytes_to_kb(total_swap_bytes),
            bytes_to_kb(used_swap_bytes),
        )
    }
}

/// What one memory sample gives.
#[derive(Debug, Clone, Copy, PartialEq, Eq)]
pub enum MemoryData {
    Global(GlobalMemoryMetrics),
}

/// Traffic counters of one network interface.
#[derive(Debug, Clone, PartialEq, Eq)]
pub struct GlobalNetworkMetrics {
    pub interface_name: String,
    pub received_bytes: u64,
    pub transmitted_bytes: u64,
    pub received_packets: u64,
    pub transmitted_packets: u64,
}

/// What one network sample gives.
#[derive(Debug, Clone, PartialEq, Eq)]
pub enum NetworkData {
    /// One entry per interface.
    Global(Vec<GlobalNetworkMetrics>),
}

/// Memory, load, temperature and fan speed of one graphics device.
#[derive(Debug, Clone, PartialEq, Eq)]
pub struct GpuMetrics {
    pub name: String,
    pub memory_total_mb: u64,
    pub memory_used_mb: u64,
    pub utilization_percent: u32,
    pub temperature_celsius: u32,
    pub fan_speed_percent: u32,
}

/// A sensor value, or zero where the device did not report one.
pub open spec fn reading_or_zero(reading: Option<u32>) -> u32 {
    match reading {
        Some(value) => value,
        None => 0,
    }
}

/// Total and used device memory in megabytes, from a `(total, used)` pair in
/// bytes; both are zero where the device did not report its memory.
pub open spec fn memory_mb_of(memory_bytes: Option<(u64, u64)>) -> (u64, u64) {
    match memory_bytes {
        Some((total, used)) => (mb_of_bytes(total), mb_of_bytes(used)),
        None => (0, 0),
    }
}

/// The name shown for a device that does not tell its own.
pub open spec fn unknown_device_name() -> Seq<char> {
    "Unknown"@
}

/// A device's name, or the stand-in where the device did not tell it.
pub open spec fn device_name_of(name: Option<String>) -> Seq<char> {
    match name {
        Some(name) => name@,
        None => unknown_device_name(),
    }
}

impl GpuMetrics {
    /// The entry for one device from what its sensors gave. A reading that
    /// the device did not deliver counts as zero, a missing name as
    /// "Unknown"; `memory_bytes` is the pair `(total, used)`.
    pub fn from_readings(
        name: Option<String>,
        memory_bytes: Option<(u64, u64)>,
        utilization: Option<u32>,
        temperature: Option<u32>,
        fan_speed: Option<u32>,
    ) -> (metrics: GpuMetrics)
        ensures
            metrics.name@ == device_name_of(name),
            metrics.memory_total_mb == memory_mb_of(memory_bytes).0,
            metrics.memory_used_mb == memory_mb_of(memory_bytes).1,
            metrics.utilization_percent == reading_or_zero(utilization),
            metrics.temperature_celsius == reading_or_zero(temperature),
            metrics.fan_speed_percent == reading_or_zero(fan_speed),
    {
        let name = match name {
            Some(name) => name,
            None => String::from_str("Unknown"),
        };
        let (memory_total_mb, memory_used_mb) = match memory_bytes {
            Some((total, used)) => (bytes_to_mb(total), bytes_to_mb(used)),
            None => (0, 0),
        };
        GpuMetrics {
            name,
            memory_total_mb,
            memory_used_mb,
            utilization_percent: utilization.unwrap_or(0),
            temperature_celsius: temperature.unwrap_or(0),
            fan_speed_percent: fan_speed.unwrap_or(0),
        }
    }
}

/// What one graphics sample gives.
#[derive(Debug, Clone, PartialEq, Eq)]
pub enum GpuData {
    /// One entry per device, by device index.
    Nvidia(Vec<GpuMetrics>),
}

/// Load averages over the last one, five and fifteen minutes.
#[derive(Debug, Clone, Copy, PartialEq, Eq)]
pub struct LoadAverages {
    pub one: Bits64,
    pub five: Bits64,
    pub fifteen: Bits64,
}

/// The host's summary; what the system does not report is absent.
#[derive(Debug, Clone, PartialEq, Eq)]
pub struct SystemStats {
    pub hostname: Option<String>,
    pub uptime_secs: u64,
    pub load_average: LoadAverages,
    pub os_version: Option<String>,
    pub kernel_version: Option<String>,
    pub total_users: Option<usize>,
}

/// What one system-summary sample gives.
#[derive(Debug, Clone, PartialEq, Eq)]
pub enum SystemStatsData {
    Global(SystemStats),
}

/// The six kinds of metric the monitor follows.
#[derive(Debug, Clone, Copy, PartialEq, Eq)]
pub enum MetricKind {
    Cpu,
    Processes,
    Memory,
    Network,
    Gpu,
    SystemStats,
}

/// One sample on its way to the aggregator, tagged with its kind.
#[derive(Debug, Clone, PartialEq, Eq)]
pub enum AppStateUpdate {
    Cpu(CpuData),
    Processes(Vec<ProcessInfo>),
    Memory(MemoryData),
    Network(NetworkData),
    Gpu(GpuData),
    SystemStats(SystemStatsData),
}

impl AppStateUpdate {
    /// The kind of metric this update carries.
    pub open spec fn kind_spec(self) -> MetricKind {
        match self {
            AppStateUpdate::Cpu(_) => MetricKind::Cpu,
            AppStateUpdate::Processes(_) => MetricKind::Processes,
            AppStateUpdate::Memory(_) => MetricKind::Memory,
            AppStateUpdate::Network(_) => MetricKind::Network,
            AppStateUpdate::Gpu(_) => MetricKind::Gpu,
            AppStateUpdate::SystemStats(_) => MetricKind::SystemStats,
        }
    }

    /// The kind of metric this update carries.
    pub fn kind(&self) -> (kind: MetricKind)
        ensures
            kind == self.kind_spec(),
    {
        match self {
            AppStateUpdate::Cpu(_) => MetricKind::Cpu,
            AppStateUpdate::Processes(_) => MetricKind::Processes,
            AppStateUpdate::Memory(_) => MetricKind::Memory,
            AppStateUpdate::Network(_) => MetricKind::Network,
            AppStateUpdate::Gpu(_) => MetricKind::Gpu,
            AppStateUpdate::SystemStats(_) => MetricKind::SystemStats,
        }
    }
}

} // verus!
