use vstd::prelude::*;
use std::sync::Arc;
use crate::config::Config;
use crate::data_sources::traits::MetricsCollector;
use crate::error::AppError;
use crate::state::data_types::{
    device_name_of, memory_mb_of, reading_or_zero, GpuData, GpuMetrics,
};

verus! {

/// `nvml_wrapper::Nvml`: an open session with the NVIDIA management library.
#[verifier::external_type_specification]
#[verifier::external_body]
pub struct ExNvml(nvml_wrapper::Nvml);

/// `nvml_wrapper::Device`: a handle on one device of a session.
#[verifier::external_type_specification]
#[verifier::external_body]
pub struct ExDevice<'nvml>(nvml_wrapper::Device<'nvml>);

/// `nvml_wrapper::error::NvmlError`: why a call into the library failed.
#[verifier::external_type_specification]
#[verifier::external_body]
pub struct ExNvmlError(nvml_wrapper::error::NvmlError);

/// `Nvml::init`: loads the management library and opens a session. Whether it
/// succeeds depends on the driver installed.
#[verifier::external_body]
fn nvml_init() -> (result: Result<nvml_wrapper::Nvml, nvml_wrapper::error::NvmlError>) {
    nvml_wrapper::Nvml::init()
}

/// `Nvml::device_count`: how many devices the session sees.
#[verifier::external_body]
fn device_count(nvml: &nvml_wrapper::Nvml) -> (result: Result<
    u32,
    nvml_wrapper::error::NvmlError,
>) {
    nvml.device_count()
}

/// `Nvml::device_by_index`: the handle of the device with this index.
#[verifier::external_body]
fn device_by_index<'nvml>(nvml: &'nvml nvml_wrapper::Nvml, index: u32) -> (result: Result<
    nvml_wrapper::Device<'nvml>,
    nvml_wrapper::error::NvmlError,
>) {
    nvml.device_by_index(index)
}

/// `Device::name`: the product name of the device.
#[verifier::external_body]
fn device_name(device: &nvml_wrapper::Device<'_>) -> (result: Result<
    String,
    nvml_wrapper::error::NvmlError,
>) {
    device.name()
}

/// `Device::memory_info`: of what it returns, the fields `total` and `used`,
/// in this order, both in bytes.
#[verifier::external_body]
fn device_memory(device: &nvml_wrapper::Device<'_>) -> (result: Result<
    (u64, u64),
    nvml_wrapper::error::NvmlError,
>) {
    device.memory_info().map(|memory| (memory.total, memory.used))
}

/// `Device::utilization_rates`: of what it returns, the field `gpu`, in percent.
#[verifier::external_body]
fn device_utilization(device: &nvml_wrapper::Device<'_>) -> (result: Result<
    u32,
    nvml_wrapper::error::NvmlError,
>) {
    device.utilization_rates().map(|rates| rates.gpu)
}

/// `Device::temperature` of the sensor on the GPU die, in degrees Celsius.
#[verifier::external_body]
fn device_temperature(device: &nvml_wrapper::Device<'_>) -> (result: Result<
    u32,
    nvml_wrapper::error::NvmlError,
>) {
    device.temperature(nvml_wrapper::enum_wrappers::device::TemperatureSensor::Gpu)
}

/// `Device::fan_speed`: the speed of the fan with this index, in percent.
#[verifier::external_body]
fn device_fan_speed(device: &nvml_wrapper::Device<'_>, fan: u32) -> (result: Result<
    u32,
    nvml_wrapper::error::NvmlError,
>) {
    device.fan_speed(fan)
}

/// The `Debug` text of an `NvmlError`. Nothing is claimed of it.
#[verifier::external_body]
fn error_text(error: &nvml_wrapper::error::NvmlError) -> (text: String) {
    format!("{:?}", error)
}

/// A reading, or nothing where the device refused it.
fn delivered<T>(result: Result<T, nvml_wrapper::error::NvmlError>) -> (reading: Option<T>)
    ensures
        reading is Some <==> result is Ok,
        reading matches Some(value) ==> result->Ok_0 == value,
{
    match result {
        Ok(value) => Some(value),
        Err(_) => None,
    }
}

/// The collection error for a failed call into the management library: its
/// message is `context` followed by the library's own account of the failure.
fn failure(context: &str, error: &nvml_wrapper::error::NvmlError) -> (failed: AppError)
    ensures
        failed.reports(context@),
{
    let text = error_text(error);
    AppError::collection(context, text.as_str())
}

/// A call's result with a failure told as text.
fn described<T>(result: Result<T, nvml_wrapper::error::NvmlError>) -> (told: Result<T, String>)
    ensures
        told is Ok <==> result is Ok,
        told matches Ok(value) ==> result->Ok_0 == value,
{
    match result {
        Ok(value) => Ok(value),
        Err(error) => Err(error_text(&error)),
    }
}

/// The fan whose speed stands for the device's.
pub const FAN_INDEX: u32 = 0;

/// What one device's sensors gave; a reading the device refused is absent.
#[derive(Debug, Clone, PartialEq, Eq)]
pub struct DeviceReading {
    pub name: Option<String>,
    /// Total and used memory in bytes, in this order.
    pub memory_bytes: Option<(u64, u64)>,
    pub utilization: Option<u32>,
    pub temperature: Option<u32>,
    pub fan_speed: Option<u32>,
}

/// Whether `metrics` is the entry that `reading` gives: readings that are
/// absent count as zero, an absent name as "Unknown", memory in megabytes.
pub open spec fn entry_of(metrics: GpuMetrics, reading: DeviceReading) -> bool {
    &&& metrics.name@ == device_name_of(reading.name)
    &&& metrics.memory_total_mb == memory_mb_of(reading.memory_bytes).0
    &&& metrics.memory_used_mb == memory_mb_of(reading.memory_bytes).1
    &&& metrics.utilization_percent == reading_or_zero(reading.utilization)
    &&& metrics.temperature_celsius == reading_or_zero(reading.temperature)
    &&& metrics.fan_speed_percent == reading_or_zero(reading.fan_speed)
}

/// How many of the devices are looked at: as many as were counted, and no
/// more than there are.
pub open spec fn looked_at(count: u32, devices: Seq<Result<DeviceReading, String>>) -> int {
    if count <= devices.len() {
        count as int
    } else {
        devices.len() as int
    }
}

/// Whether each of the first `upto` devices could be opened.
pub open spec fn opened(devices: Seq<Result<DeviceReading, String>>, upto: int) -> bool {
    forall|i: int| 0 <= i < upto ==> (#[trigger] devices[i]) is Ok
}

/// What a count and the devices' readings, by index, give.
/// - A failed count gives a collection error that tells it.
/// - Where every device looked at could be opened, the list holds one entry
///   per device, in index order; no device gives the empty list.
/// - Else the first device that could not be opened gives a collection error
///   that tells it, and no list.
pub open spec fn gpu_gives(
    count: Result<u32, String>,
    devices: Seq<Result<DeviceReading, String>>,
    result: Result<GpuData, AppError>,
) -> bool {
    match count {
        Err(text) => result matches Err(AppError::CollectionError(message)) && message@
            == "Device Count Error: "@ + text@,
        Ok(counted) => {
            let n = looked_at(counted, devices);
            if opened(devices, n) {
                &&& result matches Ok(GpuData::Nvidia(entries))
                &&& entries@.len() == n
                &&& forall|i: int| 0 <= i < n ==> entry_of(#[trigger] entries@[i], devices[i]->Ok_0)
            } else {
                exists|at: int|
                    0 <= at < n && opened(devices, at) && (#[trigger] devices[at]) is Err && (
                    result matches Err(AppError::CollectionError(message)) && message@
                        == "Device Error: "@ + devices[at]->Err_0@)
            }
        },
    }
}

/// Whether the devices were walked by index from zero up to the count,
/// stopping at the first that could not be opened: nothing follows a failed
/// count, and fewer devices than counted end in the one that failed.
pub open spec fn walked(count: Result<u32, String>, devices: Seq<Result<DeviceReading, String>>) -> bool {
    match count {
        Err(_) => devices.len() == 0,
        Ok(counted) => devices.len() <= counted && (devices.len() < counted ==> devices.len() > 0
            && devices.last() is Err),
    }
}

/// The sample that a count and the devices' readings give.
pub fn gpu_data_from(count: Result<u32, String>, devices: Vec<Result<DeviceReading, String>>) -> (result:
    Result<GpuData, AppError>)
    ensures
        gpu_gives(count, devices@, result),
{
    let counted = match count {
        Ok(counted) => counted,
        Err(text) => {
            return Err(AppError::collection("Device Count Error: ", text.as_str()));
        },
    };
    let ghost all = devices@;
    let mut entries: Vec<GpuMetrics> = Vec::new();
    let mut taken: u32 = 0;
    for device in it: devices.into_iter()
        invariant
            it.seq() == all,
            count == Ok::<u32, String>(counted),
            taken as int == looked_at(counted, all.take(it.index() as int)),
            entries@.len() == taken,
            opened(all, taken as int),
            forall|i: int| 0 <= i < taken ==> entry_of(#[trigger] entries@[i], all[i]->Ok_0),
    {
        if taken < counted {
            match device {
                Ok(reading) => {
                    let DeviceReading { name, memory_bytes, utilization, temperature, fan_speed } =
                        reading;
                    let entry = GpuMetrics::from_readings(
                        name,
                        memory_bytes,
                        utilization,
                        temperature,
                        fan_speed,
                    );
                    entries.push(entry);
                    taken = taken + 1;
                },
                Err(text) => {
                    let failed = AppError::collection("Device Error: ", text.as_str());
                    proof {
                        let at = taken as int;
                        assert(all.take(it.index() as int).len() == it.index());
                        assert(all[at] == Err::<DeviceReading, String>(text));
                        assert(!opened(all, looked_at(counted, all)));
                    }
                    return Err(failed);
                },
            }
        }
    }
    proof {
        assert(all.take(all.len() as int) =~= all);
    }
    Ok(GpuData::Nvidia(entries))
}

/// Samples every NVIDIA device.
pub struct GpuCollector {
    nvml: nvml_wrapper::Nvml,
}

impl MetricsCollector for GpuCollector {
    type CollectedData = GpuData;

    /// Fails where the management library cannot be opened, with a
    /// collection error that says so.
    fn new(_config: Arc<Config>) -> (result: Result<Self, AppError>)
        ensures
            result matches Err(error) ==> error.reports("Nvml init failed: "@),
    {
        match nvml_init() {
            Ok(nvml) => Ok(GpuCollector { nvml }),
            Err(error) => Err(failure("Nvml init failed: ", &error)),
        }
    }

    /// Counts the devices, reads each by index from zero, stopping at the
    /// first that cannot be opened, and returns what count and readings give:
    /// one entry per device in index order, or a collection error for a failed
    /// count or device. A sensor that gives nothing only leaves its field at
    /// the default.
    fn collect(&mut self) -> (result: Result<GpuData, AppError>)
        ensures
            exists|count: Result<u32, String>, devices: Seq<Result<DeviceReading, String>>|
                walked(count, devices) && #[trigger] gpu_gives(count, devices, result),
    {
        let count = described(device_count(&self.nvml));
        let wanted: u32 = match &count {
            Ok(counted) => *counted,
            Err(_) => 0,
        };
        let mut devices: Vec<Result<DeviceReading, String>> = Vec::new();
        let mut index: u32 = 0;
        let mut failed = false;
        while index < wanted && !failed
            invariant
                index <= wanted,
                devices@.len() == index,
                failed ==> index > 0 && devices@.last() is Err,
            decreases wanted - index,
        {
            match described(device_by_index(&self.nvml, index)) {
                Ok(device) => {
                    let name = delivered(device_name(&device));
                    let memory_bytes = delivered(device_memory(&device));
                    let utilization = delivered(device_utilization(&device));
                    let temperature = delivered(device_temperature(&device));
                    let fan_speed = delivered(device_fan_speed(&device, FAN_INDEX));
                    devices.push(
                        Ok(
                            DeviceReading {
                                name,
                                memory_bytes,
                                utilization,
                                temperature,
                                fan_speed,
                            },
                        ),
                    );
                },
                Err(text) => {
                    devices.push(Err(text));
                    failed = true;
                },
            }
            index = index + 1;
        }
        let ghost told = count;
        let ghost walk = devices@;
        let result = gpu_data_from(count, devices);
        proof {
            assert(walked(told, walk) && gpu_gives(told, walk, result));
        }
        result
    }

    fn needs_warm_up(&self) -> (needed: bool)
        ensures
            !needed,
    {
        false
    }

    fn prime(&mut self) -> (wait_ms: u64)
        ensures
            wait_ms == 0,
    {
        0
    }
}

} // verus!
