//! Device info telemetry: CPU and memory usage.
//!
//! The raw reads (total memory, used memory, CPU utilization) come from the
//! caller; this module holds the arithmetic that turns them into the usage
//! values the events carry, in hundredths of a percent.

use vstd::prelude::*;

verus! {

/// The largest used-memory value the percentage computation accepts without
/// overflowing; comfortably above any physical memory size in bytes.
pub const MAX_MEMORY_FOR_USAGE: u64 = 0x0006_8DB8_BAC7_10CB;

/// Computes usage values from raw readings.
pub struct DeviceInfoService {}

impl DeviceInfoService {
    /// Memory usage as a share of total memory, in hundredths of a percent,
    /// rounded toward zero: `used * 10000 / total`.
    pub fn memory_usage_centi_percent(used_memory: u64, total_memory: u64) -> (usage: u64)
        requires
            total_memory > 0,
            used_memory <= MAX_MEMORY_FOR_USAGE,
        ensures
            usage == used_memory * 10000 / (total_memory as int),
    {
        (used_memory * 10000) / total_memory
    }
}

} // verus!
