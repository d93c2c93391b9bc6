//! Snapshots of the machine's resources.
//!
//! The numbers come from a metrics source outside this crate, as a
//! [`Reading`]. A snapshot is a reading with the instance it belongs to and
//! the time it was taken. Utilisation figures are fractions; they are carried
//! as the bit patterns of their IEEE 754 single-precision values.

use vstd::prelude::*;
use vstd::string::StringExecFns;
use crate::time::{wall_clock, Timestamp};

verus! {

/// Processor utilisation.
#[derive(Debug)]
pub struct CpuMetrics {
    /// Utilisation over all cores, in percent, as the bits of an `f32`.
    pub usage_percent_bits: u32,
    /// The number of cores.
    pub core_count: usize,
    /// Utilisation of each core, in percent, as the bits of an `f32`.
    pub per_core_usage_bits: Vec<u32>,
}

/// Memory and swap, in bytes.
#[derive(Clone, Copy, Debug, PartialEq, Eq, Structural)]
pub struct MemoryMetrics {
    pub total_memory: u64,
    pub used_memory: u64,
    pub available_memory: u64,
    pub total_swap: u64,
    pub used_swap: u64,
}

/// One disk volume. Sizes and traffic are in bytes.
#[derive(Debug)]
pub struct DiskMetric {
    pub name: String,
    pub mount_point: String,
    pub total_space: u64,
    pub available_space: u64,
    pub filesystem: String,
    pub total_written_bytes: u64,
    pub total_read_bytes: u64,
}

/// The traffic counters of one network interface, in bytes.
#[derive(Debug)]
pub struct NetworkMetric {
    pub interface_name: String,
    pub received_bytes_total: u64,
    pub transmitted_bytes_total: u64,
}

/// What the machine is.
#[derive(Debug)]
pub struct SystemInfo {
    pub hostname: String,
    pub os_name: String,
    pub os_version: String,
    pub kernel_version: String,
    /// Seconds since boot.
    pub uptime: u64,
}

/// One snapshot: the state of the machine's resources at one point in time.
#[derive(Debug)]
pub struct SystemMetrics {
    /// When the snapshot was taken.
    pub timestamp: Timestamp,
    /// The instance that the snapshot belongs to.
    pub instance_id: u128,
    pub cpu_metrics: CpuMetrics,
    pub memory_metrics: MemoryMetrics,
    pub disk_metrics: Vec<DiskMetric>,
    pub network_metrics: Vec<NetworkMetric>,
    pub system_info: SystemInfo,
}

/// What the metrics source yields when it is asked. A fact about the machine
/// that the source could not find out is `None`.
#[derive(Debug)]
pub struct Reading {
    pub cpu_usage_bits: u32,
    pub per_core_usage_bits: Vec<u32>,
    pub memory: MemoryMetrics,
    pub disks: Vec<DiskMetric>,
    pub networks: Vec<NetworkMetric>,
    pub host_name: Option<String>,
    pub os_name: Option<String>,
    pub os_version: Option<String>,
    pub kernel_version: Option<String>,
    pub uptime: u64,
}

/// A fact as a snapshot states it: itself, or `N/A` where it is not known.
pub open spec fn stated(fact: Option<String>) -> Seq<char> {
    match fact {
        Some(text) => text@,
        None => "N/A"@,
    }
}

/// The snapshot that `reading` gives for the instance `instance_id` at
/// `timestamp`.
pub open spec fn is_snapshot_of(
    metrics: SystemMetrics,
    instance_id: u128,
    reading: Reading,
    timestamp: Timestamp,
) -> bool {
    &&& metrics.timestamp == timestamp
    &&& metrics.instance_id == instance_id
    &&& metrics.cpu_metrics.usage_percent_bits == reading.cpu_usage_bits
    &&& metrics.cpu_metrics.core_count == reading.per_core_usage_bits@.len()
    &&& metrics.cpu_metrics.per_core_usage_bits == reading.per_core_usage_bits
    &&& metrics.memory_metrics == reading.memory
    &&& metrics.disk_metrics == reading.disks
    &&& metrics.network_metrics == reading.networks
    &&& metrics.system_info.hostname@ == stated(reading.host_name)
    &&& metrics.system_info.os_name@ == stated(reading.os_name)
    &&& metrics.system_info.os_version@ == stated(reading.os_version)
    &&& metrics.system_info.kernel_version@ == stated(reading.kernel_version)
    &&& metrics.system_info.uptime == reading.uptime
}

/// States a fact for a snapshot.
fn state_fact(fact: Option<String>) -> (text: String)
    ensures
        text@ == stated(fact),
{
    match fact {
        Some(text) => text,
        None => String::from_str("N/A"),
    }
}

/// Makes the snapshot of `reading` for the instance `instance_id` as of
/// `timestamp`.
pub fn snapshot_at(instance_id: u128, reading: Reading, timestamp: Timestamp) -> (metrics:
    SystemMetrics)
    ensures
        is_snapshot_of(metrics, instance_id, reading, timestamp),
{
    let core_count: usize = reading.per_core_usage_bits.len();
    SystemMetrics {
        timestamp,
        instance_id,
        cpu_metrics: CpuMetrics {
            usage_percent_bits: reading.cpu_usage_bits,
            core_count,
            per_core_usage_bits: reading.per_core_usage_bits,
        },
        memory_metrics: reading.memory,
        disk_metrics: reading.disks,
        network_metrics: reading.networks,
        system_info: SystemInfo {
            hostname: state_fact(reading.host_name),
            os_name: state_fact(reading.os_name),
            os_version: state_fact(reading.os_version),
            kernel_version: state_fact(reading.kernel_version),
            uptime: reading.uptime,
        },
    }
}

/// Makes the snapshot of `reading` for the instance `instance_id`, stamped
/// with the wall-clock time of the call.
pub fn collect_metrics(instance_id: u128, reading: Reading) -> (metrics: SystemMetrics)
    ensures
        is_snapshot_of(metrics, instance_id, reading, metrics.timestamp),
{
    let now = wall_clock();
    snapshot_at(instance_id, reading, now)
}

} // verus!
