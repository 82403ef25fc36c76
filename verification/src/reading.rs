//! The readings that make up a snapshot of the host.
//!
//! Each executable type has a view that says what it holds as mathematical
//! values; the contracts of the whole library are stated over these views.

use crate::share::{share_of, Share};
use vstd::prelude::*;

verus! {

/// The host name reported when the operating system gives none.
pub const UNKNOWN_HOST: &'static str = "Unknown";

/// The bytes in one KB, the unit in which disk sizes are reported.
pub const BYTES_PER_KB: u64 = 1024;

/// One logical core: its name, the bit pattern of its usage in percent (an
/// IEEE 754 single, passed through as sampled), and its frequency in MHz.
pub struct CpuReading {
    pub name: Seq<char>,
    pub usage_bits: u32,
    pub frequency: u64,
}

/// Memory in KB, and the share of it in use.
pub struct MemoryReading {
    pub total: u64,
    pub used: u64,
    pub available: u64,
    pub percent_used: Share,
}

/// One disk as sampled, sizes in bytes.
pub struct DiskSample {
    pub name: Seq<char>,
    pub total_bytes: u64,
    pub available_bytes: u64,
}

/// One disk as reported: sizes in KB, and the share of it in use.
pub struct DiskReading {
    pub name: Seq<char>,
    pub total_space: u64,
    pub available_space: u64,
    pub percent_used: Share,
}

/// A whole reading of the host at one instant.
pub struct HostSnapshot {
    pub hostname: Seq<char>,
    pub uptime: u64,
    pub cpus: Seq<CpuReading>,
    pub memory: MemoryReading,
    pub disks: Seq<DiskReading>,
}

/// The memory reading for the three figures: they are kept as they are, and
/// the share in use is `used` out of `total`.
pub open spec fn memory_reading_of(total: u64, used: u64, available: u64) -> MemoryReading {
    MemoryReading { total, used, available, percent_used: share_of(used, total) }
}

/// The bytes in use on a disk: what is not available, and nothing where the
/// disk claims more available than it has.
pub open spec fn used_bytes(sample: DiskSample) -> u64 {
    if sample.available_bytes <= sample.total_bytes {
        (sample.total_bytes - sample.available_bytes) as u64
    } else {
        0
    }
}

/// The reading for one sampled disk. It depends on that disk's sample alone:
/// sizes are cut down to whole KB, and the share in use is taken on the
/// bytes, before any rounding.
pub open spec fn disk_reading_of(sample: DiskSample) -> DiskReading {
    DiskReading {
        name: sample.name,
        total_space: sample.total_bytes / BYTES_PER_KB,
        available_space: sample.available_bytes / BYTES_PER_KB,
        percent_used: share_of(used_bytes(sample), sample.total_bytes),
    }
}

/// The readings for a sequence of sampled disks, one for one and in order.
pub open spec fn disk_readings_of(samples: Seq<DiskSample>) -> Seq<DiskReading> {
    samples.map_values(|sample: DiskSample| disk_reading_of(sample))
}

/// Two sequences of cores list the same cores in the same order: as many of
/// them, under the same names at every place. Usage and frequency may differ.
pub open spec fn same_cores(before: Seq<CpuReading>, after: Seq<CpuReading>) -> bool {
    &&& before.len() == after.len()
    &&& forall|i: int| 0 <= i < before.len() ==> (#[trigger] after[i]).name == before[i].name
}

/// The host name to report: the one found, or [`UNKNOWN_HOST`].
pub open spec fn hostname_or_unknown(found: Option<Seq<char>>) -> Seq<char> {
    match found {
        Some(name) => name,
        None => UNKNOWN_HOST@,
    }
}

/// What a host name lookup found, as a value to reason about.
pub open spec fn found_name(found: Option<String>) -> Option<Seq<char>> {
    match found {
        Some(name) => Some(name@),
        None => None,
    }
}

/// One logical core of the host.
#[derive(Clone, Debug, PartialEq, Eq)]
pub struct CpuInfo {
    pub name: String,
    /// Usage in percent, as the bits of an IEEE 754 single.
    pub usage_bits: u32,
    /// MHz.
    pub frequency: u64,
}

/// The host's memory. `percent_used` is `used` out of `total`.
#[derive(Clone, Copy, Debug, PartialEq, Eq)]
pub struct MemoryInfo {
    /// KB.
    pub total: u64,
    /// KB.
    pub used: u64,
    /// KB.
    pub available: u64,
    pub percent_used: Share,
}

/// One disk of the host. `percent_used` is taken on the sizes in bytes,
/// which the sizes in KB no longer show in full.
#[derive(Clone, Debug, PartialEq, Eq)]
pub struct DiskInfo {
    pub name: String,
    /// KB.
    pub total_space: u64,
    /// KB.
    pub available_space: u64,
    pub percent_used: Share,
}

/// A snapshot of the host: every subsystem as read at one instant.
#[derive(Clone, Debug, PartialEq, Eq)]
pub struct SystemMetrics {
    pub hostname: String,
    /// Seconds.
    pub uptime: u64,
    pub cpus: Vec<CpuInfo>,
    pub memory: MemoryInfo,
    pub disks: Vec<DiskInfo>,
}

impl View for CpuInfo {
    type V = CpuReading;

    open spec fn view(&self) -> CpuReading {
        CpuReading { name: self.name@, usage_bits: self.usage_bits, frequency: self.frequency }
    }
}

impl View for MemoryInfo {
    type V = MemoryReading;

    open spec fn view(&self) -> MemoryReading {
        MemoryReading {
            total: self.total,
            used: self.used,
            available: self.available,
            percent_used: self.percent_used,
        }
    }
}

impl View for DiskInfo {
    type V = DiskReading;

    open spec fn view(&self) -> DiskReading {
        DiskReading {
            name: self.name@,
            total_space: self.total_space,
            available_space: self.available_space,
            percent_used: self.percent_used,
        }
    }
}

impl View for SystemMetrics {
    type V = HostSnapshot;

    open spec fn view(&self) -> HostSnapshot {
        HostSnapshot {
            hostname: self.hostname@,
            uptime: self.uptime,
            cpus: cpu_readings(self.cpus@),
            memory: self.memory@,
            disks: disk_readings(self.disks@),
        }
    }
}

/// What a sequence of cores holds, one for one and in order.
pub open spec fn cpu_readings(cpus: Seq<CpuInfo>) -> Seq<CpuReading> {
    cpus.map_values(|cpu: CpuInfo| cpu@)
}

/// What a sequence of disks holds, one for one and in order.
pub open spec fn disk_readings(disks: Seq<DiskInfo>) -> Seq<DiskReading> {
    disks.map_values(|disk: DiskInfo| disk@)
}

impl CpuInfo {
    /// The core with these three values, untouched: usage is neither
    /// clamped nor rounded.
    pub fn new(name: String, usage_bits: u32, frequency: u64) -> (cpu: CpuInfo)
        ensures
            cpu@ == (CpuReading { name: name@, usage_bits, frequency }),
    {
        CpuInfo { name, usage_bits, frequency }
    }
}

impl MemoryInfo {
    /// The reading for the three figures, with the share in use: `used` out
    /// of `total`, and zero percent where `total` is zero.
    pub fn new(total: u64, used: u64, available: u64) -> (memory: MemoryInfo)
        ensures
            memory@ == memory_reading_of(total, used, available),
            memory.percent_used.divides(),
    {
        MemoryInfo { total, used, available, percent_used: Share::of(used, total) }
    }
}

impl DiskInfo {
    /// The reading for a disk of `total_bytes` with `available_bytes` free.
    /// Its share in use is what is not free out of the total, never more
    /// than all of it, and zero percent where the total is zero.
    pub fn new(name: String, total_bytes: u64, available_bytes: u64) -> (disk: DiskInfo)
        ensures
            disk@ == disk_reading_of(
                DiskSample { name: name@, total_bytes, available_bytes },
            ),
            disk.percent_used.divides(),
            disk.percent_used.within_whole(),
    {
        let used: u64 = if available_bytes <= total_bytes {
            total_bytes - available_bytes
        } else {
            0
        };
        DiskInfo {
            name,
            total_space: total_bytes / BYTES_PER_KB,
            available_space: available_bytes / BYTES_PER_KB,
            percent_used: Share::of(used, total_bytes),
        }
    }
}

impl SystemMetrics {
    /// Puts a snapshot together from its parts. A host name that could not be
    /// found is reported as [`UNKNOWN_HOST`]; everything else is kept as
    /// given.
    pub fn new(
        hostname: Option<String>,
        uptime: u64,
        cpus: Vec<CpuInfo>,
        memory: MemoryInfo,
        disks: Vec<DiskInfo>,
    ) -> (metrics: SystemMetrics)
        ensures
            metrics@.hostname == hostname_or_unknown(found_name(hostname)),
            metrics@.uptime == uptime,
            metrics@.cpus == cpu_readings(cpus@),
            metrics@.memory == memory@,
            metrics@.disks == disk_readings(disks@),
    {
        let hostname = match hostname {
            Some(name) => name,
            None => UNKNOWN_HOST.to_owned(),
        };
        SystemMetrics { hostname, uptime, cpus, memory, disks }
    }
}

/// Every disk is reported on its own: the reading at a place is worked out
/// from the sample at that place and from nothing else, so two runs of
/// samples that agree at one place give the same reading there.
pub proof fn lemma_disk_reading_stands_alone(a: Seq<DiskSample>, b: Seq<DiskSample>, i: int)
    requires
        0 <= i < a.len(),
        i < b.len(),
        a[i] == b[i],
    ensures
        disk_readings_of(a).len() == a.len(),
        disk_readings_of(a)[i] == disk_reading_of(a[i]),
        disk_readings_of(a)[i] == disk_readings_of(b)[i],
{
}

/// What holds of the share in use of every disk, whatever was sampled: it
/// can be divided out and is at most a hundred percent.
pub proof fn lemma_disk_share_within_whole(sample: DiskSample)
    ensures
        disk_reading_of(sample).percent_used.divides(),
        disk_reading_of(sample).percent_used.within_whole(),
        sample.total_bytes == 0 ==> disk_reading_of(sample).percent_used.is_nothing(),
{
}

} // verus!
