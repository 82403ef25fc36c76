//! Reading the metrics store.
//!
//! The store is the one collector handle of the process. The process owns
//! it, keeps it behind its lock, and makes the refreshes that this library
//! asks for: a refresh reads the operating system's files, which is not for
//! verified code to do. What is verified here is which refresh a request
//! calls for, and every read of the handle once it is refreshed.
//!
//! A read takes the handle by `&`, for the whole of the read. Nothing can
//! refresh the handle during that borrow, so every part of a snapshot is of
//! the one state that the handle was in.

use crate::collector::{
    available_memory, cpu_count, cpu_frequency, cpu_name, cpu_usage_bits, cpus_of,
    disk_available_space, disk_count, disk_name, disk_total_space, disks_of, host_name,
    memory_available, memory_total, total_memory, uptime,
};
use crate::reading::{
    cpu_readings, disk_reading_of, disk_readings, disk_readings_of, found_name,
    hostname_or_unknown, memory_reading_of, same_cores, CpuInfo, CpuReading, DiskInfo,
    HostSnapshot, MemoryInfo, SystemMetrics,
};
use crate::share::share_of;
use sysinfo::System;
use vstd::prelude::*;

verus! {

/// A refresh that the owner of the handle is asked to make.
#[derive(Clone, Copy, Debug, PartialEq, Eq)]
pub enum Refresh {
    /// Sample the cores again and nothing else.
    Partial,
    /// Sample every subsystem again.
    Full,
}

/// A request that a caller can make.
#[derive(Clone, Copy, Debug, PartialEq, Eq)]
pub enum Endpoint {
    /// Everything: answered with a whole snapshot.
    Metrics,
    /// The cores alone.
    CpuMetrics,
}

/// The refresh that comes before the answer to a request: a full one before
/// a whole snapshot, a partial one before the cores alone.
pub open spec fn refresh_before(endpoint: Endpoint) -> Refresh {
    match endpoint {
        Endpoint::Metrics => Refresh::Full,
        Endpoint::CpuMetrics => Refresh::Partial,
    }
}

impl Endpoint {
    /// The refresh to make, under the lock, before this request is answered
    /// from the handle.
    pub fn refresh(&self) -> (refresh: Refresh)
        ensures
            refresh == refresh_before(*self),
    {
        match self {
            Endpoint::Metrics => Refresh::Full,
            Endpoint::CpuMetrics => Refresh::Partial,
        }
    }
}

/// The snapshot of a handle: its cores, its memory figures with `used_memory`
/// for the memory in use, its disks, and the host name and uptime as looked
/// up.
pub open spec fn snapshot_of(
    sys: System,
    used_memory: u64,
    hostname: Option<Seq<char>>,
    uptime: u64,
) -> HostSnapshot {
    HostSnapshot {
        hostname: hostname_or_unknown(hostname),
        uptime,
        cpus: cpus_of(sys),
        memory: memory_reading_of(memory_total(sys), used_memory, memory_available(sys)),
        disks: disk_readings_of(disks_of(sys)),
    }
}

/// `snapshot` is a snapshot of `sys`, whatever host name and uptime were
/// looked up for it.
pub open spec fn is_snapshot_of(snapshot: HostSnapshot, sys: System, used_memory: u64) -> bool {
    &&& snapshot.cpus == cpus_of(sys)
    &&& snapshot.memory == memory_reading_of(
        memory_total(sys),
        used_memory,
        memory_available(sys),
    )
    &&& snapshot.disks == disk_readings_of(disks_of(sys))
}

/// The cores as the handle holds them: one entry for each, in the
/// collector's order. No refresh is made.
pub fn read_cpu_only(sys: &System) -> (cpus: Vec<CpuInfo>)
    ensures
        cpu_readings(cpus@) == cpus_of(*sys),
        cpus.len() == cpus_of(*sys).len(),
{
    let n = cpu_count(sys);
    let mut cpus: Vec<CpuInfo> = Vec::new();
    let mut i: usize = 0;
    while i < n
        invariant
            n == cpus_of(*sys).len(),
            i <= n,
            cpus.len() == i,
            forall|j: int| 0 <= j < i ==> (#[trigger] cpus[j])@ == cpus_of(*sys)[j],
        decreases n - i,
    {
        let name = cpu_name(sys, i);
        let usage_bits = cpu_usage_bits(sys, i);
        let frequency = cpu_frequency(sys, i);
        cpus.push(CpuInfo::new(name, usage_bits, frequency));
        i += 1;
    }
    assert(cpu_readings(cpus@) =~= cpus_of(*sys));
    cpus
}

/// The memory figures: total and available as the handle holds them, and
/// `used_memory`, which the owner of the handle has asked the collector
/// for. The share in use is `used_memory` out of the total, and zero
/// percent where the total is zero.
pub fn read_memory(sys: &System, used_memory: u64) -> (memory: MemoryInfo)
    ensures
        memory@ == memory_reading_of(memory_total(*sys), used_memory, memory_available(*sys)),
        memory.percent_used == share_of(memory.used, memory.total),
        memory.percent_used.divides(),
{
    let total = total_memory(sys);
    let available = available_memory(sys);
    MemoryInfo::new(total, used_memory, available)
}

/// The disks as the handle holds them: one entry for each, in the
/// collector's order, each worked out from its own sample.
pub fn read_disks(sys: &System) -> (disks: Vec<DiskInfo>)
    ensures
        disk_readings(disks@) == disk_readings_of(disks_of(*sys)),
        disks.len() == disks_of(*sys).len(),
        forall|i: int|
            0 <= i < disks.len() ==> (#[trigger] disks[i])@ == disk_reading_of(disks_of(*sys)[i]),
        forall|i: int|
            0 <= i < disks.len() ==> (#[trigger] disks[i]).percent_used.divides()
                && disks[i].percent_used.within_whole(),
{
    let n = disk_count(sys);
    let mut disks: Vec<DiskInfo> = Vec::new();
    let mut i: usize = 0;
    while i < n
        invariant
            n == disks_of(*sys).len(),
            i <= n,
            disks.len() == i,
            forall|j: int|
                0 <= j < i ==> (#[trigger] disks[j])@ == disk_reading_of(disks_of(*sys)[j]),
            forall|j: int|
                0 <= j < i ==> (#[trigger] disks[j]).percent_used.divides()
                    && disks[j].percent_used.within_whole(),
        decreases n - i,
    {
        let name = disk_name(sys, i);
        let total = disk_total_space(sys, i);
        let available = disk_available_space(sys, i);
        disks.push(DiskInfo::new(name, total, available));
        i += 1;
    }
    assert(disk_readings(disks@) =~= disk_readings_of(disks_of(*sys)));
    disks
}

/// A whole snapshot of what the handle holds, with the host name and the
/// uptime that were looked up for it. A host name that could not be had is
/// reported as [`crate::reading::UNKNOWN_HOST`]. No refresh is made.
pub fn snapshot_with(
    sys: &System,
    used_memory: u64,
    hostname: Option<String>,
    uptime: u64,
) -> (metrics: SystemMetrics)
    ensures
        metrics@ == snapshot_of(*sys, used_memory, found_name(hostname), uptime),
        is_snapshot_of(metrics@, *sys, used_memory),
        metrics.memory.percent_used == share_of(metrics.memory.used, metrics.memory.total),
{
    let cpus = read_cpu_only(sys);
    let memory = read_memory(sys, used_memory);
    let disks = read_disks(sys);
    SystemMetrics::new(hostname, uptime, cpus, memory, disks)
}

/// A whole snapshot of what the handle holds. No refresh is made: cores,
/// memory and disks are those of the handle as it stands, all read under
/// the one borrow. Host name and uptime are asked of the operating system
/// at the moment of the call and reported as [`snapshot_with`] reports
/// them.
pub fn read_full(sys: &System, used_memory: u64) -> (metrics: SystemMetrics)
    ensures
        is_snapshot_of(metrics@, *sys, used_memory),
        metrics.memory.percent_used == share_of(metrics.memory.used, metrics.memory.total),
{
    let hostname = host_name(sys);
    let uptime = uptime(sys);
    snapshot_with(sys, used_memory, hostname, uptime)
}

/// Reads of the cores that see the same state of the handle agree: as many
/// entries as the handle holds cores, the same entry at every place.
pub proof fn lemma_cpu_reads_agree(sys: System, first: Seq<CpuInfo>, second: Seq<CpuInfo>)
    requires
        cpu_readings(first) == cpus_of(sys),
        cpu_readings(second) == cpus_of(sys),
    ensures
        first.len() == cpus_of(sys).len(),
        second.len() == first.len(),
        forall|i: int| 0 <= i < first.len() ==> (#[trigger] second[i])@ == first[i]@,
{
    assert(cpu_readings(first).len() == first.len());
    assert(cpu_readings(second).len() == second.len());
    assert forall|i: int| 0 <= i < first.len() implies (#[trigger] second[i])@ == first[i]@ by {
        assert(cpu_readings(first)[i] == first[i]@);
        assert(cpu_readings(second)[i] == second[i]@);
    }
}

/// The cores keep their order for as long as the handle lists the same
/// cores. A read before and a read after any refreshes that left the cores
/// the same list as many cores, under the same names at every place.
pub proof fn lemma_cpu_order_is_the_handles(
    before: System,
    after: System,
    first: Seq<CpuInfo>,
    second: Seq<CpuInfo>,
)
    requires
        same_cores(cpus_of(before), cpus_of(after)),
        cpu_readings(first) == cpus_of(before),
        cpu_readings(second) == cpus_of(after),
    ensures
        second.len() == first.len(),
        forall|i: int| 0 <= i < first.len() ==> (#[trigger] second[i]).name@ == first[i].name@,
{
    assert(cpu_readings(first).len() == first.len());
    assert(cpu_readings(second).len() == second.len());
    assert forall|i: int| 0 <= i < first.len() implies (#[trigger] second[i]).name@
        == first[i].name@ by {
        assert(cpu_readings(first)[i] == first[i]@);
        assert(cpu_readings(second)[i] == second[i]@);
        assert(cpus_of(after)[i].name == cpus_of(before)[i].name);
    }
}

/// What holds of every snapshot of a handle, whatever the collector had
/// sampled: the share of memory in use is `used` out of `total`, zero
/// percent where `total` is zero, and every disk is worked out from the
/// sample at its own place, its share in use at most a hundred percent.
pub proof fn lemma_snapshot_shares(snapshot: HostSnapshot, sys: System, used_memory: u64)
    requires
        is_snapshot_of(snapshot, sys, used_memory),
    ensures
        snapshot.memory.used == used_memory,
        snapshot.memory.percent_used == share_of(snapshot.memory.used, snapshot.memory.total),
        snapshot.memory.percent_used.divides(),
        snapshot.memory.total == 0 ==> snapshot.memory.percent_used.is_nothing(),
        snapshot.disks.len() == disks_of(sys).len(),
        forall|i: int|
            0 <= i < snapshot.disks.len() ==> #[trigger] snapshot.disks[i] == disk_reading_of(
                disks_of(sys)[i],
            ),
        forall|i: int|
            0 <= i < snapshot.disks.len() ==> (#[trigger] snapshot.disks[i]).percent_used.divides()
                && snapshot.disks[i].percent_used.within_whole(),
{
}

} // verus!
