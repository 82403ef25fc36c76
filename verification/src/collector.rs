//! The operating system's collector: a `sysinfo::System` handle and the
//! calls this library makes on it.
//!
//! Nothing in this file is proved. Each function here makes one call into
//! `sysinfo` and states what that call hands back; the rest of the library is
//! verified against these statements.
//!
//! The handle keeps what it sampled at its last refresh. Cores, disks and
//! two memory figures are read back from the handle itself, so they are
//! named here as functions of its value. Host name and uptime are asked of
//! the operating system on every call and get no name.
//!
//! Every call here only reads. Opening the handle and refreshing it read
//! the kernel's files and may give up on what they find there, and the
//! memory in use is worked out by the collector with no guard on its
//! arithmetic: those calls are for the process that owns the handle.

use crate::reading::{CpuReading, DiskSample};
use sysinfo::{CpuExt, DiskExt, System, SystemExt};
use vstd::prelude::*;

verus! {

/// `sysinfo::System`, the collector's handle. Nothing inside it is seen
/// here: what it holds is spoken of through the names below.
#[verifier::external_type_specification]
#[verifier::external_body]
pub struct ExSystem(sysinfo::System);

/// The cores that `sys` holds, in the order in which `SystemExt::cpus` hands
/// them out.
pub uninterp spec fn cpus_of(sys: System) -> Seq<CpuReading>;

/// The disks that `sys` holds, in the order in which `SystemExt::disks` hands
/// them out. A disk's name is its device name, with anything that is not
/// valid Unicode replaced as `OsStr::to_string_lossy` does.
pub uninterp spec fn disks_of(sys: System) -> Seq<DiskSample>;

/// What `SystemExt::total_memory` returns for `sys`, in KB.
pub uninterp spec fn memory_total(sys: System) -> u64;

/// What `SystemExt::available_memory` returns for `sys`, in KB.
pub uninterp spec fn memory_available(sys: System) -> u64;

/// `SystemExt::cpus`, counted: the number of cores that the handle holds.
#[verifier::external_body]
pub(crate) fn cpu_count(sys: &System) -> (n: usize)
    ensures
        n == cpus_of(*sys).len(),
{
    sys.cpus().len()
}

/// `CpuExt::name` of the core at `index`: the name stored for it.
#[verifier::external_body]
pub(crate) fn cpu_name(sys: &System, index: usize) -> (name: String)
    requires
        index < cpus_of(*sys).len(),
    ensures
        name@ == cpus_of(*sys)[index as int].name,
{
    sys.cpus()[index].name().to_string()
}

/// `CpuExt::cpu_usage` of the core at `index`: the usage stored for it, as
/// the bits of the single-precision number.
#[verifier::external_body]
pub(crate) fn cpu_usage_bits(sys: &System, index: usize) -> (bits: u32)
    requires
        index < cpus_of(*sys).len(),
    ensures
        bits == cpus_of(*sys)[index as int].usage_bits,
{
    sys.cpus()[index].cpu_usage().to_bits()
}

/// `CpuExt::frequency` of the core at `index`: the frequency stored for it.
#[verifier::external_body]
pub(crate) fn cpu_frequency(sys: &System, index: usize) -> (mhz: u64)
    requires
        index < cpus_of(*sys).len(),
    ensures
        mhz == cpus_of(*sys)[index as int].frequency,
{
    sys.cpus()[index].frequency()
}

/// `SystemExt::total_memory`: the total stored at the last refresh.
#[verifier::external_body]
pub(crate) fn total_memory(sys: &System) -> (total: u64)
    ensures
        total == memory_total(*sys),
{
    sys.total_memory()
}

/// `SystemExt::available_memory`: the figure stored at the last refresh.
#[verifier::external_body]
pub(crate) fn available_memory(sys: &System) -> (available: u64)
    ensures
        available == memory_available(*sys),
{
    sys.available_memory()
}

/// `SystemExt::disks`, counted: the number of disks that the handle holds.
#[verifier::external_body]
pub(crate) fn disk_count(sys: &System) -> (n: usize)
    ensures
        n == disks_of(*sys).len(),
{
    sys.disks().len()
}

/// `DiskExt::name` of the disk at `index`: the device name stored for it,
/// made a `String` by `OsStr::to_string_lossy`.
#[verifier::external_body]
pub(crate) fn disk_name(sys: &System, index: usize) -> (name: String)
    requires
        index < disks_of(*sys).len(),
    ensures
        name@ == disks_of(*sys)[index as int].name,
{
    sys.disks()[index].name().to_string_lossy().to_string()
}

/// `DiskExt::total_space` of the disk at `index`: its size in bytes.
#[verifier::external_body]
pub(crate) fn disk_total_space(sys: &System, index: usize) -> (bytes: u64)
    requires
        index < disks_of(*sys).len(),
    ensures
        bytes == disks_of(*sys)[index as int].total_bytes,
{
    sys.disks()[index].total_space()
}

/// `DiskExt::available_space` of the disk at `index`: the bytes free on it.
#[verifier::external_body]
pub(crate) fn disk_available_space(sys: &System, index: usize) -> (bytes: u64)
    requires
        index < disks_of(*sys).len(),
    ensures
        bytes == disks_of(*sys)[index as int].available_bytes,
{
    sys.disks()[index].available_space()
}

/// `SystemExt::uptime`: seconds since boot, asked of the operating system at
/// the moment of the call. Nothing is promised of the number.
#[verifier::external_body]
pub(crate) fn uptime(sys: &System) -> u64 {
    sys.uptime()
}

/// `SystemExt::host_name`: the host's name, asked of the operating system at
/// the moment of the call, or `None` where it cannot be had. Nothing is
/// promised of the outcome.
#[verifier::external_body]
pub(crate) fn host_name(sys: &System) -> Option<String> {
    sys.host_name()
}

} // verus!
