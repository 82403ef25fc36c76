use hw_metrics::reading::{CpuInfo, DiskInfo, MemoryInfo, SystemMetrics, BYTES_PER_KB, UNKNOWN_HOST};
use hw_metrics::share::Share;

fn percent(share: Share) -> f64 {
    share.part as f64 / share.whole as f64 * 100.0
}

fn sample_cpus() -> Vec<CpuInfo> {
    vec![
        CpuInfo::new("cpu0".to_string(), 12.5f32.to_bits(), 2400),
        CpuInfo::new("cpu1".to_string(), 0.0f32.to_bits(), 2400),
    ]
}

#[test]
fn cpu_reading_keeps_what_it_is_given() {
    let cpu = CpuInfo::new("cpu7".to_string(), 37.25f32.to_bits(), 3100);
    assert_eq!(cpu.name, "cpu7");
    assert_eq!(f32::from_bits(cpu.usage_bits), 37.25);
    assert_eq!(cpu.frequency, 3100);
}

#[test]
fn cpu_usage_above_a_hundred_is_not_clamped() {
    let cpu = CpuInfo::new("cpu0".to_string(), 104.5f32.to_bits(), 1800);
    assert_eq!(f32::from_bits(cpu.usage_bits), 104.5);
}

#[test]
fn memory_share_is_used_out_of_total() {
    let memory = MemoryInfo::new(16_000_000, 4_000_000, 11_000_000);
    assert_eq!(memory.total, 16_000_000);
    assert_eq!(memory.used, 4_000_000);
    assert_eq!(memory.available, 11_000_000);
    assert_eq!(memory.percent_used, Share { part: 4_000_000, whole: 16_000_000 });
    assert_eq!(percent(memory.percent_used), 25.0);
}

#[test]
fn memory_share_does_not_look_at_available() {
    let a = MemoryInfo::new(3000, 1000, 0);
    let b = MemoryInfo::new(3000, 1000, 2900);
    assert_eq!(a.percent_used, Share { part: 1000, whole: 3000 });
    assert_eq!(b.percent_used, a.percent_used);
}

#[test]
fn small_memory_share_is_exact() {
    let memory = MemoryInfo::new(3000, 1, 2999);
    assert_eq!(memory.percent_used, Share { part: 1, whole: 3000 });
    let exact = 100.0 / 3000.0;
    assert!((percent(memory.percent_used) - exact).abs() <= exact * 1.0e-6);
}

#[test]
fn memory_with_zero_total_reports_zero_percent() {
    let memory = MemoryInfo::new(0, 0, 0);
    assert_eq!(memory.percent_used, Share { part: 0, whole: 1 });
    let odd = MemoryInfo::new(0, 512, 0);
    assert_eq!(odd.used, 512);
    assert_eq!(odd.percent_used, Share { part: 0, whole: 1 });
    assert_eq!(percent(odd.percent_used), 0.0);
}

#[test]
fn memory_used_above_total_is_passed_through() {
    let memory = MemoryInfo::new(1000, 1500, 0);
    assert_eq!(memory.percent_used, Share { part: 1500, whole: 1000 });
    assert_eq!(percent(memory.percent_used), 150.0);
}

#[test]
fn disk_sizes_are_cut_down_to_whole_kb() {
    assert_eq!(BYTES_PER_KB, 1024);
    let disk = DiskInfo::new("/dev/sda1".to_string(), 10 * 1024 + 1023, 2 * 1024 + 1);
    assert_eq!(disk.name, "/dev/sda1");
    assert_eq!(disk.total_space, 10);
    assert_eq!(disk.available_space, 2);
}

#[test]
fn disk_share_is_taken_on_the_bytes() {
    let disk = DiskInfo::new("/dev/vda".to_string(), 4096, 1024);
    assert_eq!(disk.total_space, 4);
    assert_eq!(disk.available_space, 1);
    assert_eq!(disk.percent_used, Share { part: 3072, whole: 4096 });
    assert_eq!(percent(disk.percent_used), 75.0);
    // Under one KB the sizes round to nothing, the share does not.
    let small = DiskInfo::new("/dev/vdb".to_string(), 1000, 250);
    assert_eq!(small.total_space, 0);
    assert_eq!(small.available_space, 0);
    assert_eq!(small.percent_used, Share { part: 750, whole: 1000 });
}

#[test]
fn nearly_empty_disk_has_an_exact_share() {
    let disk = DiskInfo::new("/dev/vdc".to_string(), 3_072_000, 3_070_976);
    assert_eq!(disk.total_space, 3000);
    assert_eq!(disk.available_space, 2999);
    assert_eq!(disk.percent_used, Share { part: 1024, whole: 3_072_000 });
    let exact = 100.0 * 1024.0 / 3_072_000.0;
    assert!((percent(disk.percent_used) - exact).abs() <= exact * 1.0e-6);
}

#[test]
fn disk_with_zero_total_reports_zero_percent() {
    let disk = DiskInfo::new("none".to_string(), 0, 0);
    assert_eq!(disk.total_space, 0);
    assert_eq!(disk.available_space, 0);
    assert_eq!(disk.percent_used, Share { part: 0, whole: 1 });
}

#[test]
fn disk_that_is_full_or_empty() {
    let full = DiskInfo::new("full".to_string(), 8192, 0);
    assert_eq!(full.percent_used, Share { part: 8192, whole: 8192 });
    assert_eq!(percent(full.percent_used), 100.0);
    let empty = DiskInfo::new("empty".to_string(), 8192, 8192);
    assert_eq!(empty.percent_used, Share { part: 0, whole: 8192 });
    assert_eq!(percent(empty.percent_used), 0.0);
}

#[test]
fn disk_claiming_more_available_than_total_counts_as_unused() {
    let disk = DiskInfo::new("odd".to_string(), 2048, 4096);
    assert_eq!(disk.total_space, 2);
    assert_eq!(disk.available_space, 4);
    assert_eq!(disk.percent_used, Share { part: 0, whole: 2048 });
}

#[test]
fn largest_disk_does_not_overflow() {
    let disk = DiskInfo::new("huge".to_string(), u64::MAX, 0);
    assert_eq!(disk.total_space, u64::MAX / 1024);
    assert_eq!(disk.percent_used, Share { part: u64::MAX, whole: u64::MAX });
}

#[test]
fn each_disk_is_worked_out_on_its_own() {
    let alone = DiskInfo::new("b".to_string(), 3000, 1000);
    let among = vec![
        DiskInfo::new("a".to_string(), 0, 0),
        DiskInfo::new("b".to_string(), 3000, 1000),
        DiskInfo::new("c".to_string(), u64::MAX, 1),
    ];
    assert_eq!(among[1], alone);
    assert_eq!(among[1].percent_used, Share { part: 2000, whole: 3000 });
    assert_eq!(among[0].percent_used, Share { part: 0, whole: 1 });
}

#[test]
fn missing_host_name_is_reported_as_unknown() {
    let metrics = SystemMetrics::new(None, 42, sample_cpus(), MemoryInfo::new(8, 4, 4), Vec::new());
    assert_eq!(UNKNOWN_HOST, "Unknown");
    assert_eq!(metrics.hostname, "Unknown");
    assert_eq!(metrics.uptime, 42);
}

#[test]
fn host_name_that_was_found_is_kept() {
    let metrics = SystemMetrics::new(
        Some("build-host-3".to_string()),
        7,
        Vec::new(),
        MemoryInfo::new(8, 4, 4),
        Vec::new(),
    );
    assert_eq!(metrics.hostname, "build-host-3");
    let empty = SystemMetrics::new(Some(String::new()), 7, Vec::new(), MemoryInfo::new(8, 4, 4), Vec::new());
    assert_eq!(empty.hostname, "");
}

#[test]
fn snapshot_without_disks_is_otherwise_whole() {
    let metrics = SystemMetrics::new(
        Some("diskless".to_string()),
        3600,
        sample_cpus(),
        MemoryInfo::new(2_000_000, 500_000, 1_400_000),
        Vec::new(),
    );
    assert!(metrics.disks.is_empty());
    assert_eq!(metrics.hostname, "diskless");
    assert_eq!(metrics.uptime, 3600);
    assert_eq!(metrics.cpus, sample_cpus());
    assert_eq!(metrics.memory, MemoryInfo::new(2_000_000, 500_000, 1_400_000));
    assert_eq!(percent(metrics.memory.percent_used), 25.0);
}

#[test]
fn snapshot_keeps_its_parts_in_order() {
    let disks = vec![
        DiskInfo::new("/dev/sdb".to_string(), 2048, 1024),
        DiskInfo::new("/dev/sda".to_string(), 4096, 4096),
    ];
    let metrics = SystemMetrics::new(None, 0, sample_cpus(), MemoryInfo::new(0, 0, 0), disks.clone());
    assert_eq!(metrics.cpus.len(), 2);
    assert_eq!(metrics.cpus[0].name, "cpu0");
    assert_eq!(metrics.cpus[1].name, "cpu1");
    assert_eq!(metrics.disks, disks);
    assert_eq!(metrics.disks[0].name, "/dev/sdb");
    assert_eq!(percent(metrics.disks[0].percent_used), 50.0);
    assert_eq!(percent(metrics.disks[1].percent_used), 0.0);
}
