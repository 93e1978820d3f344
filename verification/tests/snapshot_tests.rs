use std::collections::HashMap;
use system_monitor::snapshot::{
    disk_totals, DiskEntry, DiskTotals, NetworkEntry, ProcessInfo, Snapshot,
};

fn disk(mount_point: &str, total_space: u64, available_space: u64) -> DiskEntry {
    DiskEntry { mount_point: mount_point.to_string(), total_space, available_space }
}

fn interface(name: &str, received: u64, transmitted: u64) -> NetworkEntry {
    NetworkEntry { name: name.to_string(), received, transmitted }
}

fn snapshot_with(disks: Vec<DiskEntry>, networks: Vec<NetworkEntry>) -> Snapshot<f32> {
    Snapshot {
        cpu_usage: 12.5,
        cpu_cores: 4,
        used_memory: 2_000_000_000,
        total_memory: 8_000_000_000,
        used_swap: 0,
        total_swap: 0,
        disks,
        networks,
        processes: HashMap::new(),
    }
}

#[test]
fn used_space_is_total_minus_available() {
    assert_eq!(disk("/", 500, 120).used_space(), Some(380));
    assert_eq!(disk("/", 500, 500).used_space(), Some(0));
    assert_eq!(disk("/", 0, 0).used_space(), Some(0));
    assert_eq!(disk("/", u64::MAX, 0).used_space(), Some(u64::MAX));
}

#[test]
fn used_space_is_absent_when_more_is_available_than_there_is() {
    assert_eq!(disk("/", 500, 501).used_space(), None);
    assert_eq!(disk("/", 0, u64::MAX).used_space(), None);
}

#[test]
fn disk_totals_add_up_over_all_disks() {
    let disks = vec![disk("/", 1000, 400), disk("/home", 5000, 5000), disk("/boot", 200, 50)];
    assert_eq!(disk_totals(&disks), Some(DiskTotals { total_space: 6200, used_space: 750 }));
}

#[test]
fn disk_totals_of_no_disks_are_zero() {
    assert_eq!(disk_totals(&Vec::new()), Some(DiskTotals { total_space: 0, used_space: 0 }));
}

#[test]
fn disk_totals_are_absent_for_an_inconsistent_disk() {
    let disks = vec![disk("/", 1000, 400), disk("/odd", 10, 11)];
    assert_eq!(disk_totals(&disks), None);
}

#[test]
fn disk_totals_are_absent_when_the_total_overflows() {
    let disks = vec![disk("/", u64::MAX, 0), disk("/more", 1, 1)];
    assert_eq!(disk_totals(&disks), None);
    let fits = vec![disk("/", u64::MAX - 1, 0), disk("/more", 1, 1)];
    assert_eq!(
        disk_totals(&fits),
        Some(DiskTotals { total_space: u64::MAX, used_space: u64::MAX - 1 })
    );
}

#[test]
fn snapshot_disk_totals_use_its_disks() {
    let snapshot = snapshot_with(vec![disk("/", 1000, 250)], Vec::new());
    assert_eq!(snapshot.disk_totals(), Some(DiskTotals { total_space: 1000, used_space: 750 }));
}

#[test]
fn network_totals_add_up_over_all_interfaces() {
    let snapshot = snapshot_with(
        Vec::new(),
        vec![interface("lo", 10, 10), interface("eth0", 1000, 500), interface("wlan0", 7, 0)],
    );
    assert_eq!(snapshot.network_totals(), Some((1017, 510)));
}

#[test]
fn network_totals_without_interfaces_are_zero() {
    assert_eq!(snapshot_with(Vec::new(), Vec::new()).network_totals(), Some((0, 0)));
}

#[test]
fn network_totals_are_absent_when_a_sum_overflows() {
    let received = snapshot_with(
        Vec::new(),
        vec![interface("a", u64::MAX, 0), interface("b", 1, 0)],
    );
    assert_eq!(received.network_totals(), None);
    let transmitted = snapshot_with(
        Vec::new(),
        vec![interface("a", 0, 1), interface("b", 0, u64::MAX)],
    );
    assert_eq!(transmitted.network_totals(), None);
    let fits = snapshot_with(
        Vec::new(),
        vec![interface("a", u64::MAX - 1, 1), interface("b", 1, u64::MAX - 1)],
    );
    assert_eq!(fits.network_totals(), Some((u64::MAX, u64::MAX)));
}

#[test]
fn process_memory_is_reported_in_whole_mebibytes() {
    let process = |memory: u64| ProcessInfo {
        name: "init".to_string(),
        cpu_usage: 0.5f32,
        memory,
        status: "Run".to_string(),
    };
    assert_eq!(process(0).memory_mib(), 0);
    assert_eq!(process(1_048_575).memory_mib(), 0);
    assert_eq!(process(1_048_576).memory_mib(), 1);
    assert_eq!(process(5 * 1_048_576 + 17).memory_mib(), 5);
    assert_eq!(process(u64::MAX).memory_mib(), u64::MAX / 1_048_576);
}
