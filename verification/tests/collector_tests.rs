use sentineld::collector::{collect_snapshot, disk_totals, disks_fit, CollectSchedule, DiskSpace, SystemReadings};
use sentineld::config::Config;
use sentineld::snapshot::Snapshot;

#[test]
fn disk_totals_add_up() {
    let disks = vec![DiskSpace { total: 100, available: 30 }, DiskSpace { total: 50, available: 5 }];
    assert!(disks_fit(&disks));
    assert_eq!(disk_totals(&disks), (150, 35, 115));
}

#[test]
fn no_disks_give_zero() {
    let disks: Vec<DiskSpace> = vec![];
    assert!(disks_fit(&disks));
    assert_eq!(disk_totals(&disks), (0, 0, 0));
}

#[test]
fn used_space_saturates_at_zero() {
    let disks = vec![DiskSpace { total: 10, available: 40 }];
    assert_eq!(disk_totals(&disks), (10, 40, 0));
}

#[test]
fn overflowing_sums_do_not_fit() {
    let disks = vec![DiskSpace { total: u64::MAX, available: 1 }, DiskSpace { total: 1, available: 1 }];
    assert!(!disks_fit(&disks));
    let disks = vec![DiskSpace { total: 1, available: u64::MAX }, DiskSpace { total: 1, available: 1 }];
    assert!(!disks_fit(&disks));
    let disks = vec![DiskSpace { total: u64::MAX, available: u64::MAX }];
    assert!(disks_fit(&disks));
}

#[test]
fn collection_builds_snapshot() {
    let readings = SystemReadings {
        cpu_usage_bits: 12.5f32.to_bits(),
        available_memory: 3000,
        total_memory: 8000,
        free_memory: 1000,
        disks: vec![DiskSpace { total: 500, available: 200 }, DiskSpace { total: 300, available: 100 }],
        uptime_secs: 42,
    };
    let mut previous = Snapshot::default();
    previous.agent_errors = 3;
    let s = collect_snapshot(&readings, &previous);
    assert_eq!(f32::from_bits(s.cpu_usage_bits), 12.5);
    assert_eq!(s.memory_used, 5000);
    assert_eq!(s.memory_total, 8000);
    assert_eq!(s.memory_free, 1000);
    assert_eq!(s.disk_total, 800);
    assert_eq!(s.disk_free, 300);
    assert_eq!(s.disk_used, 500);
    assert_eq!(s.agent_uptime, 42);
    assert_eq!(s.agent_errors, 3);
}

#[test]
fn empty_snapshot_is_zero() {
    let s = Snapshot::default();
    assert_eq!(s, Snapshot::new(0, 0, 0, 0, 0, 0, 0, 0, 0));
    assert_eq!(f32::from_bits(s.cpu_usage_bits), 0.0);
}

#[test]
fn memory_in_use_saturates_at_zero() {
    let readings = SystemReadings {
        cpu_usage_bits: 0,
        available_memory: 9000,
        total_memory: 8000,
        free_memory: 1000,
        disks: vec![],
        uptime_secs: 0,
    };
    let s = collect_snapshot(&readings, &Snapshot::default());
    assert_eq!(s.memory_used, 0);
    assert_eq!(s.memory_total, 8000);
}

#[test]
fn collect_schedule_follows_refresh_interval() {
    let mut config = Config::default();
    let mut schedule = CollectSchedule::new(&config);
    assert_eq!(schedule.interval_secs, 5);
    assert!(!schedule.observe(&config));
    assert!(!schedule.observe(&config));
    config.collection.interval = 30;
    assert!(schedule.observe(&config));
    assert_eq!(schedule.interval_secs, 30);
    assert!(!schedule.observe(&config));
    config.exporter.cpu_interval = 1;
    assert!(!schedule.observe(&config));
}
