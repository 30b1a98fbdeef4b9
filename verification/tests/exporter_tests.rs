use sentineld::config::{Config, MetricKind};
use sentineld::exporter::{agent_export, cpu_export, disk_export, memory_export, ExportSchedule};
use sentineld::snapshot::Snapshot;

fn snapshot() -> Snapshot {
    Snapshot::new(50.0f32.to_bits(), 1, 2, 3, 4, 5, 6, 7, 8)
}

#[test]
fn schedule_follows_configured_interval() {
    let mut config = Config::default();
    let mut schedule = ExportSchedule::new(MetricKind::Disk, &config);
    assert_eq!(schedule.interval_secs, 5);
    let d = schedule.observe(&config);
    assert!(d.enabled);
    assert!(!d.restart_timer);

    config.exporter.disk_interval = 9;
    config.metrics.disk = false;
    let d = schedule.observe(&config);
    assert!(!d.enabled);
    assert!(d.restart_timer);
    assert_eq!(schedule.interval_secs, 9);

    // A second pass under the same configuration changes nothing.
    let again = schedule.observe(&config);
    assert!(!again.restart_timer);
    assert_eq!(again.enabled, d.enabled);
    assert_eq!(schedule.interval_secs, 9);
}

#[test]
fn schedule_ignores_other_families() {
    let mut config = Config::default();
    let mut schedule = ExportSchedule::new(MetricKind::Cpu, &config);
    config.exporter.memory_interval = 60;
    assert!(!schedule.observe(&config).restart_timer);
    assert_eq!(schedule.interval_secs, 5);
}

#[test]
fn enabled_families_export_snapshot_values() {
    let s = snapshot();
    assert_eq!(cpu_export(true, &s).map(f32::from_bits), Some(50.0));
    assert_eq!(memory_export(true, &s), Some((1, 2, 3)));
    assert_eq!(disk_export(true, &s), Some((4, 5, 6)));
    assert_eq!(agent_export(true, &s), Some(7));
}

#[test]
fn disabled_families_export_nothing() {
    let s = snapshot();
    assert_eq!(cpu_export(false, &s), None);
    assert_eq!(memory_export(false, &s), None);
    assert_eq!(disk_export(false, &s), None);
    assert_eq!(agent_export(false, &s), None);
}
