use sentineld::config::{config_path, initial_config, CollectionConfig, Config, ExporterConfig, MetricKind, MetricsConfig};

fn sample_config() -> Config {
    Config {
        port: 8081,
        host: "127.0.0.1".to_string(),
        exporter: ExporterConfig { cpu_interval: 1, memory_interval: 2, disk_interval: 3, agent_interval: 4 },
        metrics: MetricsConfig { cpu: true, memory: false, disk: true, agent: false },
        collection: CollectionConfig { interval: 7 },
    }
}

#[test]
fn default_config_matches_documentation() {
    let c = Config::default();
    assert_eq!(c.port, 9100);
    assert_eq!(c.host, "0.0.0.0");
    assert_eq!(c.exporter, ExporterConfig { cpu_interval: 5, memory_interval: 5, disk_interval: 5, agent_interval: 5 });
    assert_eq!(c.metrics, MetricsConfig { cpu: true, memory: true, disk: true, agent: true });
    assert_eq!(c.collection, CollectionConfig { interval: 5 });
}

#[test]
fn section_defaults() {
    assert_eq!(ExporterConfig::default().disk_interval, 5);
    assert_eq!(CollectionConfig::default().interval, 5);
    assert!(MetricsConfig::default().agent);
}

#[test]
fn interval_and_switch_per_family() {
    let c = sample_config();
    assert_eq!(c.exporter.interval_for(MetricKind::Cpu), 1);
    assert_eq!(c.exporter.interval_for(MetricKind::Memory), 2);
    assert_eq!(c.exporter.interval_for(MetricKind::Disk), 3);
    assert_eq!(c.exporter.interval_for(MetricKind::Agent), 4);
    assert!(c.metrics.is_enabled(MetricKind::Cpu));
    assert!(!c.metrics.is_enabled(MetricKind::Memory));
    assert!(c.metrics.is_enabled(MetricKind::Disk));
    assert!(!c.metrics.is_enabled(MetricKind::Agent));
}

#[test]
fn config_path_prefers_override() {
    assert_eq!(config_path(Some("/etc/sentineld.yml".to_string())), "/etc/sentineld.yml");
    assert_eq!(config_path(None), "./config.yml");
}

#[test]
fn initial_config_falls_back_to_default() {
    let loaded = initial_config(Some(sample_config()));
    assert_eq!(loaded.port, 8081);
    assert_eq!(loaded.host, "127.0.0.1");
    let fallback = initial_config(None);
    assert_eq!(fallback.port, 9100);
    assert_eq!(fallback.host, "0.0.0.0");
}
