use vstd::prelude::*;

verus! {

/// Where the agent reads its configuration when no override is given.
pub open spec fn default_config_path() -> Seq<char> {
    "./config.yml"@
}

/// The four metric families the agent exports, each with its own switch
/// and its own export interval.
#[derive(Debug, Clone, Copy, PartialEq, Eq, Structural)]
pub enum MetricKind {
    Cpu,
    Memory,
    Disk,
    Agent,
}

/// Export interval of each metric family, in seconds.
#[derive(Debug, Clone, Copy, PartialEq, Eq, Structural)]
pub struct ExporterConfig {
    pub cpu_interval: u64,
    pub memory_interval: u64,
    pub disk_interval: u64,
    pub agent_interval: u64,
}

/// How often the system snapshot is refreshed, in seconds.
#[derive(Debug, Clone, Copy, PartialEq, Eq, Structural)]
pub struct CollectionConfig {
    pub interval: u64,
}

/// Which metric families are exported.
#[derive(Debug, Clone, Copy, PartialEq, Eq, Structural)]
pub struct MetricsConfig {
    pub cpu: bool,
    pub memory: bool,
    pub disk: bool,
    pub agent: bool,
}

/// The whole agent configuration, as read from `config.yml`.
#[derive(Debug, Clone)]
pub struct Config {
    pub port: u16,
    pub host: String,
    pub exporter: ExporterConfig,
    pub metrics: MetricsConfig,
    pub collection: CollectionConfig,
}

/// A configuration seen as a mathematical value.
pub struct ConfigView {
    pub port: u16,
    pub host: Seq<char>,
    pub exporter: ExporterConfig,
    pub metrics: MetricsConfig,
    pub collection: CollectionConfig,
}

impl View for Config {
    type V = ConfigView;

    open spec fn view(&self) -> ConfigView {
        ConfigView {
            port: self.port,
            host: self.host@,
            exporter: self.exporter,
            metrics: self.metrics,
            collection: self.collection,
        }
    }
}

/// Every family every five seconds.
pub open spec fn default_exporter_config() -> ExporterConfig {
    ExporterConfig { cpu_interval: 5, memory_interval: 5, disk_interval: 5, agent_interval: 5 }
}

/// Refresh the snapshot every five seconds.
pub open spec fn default_collection_config() -> CollectionConfig {
    CollectionConfig { interval: 5 }
}

/// Every family switched on.
pub open spec fn default_metrics_config() -> MetricsConfig {
    MetricsConfig { cpu: true, memory: true, disk: true, agent: true }
}

/// The documented default: listen on `0.0.0.0:9100`, every family on,
/// every interval five seconds.
pub open spec fn default_config_view() -> ConfigView {
    ConfigView {
        port: 9100,
        host: "0.0.0.0"@,
        exporter: default_exporter_config(),
        metrics: default_metrics_config(),
        collection: default_collection_config(),
    }
}

impl Default for ExporterConfig {
    fn default() -> (r: Self)
        ensures
            r == default_exporter_config(),
            r.cpu_interval == 5 && r.memory_interval == 5 && r.disk_interval == 5 && r.agent_interval == 5,
    {
        ExporterConfig { cpu_interval: 5, memory_interval: 5, disk_interval: 5, agent_interval: 5 }
    }
}

impl Default for CollectionConfig {
    fn default() -> (r: Self)
        ensures
            r == default_collection_config(),
            r.interval == 5,
    {
        CollectionConfig { interval: 5 }
    }
}

impl Default for MetricsConfig {
    fn default() -> (r: Self)
        ensures
            r == default_metrics_config(),
            r.cpu && r.memory && r.disk && r.agent,
    {
        MetricsConfig { cpu: true, memory: true, disk: true, agent: true }
    }
}

impl Default for Config {
    fn default() -> (r: Self)
        ensures
            r@ == default_config_view(),
            r.port == 9100,
            r.host@ == "0.0.0.0"@,
            r.exporter.cpu_interval == 5 && r.exporter.memory_interval == 5
                && r.exporter.disk_interval == 5 && r.exporter.agent_interval == 5,
            r.metrics.cpu && r.metrics.memory && r.metrics.disk && r.metrics.agent,
            r.collection.interval == 5,
    {
        let host = "0.0.0.0".to_owned();
        proof {
            reveal_strlit("0.0.0.0");
        }
        Config {
            port: 9100,
            host,
            exporter: ExporterConfig::default(),
            metrics: MetricsConfig::default(),
            collection: CollectionConfig::default(),
        }
    }
}

/// The export interval that `exporter` sets for `family`.
pub open spec fn interval_of(exporter: ExporterConfig, family: MetricKind) -> u64 {
    match family {
        MetricKind::Cpu => exporter.cpu_interval,
        MetricKind::Memory => exporter.memory_interval,
        MetricKind::Disk => exporter.disk_interval,
        MetricKind::Agent => exporter.agent_interval,
    }
}

/// Whether `metrics` switches `family` on.
pub open spec fn enabled_in(metrics: MetricsConfig, family: MetricKind) -> bool {
    match family {
        MetricKind::Cpu => metrics.cpu,
        MetricKind::Memory => metrics.memory,
        MetricKind::Disk => metrics.disk,
        MetricKind::Agent => metrics.agent,
    }
}

impl ExporterConfig {
    /// The export interval of `family`, in seconds.
    pub fn interval_for(&self, family: MetricKind) -> (r: u64)
        ensures
            r == interval_of(*self, family),
            family == MetricKind::Cpu ==> r == self.cpu_interval,
            family == MetricKind::Memory ==> r == self.memory_interval,
            family == MetricKind::Disk ==> r == self.disk_interval,
            family == MetricKind::Agent ==> r == self.agent_interval,
    {
        match family {
            MetricKind::Cpu => self.cpu_interval,
            MetricKind::Memory => self.memory_interval,
            MetricKind::Disk => self.disk_interval,
            MetricKind::Agent => self.agent_interval,
        }
    }
}

impl MetricsConfig {
    /// Whether `family` is exported.
    pub fn is_enabled(&self, family: MetricKind) -> (r: bool)
        ensures
            r == enabled_in(*self, family),
            family == MetricKind::Cpu ==> r == self.cpu,
            family == MetricKind::Memory ==> r == self.memory,
            family == MetricKind::Disk ==> r == self.disk,
            family == MetricKind::Agent ==> r == self.agent,
    {
        match family {
            MetricKind::Cpu => self.cpu,
            MetricKind::Memory => self.memory,
            MetricKind::Disk => self.disk,
            MetricKind::Agent => self.agent,
        }
    }
}

/// The path of the configuration file: the override when one is set
/// (`SENTINELD_CONFIG`), `./config.yml` otherwise.
pub fn config_path(override_path: Option<String>) -> (r: String)
    ensures
        match override_path {
            Some(p) => r@ == p@,
            None => r@ == default_config_path(),
        },
        override_path is None ==> r@ == "./config.yml"@,
{
    match override_path {
        Some(p) => p,
        None => {
            let p = "./config.yml".to_owned();
            proof {
                reveal_strlit("./config.yml");
            }
            p
        },
    }
}

/// The configuration the agent starts with: the one read from the file
/// when it could be opened and parsed, the default otherwise.
pub fn initial_config(loaded: Option<Config>) -> (r: Config)
    ensures
        match loaded {
            Some(c) => r@ == c@,
            None => r@ == default_config_view(),
        },
{
    match loaded {
        Some(c) => c,
        None => Config::default(),
    }
}

/// Each family reads its own interval and its own switch, and no other field:
/// changing another family's settings changes nothing for it.
pub proof fn law_family_settings_are_its_own(e: ExporterConfig, m: MetricsConfig)
    ensures
        interval_of(e, MetricKind::Cpu) == e.cpu_interval,
        interval_of(e, MetricKind::Memory) == e.memory_interval,
        interval_of(e, MetricKind::Disk) == e.disk_interval,
        interval_of(e, MetricKind::Agent) == e.agent_interval,
        enabled_in(m, MetricKind::Cpu) == m.cpu,
        enabled_in(m, MetricKind::Memory) == m.memory,
        enabled_in(m, MetricKind::Disk) == m.disk,
        enabled_in(m, MetricKind::Agent) == m.agent,
{
}

/// The documented defaults: listen on `0.0.0.0:9100`, every family on,
/// every interval five seconds; the config file is `./config.yml`.
pub proof fn law_documented_defaults()
    ensures
        default_config_view().port == 9100,
        default_config_view().host == "0.0.0.0"@,
        default_config_view().exporter == (ExporterConfig {
            cpu_interval: 5,
            memory_interval: 5,
            disk_interval: 5,
            agent_interval: 5,
        }),
        default_config_view().metrics == (MetricsConfig { cpu: true, memory: true, disk: true, agent: true }),
        default_config_view().collection == (CollectionConfig { interval: 5 }),
        default_config_path() == "./config.yml"@,
{
}

} // verus!
