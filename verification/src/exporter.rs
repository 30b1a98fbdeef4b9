use vstd::prelude::*;
use crate::config::{Config, MetricKind, interval_of, enabled_in};
use crate::snapshot::Snapshot;

verus! {

/// The timer of one export loop: the family it exports and the interval
/// its timer currently runs at.
#[derive(Debug, Clone, Copy, PartialEq, Eq, Structural)]
pub struct ExportSchedule {
    pub family: MetricKind,
    pub interval_secs: u64,
}

/// What one pass of an export loop decides from the current configuration.
#[derive(Debug, Clone, Copy, PartialEq, Eq, Structural)]
pub struct ExportDecision {
    /// Export the family's values at the next tick (else mark them missing).
    pub enabled: bool,
    /// The configured interval changed: start a new timer at the new interval.
    pub restart_timer: bool,
}

/// The next pass of an export loop, as a function of its schedule and the
/// configuration in force.
pub open spec fn next_schedule(s: ExportSchedule, config: crate::config::ConfigView) -> (ExportSchedule, ExportDecision) {
    let configured = interval_of(config.exporter, s.family);
    (
        ExportSchedule { family: s.family, interval_secs: configured },
        ExportDecision {
            enabled: enabled_in(config.metrics, s.family),
            restart_timer: configured != s.interval_secs,
        },
    )
}

impl ExportSchedule {
    /// The schedule an export loop starts with: the interval configured for `family`.
    pub fn new(family: MetricKind, config: &Config) -> (r: Self)
        ensures
            r.family == family,
            r.interval_secs == interval_of(config.exporter, family),
            family == MetricKind::Cpu ==> r.interval_secs == config.exporter.cpu_interval,
            family == MetricKind::Memory ==> r.interval_secs == config.exporter.memory_interval,
            family == MetricKind::Disk ==> r.interval_secs == config.exporter.disk_interval,
            family == MetricKind::Agent ==> r.interval_secs == config.exporter.agent_interval,
    {
        ExportSchedule { family, interval_secs: config.exporter.interval_for(family) }
    }

    /// One pass of the export loop: read whether the family is on, and
    /// follow the configured interval, restarting the timer when it changed.
    pub fn observe(&mut self, config: &Config) -> (r: ExportDecision)
        ensures
            (*final(self), r) == next_schedule(*old(self), config@),
            final(self).family == old(self).family,
            old(self).family == MetricKind::Cpu ==> final(self).interval_secs
                == config.exporter.cpu_interval && r.enabled == config.metrics.cpu,
            old(self).family == MetricKind::Memory ==> final(self).interval_secs
                == config.exporter.memory_interval && r.enabled == config.metrics.memory,
            old(self).family == MetricKind::Disk ==> final(self).interval_secs
                == config.exporter.disk_interval && r.enabled == config.metrics.disk,
            old(self).family == MetricKind::Agent ==> final(self).interval_secs
                == config.exporter.agent_interval && r.enabled == config.metrics.agent,
            r.restart_timer == (final(self).interval_secs != old(self).interval_secs),
    {
        let configured = config.exporter.interval_for(self.family);
        let restart_timer = configured != self.interval_secs;
        self.interval_secs = configured;
        ExportDecision { enabled: config.metrics.is_enabled(self.family), restart_timer }
    }
}

/// After a pass the timer runs at the configured interval, and a second
/// pass under the same configuration restarts nothing and decides the same.
pub proof fn law_schedule_settles(s: ExportSchedule, config: crate::config::ConfigView)
    ensures
        next_schedule(s, config).0.interval_secs == interval_of(config.exporter, s.family),
        next_schedule(s, config).0.family == s.family,
        !next_schedule(next_schedule(s, config).0, config).1.restart_timer,
        next_schedule(next_schedule(s, config).0, config).0 == next_schedule(s, config).0,
        next_schedule(next_schedule(s, config).0, config).1.enabled == next_schedule(s, config).1.enabled,
{
}

/// The value the CPU gauge is set to: the snapshot's usage when the
/// family is on, no value (the gauge shows NaN) when it is off.
pub fn cpu_export(enabled: bool, snapshot: &Snapshot) -> (r: Option<u32>)
    ensures
        r == (if enabled { Some(snapshot.cpu_usage_bits) } else { None::<u32> }),
{
    if enabled {
        Some(snapshot.cpu_usage_bits)
    } else {
        None
    }
}

/// The values of the used, total and free memory gauges, or no values.
pub fn memory_export(enabled: bool, snapshot: &Snapshot) -> (r: Option<(u64, u64, u64)>)
    ensures
        r == (if enabled {
            Some((snapshot.memory_used, snapshot.memory_total, snapshot.memory_free))
        } else {
            None::<(u64, u64, u64)>
        }),
{
    if enabled {
        Some((snapshot.memory_used, snapshot.memory_total, snapshot.memory_free))
    } else {
        None
    }
}

/// The values of the total, free and used disk gauges, or no values.
pub fn disk_export(enabled: bool, snapshot: &Snapshot) -> (r: Option<(u64, u64, u64)>)
    ensures
        r == (if enabled {
            Some((snapshot.disk_total, snapshot.disk_free, snapshot.disk_used))
        } else {
            None::<(u64, u64, u64)>
        }),
{
    if enabled {
        Some((snapshot.disk_total, snapshot.disk_free, snapshot.disk_used))
    } else {
        None
    }
}

/// The value of the agent uptime gauge, or no value.
pub fn agent_export(enabled: bool, snapshot: &Snapshot) -> (r: Option<u64>)
    ensures
        r == (if enabled { Some(snapshot.agent_uptime) } else { None::<u64> }),
{
    if enabled {
        Some(snapshot.agent_uptime)
    } else {
        None
    }
}

/// A pass of an export loop follows exactly its own family's settings:
/// the timer runs at that family's configured interval, the family is
/// exported exactly when its own switch is on (whatever the other switches
/// say), and the timer is restarted exactly when the interval changed.
pub proof fn law_pass_follows_own_family(s: ExportSchedule, config: crate::config::ConfigView)
    ensures
        ({
            let (next, d) = next_schedule(s, config);
            let (interval, switch) = match s.family {
                MetricKind::Cpu => (config.exporter.cpu_interval, config.metrics.cpu),
                MetricKind::Memory => (config.exporter.memory_interval, config.metrics.memory),
                MetricKind::Disk => (config.exporter.disk_interval, config.metrics.disk),
                MetricKind::Agent => (config.exporter.agent_interval, config.metrics.agent),
            };
            &&& next.family == s.family
            &&& next.interval_secs == interval
            &&& d.enabled == switch
            &&& d.restart_timer == (interval != s.interval_secs)
        }),
{
}

} // verus!
