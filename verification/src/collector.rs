use vstd::prelude::*;
use crate::snapshot::Snapshot;
use crate::config::{Config, ConfigView};

verus! {

/// Size and free space of one mounted disk, in bytes.
#[derive(Debug, Clone, Copy, PartialEq, Eq, Structural)]
pub struct DiskSpace {
    pub total: u64,
    pub available: u64,
}

/// What one refresh of the system reports, as plain values.
#[derive(Debug)]
pub struct SystemReadings {
    /// Global CPU usage in percent, as the bit pattern of a 32-bit float.
    pub cpu_usage_bits: u32,
    /// Memory available for new allocations, in bytes.
    pub available_memory: u64,
    /// Installed memory, in bytes.
    pub total_memory: u64,
    /// Memory not in use at all, in bytes.
    pub free_memory: u64,
    /// Every mounted disk.
    pub disks: Vec<DiskSpace>,
    /// Seconds since the collector started.
    pub uptime_secs: u64,
}

/// Sum of the sizes of `disks`.
pub open spec fn total_space(disks: Seq<DiskSpace>) -> nat
    decreases disks.len(),
{
    if disks.len() == 0 {
        0
    } else {
        total_space(disks.drop_last()) + disks.last().total as nat
    }
}

/// Sum of the free space of `disks`.
pub open spec fn available_space(disks: Seq<DiskSpace>) -> nat
    decreases disks.len(),
{
    if disks.len() == 0 {
        0
    } else {
        available_space(disks.drop_last()) + disks.last().available as nat
    }
}

/// Both sums fit in 64 bits, so adding them up never overflows.
pub open spec fn sums_fit(disks: Seq<DiskSpace>) -> bool {
    total_space(disks) <= u64::MAX && available_space(disks) <= u64::MAX
}

/// `a - b`, or zero when `b` is the larger.
pub open spec fn sat_sub(a: int, b: int) -> int {
    if a >= b {
        a - b
    } else {
        0
    }
}

/// The snapshot that one collection publishes: memory and disk figures
/// from `readings`, the error count carried over from `previous`.
/// Memory in use is the installed memory minus the available memory
/// (zero if the system reports more available than installed).
pub open spec fn collected(readings: SystemReadings, previous: Snapshot) -> Snapshot {
    let total = total_space(readings.disks@);
    let free = available_space(readings.disks@);
    Snapshot {
        cpu_usage_bits: readings.cpu_usage_bits,
        memory_used: sat_sub(readings.total_memory as int, readings.available_memory as int) as u64,
        memory_total: readings.total_memory,
        memory_free: readings.free_memory,
        disk_total: total as u64,
        disk_free: free as u64,
        disk_used: sat_sub(total as int, free as int) as u64,
        agent_uptime: readings.uptime_secs,
        agent_errors: previous.agent_errors,
    }
}

/// A prefix of the disk list never holds more space than the whole list.
pub proof fn lemma_prefix_sums_bounded(disks: Seq<DiskSpace>, i: int)
    requires
        0 <= i <= disks.len(),
    ensures
        total_space(disks.take(i)) <= total_space(disks),
        available_space(disks.take(i)) <= available_space(disks),
    decreases disks.len(),
{
    if i < disks.len() {
        assert(disks.drop_last().take(i) =~= disks.take(i));
        lemma_prefix_sums_bounded(disks.drop_last(), i);
    } else {
        assert(disks.take(i) =~= disks);
    }
}

proof fn lemma_take_step(disks: Seq<DiskSpace>, i: int)
    requires
        0 <= i < disks.len(),
    ensures
        total_space(disks.take(i + 1)) == total_space(disks.take(i)) + disks[i].total,
        available_space(disks.take(i + 1)) == available_space(disks.take(i)) + disks[i].available,
{
    assert(disks.take(i + 1).drop_last() =~= disks.take(i));
}

/// Whether the disk sizes and free spaces can be added up in 64 bits.
pub fn disks_fit(disks: &Vec<DiskSpace>) -> (r: bool)
    ensures
        r == sums_fit(disks@),
        r == (total_space(disks@) <= u64::MAX && available_space(disks@) <= u64::MAX),
{
    let mut total: u64 = 0;
    let mut free: u64 = 0;
    let mut i: usize = 0;
    while i < disks.len()
        invariant
            i <= disks.len(),
            total == total_space(disks@.take(i as int)),
            free == available_space(disks@.take(i as int)),
        decreases disks.len() - i,
    {
        proof {
            lemma_take_step(disks@, i as int);
            lemma_prefix_sums_bounded(disks@, i as int + 1);
        }
        match total.checked_add(disks[i].total) {
            Some(t) => total = t,
            None => return false,
        }
        match free.checked_add(disks[i].available) {
            Some(f) => free = f,
            None => return false,
        }
        i = i + 1;
    }
    assert(disks@.take(i as int) =~= disks@);
    true
}

/// Total size, free space and used space of all disks:
/// used space is size minus free space, and zero if free space is the larger.
pub fn disk_totals(disks: &Vec<DiskSpace>) -> (r: (u64, u64, u64))
    requires
        sums_fit(disks@),
    ensures
        r.0 == total_space(disks@),
        r.1 == available_space(disks@),
        r.2 == sat_sub(r.0 as int, r.1 as int),
        r.1 <= r.0 ==> r.2 + r.1 == r.0,
        r.1 > r.0 ==> r.2 == 0,
{
    let mut total: u64 = 0;
    let mut free: u64 = 0;
    let mut i: usize = 0;
    while i < disks.len()
        invariant
            i <= disks.len(),
            sums_fit(disks@),
            total == total_space(disks@.take(i as int)),
            free == available_space(disks@.take(i as int)),
        decreases disks.len() - i,
    {
        proof {
            lemma_take_step(disks@, i as int);
            lemma_prefix_sums_bounded(disks@, i as int + 1);
        }
        total = total + disks[i].total;
        free = free + disks[i].available;
        i = i + 1;
    }
    assert(disks@.take(i as int) =~= disks@);
    (total, free, total.saturating_sub(free))
}

/// One collection: turn the system readings into the next snapshot.
pub fn collect_snapshot(readings: &SystemReadings, previous: &Snapshot) -> (r: Snapshot)
    requires
        sums_fit(readings.disks@),
    ensures
        r == collected(*readings, *previous),
        r.cpu_usage_bits == readings.cpu_usage_bits,
        readings.available_memory <= readings.total_memory ==> r.memory_used + readings.available_memory
            == readings.total_memory,
        readings.available_memory > readings.total_memory ==> r.memory_used == 0,
        r.memory_total == readings.total_memory,
        r.memory_free == readings.free_memory,
        r.disk_total == total_space(readings.disks@),
        r.disk_free == available_space(readings.disks@),
        r.disk_free <= r.disk_total ==> r.disk_used + r.disk_free == r.disk_total,
        r.disk_free > r.disk_total ==> r.disk_used == 0,
        r.agent_uptime == readings.uptime_secs,
        r.agent_errors == previous.agent_errors,
{
    let (total, free, used) = disk_totals(&readings.disks);
    Snapshot::new(
        readings.cpu_usage_bits,
        readings.total_memory.saturating_sub(readings.available_memory),
        readings.total_memory,
        readings.free_memory,
        total,
        free,
        used,
        readings.uptime_secs,
        previous.agent_errors,
    )
}

/// In every collected snapshot the used disk space never exceeds the
/// total, and used plus free space is the total whenever the free space
/// does not exceed it; likewise memory in use never exceeds the installed
/// memory, and with the available memory adds up to it.
pub proof fn law_usage_consistent(readings: SystemReadings, previous: Snapshot)
    requires
        sums_fit(readings.disks@),
    ensures
        ({
            let s = collected(readings, previous);
            &&& s.disk_used <= s.disk_total
            &&& s.disk_free <= s.disk_total ==> s.disk_used + s.disk_free == s.disk_total
            &&& s.memory_used <= s.memory_total
            &&& readings.available_memory <= readings.total_memory ==> s.memory_used
                + readings.available_memory == s.memory_total
        }),
{
}

/// The refresh timer of the collection loop: the interval it runs at.
#[derive(Debug, Clone, Copy, PartialEq, Eq, Structural)]
pub struct CollectSchedule {
    pub interval_secs: u64,
}

/// The next pass of the collection loop: the timer follows the configured
/// refresh interval, and is restarted exactly when that interval changed.
pub open spec fn next_collect_schedule(s: CollectSchedule, config: ConfigView) -> (CollectSchedule, bool) {
    (
        CollectSchedule { interval_secs: config.collection.interval },
        config.collection.interval != s.interval_secs,
    )
}

impl CollectSchedule {
    /// The schedule the collection loop starts with: the configured refresh interval.
    pub fn new(config: &Config) -> (r: Self)
        ensures
            r.interval_secs == config.collection.interval,
    {
        CollectSchedule { interval_secs: config.collection.interval }
    }

    /// One pass of the collection loop: follow the configured refresh
    /// interval, and say whether the timer must be restarted.
    pub fn observe(&mut self, config: &Config) -> (restart_timer: bool)
        ensures
            (*final(self), restart_timer) == next_collect_schedule(*old(self), config@),
            final(self).interval_secs == config.collection.interval,
            restart_timer == (config.collection.interval != old(self).interval_secs),
    {
        let restart_timer = config.collection.interval != self.interval_secs;
        self.interval_secs = config.collection.interval;
        restart_timer
    }
}

/// Under an unchanged configuration the refresh timer is never restarted:
/// a schedule started from a configuration, observed any number of times
/// under it, keeps its interval and asks for no restart.
pub proof fn law_collect_timer_kept_under_same_config(s: CollectSchedule, config: ConfigView)
    ensures
        !next_collect_schedule(next_collect_schedule(s, config).0, config).1,
        next_collect_schedule(next_collect_schedule(s, config).0, config).0 == next_collect_schedule(s, config).0,
        s.interval_secs == config.collection.interval ==> next_collect_schedule(s, config) == (s, false),
{
}

/// Disk sums: no disks hold nothing, one disk holds its own size and free
/// space, and the sums over two lists of disks put together add up.
pub proof fn law_space_sums_add_up(a: Seq<DiskSpace>, b: Seq<DiskSpace>, d: DiskSpace)
    ensures
        total_space(Seq::<DiskSpace>::empty()) == 0,
        available_space(Seq::<DiskSpace>::empty()) == 0,
        total_space(seq![d]) == d.total,
        available_space(seq![d]) == d.available,
        total_space(a + b) == total_space(a) + total_space(b),
        available_space(a + b) == available_space(a) + available_space(b),
    decreases b.len(),
{
    assert(seq![d].drop_last() =~= Seq::<DiskSpace>::empty());
    if b.len() == 0 {
        assert(a + b =~= a);
    } else {
        law_space_sums_add_up(a, b.drop_last(), d);
        assert((a + b).drop_last() =~= a + b.drop_last());
        assert((a + b).last() == b.last());
    }
}

/// One collection publishes each reading as it came: the CPU usage, the
/// installed and free memory, the uptime, and the error count of the
/// previous snapshot; memory in use is installed minus available and disk
/// use is size minus free space, both floored at zero.
pub proof fn law_collection_keeps_readings(readings: SystemReadings, previous: Snapshot)
    requires
        sums_fit(readings.disks@),
    ensures
        ({
            let s = collected(readings, previous);
            &&& s.cpu_usage_bits == readings.cpu_usage_bits
            &&& s.memory_total == readings.total_memory
            &&& s.memory_free == readings.free_memory
            &&& s.agent_uptime == readings.uptime_secs
            &&& s.agent_errors == previous.agent_errors
            &&& s.disk_total == total_space(readings.disks@)
            &&& s.disk_free == available_space(readings.disks@)
            &&& s.memory_used == (if readings.available_memory <= readings.total_memory {
                readings.total_memory - readings.available_memory
            } else {
                0
            })
            &&& s.disk_used == (if s.disk_free <= s.disk_total {
                s.disk_total - s.disk_free
            } else {
                0
            })
        }),
{
}

/// A pass of the collection loop runs the timer at the configured refresh
/// interval, and restarts it exactly when that interval differs from the
/// one it ran at: a faster and a slower refresh both take effect.
pub proof fn law_refresh_follows_configured_interval(s: CollectSchedule, config: ConfigView)
    ensures
        next_collect_schedule(s, config).0.interval_secs == config.collection.interval,
        next_collect_schedule(s, config).1 <==> config.collection.interval != s.interval_secs,
{
}

} // verus!
