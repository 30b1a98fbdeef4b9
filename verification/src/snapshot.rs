use vstd::prelude::*;

verus! {

/// The latest system readings, as the exporters publish them.
///
/// Byte counts and the uptime are whole numbers. The CPU usage is a
/// percentage that the system reports as a 32-bit float; it is carried
/// unchanged as its IEEE-754 bit pattern.
#[derive(Debug, Clone, Copy, PartialEq, Eq, Structural)]
pub struct Snapshot {
    pub cpu_usage_bits: u32,
    pub memory_used: u64,
    pub memory_total: u64,
    pub memory_free: u64,
    pub disk_total: u64,
    pub disk_free: u64,
    pub disk_used: u64,
    pub agent_uptime: u64,
    pub agent_errors: u64,
}

/// The snapshot before the first collection: every reading zero
/// (the bit pattern zero is a CPU usage of 0.0).
pub open spec fn empty_snapshot() -> Snapshot {
    Snapshot {
        cpu_usage_bits: 0,
        memory_used: 0,
        memory_total: 0,
        memory_free: 0,
        disk_total: 0,
        disk_free: 0,
        disk_used: 0,
        agent_uptime: 0,
        agent_errors: 0,
    }
}

impl Default for Snapshot {
    fn default() -> (r: Self)
        ensures
            r == empty_snapshot(),
    {
        Snapshot {
            cpu_usage_bits: 0,
            memory_used: 0,
            memory_total: 0,
            memory_free: 0,
            disk_total: 0,
            disk_free: 0,
            disk_used: 0,
            agent_uptime: 0,
            agent_errors: 0,
        }
    }
}

impl Snapshot {
    /// A snapshot holding exactly the given readings.
    pub fn new(
        cpu_usage_bits: u32,
        memory_used: u64,
        memory_total: u64,
        memory_free: u64,
        disk_total: u64,
        disk_free: u64,
        disk_used: u64,
        agent_uptime: u64,
        agent_errors: u64,
    ) -> (r: Self)
        ensures
            r == (Snapshot {
                cpu_usage_bits,
                memory_used,
                memory_total,
                memory_free,
                disk_total,
                disk_free,
                disk_used,
                agent_uptime,
                agent_errors,
            }),
    {
        Snapshot {
            cpu_usage_bits,
            memory_used,
            memory_total,
            memory_free,
            disk_total,
            disk_free,
            disk_used,
            agent_uptime,
            agent_errors,
        }
    }
}

} // verus!
