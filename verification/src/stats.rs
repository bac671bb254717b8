//! A snapshot of physical memory, derived from what the system reports.

use vstd::prelude::*;

verus! {

/// Bytes in a mebibyte.
pub const MIB: u64 = 1048576;

/// Physical memory at one moment. `usage_percent` is the system's memory
/// load, a whole percentage.
#[derive(Debug, Clone, Copy, PartialEq, Eq, Structural)]
pub struct MemoryStats {
    pub total_bytes: u64,
    pub used_bytes: u64,
    pub free_bytes: u64,
    pub total_mb: u64,
    pub used_mb: u64,
    pub free_mb: u64,
    pub usage_percent: u32,
}

/// `a - b`, or 0 when `b` exceeds `a`.
pub open spec fn saturating_diff(a: nat, b: nat) -> nat {
    if a >= b {
        (a - b) as nat
    } else {
        0
    }
}

impl MemoryStats {
    /// The snapshot that `total_phys` bytes of installed memory, `avail_phys`
    /// bytes available and a load of `memory_load` percent describe.
    pub open spec fn spec_from_status(total_phys: u64, avail_phys: u64, memory_load: u32) -> MemoryStats {
        MemoryStats {
            total_bytes: total_phys,
            used_bytes: saturating_diff(total_phys as nat, avail_phys as nat) as u64,
            free_bytes: avail_phys,
            total_mb: total_phys / MIB,
            used_mb: saturating_diff((total_phys / MIB) as nat, (avail_phys / MIB) as nat) as u64,
            free_mb: avail_phys / MIB,
            usage_percent: memory_load,
        }
    }

    /// Builds a snapshot from the system's memory status.
    pub fn from_status(total_phys: u64, avail_phys: u64, memory_load: u32) -> (s: MemoryStats)
        ensures
            s == MemoryStats::spec_from_status(total_phys, avail_phys, memory_load),
    {
        let total_mb = total_phys / MIB;
        let free_mb = avail_phys / MIB;
        MemoryStats {
            total_bytes: total_phys,
            used_bytes: total_phys.saturating_sub(avail_phys),
            free_bytes: avail_phys,
            total_mb,
            used_mb: total_mb.saturating_sub(free_mb),
            free_mb,
            usage_percent: memory_load,
        }
    }

    /// The snapshot reported when the system gives no memory status: all zero.
    pub fn unavailable() -> (s: MemoryStats)
        ensures
            s == MemoryStats::spec_from_status(0, 0, 0),
    {
        MemoryStats {
            total_bytes: 0,
            used_bytes: 0,
            free_bytes: 0,
            total_mb: 0,
            used_mb: 0,
            free_mb: 0,
            usage_percent: 0,
        }
    }
}

/// Used memory never exceeds the installed memory, and used plus free make up
/// the total whenever no more is available than installed.
pub proof fn lemma_used_within_total(total_phys: u64, avail_phys: u64, memory_load: u32)
    ensures
        ({
            let s = MemoryStats::spec_from_status(total_phys, avail_phys, memory_load);
            &&& s.used_bytes <= s.total_bytes
            &&& s.used_mb <= s.total_mb
            &&& avail_phys <= total_phys ==> s.used_bytes + s.free_bytes == s.total_bytes
            &&& avail_phys <= total_phys ==> s.used_mb + s.free_mb == s.total_mb
        }),
{
    let t = total_phys as int;
    let a = avail_phys as int;
    if a <= t {
        assert(a / (MIB as int) <= t / (MIB as int)) by {
            vstd::arithmetic::div_mod::lemma_div_is_ordered(a, t, MIB as int);
        }
    }
}

} // verus!
