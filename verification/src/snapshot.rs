//! One cycle's reading of the host, and the sampler that produces it.

use vstd::prelude::*;
use crate::network::{rate, rate_between, ByteCounters};
use crate::ranking::{is_ranking, rank_top, ranking_of};
use crate::units::{mean, mean_of, percent_of, ratio_percent};

verus! {

/// How many processes a ranking shows unless told otherwise.
pub const DEFAULT_TOP_K: usize = 5;

/// One row of the provider's process table. `cpu` is in hundredths of a
/// percent of one core, so a busy multi-threaded process exceeds 100 %.
#[derive(Clone, Debug, PartialEq, Eq)]
pub struct ProcessInfo {
    pub pid: u32,
    pub name: String,
    pub cpu: u32,
    pub memory: u64,
}

/// One entry of a ranking: a process and the reading it was ranked by, in
/// hundredths of a percent of one core for CPU and in bytes for memory.
#[derive(Clone, Debug, PartialEq, Eq)]
pub struct ProcessUsage {
    pub pid: u32,
    pub name: String,
    pub value: u64,
}

/// One disk with its I/O counters.
#[derive(Clone, Debug, PartialEq, Eq)]
pub struct DiskInfo {
    pub mount: String,
    pub kind: String,
    pub read_bytes: u64,
    pub written_bytes: u64,
}

/// What the metrics provider reports in one reading. `network` holds the
/// counters of the watched interface, or nothing when it is absent.
#[derive(Clone, Debug, PartialEq, Eq)]
pub struct RawMetrics {
    pub per_core_cpu: Vec<u32>,
    pub total_memory: u64,
    pub used_memory: u64,
    pub processes: Vec<ProcessInfo>,
    pub disks: Vec<DiskInfo>,
    pub network: Option<ByteCounters>,
}

/// The normalized reading of one cycle. Percentages are in hundredths of a
/// percent, throughput in hundredths of a megabit per second, the timestamp
/// in milliseconds since the Unix epoch.
#[derive(Clone, Debug, PartialEq, Eq)]
pub struct Snapshot {
    pub timestamp: u64,
    pub per_core_cpu: Vec<u32>,
    pub avg_cpu: u32,
    pub total_memory_bytes: u64,
    pub used_memory_bytes: u64,
    pub network_down: u64,
    pub network_up: u64,
    pub top_cpu_processes: Vec<ProcessUsage>,
    pub top_mem_processes: Vec<ProcessUsage>,
    pub disks: Vec<DiskInfo>,
}

/// Orchestrates one monitoring cycle.
#[derive(Clone, Copy, Debug, PartialEq, Eq)]
pub struct Sampler {
    pub top_k: usize,
}

/// The CPU readings of a process table, in table order.
pub open spec fn cpu_keys(processes: Seq<ProcessInfo>) -> Seq<u64> {
    Seq::new(processes.len(), |i: int| processes[i].cpu as u64)
}

/// The memory readings of a process table, in table order.
pub open spec fn memory_keys(processes: Seq<ProcessInfo>) -> Seq<u64> {
    Seq::new(processes.len(), |i: int| processes[i].memory)
}

/// The ranking entry for a process and the reading it is ranked by.
pub open spec fn usage_entry(p: ProcessInfo, value: u64) -> ProcessUsage {
    ProcessUsage { pid: p.pid, name: p.name, value }
}

/// The `k` processes with the largest readings, largest first, equal
/// readings in table order.
pub open spec fn top_usage(processes: Seq<ProcessInfo>, keys: Seq<u64>, k: nat) -> Seq<
    ProcessUsage,
> {
    ranking_of(keys, k).map_values(|i: usize| usage_entry(processes[i as int], keys[i as int]))
}

/// A ranking's readings never increase from one entry to the next.
pub open spec fn descending(entries: Seq<ProcessUsage>) -> bool {
    forall|i: int, j: int|
        #![trigger entries[i], entries[j]]
        0 <= i < j < entries.len() ==> entries[i].value >= entries[j].value
}

/// The lesser of the used and the total memory: a provider that reports more
/// memory in use than exists is held to the total.
pub open spec fn used_within(used: u64, total: u64) -> u64 {
    if used <= total {
        used
    } else {
        total
    }
}

impl Snapshot {
    /// What holds of every snapshot: memory in use does not exceed the total,
    /// the average is the mean of the cores, and both rankings descend.
    pub open spec fn wf(&self) -> bool {
        &&& self.used_memory_bytes <= self.total_memory_bytes
        &&& self.avg_cpu == mean_of(self.per_core_cpu@)
        &&& descending(self.top_cpu_processes@)
        &&& descending(self.top_mem_processes@)
    }

    /// Memory in use as a share of the total, in hundredths of a percent;
    /// zero when the host reports no memory at all.
    pub open spec fn spec_memory_percent(&self) -> nat {
        percent_of(self.used_memory_bytes as nat, self.total_memory_bytes as nat)
    }

    /// Memory in use as a share of the total, in hundredths of a percent.
    pub fn memory_percent(&self) -> (r: u32)
        requires
            self.wf(),
        ensures
            r == self.spec_memory_percent(),
            r <= 10_000,
            self.total_memory_bytes == 0 ==> r == 0,
    {
        ratio_percent(self.used_memory_bytes, self.total_memory_bytes)
    }

    /// Whether the snapshot is one that a sampler could have produced, as far
    /// as its own fields show.
    pub fn is_well_formed(&self) -> (r: bool)
        ensures
            r == self.wf(),
    {
        self.used_memory_bytes <= self.total_memory_bytes && self.avg_cpu == mean(
            &self.per_core_cpu,
        ) && is_descending(&self.top_cpu_processes) && is_descending(&self.top_mem_processes)
    }

    /// The number of cores the snapshot was taken on.
    pub fn core_count(&self) -> (r: usize)
        ensures
            r == self.per_core_cpu@.len(),
    {
        self.per_core_cpu.len()
    }
}

/// In every snapshot the memory in use lies between zero and the total, and
/// its share of the total lies between 0 % and 100 %, and is exactly zero
/// when the total is zero.
pub proof fn lemma_memory_within_bounds(s: Snapshot)
    requires
        s.wf(),
    ensures
        0 <= s.used_memory_bytes <= s.total_memory_bytes,
        0 <= s.spec_memory_percent() <= 10_000,
        s.total_memory_bytes == 0 ==> s.spec_memory_percent() == 0,
{
    crate::units::lemma_percent_bound(s.used_memory_bytes as nat, s.total_memory_bytes as nat);
}

/// Whether the readings of a ranking never increase.
pub fn is_descending(entries: &Vec<ProcessUsage>) -> (r: bool)
    ensures
        r == descending(entries@),
{
    let n: usize = entries.len();
    if n < 2 {
        return true;
    }
    let mut i: usize = 1;
    while i < n
        invariant
            n == entries.len(),
            1 <= i <= n,
            forall|a: int, b: int|
                #![trigger entries@[a], entries@[b]]
                0 <= a < b < i ==> entries@[a].value >= entries@[b].value,
        decreases n - i,
    {
        if entries[i - 1].value < entries[i].value {
            return false;
        }
        proof {
            assert forall|a: int, b: int| 0 <= a < b < i + 1 implies entries@[a].value
                >= entries@[b].value by {
                if b == i && a < i - 1 {
                    assert(entries@[a].value >= entries@[i - 1].value);
                }
            }
        }
        i = i + 1;
    }
    true
}

/// Ranks a process table by the given readings, one per row.
fn top_by(processes: &Vec<ProcessInfo>, keys: &Vec<u64>, k: usize) -> (top: Vec<ProcessUsage>)
    requires
        keys.len() == processes.len(),
    ensures
        top@ == top_usage(processes@, keys@, k as nat),
        top.len() == if k <= processes.len() { k } else { processes.len() },
        descending(top@),
{
    let order: Vec<usize> = rank_top(keys, k);
    let n: usize = order.len();
    let mut top: Vec<ProcessUsage> = Vec::new();
    let mut i: usize = 0;
    while i < n
        invariant
            n == order.len(),
            i <= n,
            keys.len() == processes.len(),
            is_ranking(keys@, k as nat, order@),
            top.len() == i,
            forall|j: int|
                0 <= j < i ==> top[j] == usage_entry(
                    processes[order[j] as int],
                    keys[order[j] as int],
                ),
        decreases n - i,
    {
        let at: usize = order[i];
        let p: &ProcessInfo = &processes[at];
        top.push(ProcessUsage { pid: p.pid, name: p.name.clone(), value: keys[at] });
        i = i + 1;
    }
    proof {
        assert(top@ =~= top_usage(processes@, keys@, k as nat));
        assert forall|a: int, b: int| 0 <= a < b < top@.len() implies top@[a].value >= top@[b].value by {
            assert(crate::ranking::outranks(keys@, order@[a] as int, order@[b] as int));
        }
    }
    top
}

/// The `k` processes that use the most CPU, most first, equal users in table order.
pub fn top_cpu_processes(processes: &Vec<ProcessInfo>, k: usize) -> (top: Vec<ProcessUsage>)
    ensures
        top@ == top_usage(processes@, cpu_keys(processes@), k as nat),
        top.len() == if k <= processes.len() { k } else { processes.len() },
        descending(top@),
{
    let n: usize = processes.len();
    let mut keys: Vec<u64> = Vec::new();
    let mut i: usize = 0;
    while i < n
        invariant
            n == processes.len(),
            i <= n,
            keys@ == cpu_keys(processes@).take(i as int),
        decreases n - i,
    {
        keys.push(processes[i].cpu as u64);
        assert(keys@ =~= cpu_keys(processes@).take(i + 1));
        i = i + 1;
    }
    assert(keys@ =~= cpu_keys(processes@));
    top_by(processes, &keys, k)
}

/// The `k` processes that hold the most memory, most first, equal holders in table order.
pub fn top_memory_processes(processes: &Vec<ProcessInfo>, k: usize) -> (top: Vec<ProcessUsage>)
    ensures
        top@ == top_usage(processes@, memory_keys(processes@), k as nat),
        top.len() == if k <= processes.len() { k } else { processes.len() },
        descending(top@),
{
    let n: usize = processes.len();
    let mut keys: Vec<u64> = Vec::new();
    let mut i: usize = 0;
    while i < n
        invariant
            n == processes.len(),
            i <= n,
            keys@ == memory_keys(processes@).take(i as int),
        decreases n - i,
    {
        keys.push(processes[i].memory);
        assert(keys@ =~= memory_keys(processes@).take(i + 1));
        i = i + 1;
    }
    assert(keys@ =~= memory_keys(processes@));
    top_by(processes, &keys, k)
}

impl Sampler {
    /// A sampler whose rankings show `top_k` processes.
    pub fn new(top_k: usize) -> (s: Sampler)
        ensures
            s.top_k == top_k,
    {
        Sampler { top_k }
    }

    /// Turns one reading of the provider into a snapshot. `prior` holds the
    /// interface counters of the previous cycle, read `elapsed_ms` before
    /// this reading; the counters of this reading are handed back for the
    /// next cycle.
    pub fn run_cycle(
        &self,
        raw: RawMetrics,
        prior: Option<ByteCounters>,
        elapsed_ms: u64,
        timestamp: u64,
    ) -> (r: (Snapshot, Option<ByteCounters>))
        ensures
            r.0.wf(),
            r.0.timestamp == timestamp,
            r.0.per_core_cpu@ == raw.per_core_cpu@,
            r.0.avg_cpu == mean_of(raw.per_core_cpu@),
            r.0.total_memory_bytes == raw.total_memory,
            r.0.used_memory_bytes == used_within(raw.used_memory, raw.total_memory),
            r.0.network_down == rate_between(prior, raw.network, elapsed_ms).0,
            r.0.network_up == rate_between(prior, raw.network, elapsed_ms).1,
            r.0.top_cpu_processes@ == top_usage(
                raw.processes@,
                cpu_keys(raw.processes@),
                self.top_k as nat,
            ),
            r.0.top_mem_processes@ == top_usage(
                raw.processes@,
                memory_keys(raw.processes@),
                self.top_k as nat,
            ),
            r.0.disks@ == raw.disks@,
            r.1 == raw.network,
    {
        let avg_cpu: u32 = mean(&raw.per_core_cpu);
        let used: u64 = if raw.used_memory <= raw.total_memory {
            raw.used_memory
        } else {
            raw.total_memory
        };
        let speed: (u64, u64) = rate(prior, raw.network, elapsed_ms);
        let top_cpu: Vec<ProcessUsage> = top_cpu_processes(&raw.processes, self.top_k);
        let top_mem: Vec<ProcessUsage> = top_memory_processes(&raw.processes, self.top_k);
        let counters: Option<ByteCounters> = raw.network;
        let snapshot = Snapshot {
            timestamp,
            per_core_cpu: raw.per_core_cpu,
            avg_cpu,
            total_memory_bytes: raw.total_memory,
            used_memory_bytes: used,
            network_down: speed.0,
            network_up: speed.1,
            top_cpu_processes: top_cpu,
            top_mem_processes: top_mem,
            disks: raw.disks,
        };
        (snapshot, counters)
    }
}

} // verus!
