use system_monitor::network::ByteCounters;
use system_monitor::snapshot::{
    is_descending, DiskInfo, ProcessInfo, ProcessUsage, RawMetrics, Sampler, DEFAULT_TOP_K,
};

fn reading() -> RawMetrics {
    RawMetrics {
        per_core_cpu: vec![1_000, 3_000, 5_000, 7_000],
        total_memory: 8_000,
        used_memory: 2_000,
        processes: vec![
            ProcessInfo { pid: 10, name: "idle".to_string(), cpu: 100, memory: 50 },
            ProcessInfo { pid: 11, name: "busy".to_string(), cpu: 30_000, memory: 700 },
            ProcessInfo { pid: 12, name: "big".to_string(), cpu: 2_000, memory: 9_000 },
        ],
        disks: vec![DiskInfo {
            mount: "/".to_string(),
            kind: "SSD".to_string(),
            read_bytes: 1_048_576,
            written_bytes: 524_288,
        }],
        network: Some(ByteCounters { received: 6_553_600, transmitted: 655_360 }),
    }
}

#[test]
fn cycle_builds_the_snapshot() {
    let sampler = Sampler::new(2);
    let prior = Some(ByteCounters { received: 0, transmitted: 0 });
    let (snapshot, counters) = sampler.run_cycle(reading(), prior, 5_000, 1_234);
    assert_eq!(snapshot.timestamp, 1_234);
    assert_eq!(snapshot.per_core_cpu, vec![1_000, 3_000, 5_000, 7_000]);
    assert_eq!(snapshot.avg_cpu, 4_000);
    assert_eq!(snapshot.total_memory_bytes, 8_000);
    assert_eq!(snapshot.used_memory_bytes, 2_000);
    assert_eq!(snapshot.memory_percent(), 2_500);
    assert_eq!(snapshot.network_down, 1_000);
    assert_eq!(snapshot.network_up, 100);
    assert_eq!(
        snapshot.top_cpu_processes,
        vec![
            ProcessUsage { pid: 11, name: "busy".to_string(), value: 30_000 },
            ProcessUsage { pid: 12, name: "big".to_string(), value: 2_000 },
        ]
    );
    assert_eq!(
        snapshot.top_mem_processes,
        vec![
            ProcessUsage { pid: 12, name: "big".to_string(), value: 9_000 },
            ProcessUsage { pid: 11, name: "busy".to_string(), value: 700 },
        ]
    );
    assert_eq!(snapshot.disks, reading().disks);
    assert_eq!(snapshot.core_count(), 4);
    assert_eq!(counters, Some(ByteCounters { received: 6_553_600, transmitted: 655_360 }));
}

#[test]
fn cycle_holds_used_memory_to_the_total() {
    let mut raw = reading();
    raw.used_memory = 9_500;
    let (snapshot, _) = Sampler::new(DEFAULT_TOP_K).run_cycle(raw, None, 5_000, 0);
    assert_eq!(snapshot.used_memory_bytes, 8_000);
    assert_eq!(snapshot.total_memory_bytes, 8_000);
    assert_eq!(snapshot.memory_percent(), 10_000);
}

#[test]
fn cycle_without_memory_reports_zero_percent() {
    let mut raw = reading();
    raw.total_memory = 0;
    raw.used_memory = 0;
    let (snapshot, _) = Sampler::new(DEFAULT_TOP_K).run_cycle(raw, None, 5_000, 0);
    assert_eq!(snapshot.memory_percent(), 0);
    let mut raw = reading();
    raw.total_memory = 0;
    raw.used_memory = 700;
    let (snapshot, _) = Sampler::new(DEFAULT_TOP_K).run_cycle(raw, None, 5_000, 0);
    assert_eq!(snapshot.used_memory_bytes, 0);
    assert_eq!(snapshot.memory_percent(), 0);
}

#[test]
fn cycle_without_interface_reports_no_throughput() {
    let mut raw = reading();
    raw.network = None;
    let prior = Some(ByteCounters { received: 0, transmitted: 0 });
    let (snapshot, counters) = Sampler::new(DEFAULT_TOP_K).run_cycle(raw, prior, 5_000, 0);
    assert_eq!((snapshot.network_down, snapshot.network_up), (0, 0));
    assert_eq!(counters, None);
}

#[test]
fn cycle_first_reading_has_no_throughput() {
    let (snapshot, counters) = Sampler::new(DEFAULT_TOP_K).run_cycle(reading(), None, 5_000, 0);
    assert_eq!((snapshot.network_down, snapshot.network_up), (0, 0));
    assert_eq!(counters, reading().network);
}

#[test]
fn cycle_after_counter_reset_reports_zero() {
    let prior = Some(ByteCounters { received: u64::MAX, transmitted: u64::MAX });
    let (snapshot, _) = Sampler::new(DEFAULT_TOP_K).run_cycle(reading(), prior, 5_000, 0);
    assert_eq!((snapshot.network_down, snapshot.network_up), (0, 0));
}

#[test]
fn cycle_without_cores_or_processes() {
    let raw = RawMetrics {
        per_core_cpu: Vec::new(),
        total_memory: 0,
        used_memory: 0,
        processes: Vec::new(),
        disks: Vec::new(),
        network: None,
    };
    let (snapshot, _) = Sampler::new(DEFAULT_TOP_K).run_cycle(raw, None, 0, 7);
    assert_eq!(snapshot.avg_cpu, 0);
    assert_eq!(snapshot.core_count(), 0);
    assert_eq!(snapshot.top_cpu_processes, Vec::new());
    assert_eq!(snapshot.top_mem_processes, Vec::new());
}

#[test]
fn default_ranking_shows_five() {
    assert_eq!(DEFAULT_TOP_K, 5);
    let mut raw = reading();
    raw.processes = (0..8u32)
        .map(|i| ProcessInfo { pid: i, name: format!("p{}", i), cpu: i * 10, memory: 0 })
        .collect();
    let (snapshot, _) = Sampler::new(DEFAULT_TOP_K).run_cycle(raw, None, 5_000, 0);
    let pids: Vec<u32> = snapshot.top_cpu_processes.iter().map(|p| p.pid).collect();
    assert_eq!(pids, vec![7, 6, 5, 4, 3]);
    let pids: Vec<u32> = snapshot.top_mem_processes.iter().map(|p| p.pid).collect();
    assert_eq!(pids, vec![0, 1, 2, 3, 4]);
}

#[test]
fn sampled_snapshot_is_well_formed() {
    let (snapshot, _) = Sampler::new(DEFAULT_TOP_K).run_cycle(reading(), None, 5_000, 0);
    assert!(snapshot.is_well_formed());
    assert_eq!(snapshot.clone(), snapshot);
}

#[test]
fn malformed_snapshots_are_recognised() {
    let (good, _) = Sampler::new(DEFAULT_TOP_K).run_cycle(reading(), None, 5_000, 0);
    let mut more_used_than_there_is = good.clone();
    more_used_than_there_is.used_memory_bytes = good.total_memory_bytes + 1;
    assert!(!more_used_than_there_is.is_well_formed());
    let mut wrong_average = good.clone();
    wrong_average.avg_cpu = good.avg_cpu + 1;
    assert!(!wrong_average.is_well_formed());
    let mut unsorted = good.clone();
    unsorted.top_cpu_processes.reverse();
    assert!(!unsorted.is_well_formed());
    let mut unsorted = good.clone();
    unsorted.top_mem_processes.reverse();
    assert!(!unsorted.is_well_formed());
}

#[test]
fn descending_rankings() {
    let entry = |value: u64| ProcessUsage { pid: 1, name: String::new(), value };
    assert!(is_descending(&Vec::new()));
    assert!(is_descending(&vec![entry(3)]));
    assert!(is_descending(&vec![entry(5), entry(5), entry(3)]));
    assert!(!is_descending(&vec![entry(3), entry(5)]));
    assert!(!is_descending(&vec![entry(9), entry(3), entry(5)]));
}
