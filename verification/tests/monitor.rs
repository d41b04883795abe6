use system_monitor::monitor::Monitor;
use system_monitor::network::ByteCounters;
use system_monitor::snapshot::{DiskInfo, RawMetrics};

fn first_reading() -> RawMetrics {
    RawMetrics {
        per_core_cpu: vec![2_000, 4_000],
        total_memory: 16_000,
        used_memory: 4_000,
        processes: Vec::new(),
        disks: vec![DiskInfo {
            mount: "C:\\".to_string(),
            kind: "SSD".to_string(),
            read_bytes: 3_145_728,
            written_bytes: 1_310_720,
        }],
        network: Some(ByteCounters { received: 1_048_576, transmitted: 131_072 }),
    }
}

#[test]
fn monitor_reports_the_reading() {
    let monitor = Monitor::new(first_reading());
    assert_eq!(monitor.get_cpu_usage(), 3_000);
    assert_eq!(monitor.get_memory_usage(), (16_000, 4_000));
    assert_eq!(monitor.get_network_usage(), (800, 100));
    assert_eq!(
        monitor.get_disk_usage(),
        vec!["[C:\\] Tipo: SSD | Lectura: 3.00 MB | Escritura: 1.25 MB".to_string()]
    );
}

#[test]
fn monitor_update_replaces_the_reading() {
    let mut monitor = Monitor::new(first_reading());
    monitor.update_metrics(RawMetrics {
        per_core_cpu: vec![9_000],
        total_memory: 100,
        used_memory: 150,
        processes: Vec::new(),
        disks: Vec::new(),
        network: None,
    });
    assert_eq!(monitor.get_cpu_usage(), 9_000);
    assert_eq!(monitor.get_memory_usage(), (100, 150));
    assert_eq!(monitor.get_network_usage(), (0, 0));
    assert_eq!(monitor.get_disk_usage(), Vec::<String>::new());
}

#[test]
fn monitor_without_cores_reports_zero() {
    let mut reading = first_reading();
    reading.per_core_cpu = Vec::new();
    assert_eq!(Monitor::new(reading).get_cpu_usage(), 0);
}
