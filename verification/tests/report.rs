use system_monitor::network::ByteCounters;
use system_monitor::report::{render_log, render_record, render_record_at, MetricsRecord};
use system_monitor::snapshot::{DiskInfo, ProcessInfo, RawMetrics, Sampler, Snapshot};
use system_monitor::timefmt::timestamp_text;

fn sample() -> Snapshot {
    sample_at(0)
}

fn sample_at(timestamp: u64) -> Snapshot {
    let raw = RawMetrics {
        per_core_cpu: vec![1_250, 8_775],
        total_memory: 8_589_934_592,
        used_memory: 2_147_483_648,
        processes: vec![
            ProcessInfo { pid: 10, name: "idle".to_string(), cpu: 100, memory: 52_428_800 },
            ProcessInfo { pid: 11, name: "busy".to_string(), cpu: 15_050, memory: 1_572_864 },
        ],
        disks: vec![
            DiskInfo {
                mount: "/".to_string(),
                kind: "SSD".to_string(),
                read_bytes: 1_048_576,
                written_bytes: 524_288,
            },
            DiskInfo {
                mount: "/data".to_string(),
                kind: "HDD".to_string(),
                read_bytes: 0,
                written_bytes: 10_485_760,
            },
        ],
        network: Some(ByteCounters { received: 6_553_600, transmitted: 655_360 }),
    };
    let prior = Some(ByteCounters { received: 0, transmitted: 0 });
    Sampler::new(5).run_cycle(raw, prior, 5_000, timestamp).0
}

fn expected() -> MetricsRecord {
    MetricsRecord {
        timestamp: "2024-05-06 07:08:09".to_string(),
        per_core_cpu: "CPU 1: 12.50% | CPU 2: 87.75%".to_string(),
        avg_cpu: "50.12".to_string(),
        total_memory: "8192.00 MB".to_string(),
        used_memory: "2048.00 MB".to_string(),
        top_mem_processes: "[10] idle (Mem: 50.00 MB) | [11] busy (Mem: 1.50 MB)".to_string(),
        disks: "[/][Tipo: SSD] Lectura: 1.00 MB | Escritura: 0.50 MB | \
                [/data][Tipo: HDD] Lectura: 0.00 MB | Escritura: 10.00 MB"
            .to_string(),
        network: "Wi-Fi: 10.00 Mbps (down) / 1.00 Mbps (up)".to_string(),
        top_cpu_processes: "[11] busy (CPU: 75.25%) | [10] idle (CPU: 0.50%)".to_string(),
    }
}

#[test]
fn record_fields() {
    let record = render_record(&sample(), "2024-05-06 07:08:09", "Wi-Fi");
    assert_eq!(record, expected());
}

#[test]
fn record_of_an_empty_host() {
    let raw = RawMetrics {
        per_core_cpu: Vec::new(),
        total_memory: 0,
        used_memory: 0,
        processes: Vec::new(),
        disks: Vec::new(),
        network: None,
    };
    let snapshot = Sampler::new(5).run_cycle(raw, None, 5_000, 0).0;
    let record = render_record(&snapshot, "", "eth0");
    assert_eq!(record.timestamp, "");
    assert_eq!(record.per_core_cpu, "");
    assert_eq!(record.avg_cpu, "0.00");
    assert_eq!(record.total_memory, "0.00 MB");
    assert_eq!(record.used_memory, "0.00 MB");
    assert_eq!(record.top_mem_processes, "");
    assert_eq!(record.top_cpu_processes, "");
    assert_eq!(record.disks, "");
    assert_eq!(record.network, "eth0: 0.00 Mbps (down) / 0.00 Mbps (up)");
}

#[test]
fn rendering_twice_gives_the_same_record() {
    let snapshot = sample();
    let once = render_record(&snapshot, "2024-05-06 07:08:09", "Wi-Fi");
    let twice = render_record(&snapshot, "2024-05-06 07:08:09", "Wi-Fi");
    assert_eq!(once, twice);
    assert_eq!(render_log(&once, true), render_log(&twice, true));
    assert_eq!(snapshot, sample());
}

#[test]
fn record_at_the_instant_of_the_snapshot() {
    let record = render_record_at(&sample_at(1_714_979_289_000), 0, "Wi-Fi");
    assert_eq!(record, expected());
    let record = render_record_at(&sample_at(1_714_979_289_000), -3_600, "Wi-Fi");
    assert_eq!(record.timestamp, "2024-05-06 06:08:09");
    assert_eq!(record.avg_cpu, "50.12");
}

#[test]
fn record_beyond_the_calendar_shows_the_milliseconds() {
    let record = render_record_at(&sample_at(u64::MAX), 0, "Wi-Fi");
    assert_eq!(record.timestamp, "18446744073709551615");
    assert_eq!(record.network, "Wi-Fi: 10.00 Mbps (down) / 1.00 Mbps (up)");
}

#[test]
fn log_block_of_a_record_that_was_not_stored() {
    let block = render_log(&expected(), false);
    assert!(!block.contains("SQLite"));
    assert!(block.starts_with("=== Información del sistema ===\nFecha y hora: 2024-05-06 07:08:09\n"));
    assert!(block.ends_with(
        "Redes:\nWi-Fi: 10.00 Mbps (down) / 1.00 Mbps (up)\n\
         =====================================\n\n"
    ));
}

#[test]
fn log_block() {
    let block = render_log(&expected(), true);
    assert_eq!(
        block,
        "=== Información del sistema ===\n\
         Fecha y hora: 2024-05-06 07:08:09\n\
         CPU Uso (por núcleo): CPU 1: 12.50% | CPU 2: 87.75%\n\
         CPU Uso (promedio total): 50.12%\n\
         Memoria total: 8192.00 MB, Memoria usada: 2048.00 MB\n\
         Procesos más demandantes de CPU:\n\
         [11] busy (CPU: 75.25%) | [10] idle (CPU: 0.50%)\n\
         Procesos más demandantes de RAM:\n\
         [10] idle (Mem: 50.00 MB) | [11] busy (Mem: 1.50 MB)\n\
         Discos:\n\
         [/][Tipo: SSD] Lectura: 1.00 MB | Escritura: 0.50 MB | \
         [/data][Tipo: HDD] Lectura: 0.00 MB | Escritura: 10.00 MB\n\
         Redes:\n\
         Wi-Fi: 10.00 Mbps (down) / 1.00 Mbps (up)\n\
         Datos insertados en SQLite exitosamente.\n\
         =====================================\n\n"
    );
}

#[test]
fn timestamp_at_the_epoch() {
    assert_eq!(timestamp_text(0, 0), Some("1970-01-01 00:00:00".to_string()));
}

#[test]
fn timestamp_drops_the_milliseconds() {
    assert_eq!(timestamp_text(947_638_923_004, 0), Some("2000-01-12 01:02:03".to_string()));
    assert_eq!(timestamp_text(947_638_923_999, 0), Some("2000-01-12 01:02:03".to_string()));
}

#[test]
fn timestamp_follows_the_offset() {
    assert_eq!(timestamp_text(0, 3_600), Some("1970-01-01 01:00:00".to_string()));
    assert_eq!(timestamp_text(0, -3_600), Some("1969-12-31 23:00:00".to_string()));
    assert_eq!(timestamp_text(1_714_979_289_000, 7_200), Some("2024-05-06 09:08:09".to_string()));
}

#[test]
fn timestamp_beyond_the_calendar_is_none() {
    assert_eq!(timestamp_text(u64::MAX, 0), None);
    assert_eq!(timestamp_text(9_223_372_036_854_775_807, 0), None);
    assert_eq!(timestamp_text(9_223_372_036_854_775_807, 1), None);
}
