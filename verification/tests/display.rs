use system_monitor::display::{MonitorApp, HISTORY_LEN, REFRESH_MS};
use system_monitor::snapshot::{ProcessInfo, ProcessUsage, RawMetrics, Sampler, Snapshot};

fn host(cpu: u32, used: u64) -> Snapshot {
    let raw = RawMetrics {
        per_core_cpu: vec![cpu, cpu],
        total_memory: 1_000,
        used_memory: used,
        processes: vec![
            ProcessInfo { pid: 1, name: "a".to_string(), cpu: 3_000, memory: 1_048_576 },
            ProcessInfo { pid: 2, name: "b".to_string(), cpu: 9_000, memory: 524_288 },
        ],
        disks: Vec::new(),
        network: None,
    };
    Sampler::new(5).run_cycle(raw, None, 5_000, 0).0
}

#[test]
fn display_starts_empty_and_dark() {
    let app = MonitorApp::new(500);
    assert_eq!(HISTORY_LEN, 60);
    assert_eq!(app.cpu_history(), &vec![0u32; 60]);
    assert_eq!(app.ram_history(), &vec![0u32; 60]);
    assert_eq!(app.top_cpu(), &Vec::new());
    assert_eq!(app.top_ram(), &Vec::new());
    assert!(app.dark_mode());
    assert_eq!(app.cpu_label(), "CPU: 0.00%");
    assert_eq!(app.ram_label(), "RAM: 0.00%");
    let app = MonitorApp::default();
    assert_eq!(app.cpu_history().len(), 60);
    assert!(app.dark_mode());
}

#[test]
fn display_takes_a_snapshot_when_due() {
    let mut app = MonitorApp::new(0);
    assert!(app.refresh(1_001, &host(4_250, 300)));
    assert_eq!(app.cpu_history().len(), 60);
    assert_eq!(app.cpu_history()[59], 4_250);
    assert_eq!(app.cpu_history()[58], 0);
    assert_eq!(app.ram_history()[59], 3_000);
    assert_eq!(
        app.top_cpu(),
        &vec![
            ProcessUsage { pid: 2, name: "b".to_string(), value: 4_500 },
            ProcessUsage { pid: 1, name: "a".to_string(), value: 1_500 },
        ]
    );
    assert_eq!(
        app.top_ram(),
        &vec![
            ProcessUsage { pid: 1, name: "a".to_string(), value: 100 },
            ProcessUsage { pid: 2, name: "b".to_string(), value: 50 },
        ]
    );
    assert_eq!(app.cpu_label(), "CPU: 42.50%");
    assert_eq!(app.ram_label(), "RAM: 30.00%");
}

#[test]
fn display_refreshes_at_most_once_a_second() {
    assert_eq!(REFRESH_MS, 1_000);
    let mut app = MonitorApp::new(0);
    assert!(!app.refresh(1_000, &host(4_250, 300)));
    assert_eq!(app.cpu_history(), &vec![0u32; 60]);
    assert!(app.refresh(1_001, &host(4_250, 300)));
    assert!(!app.refresh(2_001, &host(9_000, 900)));
    assert_eq!(app.cpu_history()[59], 4_250);
    assert!(app.refresh(2_002, &host(9_000, 900)));
    assert_eq!(app.cpu_history()[59], 9_000);
    assert_eq!(app.cpu_history()[58], 4_250);
}

#[test]
fn offering_the_same_snapshot_twice_changes_nothing() {
    let snapshot = host(4_250, 300);
    let mut app = MonitorApp::new(0);
    assert!(app.refresh(5_000, &snapshot));
    let cpu = app.cpu_history().clone();
    let ram = app.ram_history().clone();
    let top = app.top_cpu().clone();
    assert!(!app.refresh(5_000, &snapshot));
    assert_eq!(app.cpu_history(), &cpu);
    assert_eq!(app.ram_history(), &ram);
    assert_eq!(app.top_cpu(), &top);
    assert_eq!(snapshot, host(4_250, 300));
}

#[test]
fn history_drops_the_oldest_sample() {
    let mut app = MonitorApp::new(0);
    let mut now = 0;
    for i in 0..61u32 {
        now += 2_000;
        assert!(app.refresh(now, &host(i + 1, 0)));
    }
    assert_eq!(app.cpu_history().len(), 60);
    let expected: Vec<u32> = (2..62).collect();
    assert_eq!(app.cpu_history(), &expected);
}

#[test]
fn clock_running_backwards_does_not_refresh() {
    let mut app = MonitorApp::new(10_000);
    assert!(!app.refresh(5_000, &host(4_250, 300)));
    assert_eq!(app.cpu_history(), &vec![0u32; 60]);
}

#[test]
fn theme_toggles() {
    let mut app = MonitorApp::new(0);
    assert_eq!(app.theme_button_label(), "Modo Claro");
    app.toggle_theme();
    assert!(!app.dark_mode());
    assert_eq!(app.theme_button_label(), "Modo Oscuro");
    app.toggle_theme();
    assert!(app.dark_mode());
    assert_eq!(app.cpu_history(), &vec![0u32; 60]);
}
