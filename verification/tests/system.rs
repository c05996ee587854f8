use oxidpulse::model::StorageDriveMetrics;
use oxidpulse::system_info::{
    format_process_memory, get_cpu_diagnostics, get_memory_diagnostics, get_system_summary,
    get_top_processes, CpuSample, ProcessReading, SystemFacts,
};

fn cpu(brand: &str, vendor: &str, usage: u32, freq: u64) -> CpuSample {
    CpuSample { brand: brand.to_string(), vendor_id: vendor.to_string(), usage_tenths: usage, frequency_mhz: freq }
}

fn proc(pid: u32, mem: u64) -> ProcessReading {
    ProcessReading { pid, name: format!("p{}", pid), cpu_usage_tenths: 5, memory_bytes: mem }
}

#[test]
fn cpu_metrics_with_known_clocks() {
    let cs = vec![cpu("  AMD Ryzen 7 7800X3D  ", "AuthenticAMD", 100, 4200), cpu("x", "y", 300, 4000)];
    let m = get_cpu_diagnostics(&cs, Some(1), 200);
    assert_eq!(m.model, "AMD Ryzen 7 7800X3D");
    assert_eq!(m.vendor, "AuthenticAMD");
    assert_eq!((m.physical_cores, m.logical_cores), (1, 2));
    assert_eq!((m.base_frequency_mhz, m.current_frequency_mhz), (4100, 4100));
    assert_eq!(m.per_core_usage_tenths, vec![100, 300]);
    assert_eq!(m.per_core_frequencies, vec![4200, 4000]);
    // 41.5 °C plus a quarter of the load.
    assert_eq!(m.temperature_tenths, Some(465));
    assert!(!m.is_throttling);
}

#[test]
fn cpu_metrics_with_unknown_clocks() {
    let cs: Vec<CpuSample> = (0..6).map(|_| cpu("", "", 950, 0)).collect();
    let m = get_cpu_diagnostics(&cs, None, 950);
    assert_eq!(m.model, "Apple Silicon Processor");
    assert_eq!(m.vendor, "Apple ARM64");
    assert_eq!(m.physical_cores, 6);
    assert_eq!(m.per_core_frequencies, vec![3492, 3492, 3492, 3492, 2424, 2424]);
    assert_eq!(m.base_frequency_mhz, 3136);
    assert!(!m.is_throttling);
    let none = get_cpu_diagnostics(&Vec::new(), None, 0);
    assert_eq!(none.model, "Apple M2 (8 Cores)");
    assert_eq!(none.base_frequency_mhz, 3200);
}

#[test]
fn cpu_throttling_needs_load_and_low_clock() {
    let cs = vec![cpu("Slow", "v", 990, 1800)];
    assert!(get_cpu_diagnostics(&cs, None, 901).is_throttling);
    assert!(!get_cpu_diagnostics(&cs, None, 900).is_throttling);
}

#[test]
fn memory_metrics() {
    let m = get_memory_diagnostics(16_000, 4_000, 12_000, 11_000, 0, 0, 0);
    assert_eq!(m.usage_percent_tenths, 250);
    assert_eq!(m.swap_usage_percent_tenths, 0);
    let m = get_memory_diagnostics(3, 1, 2, 2, 3, 2, 1);
    assert_eq!((m.usage_percent_tenths, m.swap_usage_percent_tenths), (333, 667));
}

#[test]
fn process_memory_text() {
    assert_eq!(format_process_memory(3 * (1 << 29)), "1.50 GB");
    assert_eq!(format_process_memory(512 * (1 << 20) + (1 << 19)), "512.5 MB");
    assert_eq!(format_process_memory(5 << 16), "0.3 MB");
    assert_eq!(format_process_memory(1 << 18), "0.2 MB");
    assert_eq!(format_process_memory(0), "0.0 MB");
}

#[test]
fn top_processes_by_memory() {
    let ps = vec![proc(1, 100), proc(2, 300), proc(3, 200), proc(4, 300), proc(5, 50)];
    let top = get_top_processes(ps, 3);
    let pids: Vec<u32> = top.iter().map(|p| p.pid).collect();
    // Equal usage keeps the order the processes were listed in.
    assert_eq!(pids, vec![2, 4, 3]);
    assert_eq!(top[0].name, "p2");
    assert_eq!(top[0].memory_formatted, "0.0 MB");
    let all = get_top_processes(vec![proc(1, 1), proc(2, 2)], 10);
    assert_eq!(all.len(), 2);
    assert_eq!(all[0].pid, 2);
    assert!(get_top_processes(Vec::new(), 5).is_empty());
}

#[test]
fn system_summary() {
    let f = SystemFacts {
        uptime_seconds: 3 * 3600 + 25 * 60 + 7,
        total_memory_bytes: 17_179_869_184,
        first_cpu_brand: Some("  Intel Core i7  ".to_string()),
        cpu_count: 16,
        os_name: Some("Windows".to_string()),
        os_version: None,
        kernel_version: None,
        host_name: Some("rig".to_string()),
        is_admin: false,
    };
    let s = get_system_summary(&f, &Vec::<StorageDriveMetrics>::new());
    assert_eq!(s.uptime_formatted, "3h 25m");
    assert_eq!(s.total_memory_formatted, "16.0 GB");
    assert_eq!(s.cpu_model, "Intel Core i7");
    assert_eq!(s.os_name, "Windows");
    assert_eq!(s.os_version, "15.0 Sequoia");
    assert_eq!(s.kernel_version, "Darwin 24.0");
    assert_eq!(s.hostname, "rig");
    assert_eq!(s.primary_storage_model, "APPLE SSD AP0256Z (256 GB)");
    assert!(!s.is_admin);
}
