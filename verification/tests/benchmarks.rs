use oxidpulse::bench::{
    assess_cpu_benchmark, assess_disk_speed, assess_ram_benchmark, benchmark_root,
    choose_disk_test_size, choose_ram_threads, classify_drive_tier, clean_drive,
    compute_cpu_score, fill_pattern, latency_probe_indices, match_drive_model, random_block_offsets,
    rate, rate_cpu_tier, sequential_pattern,
};
use oxidpulse::model::StorageDriveMetrics;

fn drive(model: &str, bus: &str) -> StorageDriveMetrics {
    StorageDriveMetrics {
        device_id: "PhysicalDrive0".to_string(),
        model: model.to_string(),
        serial_number: String::new(),
        firmware_rev: String::new(),
        bus_type: bus.to_string(),
        size_bytes: 0,
        size_formatted: "1 TB".to_string(),
        smart_supported: true,
        health_status: "Good".to_string(),
        health_score: 100,
        percentage_used: 0,
        available_spare: 100,
        available_spare_threshold: 10,
        critical_warnings: Vec::new(),
        temperature_tenths: 350,
        data_units_read_gb: 0,
        data_units_written_gb: 0,
        power_on_hours: 0,
        power_cycles: 0,
        unsafe_shutdowns: 0,
        media_errors: 0,
        smart_attributes: Vec::new(),
    }
}

#[test]
fn cpu_scores_are_calibrated() {
    // 18.2 million operations per second is worth 520 points.
    assert_eq!(compute_cpu_score(45_500_000, 2_500_000), 520);
    assert_eq!(compute_cpu_score(400_000_000, 3_000_000), 3810);
    assert_eq!(compute_cpu_score(0, 0), 0);
    assert_eq!(compute_cpu_score(5, 0), u32::MAX);
}

#[test]
fn cpu_benchmark_result() {
    let r = assess_cpu_benchmark("Test CPU".to_string(), 12, 45_500_000, 2_500_000, 400_000_000, 3_000_000, 450);
    assert_eq!((r.single_core_score, r.multi_core_score), (520, 3810));
    assert_eq!(r.multi_thread_ratio_tenths, 73);
    assert_eq!(r.gflops_centi, 400);
    assert_eq!((r.initial_temp_tenths, r.peak_temp_tenths), (450, 570));
    assert_eq!(r.duration_seconds, 6);
    assert_eq!(r.threads_used, 12);
    assert_eq!(r.reference_comparisons.len(), 8);
    assert_eq!(r.reference_comparisons[0].cpu_name, "AMD Ryzen 5 3600 (6C/12T)");
    assert_eq!(r.reference_comparisons[0].single_relative_tenths, 1016);
    assert_eq!(r.reference_comparisons[0].multi_relative_tenths, 925);
    assert_eq!(r.rating_tier, "Mainstream Performance Gaming Tier");
    let hot = assess_cpu_benchmark("x".to_string(), 1, 0, 1, 0, 1, 800);
    assert_eq!(hot.peak_temp_tenths, 840);
    assert_eq!(hot.multi_thread_ratio_tenths, 10);
}

#[test]
fn cpu_tiers() {
    assert_eq!(rate_cpu_tier(12000), "Enthusiast / Heavy Production Class");
    assert_eq!(rate_cpu_tier(7000), "High-End Gaming & Workstation Tier");
    assert_eq!(rate_cpu_tier(2000), "Entry-Level / Casual Tier");
    assert_eq!(rate_cpu_tier(1999), "Basic Efficiency Tier");
}

#[test]
fn disk_set_up() {
    assert_eq!(choose_disk_test_size(None), 256);
    assert_eq!(choose_disk_test_size(Some(10)), 64);
    assert_eq!(choose_disk_test_size(Some(5000)), 2048);
    let drives = vec![drive("Samsung 990 PRO", "NVMe"), drive("WD Blue", "SATA"), drive("Crucial P3", "NVMe")];
    assert_eq!(match_drive_model("c:\\", &drives), "Samsung 990 PRO (NVMe)");
    assert_eq!(match_drive_model("D:", &drives), "Crucial P3 (NVMe)");
    let two = vec![drive("Samsung 990 PRO", "NVMe"), drive("WD Blue", "SATA")];
    assert_eq!(match_drive_model("D:", &two), "WD Blue (SATA)");
    assert_eq!(match_drive_model("D:", &Vec::new()), "D: (Secondary Drive)");
    assert_eq!(match_drive_model("C:", &Vec::new()), "C: (Windows Drive)");
    assert_eq!(match_drive_model("/mnt/data", &drives), "Volume (/mnt/data)");
    assert_eq!(sequential_pattern(4), vec![0xAA, 0xAB, 0xA8, 0xA9]);
    assert_eq!(random_block_offsets(0x9e3779b97f4a7c15, 3, 256 * 256 - 1), vec![149000192, 240594944, 67641344]);
}

#[test]
fn disk_benchmark_file_location() {
    assert_eq!(clean_drive("  \"D:\\\" "), "D:\\");
    assert_eq!(clean_drive("'E:'"), "E:");
    assert_eq!(benchmark_root("D:", false), Some("D:\\".to_string()));
    assert_eq!(benchmark_root("D:\\", false), Some("D:\\".to_string()));
    assert_eq!(benchmark_root("/mnt/data/", true), Some("/mnt/data/".to_string()));
    assert_eq!(benchmark_root("scratch", false), None);
}

#[test]
fn disk_benchmark_result() {
    let r = assess_disk_speed("C:".to_string(), "Samsung".to_string(), 256, 1_000_000, 500_000, 250_000, 200_000);
    assert_eq!((r.seq_write_tenths, r.seq_read_tenths), (2560, 5120));
    assert_eq!((r.random_4k_read_tenths, r.random_4k_read_iops), (156, 4000));
    assert_eq!((r.random_4k_write_tenths, r.random_4k_write_iops), (98, 2500));
    assert_eq!(r.access_latency_centi_ms, 25);
    assert_eq!((r.seq_q1t1_read_tenths, r.seq_q1t1_write_tenths), (3789, 2022));
    assert_eq!((r.random_4k_q1t1_read_tenths, r.random_4k_q1t1_read_iops), (150, 3800));
    assert_eq!((r.random_4k_q1t1_write_tenths, r.random_4k_q1t1_write_iops), (350, 8500));
    assert_eq!(r.drive_tier, "SATA III Solid State Drive (SSD)");
    assert_eq!(classify_drive_tier(45000), "PCIe Gen4 / Gen5 NVMe (Ultra High-Speed)");
    assert_eq!(classify_drive_tier(20000), "PCIe Gen3 / Gen4 NVMe SSD");
    assert_eq!(classify_drive_tier(8000), "PCIe NVMe / High-Speed Flash");
    assert_eq!(classify_drive_tier(3499), "Mechanical HDD / External Storage");
    assert_eq!(rate(10, 0), u64::MAX);
}

#[test]
fn ram_benchmark() {
    assert_eq!(choose_ram_threads(None), 4);
    assert_eq!(choose_ram_threads(Some(1)), 2);
    assert_eq!(choose_ram_threads(Some(32)), 6);
    let mut buf = vec![0u64; 3];
    fill_pattern(&mut buf);
    assert_eq!(buf, vec![0x55AA55AA55AA55AA, 0x55AA55AA55AA55AB, 0x55AA55AA55AA55A8]);
    let r = assess_ram_benchmark(536_870_912, 50_000, 25_000, 100_000, 9_000_000);
    assert_eq!((r.read_speed_tenths, r.write_speed_tenths, r.latency_tenths_ns), (200, 100, 900));
    assert_eq!(r.score, 2100);
    assert_eq!(r.tier, "DDR4 High-Speed Dual Channel");
    let slow = assess_ram_benchmark(1, 1_000_000, 1_000_000, 1, 1_000_000);
    assert_eq!(slow.score, 100);
    assert_eq!(slow.tier, "Standard Speed Memory");
    assert_eq!(latency_probe_indices(3, 64 * 1024 * 1024), vec![47283531, 50396736, 58557146]);
}
