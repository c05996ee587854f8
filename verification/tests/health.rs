use oxidpulse::crash_dump::{
    crash_detail, hex_text, read_dump_bugcheck, read_faulting_driver,
    assess_windows_integrity, get_crash_dump_diagnostics, get_generic_clean_dumps,
    is_crash_report_name, read_device_records, read_event_records, scan_linux_crash_reports,
    scan_macos_panic_reports, CrashScan,
    DumpFileEntry, RawDeviceRecord, RawEventRecord, ReportKind,
};
use oxidpulse::model::{CrashDumpInfo, SystemSummary};
use oxidpulse::power::get_power_throttling_diagnostics;
use oxidpulse::scoring::{compute_overall_score, generate_overall_health_report, status_level_text};
use oxidpulse::sensors::{query_windows_sensors, read_mac_display_record};
use oxidpulse::storage::{
    detect_drive_size, nvme_drive_metrics, read_le, read_lsblk_records, read_mac_nvme_records,
    smart_flag_messages,
};
use oxidpulse::system_info::{get_cpu_diagnostics, CpuSample};

fn entry(name: &str, time: Option<&str>) -> DumpFileEntry {
    DumpFileEntry { file_name: name.to_string(), path: format!("/dumps/{}", name), modified: time.map(|t| t.to_string()), contents: Vec::new() }
}

fn event(provider: &str, id: u64, category: &str) -> RawEventRecord {
    RawEventRecord {
        time: Some("2024-05-01 10:00:00".to_string()),
        provider: Some(provider.to_string()),
        id: Some(id),
        category: Some(category.to_string()),
        level: None,
        title: None,
        description: None,
    }
}

fn summary() -> SystemSummary {
    SystemSummary {
        os_name: "Windows".to_string(),
        os_version: "11".to_string(),
        kernel_version: "10.0".to_string(),
        hostname: "rig".to_string(),
        uptime_seconds: 60,
        uptime_formatted: "0h 1m".to_string(),
        cpu_model: "cpu".to_string(),
        cpu_cores: 8,
        total_memory_formatted: "16.0 GB".to_string(),
        primary_storage_model: "disk".to_string(),
        is_admin: true,
    }
}

fn nvme_log() -> Vec<u8> {
    let mut log = vec![0u8; 512];
    log[0] = 0x01 | 0x08;
    log[1] = 0x3A; // 314 K = 41 °C
    log[2] = 0x01;
    log[3] = 90;
    log[4] = 10;
    log[5] = 30;
    log[48] = 0x40; // 0x0F4240 units = 1_000_000
    log[49] = 0x42;
    log[50] = 0x0F;
    log[128] = 200;
    log[160] = 2;
    log
}

#[test]
fn nvme_health_log() {
    let log = nvme_log();
    assert_eq!(read_le(&log, 1, 2), 314);
    let d = nvme_drive_metrics(2, "Samsung SSD 980 1TB", "S123", "1B2QGXA7", &log, 1_000_000_000_000, "1.00 TB").unwrap();
    assert_eq!(d.device_id, "PhysicalDrive2");
    assert_eq!(d.bus_type, "NVMe");
    assert_eq!(d.temperature_tenths, 410);
    assert_eq!(d.health_score, 70);
    assert_eq!(d.health_status, "Critical");
    assert_eq!(d.critical_warnings, vec!["Available spare below threshold".to_string(), "Media placed in read-only mode".to_string()]);
    assert_eq!(d.data_units_written_gb, 512);
    assert_eq!(d.power_on_hours, 200);
    assert_eq!(d.media_errors, 2);
    assert!(nvme_drive_metrics(0, "", "", "", &log[..100], 0, "").is_none());
    let unnamed = nvme_drive_metrics(0, "", "", "", &vec![0u8; 512], 0, "").unwrap();
    assert_eq!(unnamed.model, "NVMe Solid State Drive");
    assert_eq!(unnamed.temperature_tenths, 380);
    assert_eq!(unnamed.health_status, "Critical");
    assert_eq!(smart_flag_messages(0x10), vec!["Volatile memory backup failed".to_string()]);
}

#[test]
fn drive_capacity() {
    assert_eq!(detect_drive_size("WD_BLACK SN850X 2TB", &vec![]), (2_000_000_000_000, "2.00 TB".to_string()));
    assert_eq!(detect_drive_size("Generic SSD", &vec![]), (512_000_000_000, "512 GB".to_string()));
    assert_eq!(detect_drive_size("Generic SSD", &vec![400_000_000_000, 100_000_000_000]), (512_000_000_000, "512 GB".to_string()));
    assert_eq!(detect_drive_size("Tiny", &vec![64_500_000_000]), (64_500_000_000, "64 GB".to_string()));
}

#[test]
fn crash_report_names() {
    assert!(is_crash_report_name("MEMORY.dmp", ReportKind::WindowsMinidump));
    assert!(!is_crash_report_name(".dmp", ReportKind::WindowsMinidump));
    assert!(is_crash_report_name("kernel-2024.panic", ReportKind::MacPanic));
    assert!(is_crash_report_name("panic-full-2024.ips", ReportKind::MacPanic));
    assert!(!is_crash_report_name("Safari-2024.ips", ReportKind::MacPanic));
    assert!(is_crash_report_name("_usr_bin_app.1000.crash", ReportKind::LinuxCrash));
}

#[test]
fn windows_integrity_clean_and_faulty() {
    let clean = assess_windows_integrity(&vec![entry("notes.txt", None)], &vec![], &vec![]);
    assert_eq!(clean.total_dumps_found, 0);
    assert_eq!(clean.hardware_status.score, 100);
    assert_eq!(clean.os_status.score, 100);
    assert_eq!(clean.diagnosis_verdict, "All Hardware and Windows OS Subsystems are 100% Healthy and operating normally.");

    let events = vec![event("Microsoft-Windows-Kernel-Power", 41, "Power"), event("Microsoft-Windows-WHEA-Logger", 18, "Hardware")];
    let devices = vec![RawDeviceRecord { name: Some("GPU".to_string()), device_id: None, error_code: Some(43), status: None }];
    let mut dump = entry("042424-01.dmp", Some("2024-04-24 09:00:00"));
    dump.contents = header64(0x3B);
    let r = assess_windows_integrity(&vec![dump], &events, &devices);
    assert_eq!(r.total_dumps_found, 1);
    assert_eq!(r.latest_dump_time, Some("2024-04-24 09:00:00".to_string()));
    assert_eq!(r.recent_crashes[0].bugcheck_symbol, "SYSTEM_SERVICE_EXCEPTION");
    assert_eq!(r.recent_crashes[0].bugcheck_code, "0x0000003B");
    assert_eq!(r.hardware_status.score, 50);
    assert_eq!(r.hardware_status.status, "Critical");
    assert_eq!(r.os_status.score, 65);
    assert_eq!((r.os_status.sudden_shutdown_count, r.hardware_status.whea_error_count), (1, 1));
    assert_eq!(r.problem_devices[0].status, "Error");
    assert!(r.problem_devices[0].description.contains("Code 43"));
    assert!(r.diagnosis_verdict.starts_with("Hardware Error Detected"));
    assert_eq!(r.recommendations.len(), 5);
}

#[test]
fn power_cuts_only() {
    let r = assess_windows_integrity(&vec![], &vec![event("Kernel-Power", 41, "Power"), event("Kernel-Power", 41, "Power")], &vec![]);
    assert_eq!(r.os_status.score, 90);
    assert!(r.diagnosis_verdict.contains("Found 2 sudden power cut events"));
}

#[test]
fn other_platform_scans() {
    let mac = scan_macos_panic_reports(&vec![entry("a.panic", Some("2024-01-01 00:00:00")), entry("b.log", None)]);
    assert_eq!(mac.total_dumps_found, 1);
    assert_eq!(mac.recent_crashes[0].bugcheck_code, "KERNEL_PANIC");
    let linux = scan_linux_crash_reports(&vec![entry("x.crash", None)]);
    assert_eq!(linux.recent_crashes[0].crash_time, "Unknown");
    let generic = get_generic_clean_dumps();
    assert_eq!(generic.total_dumps_found, 0);
    let other = get_crash_dump_diagnostics(&CrashScan::Other);
    assert_eq!(other.minidump_directory, generic.minidump_directory);
    let win = get_crash_dump_diagnostics(&CrashScan::Windows { dumps: vec![], events_json: Some("not json".to_string()), devices_json: None });
    assert_eq!(win.stability_events.len(), 0);
    assert_eq!(win.hardware_status.score, 100);
}

#[test]
fn overall_score_and_bands() {
    assert_eq!(compute_overall_score(100, 100, 95, 100), 99);
    assert_eq!(compute_overall_score(0, 0, 0, 0), 1);
    assert_eq!(status_level_text(90), "Excellent");
    assert_eq!(status_level_text(75), "Good");
    assert_eq!(status_level_text(60), "Fair");
    assert_eq!(status_level_text(40), "Attention Needed");
    assert_eq!(status_level_text(39), "Critical");
}

#[test]
fn health_report_of_a_clean_machine() {
    let crash: CrashDumpInfo = get_generic_clean_dumps();
    let thermal = query_windows_sensors();
    let r = generate_overall_health_report(None, &vec![], &thermal, &crash, summary(), "2024-05-01 10:00:00".to_string());
    assert_eq!((r.battery_subscore, r.storage_subscore, r.thermal_subscore, r.stability_subscore), (100, 95, 95, 100));
    assert_eq!(r.overall_score, 97);
    assert_eq!(r.status_level, "Excellent");
    assert!(r.warnings.is_empty());
    assert_eq!(r.generated_at, "2024-05-01 10:00:00");
}

#[test]
fn power_diagnosis_at_load() {
    let thermal = query_windows_sensors();
    let cpu = get_cpu_diagnostics(&vec![CpuSample { brand: "c".to_string(), vendor_id: "v".to_string(), usage_tenths: 960, frequency_mhz: 3000 }], None, 960);
    let p = get_power_throttling_diagnostics(&thermal, &cpu);
    assert!(p.is_power_limit_throttling);
    assert!(p.is_current_edp_throttling);
    assert!(!p.is_thermal_throttling);
    assert_eq!(p.cpu_package_power_watts_tenths, 436);
    assert_eq!(p.gpu_power_watts_tenths, 485);
    assert_eq!(p.vrm_temperature_tenths, 461);
}

#[test]
fn event_records_read_from_array_and_single_object() {
    let many = Some(r#" [{"Time":"t1","Provider":"Microsoft-Windows-WHEA-Logger","Id":17,"Category":"WHEA"},{"Id":41,"Category":"Kernel-Power"}] "#.to_string());
    let recs = read_event_records(&many);
    assert_eq!(recs.len(), 2);
    assert_eq!(recs[0].provider.as_deref(), Some("Microsoft-Windows-WHEA-Logger"));
    assert_eq!(recs[0].id, Some(17));
    assert_eq!(recs[1].time, None);
    assert_eq!(recs[1].category.as_deref(), Some("Kernel-Power"));
    let one = Some(r#"{"Id":6008,"Category":"Unexpected"}"#.to_string());
    let recs = read_event_records(&one);
    assert_eq!(recs.len(), 1);
    assert_eq!(recs[0].id, Some(6008));
}

#[test]
fn unreadable_json_yields_no_records() {
    assert_eq!(read_event_records(&Some("not json".to_string())).len(), 0);
    assert_eq!(read_event_records(&Some("   ".to_string())).len(), 0);
    assert_eq!(read_event_records(&None).len(), 0);
    assert_eq!(read_device_records(&Some("{broken".to_string())).len(), 0);
    let devs = read_device_records(&Some(r#"{"Name":"Audio","DeviceID":"PCI\\1","ErrorCode":28,"Status":"Error"}"#.to_string()));
    assert_eq!(devs.len(), 1);
    assert_eq!(devs[0].error_code, Some(28));
    assert_eq!(devs[0].device_id.as_deref(), Some("PCI\\1"));
}

#[test]
fn lsblk_and_profiler_output_parsing() {
    assert!(read_lsblk_records("nope").is_none());
    let recs = read_lsblk_records(r#"{"blockdevices":[{"name":"nvme0n1","model":"Samsung SSD 980","serial":"S1","size":1000204886016,"type":"disk","tran":"nvme"}]}"#).unwrap();
    assert_eq!(recs.len(), 1);
    assert_eq!(recs[0].size, Some(1000204886016));
    assert_eq!(recs[0].dev_type.as_deref(), Some("disk"));
    assert!(read_mac_display_record("<<<").is_none());
    let d = read_mac_display_record(r#"{"SPDisplaysDataType":[{"_name":"Apple M2","sppci_cores":"10"}]}"#).unwrap();
    assert_eq!(d.name.as_deref(), Some("Apple M2"));
    assert_eq!(d.cores.as_deref(), Some("10"));
    assert_eq!(d.model, None);
    assert_eq!(read_mac_nvme_records("[").len(), 0);
}

fn header64(code: u32) -> Vec<u8> {
    let mut h = b"PAGEDU64".to_vec();
    h.resize(0x40, 0);
    h[0x38..0x3C].copy_from_slice(&code.to_le_bytes());
    h
}

#[test]
fn minidump_headers_give_the_stop_code() {
    assert_eq!(read_dump_bugcheck(&header64(0x124)), Some(0x124));
    let mut h32 = b"PAGEDUMP".to_vec();
    h32.resize(0x24, 0);
    h32[0x20..0x24].copy_from_slice(&0xD1u32.to_le_bytes());
    assert_eq!(read_dump_bugcheck(&h32), Some(0xD1));
    assert_eq!(read_dump_bugcheck(&b"PAGEDU64".to_vec()), None);
    assert_eq!(read_dump_bugcheck(&vec![0u8; 64]), None);
    assert_eq!(hex_text(0xDEADBEEF, 8), "DEADBEEF");
    assert_eq!(hex_text(0x1A, 8), "0000001A");

    let mut e = entry("a.dmp", None);
    e.contents = header64(0x124);
    let d = crash_detail(&e, ReportKind::WindowsMinidump);
    assert_eq!(d.bugcheck_code, "0x00000124");
    assert_eq!(d.bugcheck_symbol, "WHEA_UNCORRECTABLE_ERROR");
    assert_eq!(d.faulting_driver, "Unknown (not identified from the dump)");
    e.contents = h32;
    let d = crash_detail(&e, ReportKind::WindowsMinidump);
    assert_eq!((d.bugcheck_code.as_str(), d.bugcheck_symbol.as_str()), ("0x000000D1", "DRIVER_IRQL_NOT_LESS_OR_EQUAL"));
    e.contents = header64(0x1234);
    assert_eq!(crash_detail(&e, ReportKind::WindowsMinidump).bugcheck_symbol, "UNKNOWN_BUGCHECK");
    e.contents = Vec::new();
    let d = crash_detail(&e, ReportKind::WindowsMinidump);
    assert_eq!((d.bugcheck_code.as_str(), d.bugcheck_symbol.as_str()), ("Unreadable", "UNREADABLE_DUMP_HEADER"));
}

#[test]
fn stability_penalty_counts_every_dump() {
    let thermal = query_windows_sensors();
    let mut crash: CrashDumpInfo = get_generic_clean_dumps();
    crash.total_dumps_found = 256;
    let r = generate_overall_health_report(None, &vec![], &thermal, &crash, summary(), "t".to_string());
    assert_eq!(r.stability_subscore, 65);
    crash.total_dumps_found = 2;
    let r = generate_overall_health_report(None, &vec![], &thermal, &crash, summary(), "t".to_string());
    assert_eq!(r.stability_subscore, 84);
}

fn put_u32(d: &mut Vec<u8>, off: usize, v: u32) {
    d[off..off + 4].copy_from_slice(&v.to_le_bytes());
}

fn put_u64(d: &mut Vec<u8>, off: usize, v: u64) {
    d[off..off + 8].copy_from_slice(&v.to_le_bytes());
}

fn put_name(d: &mut Vec<u8>, off: usize, name: &str) {
    put_u32(d, off, name.len() as u32);
    for (i, u) in name.encode_utf16().enumerate() {
        d[off + 4 + 2 * i..off + 6 + 2 * i].copy_from_slice(&u.to_le_bytes());
    }
}

/// A small memory dump with two drivers in its triage driver list.
fn small_dump(code: u32, params: [u64; 4]) -> Vec<u8> {
    let mut d = header64(code);
    d.resize(0x3000, 0);
    put_u32(&mut d, 0xF98, 4);
    for (k, p) in params.iter().enumerate() {
        put_u64(&mut d, 0x40 + 8 * k, *p);
    }
    put_u32(&mut d, 0x2030, 0x100);
    put_u32(&mut d, 0x2034, 2);
    let e0 = 0x2100;
    put_u32(&mut d, e0, 0x400);
    put_u64(&mut d, e0 + 0x38, 0xFFFFF800_00000000);
    put_u32(&mut d, e0 + 0x48, 0x0100_0000);
    let e1 = e0 + 0x90;
    put_u32(&mut d, e1, 0x440);
    put_u64(&mut d, e1 + 0x38, 0xFFFFF801_20000000);
    put_u32(&mut d, e1 + 0x48, 0x0020_0000);
    put_name(&mut d, 0x2400, "ntoskrnl.exe");
    put_name(&mut d, 0x2440, "nvlddmkm.sys");
    d
}

#[test]
fn minidump_driver_list_names_the_faulting_driver() {
    let d = small_dump(0xD1, [0x10, 2, 0, 0xFFFFF801_20001234]);
    assert_eq!(read_faulting_driver(&d), Some("nvlddmkm.sys".to_string()));
    let d = small_dump(0x3B, [0xC0000005, 0xFFFFF800_00400000, 0, 0]);
    assert_eq!(read_faulting_driver(&d), Some("ntoskrnl.exe".to_string()));
    let mut e = entry("a.dmp", None);
    e.contents = small_dump(0x50, [0, 0, 0xFFFFF801_201FFFFF, 0]);
    let c = crash_detail(&e, ReportKind::WindowsMinidump);
    assert_eq!(c.faulting_driver, "nvlddmkm.sys");
    assert_eq!(c.bugcheck_symbol, "PAGE_FAULT_IN_NONPAGED_AREA");
    // An address outside every driver, a code that names no address, and a
    // dump without triage data identify no driver.
    assert_eq!(read_faulting_driver(&small_dump(0xD1, [0, 0, 0, 0x1234])), None);
    assert_eq!(read_faulting_driver(&small_dump(0x124, [0, 0, 0, 0xFFFFF801_20001234])), None);
    let mut full = small_dump(0xD1, [0, 0, 0, 0xFFFFF801_20001234]);
    put_u32(&mut full, 0xF98, 1);
    assert_eq!(read_faulting_driver(&full), None);
    e.contents = header64(0x3B);
    assert_eq!(crash_detail(&e, ReportKind::WindowsMinidump).faulting_driver, "Unknown (not identified from the dump)");
}
