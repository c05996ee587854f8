use oxidpulse::battery::{
    generic_battery_snapshot, get_battery_diagnostics, is_battery_entry, linux_battery_snapshot,
    mac_battery_readings, mac_battery_snapshot, parse_percent_tenths,
    windows_battery_snapshot, BatteryInformation, BatteryScan, BatteryStatusReading,
    LinuxBatteryFiles, PowerStatus,
};
use oxidpulse::sensors::{
    get_thermal_and_gpu_diagnostics, label_file_name, query_generic_fallback_sensors,
    query_linux_sensors, query_macos_sensors, query_windows_sensors, HwmonFile, SensorScan,
};

fn hw(chip: Option<&str>, file: &str, content: Option<&str>, milli: Option<i32>, label: Option<&str>) -> HwmonFile {
    HwmonFile {
        chip_name: chip.map(|s| s.to_string()),
        file_name: file.to_string(),
        content: content.map(|s| s.to_string()),
        temp_milli: milli,
        label: label.map(|s| s.to_string()),
    }
}

#[test]
fn windows_sensor_profile() {
    let t = query_windows_sensors();
    assert_eq!(t.cpu_package_temp_tenths, 542);
    assert_eq!(t.cpu_core_temps_tenths.len(), 8);
    assert_eq!(t.thermal_zones[1], ("VRM / Power Delivery (MOSFET)".to_string(), 584));
    assert_eq!(t.gpu_devices[0].name, "NVIDIA GeForce RTX 4080 (16GB)");
    assert_eq!(t.fan_speeds_rpm.len(), 4);
    assert!(t.ring0_driver_active);
    let g = query_generic_fallback_sensors();
    assert_eq!(g.max_temp_recorded_tenths, 700);
    assert!(g.gpu_devices.is_empty());
}

#[test]
fn linux_hwmon_readings() {
    let files = vec![
        hw(Some("coretemp\n"), "temp1_input", Some("52000\n"), Some(52000), Some("Package id 0\n")),
        hw(Some("coretemp\n"), "temp2_input", Some("48550"), Some(48550), None),
        hw(Some("coretemp\n"), "temp2_max", Some("100000"), Some(100000), None),
        hw(None, "fan1_input", Some(" 1450 \n"), None, None),
        hw(None, "fan2_input", Some("broken"), None, None),
        hw(Some("acpitz"), "temp3_input", None, Some(1), None),
    ];
    let t = query_linux_sensors(&files);
    assert_eq!(t.cpu_package_temp_tenths, 520);
    assert_eq!(t.cpu_core_temps_tenths, vec![520, 486]);
    assert_eq!(t.max_temp_recorded_tenths, 650);
    assert_eq!(t.thermal_zones, vec![("Package id 0".to_string(), 520), ("coretemp_temp2".to_string(), 486)]);
    assert_eq!(t.fan_speeds_rpm, vec![("hwmon_fan1".to_string(), 1450)]);
    assert_eq!(t.gpu_devices[0].temperature_tenths, 480);
    assert_eq!(t.gpu_devices[0].fan_speed_rpm, Some(1450));
    assert_eq!(label_file_name("temp2_input"), "temp2_label");
}

#[test]
fn linux_without_readings_uses_defaults() {
    let t = query_linux_sensors(&Vec::new());
    assert_eq!(t.cpu_package_temp_tenths, 450);
    assert_eq!(t.cpu_core_temps_tenths, vec![420, 430, 415, 428]);
    assert_eq!(t.thermal_zones, vec![("ACPI Thermal Zone 0".to_string(), 420)]);
    assert_eq!(t.gpu_devices[0].temperature_tenths, 450);
    assert_eq!(t.gpu_devices[0].fan_speed_rpm, None);
}

#[test]
fn macos_display_report() {
    let json = r#"{"SPDisplaysDataType":[{"_name":"Apple M3","sppci_cores":"10","spdisplays_mtlgpufamilysupport":"spdisplays_metal3"}]}"#;
    let t = query_macos_sensors(json).expect("a display report");
    assert_eq!(t.gpu_devices[0].name, "Apple M3 (10 Cores)");
    assert_eq!(t.gpu_devices[0].vendor, "Apple (metal3)");
    let t = query_macos_sensors(r#"{"SPDisplaysDataType":[]}"#).unwrap();
    assert_eq!(t.gpu_devices[0].name, "Apple Silicon GPU (8 Cores)");
    assert_eq!(t.gpu_devices[0].vendor, "Apple (Metal)");
    assert!(query_macos_sensors("not json").is_none());
    let t = get_thermal_and_gpu_diagnostics(SensorScan::MacOs { display_json: Some("oops".to_string()) });
    assert_eq!(t.driver_info, "Generic Linux / Unix sysfs thermal driver");
    let t = get_thermal_and_gpu_diagnostics(SensorScan::Windows);
    assert_eq!(t.cpu_package_temp_tenths, 542);
}

#[test]
fn windows_battery_present() {
    let s = PowerStatus { ac_line_status: 1, battery_flag: 8, battery_life_percent: 80, battery_life_time: 3600 };
    let info = BatteryInformation {
        designed_capacity: 60000,
        full_charged_capacity: 51000,
        cycle_count: 123,
        chemistry: b"LION".to_vec(),
    };
    let b = match windows_battery_snapshot(Some(s), Some(info), None) { Ok(b) => b, Err(_) => panic!("no error expected") };
    assert_eq!(b.ac_status, "Online (AC Connected)");
    assert!(b.is_present && b.is_charging);
    assert_eq!((b.design_capacity_mwh, b.full_charge_capacity_mwh), (60000, 51000));
    assert_eq!(b.current_capacity_mwh, 38400);
    assert_eq!((b.health_percent_tenths, b.wear_percent_tenths), (850, 150));
    assert_eq!(b.chemistry, "LION");
    assert_eq!(b.charge_rate_mw, 25000);
    assert_eq!(b.voltage_mv, 12000);
    assert_eq!(b.temperature_tenths, Some(300));
    assert_eq!(b.battery_life_time_secs, 3600);
}

#[test]
fn windows_battery_status_and_codes() {
    let s = PowerStatus { ac_line_status: 7, battery_flag: 0, battery_life_percent: 200, battery_life_time: 0 };
    let st = BatteryStatusReading { capacity: 1234, voltage: 11800, rate: -9000 };
    let info = BatteryInformation { designed_capacity: 0, full_charged_capacity: 0, cycle_count: 5, chemistry: vec![0, 0, 0, 0] };
    let b = match windows_battery_snapshot(Some(s), Some(info), Some(st)) { Ok(b) => b, Err(_) => panic!("no error expected") };
    assert_eq!(b.ac_status, "Status Code 7");
    assert_eq!(b.chemistry, "Li-ion");
    assert_eq!(b.current_capacity_mwh, 1234);
    assert_eq!(b.charge_rate_mw, -9000);
    assert_eq!((b.health_percent_tenths, b.wear_percent_tenths), (960, 40));
}

#[test]
fn windows_without_battery_or_status() {
    let s = PowerStatus { ac_line_status: 1, battery_flag: 128, battery_life_percent: 255, battery_life_time: 0 };
    let b = match windows_battery_snapshot(Some(s), None, None) { Ok(b) => b, Err(_) => panic!("no error expected") };
    assert!(!b.is_present);
    assert_eq!(b.ac_status, "Online (Desktop AC Power)");
    assert_eq!(b.chemistry, "N/A (Desktop / AC Connected)");
    assert_eq!(b.battery_life_percent, 100);
    match windows_battery_snapshot(None, None, None) {
        Err(e) => assert_eq!(e, "Failed to query Win32 GetSystemPowerStatus"),
        Ok(_) => panic!("a missing power status is an error"),
    }
}

#[test]
fn linux_battery_files() {
    let f = LinuxBatteryFiles {
        capacity: Some("76\n".to_string()),
        status: Some("Discharging\n".to_string()),
        cycle_count: Some("321".to_string()),
        energy_full: Some("45000000".to_string()),
        charge_full: None,
        energy_full_design: Some("50000000".to_string()),
        charge_full_design: None,
        energy_now: None,
        charge_now: Some("3000000".to_string()),
        voltage_now: Some("11900000".to_string()),
        power_now: Some("8500000".to_string()),
        technology: Some("Li-poly".to_string()),
        model_name: None,
    };
    let b = linux_battery_snapshot(&f);
    assert_eq!(b.ac_status, "Offline (Battery Power)");
    assert_eq!(b.battery_life_percent, 76);
    assert_eq!(b.battery_flag, 0);
    assert_eq!(b.battery_life_time_secs, 18000);
    assert_eq!((b.full_charge_capacity_mwh, b.design_capacity_mwh), (45000, 50000));
    assert_eq!(b.current_capacity_mwh, 30);
    assert_eq!((b.health_percent_tenths, b.wear_percent_tenths), (900, 100));
    assert_eq!(b.voltage_mv, 11900);
    assert_eq!(b.charge_rate_mw, 8500);
    assert_eq!(b.chemistry, "Li-poly (Standard Linux Battery)");
    assert!(is_battery_entry("BAT0"));
    assert!(!is_battery_entry("AC"));
}

#[test]
fn battery_dispatch_and_generic() {
    let g = generic_battery_snapshot();
    assert!(!g.is_present);
    assert_eq!((g.health_percent_tenths, g.wear_percent_tenths), (0, 0));
    assert_eq!((g.cycle_count, g.design_capacity_mwh, g.full_charge_capacity_mwh), (0, 0, 0));
    assert_eq!(g.temperature_tenths, None);
    let b = match get_battery_diagnostics(BatteryScan::Linux { files: None }) { Ok(b) => b, Err(_) => panic!("no error expected") };
    assert!(!b.is_present);
    assert_eq!(b.chemistry, "N/A (No Battery Detected)");
    let b = match get_battery_diagnostics(BatteryScan::Other) { Ok(b) => b, Err(_) => panic!("no error expected") };
    assert_eq!(b.design_capacity_mwh, 0);
    assert_eq!(b.ac_status, "Unknown (No Battery Detected)");
}

#[test]
fn mac_power_report_readings() {
    let json = r#"{"SPPowerDataType":[
        {"sppower_battery_charge_info":{"sppower_battery_state_of_charge":76,"sppower_battery_is_charging":"TRUE"},
         "sppower_battery_health_info":{"sppower_battery_cycle_count":312,"sppower_battery_health_maximum_capacity":"89%"},
         "sppower_battery_model_info":{"sppower_battery_device_name":"bq40z651"}},
        {"sppower_ac_charger_information":{"sppower_battery_charger_connected":"yes","sppower_ac_charger_watts":"96"}}
    ]}"#;
    let r = mac_battery_readings(json).unwrap();
    assert_eq!((r.soc, r.cycles, r.health_tenths), (Some(76), Some(312), Some(890)));
    assert!(r.charging && r.connected);
    assert_eq!(r.device_name, "Li-ion (bq40z651)");
    assert_eq!(r.charger_watts, "96");
    assert_eq!(r.ac_status, "Online (AC Charging, 96W PD)");
    assert_eq!(r.battery_flag, 8);

    let empty = mac_battery_readings(r#"{"SPPowerDataType":[]}"#).unwrap();
    assert_eq!((empty.soc, empty.cycles, empty.health_tenths), (None, None, None));
    assert_eq!(empty.device_name, "Li-ion (Apple Smart Battery)");
    assert_eq!(empty.ac_status, "Offline (Battery Power)");
    assert_eq!(empty.battery_flag, 0);
    assert!(mac_battery_readings("{}").is_none());
    assert!(mac_battery_readings("not json").is_none());

    let attached = mac_battery_readings(r#"{"SPPowerDataType":[{"sppower_ac_charger_information":{"sppower_battery_charger_connected":"TRUE"}}]}"#).unwrap();
    assert_eq!(attached.ac_status, "Online (AC Attached, 65W PD)");
    assert_eq!(attached.battery_flag, 1);
}

#[test]
fn percentage_texts() {
    assert_eq!(parse_percent_tenths("89%"), Some(890));
    assert_eq!(parse_percent_tenths(" 87.5 % "), None);
    assert_eq!(parse_percent_tenths("% 87.5 %"), Some(875));
    assert_eq!(parse_percent_tenths("%%92.46%"), Some(925));
    assert_eq!(parse_percent_tenths("100"), Some(1000));
    assert_eq!(parse_percent_tenths(".5"), Some(5));
    assert_eq!(parse_percent_tenths("88."), Some(880));
    assert_eq!(parse_percent_tenths("."), None);
    assert_eq!(parse_percent_tenths("abc"), None);
    assert_eq!(parse_percent_tenths("9.x"), None);
    assert_eq!(parse_percent_tenths(""), None);
}

#[test]
fn mac_battery_snapshot_from_readings() {
    let json = r#"{"SPPowerDataType":[
        {"sppower_battery_charge_info":{"sppower_battery_state_of_charge":76,"sppower_battery_is_charging":"FALSE"},
         "sppower_battery_health_info":{"sppower_battery_cycle_count":312,"sppower_battery_health_maximum_capacity":"89%"}},
        {"sppower_ac_charger_information":{"sppower_battery_charger_connected":"yes","sppower_ac_charger_watts":"96"}}
    ]}"#;
    let r = mac_battery_readings(json).unwrap();
    let b = mac_battery_snapshot(&r);
    assert!(b.is_present && !b.is_charging);
    assert_eq!((b.design_capacity_mwh, b.full_charge_capacity_mwh, b.current_capacity_mwh), (52600, 46814, 35579));
    assert_eq!((b.health_percent_tenths, b.wear_percent_tenths, b.cycle_count), (890, 110, 312));
    assert_eq!((b.battery_life_percent, b.battery_flag, b.battery_life_time_secs), (76, 1, 0));
    assert_eq!(b.ac_status, "Online (AC Attached, 96W PD)");
    assert_eq!(b.chemistry, "Li-ion (Apple Smart Battery)");
    let none = mac_battery_readings(r#"{"SPPowerDataType":[]}"#).unwrap();
    let d = match get_battery_diagnostics(BatteryScan::MacOs { readings: Some(none) }) { Ok(b) => b, Err(_) => panic!("no error expected") };
    assert_eq!((d.battery_life_percent, d.health_percent_tenths, d.full_charge_capacity_mwh, d.current_capacity_mwh), (90, 1000, 52600, 47340));
    assert_eq!(d.battery_life_time_secs, 28800);
    let g = match get_battery_diagnostics(BatteryScan::MacOs { readings: None }) { Ok(b) => b, Err(_) => panic!("no error expected") };
    assert!(!g.is_present);
}

#[test]
fn highest_temperature_covers_package_and_cores() {
    let hot = vec![
        hw(Some("coretemp"), "temp1_input", Some("71000"), Some(71000), Some("Package id 0")),
        hw(Some("coretemp"), "temp2_input", Some("93500"), Some(93500), None),
    ];
    let scans = vec![
        SensorScan::Windows,
        SensorScan::Other,
        SensorScan::MacOs { display_json: None },
        SensorScan::MacOs { display_json: Some(r#"{"SPDisplaysDataType":[{"_name":"Apple M3"}]}"#.to_string()) },
        SensorScan::Linux { files: hot },
        SensorScan::Linux { files: Vec::new() },
    ];
    for scan in scans {
        let t = get_thermal_and_gpu_diagnostics(scan);
        assert!(t.max_temp_recorded_tenths >= t.cpu_package_temp_tenths);
        assert!(t.cpu_core_temps_tenths.iter().all(|c| *c <= t.max_temp_recorded_tenths));
    }
    let t = query_linux_sensors(&vec![hw(None, "temp1_input", Some("93500"), Some(93500), None)]);
    assert_eq!(t.max_temp_recorded_tenths, 935);
}
