//! Temperatures, fans and graphics adapters, by platform: the hwmon readings
//! of Linux, the display report of macOS, and the fixed sensor profiles.

use vstd::prelude::*;
use crate::json::{json_parse, json_parsed, member_array, member_elements, member_str, member_text, text_opt};
use crate::model::{GpuDeviceMetrics, ThermalSensorMetrics};
use crate::stats::{lemma_max_from_bounds, max_i32_from};
use crate::text::{
    cat, div_round_signed, ends_with, has_prefix, has_suffix, lit, parse_u32, parse_unsigned,
    replace_all, replace_text, round_div_signed, starts_with, trim, trim_text,
};

verus! {

/// Thermal zones as names and tenths of a degree.
pub open spec fn zones(v: Seq<(String, i32)>) -> Seq<(Seq<char>, i32)> {
    v.map_values(|z: (String, i32)| (z.0@, z.1))
}

/// Fans as names and speeds.
pub open spec fn fans(v: Seq<(String, u32)>) -> Seq<(Seq<char>, u32)> {
    v.map_values(|f: (String, u32)| (f.0@, f.1))
}

fn zone(name: &str, t: i32) -> (z: (String, i32))
    ensures
        z.0@ == name@,
        z.1 == t,
{
    (lit(name), t)
}

fn fan(name: &str, rpm: u32) -> (f: (String, u32))
    ensures
        f.0@ == name@,
        f.1 == rpm,
{
    (lit(name), rpm)
}

// ---------------------------------------------------------------- fixed profiles

/// The sensor profile reported on Windows.
pub open spec fn windows_sensors_are(r: ThermalSensorMetrics) -> bool {
    &&& r.cpu_package_temp_tenths == 542
    &&& r.cpu_core_temps_tenths@ == seq![520i32, 535, 548, 512, 561, 554, 530, 528]
    &&& r.max_temp_recorded_tenths == 785
    &&& zones(r.thermal_zones@) == seq![
        ("ACPI Thermal Zone 0 (CPU Socket)"@, 530i32),
        ("VRM / Power Delivery (MOSFET)"@, 584i32),
        ("Motherboard Chipset (PCH)"@, 462i32),
        ("M.2 NVMe Slot 1 Controller"@, 438i32),
    ]
    &&& r.gpu_devices@.len() == 1
    &&& r.gpu_devices@[0].name@ == "NVIDIA GeForce RTX 4080 (16GB)"@
    &&& r.gpu_devices@[0].vendor@ == "NVIDIA (NVAPI)"@
    &&& r.gpu_devices@[0].driver_version@ == "560.81"@
    &&& r.gpu_devices@[0].temperature_tenths == 420
    &&& r.gpu_devices@[0].memory_total_mb == 16384
    &&& r.gpu_devices@[0].memory_used_mb == 3240
    &&& r.gpu_devices@[0].memory_usage_percent_tenths == 198
    &&& r.gpu_devices@[0].core_clock_mhz == 2205
    &&& r.gpu_devices@[0].fan_speed_rpm == Some(1150u32)
    &&& r.gpu_devices@[0].fan_speed_percent == Some(38u32)
    &&& r.gpu_devices@[0].power_usage_watts_tenths == Some(485u32)
    &&& fans(r.fan_speeds_rpm@) == seq![
        ("CPU Fan 1 (AIO Pump)"@, 1850u32),
        ("CPU Fan 2 (Radiator Push)"@, 1240u32),
        ("System Chassis Front Intake"@, 950u32),
        ("System Chassis Rear Exhaust"@, 1020u32),
    ]
    &&& !r.is_thermal_throttling
    &&& r.ring0_driver_active
    &&& r.driver_info@ == "LibreHardwareMonitor Driver v1.4.2 (Signed Kernel Driver Service)"@
}

/// The sensor profile of Windows.
pub fn query_windows_sensors() -> (r: ThermalSensorMetrics)
    ensures
        windows_sensors_are(r),
{
    let cores = vec![520i32, 535, 548, 512, 561, 554, 530, 528];
    let z = vec![
        zone("ACPI Thermal Zone 0 (CPU Socket)", 530),
        zone("VRM / Power Delivery (MOSFET)", 584),
        zone("Motherboard Chipset (PCH)", 462),
        zone("M.2 NVMe Slot 1 Controller", 438),
    ];
    let f = vec![
        fan("CPU Fan 1 (AIO Pump)", 1850),
        fan("CPU Fan 2 (Radiator Push)", 1240),
        fan("System Chassis Front Intake", 950),
        fan("System Chassis Rear Exhaust", 1020),
    ];
    let gpu = GpuDeviceMetrics {
        name: lit("NVIDIA GeForce RTX 4080 (16GB)"),
        vendor: lit("NVIDIA (NVAPI)"),
        driver_version: lit("560.81"),
        temperature_tenths: 420,
        memory_total_mb: 16384,
        memory_used_mb: 3240,
        memory_usage_percent_tenths: 198,
        core_clock_mhz: 2205,
        fan_speed_rpm: Some(1150),
        fan_speed_percent: Some(38),
        power_usage_watts_tenths: Some(485),
    };
    assert(cores@ =~= seq![520i32, 535, 548, 512, 561, 554, 530, 528]);
    assert(zones(z@) =~= seq![
        ("ACPI Thermal Zone 0 (CPU Socket)"@, 530i32),
        ("VRM / Power Delivery (MOSFET)"@, 584i32),
        ("Motherboard Chipset (PCH)"@, 462i32),
        ("M.2 NVMe Slot 1 Controller"@, 438i32),
    ]);
    assert(fans(f@) =~= seq![
        ("CPU Fan 1 (AIO Pump)"@, 1850u32),
        ("CPU Fan 2 (Radiator Push)"@, 1240u32),
        ("System Chassis Front Intake"@, 950u32),
        ("System Chassis Rear Exhaust"@, 1020u32),
    ]);
    ThermalSensorMetrics {
        cpu_package_temp_tenths: 542,
        cpu_core_temps_tenths: cores,
        max_temp_recorded_tenths: 785,
        thermal_zones: z,
        gpu_devices: vec![gpu],
        fan_speeds_rpm: f,
        is_thermal_throttling: false,
        ring0_driver_active: true,
        driver_info: lit("LibreHardwareMonitor Driver v1.4.2 (Signed Kernel Driver Service)"),
    }
}

/// The profile reported where no platform source answered.
pub open spec fn fallback_sensors_are(r: ThermalSensorMetrics) -> bool {
    &&& r.cpu_package_temp_tenths == 450
    &&& r.cpu_core_temps_tenths@ == seq![440i32, 450, 460, 450]
    &&& r.max_temp_recorded_tenths == 700
    &&& zones(r.thermal_zones@) == seq![("System Thermal Zone 0"@, 450i32)]
    &&& r.gpu_devices@.len() == 0
    &&& r.fan_speeds_rpm@.len() == 0
    &&& !r.is_thermal_throttling
    &&& !r.ring0_driver_active
    &&& r.driver_info@ == "Generic Linux / Unix sysfs thermal driver"@
}

/// The generic sensor profile.
pub fn query_generic_fallback_sensors() -> (r: ThermalSensorMetrics)
    ensures
        fallback_sensors_are(r),
{
    let cores = vec![440i32, 450, 460, 450];
    let z = vec![zone("System Thermal Zone 0", 450)];
    assert(cores@ =~= seq![440i32, 450, 460, 450]);
    assert(zones(z@) =~= seq![("System Thermal Zone 0"@, 450i32)]);
    ThermalSensorMetrics {
        cpu_package_temp_tenths: 450,
        cpu_core_temps_tenths: cores,
        max_temp_recorded_tenths: 700,
        thermal_zones: z,
        gpu_devices: Vec::new(),
        fan_speeds_rpm: Vec::new(),
        is_thermal_throttling: false,
        ring0_driver_active: false,
        driver_info: lit("Generic Linux / Unix sysfs thermal driver"),
    }
}

// ---------------------------------------------------------------- macOS

/// What the macOS display report names of the first GPU.
pub struct MacDisplayRecord {
    pub name: Option<String>,
    pub model: Option<String>,
    pub cores: Option<String>,
    pub metal_family: Option<String>,
}

/// A display record holds the members of the document's first display
/// entry, and no GPU field where there is no such entry.
pub open spec fn display_record_read(d: MacDisplayRecord, doc: serde_json::Value) -> bool {
    match member_elements(doc, "SPDisplaysDataType"@) {
        Some(items) if items.len() > 0 => {
            &&& text_opt(d.name) == member_text(items[0], "_name"@)
            &&& text_opt(d.model) == member_text(items[0], "sppci_model"@)
            &&& text_opt(d.cores) == member_text(items[0], "sppci_cores"@)
            &&& text_opt(d.metal_family) == member_text(items[0], "spdisplays_mtlgpufamilysupport"@)
        },
        _ => d.name is None && d.model is None && d.cores is None && d.metal_family is None,
    }
}

/// The display record of `system_profiler SPDisplaysDataType -json`
/// output: `None` when it is not JSON; no GPU fields when there is no first
/// display entry.
pub fn read_mac_display_record(json: &str) -> (r: Option<MacDisplayRecord>)
    ensures
        r is Some <==> json_parsed(json@) is Some,
        r matches Some(d) ==> display_record_read(d, json_parsed(json@).unwrap()),
{
    let val = json_parse(json)?;
    let mut rec = MacDisplayRecord { name: None, model: None, cores: None, metal_family: None };
    if let Some(items) = member_array(&val, "SPDisplaysDataType") {
        if items.len() > 0 {
            let first = &items[0];
            rec = MacDisplayRecord {
                name: member_str(first, "_name"),
                model: member_str(first, "sppci_model"),
                cores: member_str(first, "sppci_cores"),
                metal_family: member_str(first, "spdisplays_mtlgpufamilysupport"),
            };
        }
    }
    Some(rec)
}

/// The macOS sensor profile for a display record: the GPU is named by the
/// record (its name, else its model, else "Apple Silicon GPU") with its core
/// count (else 8), and its vendor is the Metal family with the
/// `spdisplays_` prefixes removed.
pub open spec fn macos_sensors_are(r: ThermalSensorMetrics, d: MacDisplayRecord) -> bool {
    let name = match d.name { Some(n) => n@, None => match d.model { Some(m) => m@, None => "Apple Silicon GPU"@ } };
    let cores = match d.cores { Some(c) => c@, None => "8"@ };
    let vendor = match d.metal_family {
        Some(m) => "Apple ("@ + replace_all(m@, "spdisplays_"@, ""@) + ")"@,
        None => "Apple (Metal)"@,
    };
    &&& r.cpu_package_temp_tenths == 415
    &&& r.cpu_core_temps_tenths@ == seq![405i32, 410, 422, 418, 395, 400, 408, 412]
    &&& r.max_temp_recorded_tenths == 680
    &&& zones(r.thermal_zones@) == seq![
        ("Apple M2 SoC Die (P/E Cluster)"@, 415i32),
        ("NAND Flash Storage Controller"@, 358i32),
        ("Battery PMU Subsystem (bq40z651)"@, 283i32),
        ("Chassis Passive Thermal Envelope"@, 305i32),
    ]
    &&& r.gpu_devices@.len() == 1
    &&& r.gpu_devices@[0].name@ == name + " ("@ + cores + " Cores)"@
    &&& r.gpu_devices@[0].vendor@ == vendor
    &&& r.gpu_devices@[0].driver_version@ == "Metal 4 (Unified Architecture)"@
    &&& r.gpu_devices@[0].temperature_tenths == 380
    &&& r.gpu_devices@[0].memory_total_mb == 16384
    &&& r.gpu_devices@[0].memory_used_mb == 3420
    &&& r.gpu_devices@[0].memory_usage_percent_tenths == 208
    &&& r.gpu_devices@[0].core_clock_mhz == 1398
    &&& r.gpu_devices@[0].fan_speed_rpm is None
    &&& r.gpu_devices@[0].fan_speed_percent is None
    &&& r.gpu_devices@[0].power_usage_watts_tenths == Some(48u32)
    &&& fans(r.fan_speeds_rpm@) == seq![("Passive Dissipation (MacBook Air Fanless)"@, 0u32)]
    &&& !r.is_thermal_throttling
    &&& r.ring0_driver_active
    &&& r.driver_info@ == "Apple Silicon IOKit & SMC Sensor Bridge"@
}

/// The macOS sensor profile.
pub fn macos_sensors(d: &MacDisplayRecord) -> (r: ThermalSensorMetrics)
    ensures
        macos_sensors_are(r, *d),
{
    let name = match &d.name {
        Some(n) => n.clone(),
        None => match &d.model { Some(m) => m.clone(), None => lit("Apple Silicon GPU") },
    };
    let cores = match &d.cores { Some(c) => c.clone(), None => lit("8") };
    let vendor = match &d.metal_family {
        Some(m) => {
            proof {
                reveal_strlit("");
                reveal_strlit("spdisplays_");
            }
            cat(cat(lit("Apple ("), replace_text(m.as_str(), "spdisplays_", "").as_str()), ")")
        },
        None => lit("Apple (Metal)"),
    };
    let core_temps = vec![405i32, 410, 422, 418, 395, 400, 408, 412];
    let z = vec![
        zone("Apple M2 SoC Die (P/E Cluster)", 415),
        zone("NAND Flash Storage Controller", 358),
        zone("Battery PMU Subsystem (bq40z651)", 283),
        zone("Chassis Passive Thermal Envelope", 305),
    ];
    let f = vec![fan("Passive Dissipation (MacBook Air Fanless)", 0)];
    let gpu = GpuDeviceMetrics {
        name: cat(cat(cat(name, " ("), cores.as_str()), " Cores)"),
        vendor,
        driver_version: lit("Metal 4 (Unified Architecture)"),
        temperature_tenths: 380,
        memory_total_mb: 16384,
        memory_used_mb: 3420,
        memory_usage_percent_tenths: 208,
        core_clock_mhz: 1398,
        fan_speed_rpm: None,
        fan_speed_percent: None,
        power_usage_watts_tenths: Some(48),
    };
    assert(core_temps@ =~= seq![405i32, 410, 422, 418, 395, 400, 408, 412]);
    assert(zones(z@) =~= seq![
        ("Apple M2 SoC Die (P/E Cluster)"@, 415i32),
        ("NAND Flash Storage Controller"@, 358i32),
        ("Battery PMU Subsystem (bq40z651)"@, 283i32),
        ("Chassis Passive Thermal Envelope"@, 305i32),
    ]);
    assert(fans(f@) =~= seq![("Passive Dissipation (MacBook Air Fanless)"@, 0u32)]);
    ThermalSensorMetrics {
        cpu_package_temp_tenths: 415,
        cpu_core_temps_tenths: core_temps,
        max_temp_recorded_tenths: 680,
        thermal_zones: z,
        gpu_devices: vec![gpu],
        fan_speeds_rpm: f,
        is_thermal_throttling: false,
        ring0_driver_active: true,
        driver_info: lit("Apple Silicon IOKit & SMC Sensor Bridge"),
    }
}

/// The macOS sensors from the display report: `None` when it is not JSON.
pub fn query_macos_sensors(json: &str) -> (r: Option<ThermalSensorMetrics>)
    ensures
        r is Some <==> json_parsed(json@) is Some,
        r is Some ==> exists|d: MacDisplayRecord|
            display_record_read(d, json_parsed(json@).unwrap()) && #[trigger] macos_sensors_are(r.unwrap(), d),
{
    match read_mac_display_record(json) {
        Some(d) => {
            let m = macos_sensors(&d);
            let r = Some(m);
            assert(macos_sensors_are(r.unwrap(), d));
            r
        },
        None => None,
    }
}


// ---------------------------------------------------------------- Linux

/// One file of a hwmon chip directory, with what was read for it.
pub struct HwmonFile {
    /// The contents of the chip's `name` file, where it could be read.
    pub chip_name: Option<String>,
    pub file_name: String,
    /// The contents of the file, where it could be read.
    pub content: Option<String>,
    /// A temperature file's reading in millidegrees, where it reads as a number.
    pub temp_milli: Option<i32>,
    /// The contents of the matching `_label` file, where it could be read.
    pub label: Option<String>,
}

/// The name of the label file that goes with an input file.
pub open spec fn label_file(file_name: Seq<char>) -> Seq<char> {
    replace_all(file_name, "_input"@, "_label"@)
}

/// Names the label file of an input file.
pub fn label_file_name(file_name: &str) -> (r: String)
    ensures
        r@ == label_file(file_name@),
{
    proof {
        reveal_strlit("_input");
    }
    replace_text(file_name, "_input", "_label")
}

pub open spec fn is_temp_input(n: Seq<char>) -> bool {
    has_prefix(n, "temp"@) && has_suffix(n, "_input"@)
}

pub open spec fn is_fan_input(n: Seq<char>) -> bool {
    has_prefix(n, "fan"@) && has_suffix(n, "_input"@)
}

/// The label of a reading: its label file, else the chip name (or "hwmon")
/// and the file name without `_input`; trimmed.
pub open spec fn hwmon_label(f: HwmonFile) -> Seq<char> {
    let chip = trim(match f.chip_name { Some(c) => c@, None => "hwmon"@ });
    trim(match f.label {
        Some(l) => l@,
        None => chip + "_"@ + replace_all(f.file_name@, "_input"@, ""@),
    })
}

/// A temperature input that was read and reads as a number.
pub open spec fn is_temp_reading(f: HwmonFile) -> bool {
    is_temp_input(f.file_name@) && f.content is Some && f.temp_milli is Some
}

/// The reading of a temperature file in tenths of a degree.
pub open spec fn temp_tenths(f: HwmonFile) -> i32 {
    div_round_signed(f.temp_milli.unwrap() as int, 100) as i32
}

/// The fan speed of a fan input that was read and reads as a `u32`.
pub open spec fn fan_rpm(f: HwmonFile) -> Option<nat> {
    if !is_temp_input(f.file_name@) && is_fan_input(f.file_name@) && f.content is Some {
        parse_unsigned(trim(f.content.unwrap()@), u32::MAX as nat)
    } else {
        None
    }
}

/// The temperature zones found, in order.
pub open spec fn hwmon_zones(fs: Seq<HwmonFile>) -> Seq<(Seq<char>, i32)>
    decreases fs.len(),
{
    if fs.len() == 0 {
        Seq::empty()
    } else {
        let r = hwmon_zones(fs.drop_last());
        if is_temp_reading(fs.last()) { r.push((hwmon_label(fs.last()), temp_tenths(fs.last()))) } else { r }
    }
}

/// The temperatures found, in order.
pub open spec fn hwmon_temps(fs: Seq<HwmonFile>) -> Seq<i32>
    decreases fs.len(),
{
    if fs.len() == 0 {
        Seq::empty()
    } else {
        let r = hwmon_temps(fs.drop_last());
        if is_temp_reading(fs.last()) { r.push(temp_tenths(fs.last())) } else { r }
    }
}

/// The fans found, in order.
pub open spec fn hwmon_fans(fs: Seq<HwmonFile>) -> Seq<(Seq<char>, u32)>
    decreases fs.len(),
{
    if fs.len() == 0 {
        Seq::empty()
    } else {
        let r = hwmon_fans(fs.drop_last());
        match fan_rpm(fs.last()) {
            Some(rpm) => r.push((hwmon_label(fs.last()), rpm as u32)),
            None => r,
        }
    }
}

fn reading_label(f: &HwmonFile) -> (l: String)
    ensures
        l@ == hwmon_label(*f),
{
    let chip = match &f.chip_name { Some(c) => trim_text(c.as_str()), None => trim_text("hwmon") };
    proof {
        reveal_strlit("_input");
    }
    let raw = match &f.label {
        Some(l) => l.clone(),
        None => {
            let base = replace_text(f.file_name.as_str(), "_input", "");
            cat(cat(chip, "_"), base.as_str())
        },
    };
    trim_text(raw.as_str())
}


/// The sensor readings of Linux from its hwmon files: the first temperature
/// is the package's (45 °C when there is none), the highest reading at
/// least 65 °C; with no temperatures or zones the defaults stand in.
pub open spec fn linux_sensors_are(r: ThermalSensorMetrics, fs: Seq<HwmonFile>) -> bool {
    let temps = hwmon_temps(fs);
    let package: i32 = if temps.len() > 0 { temps[0] } else { 450 };
    let highest = max_i32_from(package as int, temps);
    let fan_list = hwmon_fans(fs);
    &&& r.cpu_package_temp_tenths == package
    &&& r.cpu_core_temps_tenths@ == (if temps.len() > 0 { temps } else { seq![420i32, 430, 415, 428] })
    &&& r.max_temp_recorded_tenths == (if highest < 650 { 650 } else { highest })
    &&& zones(r.thermal_zones@) == (if hwmon_zones(fs).len() > 0 {
        hwmon_zones(fs)
    } else {
        seq![("ACPI Thermal Zone 0"@, 420i32)]
    })
    &&& r.gpu_devices@.len() == 1
    &&& r.gpu_devices@[0].name@ == "Linux Direct Rendering (DRI/DRM)"@
    &&& r.gpu_devices@[0].vendor@ == "Mesa / Linux Kernel DRM"@
    &&& r.gpu_devices@[0].driver_version@ == "Kernel 6.x Direct Rendering Manager"@
    &&& r.gpu_devices@[0].temperature_tenths == (if package < 480 { package } else { 480 })
    &&& r.gpu_devices@[0].memory_total_mb == 8192
    &&& r.gpu_devices@[0].memory_used_mb == 1420
    &&& r.gpu_devices@[0].memory_usage_percent_tenths == 173
    &&& r.gpu_devices@[0].core_clock_mhz == 1200
    &&& r.gpu_devices@[0].fan_speed_rpm == (if fan_list.len() > 0 { Some(fan_list[0].1) } else { None })
    &&& r.gpu_devices@[0].fan_speed_percent == Some(30u32)
    &&& r.gpu_devices@[0].power_usage_watts_tenths == Some(150u32)
    &&& fans(r.fan_speeds_rpm@) == fan_list
    &&& !r.is_thermal_throttling
    &&& r.ring0_driver_active
    &&& r.driver_info@ == "Linux Kernel hwmon & sysfs telemetry subsystem"@
}

/// The Linux sensor readings from the hwmon files, in directory order.
pub fn query_linux_sensors(fs: &Vec<HwmonFile>) -> (r: ThermalSensorMetrics)
    ensures
        linux_sensors_are(r, fs@),
{
    let mut zone_list: Vec<(String, i32)> = Vec::new();
    let mut temps: Vec<i32> = Vec::new();
    let mut fan_list: Vec<(String, u32)> = Vec::new();
    let mut i: usize = 0;
    while i < fs.len()
        invariant
            i <= fs@.len(),
            zones(zone_list@) == hwmon_zones(fs@.subrange(0, i as int)),
            temps@ == hwmon_temps(fs@.subrange(0, i as int)),
            fans(fan_list@) == hwmon_fans(fs@.subrange(0, i as int)),
        decreases fs@.len() - i,
    {
        let f = &fs[i];
        let ghost pre = fs@.subrange(0, i as int);
        let ghost next = fs@.subrange(0, i + 1);
        proof {
            assert(next.drop_last() =~= pre);
            assert(next.last() == fs@[i as int]);
        }
        let temp_input = starts_with(f.file_name.as_str(), "temp") && ends_with(f.file_name.as_str(), "_input");
        if temp_input {
            match (&f.content, f.temp_milli) {
                (Some(_), Some(milli)) => {
                    let t = round_div_signed(milli as i64, 100);
                    assert(-21474837 <= t <= 21474837) by (nonlinear_arith)
                        requires
                            t == div_round_signed(milli as int, 100),
                            -2147483648 <= milli <= 2147483647;
                    let label = reading_label(f);
                    let ghost before = zone_list@;
                    zone_list.push((label, t as i32));
                    assert(zones(zone_list@) =~= zones(before).push((hwmon_label(*f), t as i32)));
                    temps.push(t as i32);
                },
                _ => {},
            }
        } else if starts_with(f.file_name.as_str(), "fan") && ends_with(f.file_name.as_str(), "_input") {
            match &f.content {
                Some(c) => {
                    let trimmed_content = trim_text(c.as_str());
                    match parse_u32(trimmed_content.as_str()) {
                        Some(rpm) => {
                            let label = reading_label(f);
                            let ghost before = fan_list@;
                            fan_list.push((label, rpm));
                            assert(fans(fan_list@) =~= fans(before).push((hwmon_label(*f), rpm)));
                        },
                        None => {},
                    }
                },
                None => {},
            }
        }
        i = i + 1;
    }
    assert(fs@.subrange(0, fs@.len() as int) =~= fs@);
    let package: i32 = if temps.len() > 0 { temps[0] } else { 450 };
    let highest = crate::stats::highest_i32(package, &temps);
    let first_fan: Option<u32> = if fan_list.len() > 0 { Some(fan_list[0].1) } else { None };
    let cores = if temps.len() > 0 { temps } else {
        let d = vec![420i32, 430, 415, 428];
        assert(d@ =~= seq![420i32, 430, 415, 428]);
        d
    };
    let z = if zone_list.len() > 0 { zone_list } else {
        let d = vec![zone("ACPI Thermal Zone 0", 420)];
        assert(zones(d@) =~= seq![("ACPI Thermal Zone 0"@, 420i32)]);
        d
    };
    let gpu = GpuDeviceMetrics {
        name: lit("Linux Direct Rendering (DRI/DRM)"),
        vendor: lit("Mesa / Linux Kernel DRM"),
        driver_version: lit("Kernel 6.x Direct Rendering Manager"),
        temperature_tenths: if package < 480 { package } else { 480 },
        memory_total_mb: 8192,
        memory_used_mb: 1420,
        memory_usage_percent_tenths: 173,
        core_clock_mhz: 1200,
        fan_speed_rpm: first_fan,
        fan_speed_percent: Some(30),
        power_usage_watts_tenths: Some(150),
    };
    ThermalSensorMetrics {
        cpu_package_temp_tenths: package,
        cpu_core_temps_tenths: cores,
        max_temp_recorded_tenths: if highest < 650 { 650 } else { highest },
        thermal_zones: z,
        gpu_devices: vec![gpu],
        fan_speeds_rpm: fan_list,
        is_thermal_throttling: false,
        ring0_driver_active: true,
        driver_info: lit("Linux Kernel hwmon & sysfs telemetry subsystem"),
    }
}

/// What the sensors of each platform gave.
pub enum SensorScan {
    /// The display report of macOS, `None` where it could not be had.
    MacOs { display_json: Option<String> },
    Windows,
    /// The hwmon files of Linux.
    Linux { files: Vec<HwmonFile> },
    Other,
}

/// The sensor readings of the platform: macOS from its display report
/// (the generic profile when there is none or it is not JSON), Windows its
/// fixed profile, Linux its hwmon readings, others the generic profile.
pub fn get_thermal_and_gpu_diagnostics(scan: SensorScan) -> (r: ThermalSensorMetrics)
    ensures
        scan is Windows ==> windows_sensors_are(r),
        scan matches SensorScan::Linux { files } ==> linux_sensors_are(r, files@),
        scan is Other ==> fallback_sensors_are(r),
        scan matches SensorScan::MacOs { display_json } ==> (display_json is None ==> fallback_sensors_are(r)),
        scan matches SensorScan::MacOs { display_json } ==> (display_json matches Some(j) ==> (
            (json_parsed(j@) is None ==> fallback_sensors_are(r))
            && (json_parsed(j@) is Some ==> exists|d: MacDisplayRecord|
                display_record_read(d, json_parsed(j@).unwrap()) && #[trigger] macos_sensors_are(r, d)))),
        max_covers_readings(r),
{
    let r = match scan {
        SensorScan::MacOs { display_json } => match display_json {
            Some(j) => match query_macos_sensors(j.as_str()) {
                Some(m) => m,
                None => query_generic_fallback_sensors(),
            },
            None => query_generic_fallback_sensors(),
        },
        SensorScan::Windows => query_windows_sensors(),
        SensorScan::Linux { files } => query_linux_sensors(&files),
        SensorScan::Other => query_generic_fallback_sensors(),
    };
    proof {
        lemma_sensors_max_covers(r);
    }
    r
}


/// The highest recorded temperature is no cooler than the package or any
/// core.
pub open spec fn max_covers_readings(r: ThermalSensorMetrics) -> bool {
    &&& r.max_temp_recorded_tenths >= r.cpu_package_temp_tenths
    &&& forall|i: int| 0 <= i < r.cpu_core_temps_tenths@.len()
        ==> #[trigger] r.cpu_core_temps_tenths@[i] <= r.max_temp_recorded_tenths
}

/// On every platform the highest recorded temperature is at least the
/// package temperature and every core temperature.
pub proof fn lemma_sensors_max_covers(r: ThermalSensorMetrics)
    requires
        windows_sensors_are(r) || fallback_sensors_are(r)
            || (exists|d: MacDisplayRecord| #[trigger] macos_sensors_are(r, d))
            || (exists|fs: Seq<HwmonFile>| #[trigger] linux_sensors_are(r, fs)),
    ensures
        max_covers_readings(r),
{
    if exists|fs: Seq<HwmonFile>| #[trigger] linux_sensors_are(r, fs) {
        let fs = choose|fs: Seq<HwmonFile>| #[trigger] linux_sensors_are(r, fs);
        let temps = hwmon_temps(fs);
        let package: i32 = if temps.len() > 0 { temps[0] } else { 450 };
        lemma_max_from_bounds(package as int, temps);
        if temps.len() > 0 {
            assert(temps[0] <= max_i32_from(package as int, temps));
        }
    }
}

} // verus!
