//! The diagnostic records that the engine produces and consumes.
//!
//! Quantities shown with one decimal place are held in tenths: a field named
//! `..._tenths` holds ten times the value (a temperature of 41.5 °C is 415, a
//! health of 88.0 % is 880).

use vstd::prelude::*;

verus! {

/// The view of a list of strings: the list of their texts.
pub open spec fn texts(v: Seq<String>) -> Seq<Seq<char>> {
    v.map_values(|s: String| s@)
}

/// Battery state and wear.
#[derive(Clone, Debug)]
pub struct BatterySnapshot {
    pub ac_status: String,
    pub battery_life_percent: u8,
    pub battery_flag: u8,
    pub battery_life_time_secs: i64,
    pub design_capacity_mwh: u64,
    pub full_charge_capacity_mwh: u64,
    pub current_capacity_mwh: u64,
    pub cycle_count: u32,
    /// Full-charge capacity as a share of design capacity, in tenths of a percent.
    pub health_percent_tenths: u32,
    /// `100 % - health`, in tenths of a percent.
    pub wear_percent_tenths: u32,
    pub chemistry: String,
    /// Battery temperature in tenths of a degree Celsius.
    pub temperature_tenths: Option<i32>,
    pub voltage_mv: u32,
    pub charge_rate_mw: i32,
    pub is_present: bool,
    pub is_charging: bool,
}

/// One S.M.A.R.T. attribute of a SATA drive.
#[derive(Clone, Debug)]
pub struct SmartAttribute {
    pub id: u8,
    pub name: String,
    pub current_value: u8,
    pub worst_value: u8,
    pub threshold: u8,
    pub raw_value: u64,
    pub status: String,
}

/// The texts of a [`SmartAttribute`].
pub struct SmartAttributeView {
    pub id: u8,
    pub name: Seq<char>,
    pub current_value: u8,
    pub worst_value: u8,
    pub threshold: u8,
    pub raw_value: u64,
    pub status: Seq<char>,
}

impl View for SmartAttribute {
    type V = SmartAttributeView;

    open spec fn view(&self) -> SmartAttributeView {
        SmartAttributeView {
            id: self.id,
            name: self.name@,
            current_value: self.current_value,
            worst_value: self.worst_value,
            threshold: self.threshold,
            raw_value: self.raw_value,
            status: self.status@,
        }
    }
}

/// Health and endurance of a physical drive.
#[derive(Clone, Debug)]
pub struct StorageDriveMetrics {
    pub device_id: String,
    pub model: String,
    pub serial_number: String,
    pub firmware_rev: String,
    /// "NVMe", "ATA / SATA", "SCSI", "USB", ...
    pub bus_type: String,
    pub size_bytes: u64,
    pub size_formatted: String,
    pub smart_supported: bool,
    /// "Healthy", "Warning" or "Critical".
    pub health_status: String,
    /// 0 - 100.
    pub health_score: u8,
    /// NVMe endurance consumed, in percent.
    pub percentage_used: u8,
    pub available_spare: u8,
    pub available_spare_threshold: u8,
    pub critical_warnings: Vec<String>,
    /// Composite temperature in tenths of a degree Celsius.
    pub temperature_tenths: i32,
    pub data_units_read_gb: u64,
    pub data_units_written_gb: u64,
    pub power_on_hours: u64,
    pub power_cycles: u64,
    pub unsafe_shutdowns: u64,
    pub media_errors: u64,
    pub smart_attributes: Vec<SmartAttribute>,
}

/// The texts and values of a [`StorageDriveMetrics`].
pub struct DriveView {
    pub device_id: Seq<char>,
    pub model: Seq<char>,
    pub serial_number: Seq<char>,
    pub firmware_rev: Seq<char>,
    pub bus_type: Seq<char>,
    pub size_bytes: u64,
    pub size_formatted: Seq<char>,
    pub smart_supported: bool,
    pub health_status: Seq<char>,
    pub health_score: u8,
    pub percentage_used: u8,
    pub available_spare: u8,
    pub available_spare_threshold: u8,
    pub critical_warnings: Seq<Seq<char>>,
    pub temperature_tenths: i32,
    pub data_units_read_gb: u64,
    pub data_units_written_gb: u64,
    pub power_on_hours: u64,
    pub power_cycles: u64,
    pub unsafe_shutdowns: u64,
    pub media_errors: u64,
    pub smart_attributes: Seq<SmartAttributeView>,
}

impl View for StorageDriveMetrics {
    type V = DriveView;

    open spec fn view(&self) -> DriveView {
        DriveView {
            device_id: self.device_id@,
            model: self.model@,
            serial_number: self.serial_number@,
            firmware_rev: self.firmware_rev@,
            bus_type: self.bus_type@,
            size_bytes: self.size_bytes,
            size_formatted: self.size_formatted@,
            smart_supported: self.smart_supported,
            health_status: self.health_status@,
            health_score: self.health_score,
            percentage_used: self.percentage_used,
            available_spare: self.available_spare,
            available_spare_threshold: self.available_spare_threshold,
            critical_warnings: texts(self.critical_warnings@),
            temperature_tenths: self.temperature_tenths,
            data_units_read_gb: self.data_units_read_gb,
            data_units_written_gb: self.data_units_written_gb,
            power_on_hours: self.power_on_hours,
            power_cycles: self.power_cycles,
            unsafe_shutdowns: self.unsafe_shutdowns,
            media_errors: self.media_errors,
            smart_attributes: self.smart_attributes@.map_values(|a: SmartAttribute| a@),
        }
    }
}

/// A graphics adapter's telemetry.
#[derive(Clone, Debug)]
pub struct GpuDeviceMetrics {
    pub name: String,
    pub vendor: String,
    pub driver_version: String,
    pub temperature_tenths: i32,
    pub memory_total_mb: u64,
    pub memory_used_mb: u64,
    pub memory_usage_percent_tenths: u32,
    pub core_clock_mhz: u32,
    pub fan_speed_rpm: Option<u32>,
    pub fan_speed_percent: Option<u32>,
    /// Board power in tenths of a watt.
    pub power_usage_watts_tenths: Option<u32>,
}

/// Temperatures, fans and graphics adapters.
#[derive(Clone, Debug)]
pub struct ThermalSensorMetrics {
    /// CPU package temperature in tenths of a degree Celsius.
    pub cpu_package_temp_tenths: i32,
    pub cpu_core_temps_tenths: Vec<i32>,
    pub max_temp_recorded_tenths: i32,
    pub thermal_zones: Vec<(String, i32)>,
    pub gpu_devices: Vec<GpuDeviceMetrics>,
    pub fan_speeds_rpm: Vec<(String, u32)>,
    pub is_thermal_throttling: bool,
    pub ring0_driver_active: bool,
    pub driver_info: String,
}

/// Processor identity, load and clocks.
#[derive(Clone, Debug)]
pub struct CpuMetrics {
    pub model: String,
    pub vendor: String,
    pub physical_cores: usize,
    pub logical_cores: usize,
    pub base_frequency_mhz: u64,
    pub current_frequency_mhz: u64,
    /// Overall load in tenths of a percent.
    pub global_usage_tenths: u32,
    pub per_core_usage_tenths: Vec<u32>,
    pub per_core_frequencies: Vec<u64>,
    pub temperature_tenths: Option<i32>,
    pub is_throttling: bool,
}

/// RAM and swap occupancy.
#[derive(Clone, Debug)]
pub struct MemoryMetrics {
    pub total_bytes: u64,
    pub used_bytes: u64,
    pub free_bytes: u64,
    pub available_bytes: u64,
    pub usage_percent_tenths: u32,
    pub swap_total_bytes: u64,
    pub swap_used_bytes: u64,
    pub swap_free_bytes: u64,
    pub swap_usage_percent_tenths: u32,
}

/// One process of the top-memory table.
#[derive(Clone, Debug)]
pub struct ProcessSnapshot {
    pub pid: u32,
    pub name: String,
    pub cpu_usage_tenths: u32,
    pub memory_bytes: u64,
    pub memory_formatted: String,
}

/// A Device Manager entry that reports a configuration error.
#[derive(Clone, Debug)]
pub struct ProblemDevice {
    pub name: String,
    pub device_id: String,
    pub error_code: u32,
    pub status: String,
    pub description: String,
}

/// The texts of a [`ProblemDevice`].
pub struct ProblemDeviceView {
    pub name: Seq<char>,
    pub device_id: Seq<char>,
    pub error_code: u32,
    pub status: Seq<char>,
    pub description: Seq<char>,
}

impl View for ProblemDevice {
    type V = ProblemDeviceView;

    open spec fn view(&self) -> ProblemDeviceView {
        ProblemDeviceView {
            name: self.name@,
            device_id: self.device_id@,
            error_code: self.error_code,
            status: self.status@,
            description: self.description@,
        }
    }
}

/// An event of the system log that bears on stability.
#[derive(Clone, Debug)]
pub struct SystemStabilityEvent {
    pub timestamp: String,
    pub provider: String,
    pub event_id: u32,
    /// "Hardware", "Power", "Driver", "System".
    pub category: String,
    /// "Critical", "Error", "Warning".
    pub level: String,
    pub title: String,
    pub description: String,
}

/// The texts of a [`SystemStabilityEvent`].
pub struct StabilityEventView {
    pub timestamp: Seq<char>,
    pub provider: Seq<char>,
    pub event_id: u32,
    pub category: Seq<char>,
    pub level: Seq<char>,
    pub title: Seq<char>,
    pub description: Seq<char>,
}

impl View for SystemStabilityEvent {
    type V = StabilityEventView;

    open spec fn view(&self) -> StabilityEventView {
        StabilityEventView {
            timestamp: self.timestamp@,
            provider: self.provider@,
            event_id: self.event_id,
            category: self.category@,
            level: self.level@,
            title: self.title@,
            description: self.description@,
        }
    }
}

/// The hardware half of the integrity assessment.
#[derive(Clone, Debug)]
pub struct HardwareIntegrityStatus {
    pub score: u8,
    pub status: String,
    pub whea_error_count: usize,
    pub problem_device_count: usize,
    pub details: Vec<String>,
}

/// The operating-system half of the integrity assessment.
#[derive(Clone, Debug)]
pub struct OsIntegrityStatus {
    pub score: u8,
    pub status: String,
    pub sudden_shutdown_count: usize,
    pub minidump_count: usize,
    pub service_timeout_count: usize,
    pub details: Vec<String>,
}

/// One crash dump / kernel panic report.
#[derive(Clone, Debug)]
pub struct CrashDetail {
    pub dump_file_name: String,
    pub dump_path: String,
    pub crash_time: String,
    pub bugcheck_code: String,
    pub bugcheck_symbol: String,
    pub faulting_driver: String,
    pub description: String,
}

/// The texts of a [`CrashDetail`].
pub struct CrashDetailView {
    pub dump_file_name: Seq<char>,
    pub dump_path: Seq<char>,
    pub crash_time: Seq<char>,
    pub bugcheck_code: Seq<char>,
    pub bugcheck_symbol: Seq<char>,
    pub faulting_driver: Seq<char>,
    pub description: Seq<char>,
}

impl View for CrashDetail {
    type V = CrashDetailView;

    open spec fn view(&self) -> CrashDetailView {
        CrashDetailView {
            dump_file_name: self.dump_file_name@,
            dump_path: self.dump_path@,
            crash_time: self.crash_time@,
            bugcheck_code: self.bugcheck_code@,
            bugcheck_symbol: self.bugcheck_symbol@,
            faulting_driver: self.faulting_driver@,
            description: self.description@,
        }
    }
}

/// Crash dumps, problem devices, stability events and their verdict.
#[derive(Clone, Debug)]
pub struct CrashDumpInfo {
    pub minidump_directory: String,
    pub total_dumps_found: usize,
    pub latest_dump_time: Option<String>,
    pub recent_crashes: Vec<CrashDetail>,
    pub problem_devices: Vec<ProblemDevice>,
    pub stability_events: Vec<SystemStabilityEvent>,
    pub hardware_status: HardwareIntegrityStatus,
    pub os_status: OsIntegrityStatus,
    pub diagnosis_verdict: String,
    pub recommendations: Vec<String>,
}

/// A finding of the health report.
#[derive(Clone, Debug)]
pub struct HealthWarning {
    /// "Battery", "Storage", "Thermal", "Stability".
    pub category: String,
    /// "Info", "Warning", "Critical".
    pub severity: String,
    pub title: String,
    pub message: String,
    pub impact: String,
}

/// The texts of a [`HealthWarning`].
pub struct HealthWarningView {
    pub category: Seq<char>,
    pub severity: Seq<char>,
    pub title: Seq<char>,
    pub message: Seq<char>,
    pub impact: Seq<char>,
}

impl View for HealthWarning {
    type V = HealthWarningView;

    open spec fn view(&self) -> HealthWarningView {
        HealthWarningView {
            category: self.category@,
            severity: self.severity@,
            title: self.title@,
            message: self.message@,
            impact: self.impact@,
        }
    }
}

/// Host identity shown at the top of the report.
#[derive(Clone, Debug)]
pub struct SystemSummary {
    pub os_name: String,
    pub os_version: String,
    pub kernel_version: String,
    pub hostname: String,
    pub uptime_seconds: u64,
    pub uptime_formatted: String,
    pub cpu_model: String,
    pub cpu_cores: usize,
    pub total_memory_formatted: String,
    pub primary_storage_model: String,
    pub is_admin: bool,
}

/// The overall health report.
#[derive(Clone, Debug)]
pub struct SystemHealthReport {
    pub overall_score: u8,
    /// "Excellent", "Good", "Fair", "Attention Needed", "Critical".
    pub status_level: String,
    pub battery_subscore: u8,
    pub storage_subscore: u8,
    pub thermal_subscore: u8,
    pub stability_subscore: u8,
    pub warnings: Vec<HealthWarning>,
    pub recommendations: Vec<String>,
    pub generated_at: String,
    pub summary: SystemSummary,
}


/// A mounted volume.
#[derive(Clone, Debug)]
pub struct LogicalVolumeInfo {
    pub drive_letter: String,
    pub volume_name: String,
    pub file_system: String,
    pub total_bytes: u64,
    pub free_bytes: u64,
    pub used_bytes: u64,
    /// Used share in tenths of a percent.
    pub usage_percent_tenths: u32,
    pub size_formatted: String,
    pub free_formatted: String,
}

/// A saved benchmark run.
#[derive(Clone, Debug)]
pub struct BenchmarkRecord {
    pub id: String,
    pub timestamp: String,
    pub target_device: String,
    /// "CPU", "Disk", "RAM" or "Stress".
    pub benchmark_type: String,
    pub score_summary: String,
    pub detail_json: String,
}

/// Progress of a running stress test.
#[derive(Clone, Debug)]
pub struct StressTestProgress {
    pub elapsed_seconds: u64,
    pub total_duration_seconds: u64,
    pub current_temp_tenths: i32,
    pub peak_temp_tenths: i32,
    pub current_frequency_mhz: u64,
    pub is_throttling: bool,
    /// Throughput in hundredths of GFLOPS.
    pub gflops_centi: u64,
}

} // verus!
