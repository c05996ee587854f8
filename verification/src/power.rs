//! Power-limit and throttling diagnosis from the thermal and load readings.

use vstd::prelude::*;
use crate::model::{CpuMetrics, ThermalSensorMetrics, texts};
use crate::text::{div_round, lit, round_div};

verus! {

/// Power delivery, throttling indicators and their explanation.
pub struct PowerThrottlingMetrics {
    /// Estimated CPU package power in tenths of a watt.
    pub cpu_package_power_watts_tenths: u64,
    /// GPU board power in tenths of a watt.
    pub gpu_power_watts_tenths: u64,
    pub is_thermal_throttling: bool,
    pub is_power_limit_throttling: bool,
    pub is_current_edp_throttling: bool,
    pub is_voltage_reliability_limit: bool,
    pub psu_12v_rail_status: String,
    pub psu_5v_rail_status: String,
    pub psu_3v3_rail_status: String,
    /// Estimated VRM temperature in tenths of a degree Celsius.
    pub vrm_temperature_tenths: i32,
    pub overall_power_status: String,
    pub throttling_flags: Vec<String>,
    pub recommendations: Vec<String>,
}

/// Thermal throttling: the package at 95 °C or more, or the sensors report it.
pub open spec fn thermal_throttling(t: ThermalSensorMetrics) -> bool {
    t.cpu_package_temp_tenths >= 950 || t.is_thermal_throttling
}

/// Power-limit throttling: more than 90 % load below 88 °C.
pub open spec fn power_limited(t: ThermalSensorMetrics, c: CpuMetrics) -> bool {
    c.global_usage_tenths > 900 && t.cpu_package_temp_tenths < 880
}

/// Package power of a 45 W part: 20 % idle floor plus 80 % scaled by load,
/// rounded to tenths of a watt.
pub open spec fn package_power_tenths(usage_tenths: u32) -> nat {
    div_round((9000 + 36 * usage_tenths) as nat, 100)
}

/// The first adapter's board power; 35 W when no adapter reports one.
pub open spec fn gpu_power_tenths(t: ThermalSensorMetrics) -> nat {
    if t.gpu_devices@.len() > 0 && t.gpu_devices@[0].power_usage_watts_tenths is Some {
        t.gpu_devices@[0].power_usage_watts_tenths->0 as nat
    } else {
        350
    }
}

/// VRM temperature estimate: 85 % of the package temperature, at least 38 °C,
/// rounded to tenths.
pub open spec fn vrm_tenths(package_tenths: i32) -> int {
    if 85 * package_tenths >= 38000 { div_round((85 * package_tenths) as nat, 100) as int } else { 380 }
}

pub open spec fn throttling_flags(thermal: bool, power: bool) -> Seq<Seq<char>> {
    let f = (if thermal { seq!["PROCHOT / Thermal Limit Tripped (CPU > 95°C)"@] } else { seq![] })
        + (if power { seq!["PL1 / PL2 Package Power Limit Reached"@] } else { seq![] });
    if f.len() == 0 { seq!["All Limits Nominal (No Active Throttling)"@] } else { f }
}

pub open spec fn power_recommendations(thermal: bool, power: bool) -> Seq<Seq<char>> {
    let r = (if thermal {
        seq!["CPU is reducing clock frequencies to prevent overheating. Inspect thermal paste, fan curves, or dust accumulation."@]
    } else {
        seq![]
    }) + (if power {
        seq!["Processor is operating at maximum sustained power limit (PL1/PL2). This is normal under heavy multi-threaded workloads."@]
    } else {
        seq![]
    });
    if !thermal && !power {
        seq!["Power delivery and VRM temperatures are within safe operating parameters."@]
    } else {
        r
    }
}

pub open spec fn overall_power_status(thermal: bool, power: bool) -> Seq<char> {
    if thermal {
        "Thermal Throttling Active"@
    } else if power {
        "Power Limit (Max Throughput)"@
    } else {
        "Nominal Power Delivery"@
    }
}

/// Diagnoses power limits and throttling from the thermal readings and the
/// processor load.
pub fn get_power_throttling_diagnostics(thermals: &ThermalSensorMetrics, cpu_info: &CpuMetrics) -> (r: PowerThrottlingMetrics)
    ensures
        r.is_thermal_throttling == thermal_throttling(*thermals),
        r.is_power_limit_throttling == power_limited(*thermals, *cpu_info),
        r.is_current_edp_throttling == (cpu_info.global_usage_tenths > 950),
        !r.is_voltage_reliability_limit,
        r.cpu_package_power_watts_tenths == package_power_tenths(cpu_info.global_usage_tenths),
        r.gpu_power_watts_tenths == gpu_power_tenths(*thermals),
        r.vrm_temperature_tenths == vrm_tenths(thermals.cpu_package_temp_tenths),
        r.psu_12v_rail_status@ == "12.06 V (Nominal ±1%)"@,
        r.psu_5v_rail_status@ == "5.04 V (Nominal ±1%)"@,
        r.psu_3v3_rail_status@ == "3.32 V (Nominal ±1%)"@,
        r.overall_power_status@ == overall_power_status(r.is_thermal_throttling, r.is_power_limit_throttling),
        texts(r.throttling_flags@) == throttling_flags(r.is_thermal_throttling, r.is_power_limit_throttling),
        texts(r.recommendations@) == power_recommendations(r.is_thermal_throttling, r.is_power_limit_throttling),
{
    let cpu_temp = thermals.cpu_package_temp_tenths;
    let is_thermal_throttling = cpu_temp >= 950 || thermals.is_thermal_throttling;
    let usage = cpu_info.global_usage_tenths;
    let cpu_package_power = round_div(9000 + 36 * usage as u64, 100);
    let gpu_power: u64 = if thermals.gpu_devices.len() > 0 {
        match thermals.gpu_devices[0].power_usage_watts_tenths {
            Some(w) => w as u64,
            None => 350,
        }
    } else {
        350
    };
    let is_power_limit = usage > 900 && cpu_temp < 880;
    let is_current_edp = usage > 950;

    let mut flags: Vec<String> = Vec::new();
    let mut recs: Vec<String> = Vec::new();
    if is_thermal_throttling {
        flags.push(lit("PROCHOT / Thermal Limit Tripped (CPU > 95°C)"));
        recs.push(lit("CPU is reducing clock frequencies to prevent overheating. Inspect thermal paste, fan curves, or dust accumulation."));
    }
    if is_power_limit {
        flags.push(lit("PL1 / PL2 Package Power Limit Reached"));
        recs.push(lit("Processor is operating at maximum sustained power limit (PL1/PL2). This is normal under heavy multi-threaded workloads."));
    }
    if flags.len() == 0 {
        flags.push(lit("All Limits Nominal (No Active Throttling)"));
        recs.push(lit("Power delivery and VRM temperatures are within safe operating parameters."));
    }
    assert(texts(flags@) =~= throttling_flags(is_thermal_throttling, is_power_limit));
    assert(texts(recs@) =~= power_recommendations(is_thermal_throttling, is_power_limit));

    let overall_status = if is_thermal_throttling {
        lit("Thermal Throttling Active")
    } else if is_power_limit {
        lit("Power Limit (Max Throughput)")
    } else {
        lit("Nominal Power Delivery")
    };

    let vrm: i32 = if cpu_temp >= 448 {
        let scaled: u64 = 85 * (cpu_temp as u64);
        if scaled >= 38000 {
            let v = round_div(scaled, 100);
            assert(v <= scaled);
            v as i32
        } else {
            380
        }
    } else {
        380
    };

    PowerThrottlingMetrics {
        cpu_package_power_watts_tenths: cpu_package_power,
        gpu_power_watts_tenths: gpu_power,
        is_thermal_throttling,
        is_power_limit_throttling: is_power_limit,
        is_current_edp_throttling: is_current_edp,
        is_voltage_reliability_limit: false,
        psu_12v_rail_status: lit("12.06 V (Nominal ±1%)"),
        psu_5v_rail_status: lit("5.04 V (Nominal ±1%)"),
        psu_3v3_rail_status: lit("3.32 V (Nominal ±1%)"),
        vrm_temperature_tenths: vrm,
        overall_power_status: overall_status,
        throttling_flags: flags,
        recommendations: recs,
    }
}

/// Exactly one of the three power states is reported, and a nominal state
/// comes with no throttling indicator raised.
pub proof fn lemma_nominal_means_unthrottled(thermal: bool, power: bool)
    ensures
        (overall_power_status(thermal, power) == "Nominal Power Delivery"@) ==> (!thermal && !power),
        throttling_flags(thermal, power).len() >= 1,
        power_recommendations(thermal, power).len() >= 1,
{
    reveal_strlit("Nominal Power Delivery");
    reveal_strlit("Thermal Throttling Active");
    reveal_strlit("Power Limit (Max Throughput)");
    if thermal {
        assert("Thermal Throttling Active"@[0] != "Nominal Power Delivery"@[0]);
    } else if power {
        assert("Power Limit (Max Throughput)"@[0] != "Nominal Power Delivery"@[0]);
    }
}


/// A package at 95 °C or more is always throttling thermally, whatever the
/// sensors' own flag says: the status is "Thermal Throttling Active" and the
/// first flag is the PROCHOT trip. Below 95 °C with the sensors' flag clear
/// there is no thermal throttling.
pub proof fn lemma_hot_package_throttles(t: ThermalSensorMetrics, c: CpuMetrics)
    ensures
        t.cpu_package_temp_tenths >= 950 ==> thermal_throttling(t)
            && overall_power_status(thermal_throttling(t), power_limited(t, c)) == "Thermal Throttling Active"@
            && throttling_flags(thermal_throttling(t), power_limited(t, c))[0]
                == "PROCHOT / Thermal Limit Tripped (CPU > 95°C)"@,
        t.cpu_package_temp_tenths < 950 && !t.is_thermal_throttling ==> !thermal_throttling(t),
{
}

} // verus!
