//! The multi-factor health score: battery 20 %, storage 35 %, thermals 25 %,
//! crash stability 20 %, with the warnings and recommendations that explain it.

use vstd::prelude::*;
use crate::model::{
    BatterySnapshot, CrashDumpInfo, HealthWarning, HealthWarningView, StorageDriveMetrics, SystemHealthReport,
    SystemSummary, ThermalSensorMetrics, texts,
};
use crate::text::{cat, decimal, div_round, lit, num, round_div, signed_tenths, signed_tenths_text, tenths, tenths_text};

verus! {

// ---------------------------------------------------------------- subscores

/// Battery subscore: the battery's health percent (whole part, at most 100);
/// 100 where there is no battery.
pub open spec fn battery_subscore(battery: Option<BatterySnapshot>) -> u8 {
    match battery {
        Some(b) => if b.is_present {
            if b.health_percent_tenths / 10 < 100 { (b.health_percent_tenths / 10) as u8 } else { 100 }
        } else {
            100
        },
        None => 100,
    }
}

/// A drive's score: its health score, 40 points lower (not below 0) when it
/// reports a critical S.M.A.R.T. warning.
pub open spec fn drive_score(d: StorageDriveMetrics) -> u8 {
    if d.critical_warnings@.len() > 0 {
        if d.health_score >= 40 { (d.health_score - 40) as u8 } else { 0 }
    } else {
        d.health_score
    }
}

/// Sum of the drive scores.
pub open spec fn drive_score_sum(ds: Seq<StorageDriveMetrics>) -> nat
    decreases ds.len(),
{
    if ds.len() == 0 { 0 } else { drive_score_sum(ds.drop_last()) + drive_score(ds.last()) as nat }
}

/// Storage subscore: the mean drive score rounded down; 95 with no drive.
pub open spec fn storage_subscore(ds: Seq<StorageDriveMetrics>) -> u8 {
    if ds.len() == 0 { 95 } else { (drive_score_sum(ds) / ds.len()) as u8 }
}

/// Thermal subscore: 65 above 85 °C or while throttling, 82 above 70 °C,
/// else 95.
pub open spec fn thermal_subscore(t: ThermalSensorMetrics) -> u8 {
    if t.cpu_package_temp_tenths > 850 || t.is_thermal_throttling {
        65
    } else if t.cpu_package_temp_tenths > 700 {
        82
    } else {
        95
    }
}

/// The penalty for `n` crash dumps: 8 points per dump, at most 35.
pub open spec fn crash_penalty(n: usize) -> u8 {
    if 8 * n < 35 { (8 * n) as u8 } else { 35 }
}

/// Stability subscore: 100 less the crash penalty.
pub open spec fn stability_subscore(c: CrashDumpInfo) -> u8 {
    if c.total_dumps_found > 0 { (100 - crash_penalty(c.total_dumps_found)) as u8 } else { 100 }
}

/// The weighted overall score: round(0.20 b + 0.35 s + 0.25 t + 0.20 c),
/// clamped to 1..=100.
pub open spec fn overall_score(b: u8, s: u8, t: u8, c: u8) -> u8 {
    let r = div_round((20 * b + 35 * s + 25 * t + 20 * c) as nat, 100);
    if r < 1 { 1 } else if r > 100 { 100 } else { r as u8 }
}

/// The status band of an overall score.
pub open spec fn status_level(score: u8) -> Seq<char> {
    if 90 <= score && score <= 100 { "Excellent"@ }
    else if 75 <= score && score <= 89 { "Good"@ }
    else if 60 <= score && score <= 74 { "Fair"@ }
    else if 40 <= score && score <= 59 { "Attention Needed"@ }
    else { "Critical"@ }
}

// ---------------------------------------------------------------- findings

pub open spec fn battery_wear_warning(b: BatterySnapshot) -> HealthWarningView {
    HealthWarningView {
        category: "Battery"@,
        severity: "Warning"@,
        title: "High Battery Wear Level"@,
        message: "Battery has worn down by "@ + tenths(b.wear_percent_tenths as nat)
            + "%. Full charge capacity is "@ + decimal(b.full_charge_capacity_mwh as nat)
            + " mWh vs designed "@ + decimal(b.design_capacity_mwh as nat) + " mWh."@,
        impact: "Significantly reduced unplugged runtime. Consider battery calibration or replacement."@,
    }
}

/// A present battery worn by more than 30 %.
pub open spec fn battery_is_worn(battery: Option<BatterySnapshot>) -> bool {
    match battery {
        Some(b) => b.is_present && b.wear_percent_tenths > 300,
        None => false,
    }
}

pub open spec fn battery_warnings(battery: Option<BatterySnapshot>) -> Seq<HealthWarningView> {
    if battery_is_worn(battery) { seq![battery_wear_warning(battery->0)] } else { seq![] }
}

pub open spec fn battery_recommendations(battery: Option<BatterySnapshot>) -> Seq<Seq<char>> {
    if battery_is_worn(battery) {
        seq!["Enable battery charging threshold (80% limit) in BIOS / OEM utility to prolong lifespan."@]
    } else {
        seq![]
    }
}

pub open spec fn smart_flag_warning(d: StorageDriveMetrics, w: Seq<char>) -> HealthWarningView {
    HealthWarningView {
        category: "Storage"@,
        severity: "Critical"@,
        title: d.device_id@ + ": "@ + w,
        message: "Drive "@ + d.model@ + " reported SMART critical flag: "@ + w,
        impact: "Risk of data corruption or device failure. Backup critical data immediately."@,
    }
}

pub open spec fn drive_wear_warning(d: StorageDriveMetrics) -> HealthWarningView {
    HealthWarningView {
        category: "Storage"@,
        severity: "Warning"@,
        title: d.device_id@ + ": High TBW / Wear"@,
        message: "SSD endurance consumed is "@ + decimal(d.percentage_used as nat) + "% (TBW: "@
            + decimal(d.data_units_written_gb as nat) + " GB written)."@,
        impact: "NAND flash endurance reaching manufacturer warranty limits."@,
    }
}

/// One drive's findings: a critical finding per S.M.A.R.T. flag, then a wear
/// finding when more than 80 % of its endurance is used.
pub open spec fn drive_warnings(d: StorageDriveMetrics) -> Seq<HealthWarningView> {
    Seq::new(d.critical_warnings@.len(), |i: int| smart_flag_warning(d, d.critical_warnings@[i]@))
        + if d.percentage_used > 80 { seq![drive_wear_warning(d)] } else { seq![] }
}

pub open spec fn storage_warnings(ds: Seq<StorageDriveMetrics>) -> Seq<HealthWarningView>
    decreases ds.len(),
{
    if ds.len() == 0 { seq![] } else { storage_warnings(ds.drop_last()) + drive_warnings(ds.last()) }
}

pub open spec fn drive_recommendations(d: StorageDriveMetrics) -> Seq<Seq<char>> {
    if d.critical_warnings@.len() > 0 {
        seq!["Immediate backup recommended for "@ + d.model@ + "."@]
    } else {
        seq![]
    }
}

pub open spec fn storage_recommendations(ds: Seq<StorageDriveMetrics>) -> Seq<Seq<char>>
    decreases ds.len(),
{
    if ds.len() == 0 { seq![] } else { storage_recommendations(ds.drop_last()) + drive_recommendations(ds.last()) }
}

pub open spec fn is_running_hot(t: ThermalSensorMetrics) -> bool {
    t.cpu_package_temp_tenths > 850 || t.is_thermal_throttling
}

pub open spec fn thermal_warnings(t: ThermalSensorMetrics) -> Seq<HealthWarningView> {
    if is_running_hot(t) {
        seq![HealthWarningView {
            category: "Thermal"@,
            severity: "Warning"@,
            title: "Elevated CPU Temperatures"@,
            message: "CPU package reached "@ + signed_tenths(t.cpu_package_temp_tenths as int)
                + "°C. Throttling threshold may be engaged."@,
            impact: "Reduced boost frequencies, thermal throttling under continuous load."@,
        }]
    } else {
        seq![]
    }
}

pub open spec fn thermal_recommendations(t: ThermalSensorMetrics) -> Seq<Seq<char>> {
    if is_running_hot(t) {
        seq!["Inspect heatsink thermal paste and clean cooling dust filters."@]
    } else {
        seq![]
    }
}

/// Crash dumps were found and the most recent one is listed.
pub open spec fn has_recent_crash(c: CrashDumpInfo) -> bool {
    c.total_dumps_found > 0 && c.recent_crashes@.len() > 0
}

pub open spec fn stability_warnings(c: CrashDumpInfo) -> Seq<HealthWarningView> {
    if has_recent_crash(c) {
        let r = c.recent_crashes@[0];
        seq![HealthWarningView {
            category: "Stability"@,
            severity: "Warning"@,
            title: "Recent BSOD Crash: "@ + r.bugcheck_symbol@,
            message: "System crashed on "@ + r.crash_time@ + " due to "@ + r.bugcheck_symbol@
                + ". Faulting driver: "@ + r.faulting_driver@,
            impact: "Unscheduled reboot or application crash."@,
        }]
    } else {
        seq![]
    }
}

pub open spec fn stability_recommendations(c: CrashDumpInfo) -> Seq<Seq<char>> {
    if has_recent_crash(c) {
        let r = c.recent_crashes@[0];
        seq!["Check for updated WHQL drivers for "@ + r.faulting_driver@ + " ("@ + r.bugcheck_symbol@ + ")"@]
    } else {
        seq![]
    }
}

/// All findings, in report order.
pub open spec fn report_warnings(
    battery: Option<BatterySnapshot>,
    ds: Seq<StorageDriveMetrics>,
    t: ThermalSensorMetrics,
    c: CrashDumpInfo,
) -> Seq<HealthWarningView> {
    battery_warnings(battery) + storage_warnings(ds) + thermal_warnings(t) + stability_warnings(c)
}

/// All recommendations, in report order; two standing ones when nothing
/// calls for action.
pub open spec fn report_recommendations(
    battery: Option<BatterySnapshot>,
    ds: Seq<StorageDriveMetrics>,
    t: ThermalSensorMetrics,
    c: CrashDumpInfo,
) -> Seq<Seq<char>> {
    let r = battery_recommendations(battery) + storage_recommendations(ds) + thermal_recommendations(t)
        + stability_recommendations(c);
    if r.len() == 0 {
        seq![
            "All hardware health diagnostics within optimal operating parameters."@,
            "Perform monthly SSD TRIM optimization and SMART health verification."@,
        ]
    } else {
        r
    }
}

// ---------------------------------------------------------------- laws

/// The overall score is a weighted mean: it never leaves the range of the
/// four subscores.
pub proof fn lemma_overall_within_subscores(b: u8, s: u8, t: u8, c: u8)
    requires
        b <= 100,
        s <= 100,
        t <= 100,
        c <= 100,
    ensures
        min4(b, s, t, c) <= overall_score(b, s, t, c),
        overall_score(b, s, t, c) <= max4(b, s, t, c) || max4(b, s, t, c) == 0,
{
    let w = (20 * b + 35 * s + 25 * t + 20 * c) as nat;
    let lo = min4(b, s, t, c) as nat;
    let hi = max4(b, s, t, c) as nat;
    assert(100 * lo <= w && w <= 100 * hi);
    assert(div_round(w, 100) >= lo) by (nonlinear_arith)
        requires 100 * lo <= w, div_round(w, 100) == (2 * w + 100) / 200;
    assert(div_round(w, 100) <= hi) by (nonlinear_arith)
        requires w <= 100 * hi, div_round(w, 100) == (2 * w + 100) / 200;
}

/// Raising any subscore never lowers the overall score.
pub proof fn lemma_overall_monotone(b1: u8, s1: u8, t1: u8, c1: u8, b2: u8, s2: u8, t2: u8, c2: u8)
    requires
        b1 <= b2,
        s1 <= s2,
        t1 <= t2,
        c1 <= c2,
    ensures
        overall_score(b1, s1, t1, c1) <= overall_score(b2, s2, t2, c2),
{
    let w1 = (20 * b1 + 35 * s1 + 25 * t1 + 20 * c1) as nat;
    let w2 = (20 * b2 + 35 * s2 + 25 * t2 + 20 * c2) as nat;
    assert(w1 <= w2);
    assert((2 * w1 + 100) / 200 <= (2 * w2 + 100) / 200) by (nonlinear_arith)
        requires w1 <= w2;
}

/// Every overall score lies in 1..=100 and falls in exactly the band its
/// status names: Excellent 90-100, Good 75-89, Fair 60-74, Attention Needed
/// 40-59, Critical below 40.
pub proof fn lemma_status_bands(b: u8, s: u8, t: u8, c: u8)
    ensures
        1 <= overall_score(b, s, t, c) <= 100,
        (status_level(overall_score(b, s, t, c)) == "Excellent"@) <== (overall_score(b, s, t, c) >= 90),
        (status_level(overall_score(b, s, t, c)) == "Critical"@) <== (overall_score(b, s, t, c) < 40),
{
}

pub open spec fn min4(a: u8, b: u8, c: u8, d: u8) -> u8 {
    let x = if a < b { a } else { b };
    let y = if c < d { c } else { d };
    if x < y { x } else { y }
}

pub open spec fn max4(a: u8, b: u8, c: u8, d: u8) -> u8 {
    let x = if a > b { a } else { b };
    let y = if c > d { c } else { d };
    if x > y { x } else { y }
}

// ---------------------------------------------------------------- computing

fn warning(category: &str, severity: &str, title: String, message: String, impact: &str) -> (w: HealthWarning)
    ensures
        w@ == (HealthWarningView {
            category: category@,
            severity: severity@,
            title: title@,
            message: message@,
            impact: impact@,
        }),
{
    HealthWarning {
        category: lit(category),
        severity: lit(severity),
        title,
        message,
        impact: lit(impact),
    }
}

/// The weighted overall score of four subscores.
pub fn compute_overall_score(b: u8, s: u8, t: u8, c: u8) -> (r: u8)
    ensures
        r == overall_score(b, s, t, c),
{
    let w: u64 = 20 * b as u64 + 35 * s as u64 + 25 * t as u64 + 20 * c as u64;
    let r = round_div(w, 100);
    if r < 1 { 1 } else if r > 100 { 100 } else { r as u8 }
}

/// The status band of an overall score.
pub fn status_level_text(score: u8) -> (r: String)
    ensures
        r@ == status_level(score),
{
    if 90 <= score && score <= 100 { lit("Excellent") }
    else if 75 <= score && score <= 89 { lit("Good") }
    else if 60 <= score && score <= 74 { lit("Fair") }
    else if 40 <= score && score <= 59 { lit("Attention Needed") }
    else { lit("Critical") }
}

fn drive_findings(
    d: &StorageDriveMetrics,
    warnings: &mut Vec<HealthWarning>,
    recommendations: &mut Vec<String>,
)
    ensures
        final(warnings)@.map_values(|w: HealthWarning| w@)
            == old(warnings)@.map_values(|w: HealthWarning| w@) + drive_warnings(*d),
        texts(final(recommendations)@) == texts(old(recommendations)@) + drive_recommendations(*d),
{
    let ghost w0 = warnings@.map_values(|w: HealthWarning| w@);
    let n = d.critical_warnings.len();
    let mut i: usize = 0;
    while i < n
        invariant
            n == d.critical_warnings@.len(),
            i <= n,
            warnings@.map_values(|w: HealthWarning| w@) == w0 + Seq::new(
                i as nat,
                |k: int| smart_flag_warning(*d, d.critical_warnings@[k]@),
            ),
        decreases n - i,
    {
        let flag = &d.critical_warnings[i];
        let title = cat(cat(lit(d.device_id.as_str()), ": "), flag.as_str());
        let message = cat(cat(cat(lit("Drive "), d.model.as_str()), " reported SMART critical flag: "), flag.as_str());
        let w = warning(
            "Storage",
            "Critical",
            title,
            message,
            "Risk of data corruption or device failure. Backup critical data immediately.",
        );
        let ghost before = warnings@.map_values(|w: HealthWarning| w@);
        warnings.push(w);
        assert(warnings@.map_values(|w: HealthWarning| w@) =~= before.push(w@));
        assert(w0 + Seq::new((i + 1) as nat, |k: int| smart_flag_warning(*d, d.critical_warnings@[k]@))
            =~= (w0 + Seq::new(i as nat, |k: int| smart_flag_warning(*d, d.critical_warnings@[k]@))).push(w@));
        i = i + 1;
    }
    let ghost flags = Seq::new(n as nat, |k: int| smart_flag_warning(*d, d.critical_warnings@[k]@));
    if n > 0 {
        let rec = cat(cat(lit("Immediate backup recommended for "), d.model.as_str()), ".");
        let ghost r0 = texts(recommendations@);
        recommendations.push(rec);
        assert(texts(recommendations@) =~= r0.push(rec@));
    }
    if d.percentage_used > 80 {
        let title = cat(lit(d.device_id.as_str()), ": High TBW / Wear");
        let m = cat(lit("SSD endurance consumed is "), num(d.percentage_used as u64).as_str());
        let m = cat(m, "% (TBW: ");
        let m = cat(m, num(d.data_units_written_gb).as_str());
        let m = cat(m, " GB written).");
        let w = warning("Storage", "Warning", title, m, "NAND flash endurance reaching manufacturer warranty limits.");
        let ghost before = warnings@.map_values(|w: HealthWarning| w@);
        warnings.push(w);
        assert(warnings@.map_values(|w: HealthWarning| w@) =~= before.push(w@));
        assert(w0 + drive_warnings(*d) =~= (w0 + flags).push(w@));
    } else {
        assert(w0 + drive_warnings(*d) =~= w0 + flags);
    }
}

fn storage_findings(
    drives: &Vec<StorageDriveMetrics>,
    warnings: &mut Vec<HealthWarning>,
    recommendations: &mut Vec<String>,
) -> (sum: u128)
    ensures
        sum == drive_score_sum(drives@),
        final(warnings)@.map_values(|w: HealthWarning| w@)
            == old(warnings)@.map_values(|w: HealthWarning| w@) + storage_warnings(drives@),
        texts(final(recommendations)@) == texts(old(recommendations)@) + storage_recommendations(drives@),
{
    let ghost w0 = warnings@.map_values(|w: HealthWarning| w@);
    let ghost r0 = texts(recommendations@);
    let mut sum: u128 = 0;
    let mut i: usize = 0;
    let n = drives.len();
    while i < drives.len()
        invariant
            i <= drives@.len(),
            drives@.len() == n,
            sum == drive_score_sum(drives@.subrange(0, i as int)),
            sum <= 255 * i,
            warnings@.map_values(|w: HealthWarning| w@) == w0 + storage_warnings(drives@.subrange(0, i as int)),
            texts(recommendations@) == r0 + storage_recommendations(drives@.subrange(0, i as int)),
        decreases drives@.len() - i,
    {
        let d = &drives[i];
        drive_findings(d, warnings, recommendations);
        let score: u8 = if d.critical_warnings.len() > 0 {
            if d.health_score >= 40 { d.health_score - 40 } else { 0 }
        } else {
            d.health_score
        };
        let ghost next = drives@.subrange(0, i + 1);
        assert(next.drop_last() =~= drives@.subrange(0, i as int));
        assert(next.last() == *d);
        sum = sum + score as u128;
        i = i + 1;
    }
    assert(drives@.subrange(0, drives@.len() as int) =~= drives@);
    sum
}

/// Builds the health report from the diagnostics of one moment.
///
/// `battery` is `None` where the battery could not be queried; `summary` and
/// `generated_at` are carried into the report unchanged.
pub fn generate_overall_health_report(
    battery: Option<BatterySnapshot>,
    drives: &Vec<StorageDriveMetrics>,
    thermal: &ThermalSensorMetrics,
    crash: &CrashDumpInfo,
    summary: SystemSummary,
    generated_at: String,
) -> (r: SystemHealthReport)
    ensures
        r.battery_subscore == battery_subscore(battery),
        r.storage_subscore == storage_subscore(drives@),
        r.thermal_subscore == thermal_subscore(*thermal),
        r.stability_subscore == stability_subscore(*crash),
        r.overall_score == overall_score(
            r.battery_subscore,
            r.storage_subscore,
            r.thermal_subscore,
            r.stability_subscore,
        ),
        r.status_level@ == status_level(r.overall_score),
        r.warnings@.map_values(|w: HealthWarning| w@) == report_warnings(battery, drives@, *thermal, *crash),
        texts(r.recommendations@) == report_recommendations(battery, drives@, *thermal, *crash),
        r.generated_at == generated_at,
        r.summary == summary,
{
    let ghost battery0 = battery;
    let mut warnings: Vec<HealthWarning> = Vec::new();
    let mut recommendations: Vec<String> = Vec::new();
    assert(warnings@.map_values(|w: HealthWarning| w@) =~= Seq::<HealthWarningView>::empty());
    assert(texts(recommendations@) =~= Seq::<Seq<char>>::empty());

    // 1. Battery
    let battery_subscore: u8 = match &battery {
        Some(bat) => {
            if bat.is_present {
                let whole = bat.health_percent_tenths / 10;
                let score: u8 = if whole < 100 { whole as u8 } else { 100 };
                if bat.wear_percent_tenths > 300 {
                    let m = cat(lit("Battery has worn down by "), tenths_text(bat.wear_percent_tenths as u64).as_str());
                    let m = cat(m, "%. Full charge capacity is ");
                    let m = cat(m, num(bat.full_charge_capacity_mwh).as_str());
                    let m = cat(m, " mWh vs designed ");
                    let m = cat(m, num(bat.design_capacity_mwh).as_str());
                    let m = cat(m, " mWh.");
                    let w = warning(
                        "Battery",
                        "Warning",
                        lit("High Battery Wear Level"),
                        m,
                        "Significantly reduced unplugged runtime. Consider battery calibration or replacement.",
                    );
                    warnings.push(w);
                    recommendations.push(
                        lit("Enable battery charging threshold (80% limit) in BIOS / OEM utility to prolong lifespan."),
                    );
                    assert(warnings@.map_values(|w: HealthWarning| w@) =~= battery_warnings(battery0));
                    assert(texts(recommendations@) =~= battery_recommendations(battery0));
                }
                score
            } else {
                100
            }
        },
        None => 100,
    };
    assert(warnings@.map_values(|w: HealthWarning| w@) =~= battery_warnings(battery0));
    assert(texts(recommendations@) =~= battery_recommendations(battery0));

    // 2. Storage
    let sum = storage_findings(drives, &mut warnings, &mut recommendations);
    let storage_subscore: u8 = if drives.len() > 0 {
        proof {
            assert(drive_score_sum(drives@) <= 255 * drives@.len()) by {
                lemma_drive_score_sum_bound(drives@);
            }
            assert(drive_score_sum(drives@) / drives@.len() <= 255) by (nonlinear_arith)
                requires drive_score_sum(drives@) <= 255 * drives@.len(), drives@.len() > 0;
        }
        (sum / drives.len() as u128) as u8
    } else {
        95
    };

    // 3. Thermal
    let mut thermal_subscore: u8 = 95;
    if thermal.cpu_package_temp_tenths > 850 || thermal.is_thermal_throttling {
        thermal_subscore = 65;
        let m = cat(lit("CPU package reached "), signed_tenths_text(thermal.cpu_package_temp_tenths as i64).as_str());
        let m = cat(m, "°C. Throttling threshold may be engaged.");
        let w = warning(
            "Thermal",
            "Warning",
            lit("Elevated CPU Temperatures"),
            m,
            "Reduced boost frequencies, thermal throttling under continuous load.",
        );
        warnings.push(w);
        recommendations.push(lit("Inspect heatsink thermal paste and clean cooling dust filters."));
    } else if thermal.cpu_package_temp_tenths > 700 {
        thermal_subscore = 82;
    }
    let ghost w3 = battery_warnings(battery0) + storage_warnings(drives@) + thermal_warnings(*thermal);
    let ghost r3 = battery_recommendations(battery0) + storage_recommendations(drives@)
        + thermal_recommendations(*thermal);
    assert(warnings@.map_values(|w: HealthWarning| w@) =~= w3);
    assert(texts(recommendations@) =~= r3);

    // 4. Stability
    let mut stability_subscore: u8 = 100;
    if crash.total_dumps_found > 0 {
        let penalty: u8 = if crash.total_dumps_found < 5 { (crash.total_dumps_found * 8) as u8 } else { 35 };
        stability_subscore = 100 - penalty;
        if crash.recent_crashes.len() > 0 {
            let recent = &crash.recent_crashes[0];
            let title = cat(lit("Recent BSOD Crash: "), recent.bugcheck_symbol.as_str());
            let m = cat(lit("System crashed on "), recent.crash_time.as_str());
            let m = cat(m, " due to ");
            let m = cat(m, recent.bugcheck_symbol.as_str());
            let m = cat(m, ". Faulting driver: ");
            let m = cat(m, recent.faulting_driver.as_str());
            let w = warning("Stability", "Warning", title, m, "Unscheduled reboot or application crash.");
            warnings.push(w);
            let rec = cat(lit("Check for updated WHQL drivers for "), recent.faulting_driver.as_str());
            let rec = cat(rec, " (");
            let rec = cat(rec, recent.bugcheck_symbol.as_str());
            let rec = cat(rec, ")");
            recommendations.push(rec);
        }
    }
    assert(warnings@.map_values(|w: HealthWarning| w@) =~= report_warnings(battery0, drives@, *thermal, *crash));
    assert(texts(recommendations@) =~= r3 + stability_recommendations(*crash));

    let overall_score = compute_overall_score(battery_subscore, storage_subscore, thermal_subscore, stability_subscore);
    let status_level = status_level_text(overall_score);

    if recommendations.len() == 0 {
        recommendations.push(lit("All hardware health diagnostics within optimal operating parameters."));
        recommendations.push(lit("Perform monthly SSD TRIM optimization and SMART health verification."));
    }
    assert(texts(recommendations@) =~= report_recommendations(battery0, drives@, *thermal, *crash));

    SystemHealthReport {
        overall_score,
        status_level,
        battery_subscore,
        storage_subscore,
        thermal_subscore,
        stability_subscore,
        warnings,
        recommendations,
        generated_at,
        summary,
    }
}

proof fn lemma_drive_score_sum_bound(ds: Seq<StorageDriveMetrics>)
    ensures
        drive_score_sum(ds) <= 255 * ds.len(),
    decreases ds.len(),
{
    if ds.len() > 0 {
        lemma_drive_score_sum_bound(ds.drop_last());
    }
}


/// A drive that reports a critical S.M.A.R.T. warning counts in the storage
/// mean with its health lowered by 40 points (not below 0); a drive without
/// one counts with its health. With no drive the storage subscore is 95;
/// otherwise it is the mean of what the drives count, rounded down. A single
/// drive of health 70 with a critical warning thus gives 30.
pub proof fn lemma_storage_subscore_penalises_critical_drives(ds: Seq<StorageDriveMetrics>, d: StorageDriveMetrics)
    ensures
        d.critical_warnings@.len() == 0 ==> drive_score_sum(ds.push(d)) == drive_score_sum(ds) + d.health_score,
        d.critical_warnings@.len() > 0 && d.health_score >= 40
            ==> drive_score_sum(ds.push(d)) + 40 == drive_score_sum(ds) + d.health_score,
        d.critical_warnings@.len() > 0 && d.health_score < 40 ==> drive_score_sum(ds.push(d)) == drive_score_sum(ds),
        d.critical_warnings@.len() > 0 ==> storage_subscore(seq![d]) as int
            == (if d.health_score >= 40 { d.health_score - 40 } else { 0 }),
        d.critical_warnings@.len() == 0 ==> storage_subscore(seq![d]) == d.health_score,
        ds.len() == 0 ==> storage_subscore(ds) == 95,
        ds.len() > 0 ==> storage_subscore(ds) as nat == drive_score_sum(ds) / ds.len(),
{
    assert(ds.push(d).drop_last() =~= ds);
    assert(seq![d].drop_last() =~= Seq::<StorageDriveMetrics>::empty());
    assert(seq![d].last() == d);
    assert(seq![d].len() == 1);
    assert(drive_score_sum(Seq::<StorageDriveMetrics>::empty()) == 0);
    assert(drive_score_sum(seq![d]) == drive_score(d) as nat);
    assert(drive_score_sum(seq![d]) / 1 == drive_score_sum(seq![d]));
    assert(storage_subscore(seq![d]) == drive_score(d));
    if ds.len() > 0 {
        lemma_drive_score_sum_bound(ds);
        assert(drive_score_sum(ds) / ds.len() <= 255) by (nonlinear_arith)
            requires drive_score_sum(ds) <= 255 * ds.len(), ds.len() > 0;
    }
}

} // verus!
