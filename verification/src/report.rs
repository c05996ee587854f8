//! The pieces of the printable audit certificate and the names of the
//! exported report files.

use vstd::prelude::*;
use crate::model::{
    BatterySnapshot, CpuMetrics, CrashDumpInfo, MemoryMetrics, StorageDriveMetrics, SystemHealthReport,
    ThermalSensorMetrics,
};
use crate::text::{
    cat, decimal, div_round_even, hundredths, hundredths_text, lit, num, replace_all,
    replace_text, round_div_even, signed_tenths, signed_tenths_text, tenths, tenths_text,
};

verus! {

/// The table row of a drive.
pub open spec fn drive_row(d: StorageDriveMetrics) -> Seq<char> {
    "<tr>\n                <td><strong>"@
        + d.model@
        + "</strong><br><small style=\"color:#64748b;\">"@
        + d.device_id@
        + " | "@
        + d.bus_type@
        + "</small></td>\n                <td>"@
        + d.size_formatted@
        + "</td>\n                <td><span class=\"badge badge-success\">"@
        + decimal(d.health_score as nat)
        + "% ("@
        + d.health_status@
        + ")</span></td>\n                <td>"@
        + decimal(d.data_units_written_gb as nat)
        + " GB</td>\n                <td>"@
        + decimal(d.available_spare as nat)
        + "%</td>\n                <td>"@
        + decimal(d.power_on_hours as nat)
        + " hrs</td>\n            </tr>"@
}

/// Renders the table row of a drive.
pub fn drive_row_html(d: &StorageDriveMetrics) -> (s: String)
    ensures
        s@ == drive_row(*d),
{
    let s = lit("<tr>\n                <td><strong>");
    let s = cat(s, d.model.as_str());
    let s = cat(s, "</strong><br><small style=\"color:#64748b;\">");
    let s = cat(s, d.device_id.as_str());
    let s = cat(s, " | ");
    let s = cat(s, d.bus_type.as_str());
    let s = cat(s, "</small></td>\n                <td>");
    let s = cat(s, d.size_formatted.as_str());
    let s = cat(s, "</td>\n                <td><span class=\"badge badge-success\">");
    let s = cat(s, num(d.health_score as u64).as_str());
    let s = cat(s, "% (");
    let s = cat(s, d.health_status.as_str());
    let s = cat(s, ")</span></td>\n                <td>");
    let s = cat(s, num(d.data_units_written_gb).as_str());
    let s = cat(s, " GB</td>\n                <td>");
    let s = cat(s, num(d.available_spare as u64).as_str());
    let s = cat(s, "%</td>\n                <td>");
    let s = cat(s, num(d.power_on_hours).as_str());
    let s = cat(s, " hrs</td>\n            </tr>");
    s
}

/// The rows of all drives, one after another.
pub open spec fn drive_rows(ds: Seq<StorageDriveMetrics>) -> Seq<char>
    decreases ds.len(),
{
    if ds.len() == 0 { Seq::empty() } else { drive_rows(ds.drop_last()) + drive_row(ds.last()) }
}

/// Renders the rows of all drives.
pub fn drives_html(ds: &Vec<StorageDriveMetrics>) -> (s: String)
    ensures
        s@ == drive_rows(ds@),
{
    let mut s = String::new();
    let mut i: usize = 0;
    while i < ds.len()
        invariant
            i <= ds@.len(),
            s@ == drive_rows(ds@.subrange(0, i as int)),
        decreases ds@.len() - i,
    {
        assert(ds@.subrange(0, i + 1).drop_last() =~= ds@.subrange(0, i as int));
        let row = drive_row_html(&ds[i]);
        s = cat(s, row.as_str());
        i = i + 1;
    }
    assert(ds@.subrange(0, ds@.len() as int) =~= ds@);
    s
}

/// The battery section: health and wear, capacities and cycles, power
/// source, chemistry, voltage with two decimals and temperature (28 °C
/// where unknown); a note where there is no battery.
pub open spec fn battery_section(b: Option<BatterySnapshot>) -> Seq<char> {
    match b {
        Some(b) => "<div class=\"grid-2\">\n                <div>\n                    <p><strong>Health & Wear:</strong> <span class=\"badge badge-success\">"@
            + tenths(b.health_percent_tenths as nat)
            + "% Health</span> ("@
            + tenths(b.wear_percent_tenths as nat)
            + "% Wear)</p>\n                    <p><strong>Design Capacity:</strong> "@
            + decimal(b.design_capacity_mwh as nat)
            + " mWh</p>\n                    <p><strong>Full Charge Capacity:</strong> "@
            + decimal(b.full_charge_capacity_mwh as nat)
            + " mWh</p>\n                    <p><strong>Cycle Count:</strong> "@
            + decimal(b.cycle_count as nat)
            + " cycles</p>\n                </div>\n                <div>\n                    <p><strong>Power Source:</strong> "@
            + b.ac_status@
            + "</p>\n                    <p><strong>Chemistry:</strong> "@
            + b.chemistry@
            + "</p>\n                    <p><strong>Voltage:</strong> "@
            + hundredths(div_round_even(b.voltage_mv as nat, 10))
            + " V</p>\n                    <p><strong>Temperature:</strong> "@
            + signed_tenths(match b.temperature_tenths { Some(t) => t as int, None => 280 })
            + " °C</p>\n                </div>\n            </div>"@,
        None => "<p>No battery detected (Desktop / AC Mainframe Workstation).</p>"@,
    }
}

/// Renders the battery section.
pub fn battery_html(battery: &Option<BatterySnapshot>) -> (s: String)
    ensures
        s@ == battery_section(*battery),
{
    match battery {
        Some(b) => {
            let s = lit("<div class=\"grid-2\">\n                <div>\n                    <p><strong>Health & Wear:</strong> <span class=\"badge badge-success\">");
            let s = cat(s, tenths_text(b.health_percent_tenths as u64).as_str());
            let s = cat(s, "% Health</span> (");
            let s = cat(s, tenths_text(b.wear_percent_tenths as u64).as_str());
            let s = cat(s, "% Wear)</p>\n                    <p><strong>Design Capacity:</strong> ");
            let s = cat(s, num(b.design_capacity_mwh).as_str());
            let s = cat(s, " mWh</p>\n                    <p><strong>Full Charge Capacity:</strong> ");
            let s = cat(s, num(b.full_charge_capacity_mwh).as_str());
            let s = cat(s, " mWh</p>\n                    <p><strong>Cycle Count:</strong> ");
            let s = cat(s, num(b.cycle_count as u64).as_str());
            let s = cat(s, " cycles</p>\n                </div>\n                <div>\n                    <p><strong>Power Source:</strong> ");
            let s = cat(s, b.ac_status.as_str());
            let s = cat(s, "</p>\n                    <p><strong>Chemistry:</strong> ");
            let s = cat(s, b.chemistry.as_str());
            let s = cat(s, "</p>\n                    <p><strong>Voltage:</strong> ");
            let s = cat(s, hundredths_text(round_div_even(b.voltage_mv as u64, 10)).as_str());
            let s = cat(s, " V</p>\n                    <p><strong>Temperature:</strong> ");
            let s = cat(s, signed_tenths_text(match b.temperature_tenths { Some(t) => t as i64, None => 280 }).as_str());
            let s = cat(s, " °C</p>\n                </div>\n            </div>");
            s
        },
        None => lit("<p>No battery detected (Desktop / AC Mainframe Workstation).</p>"),
    }
}

/// The pill of one thermal zone.
pub open spec fn zone_pill(name: Seq<char>, t: i32) -> Seq<char> {
    "<span class=\"sensor-pill\">"@ + name + ": <strong>"@ + signed_tenths(t as int) + "°C</strong></span>"@
}

/// The pills of all zones, separated by spaces.
pub open spec fn zone_pills(zs: Seq<(String, i32)>) -> Seq<char>
    decreases zs.len(),
{
    if zs.len() == 0 {
        Seq::empty()
    } else if zs.len() == 1 {
        zone_pill(zs[0].0@, zs[0].1)
    } else {
        zone_pills(zs.drop_last()) + " "@ + zone_pill(zs.last().0@, zs.last().1)
    }
}

fn zone_pill_html(name: &str, t: i32) -> (s: String)
    ensures
        s@ == zone_pill(name@, t),
{
    let s = lit("<span class=\"sensor-pill\">");
    let s = cat(s, name);
    let s = cat(s, ": <strong>");
    let s = cat(s, signed_tenths_text(t as i64).as_str());
    cat(s, "°C</strong></span>")
}

/// Renders the pills of all thermal zones.
pub fn thermals_html(zs: &Vec<(String, i32)>) -> (s: String)
    ensures
        s@ == zone_pills(zs@),
{
    let mut s = String::new();
    let mut i: usize = 0;
    while i < zs.len()
        invariant
            i <= zs@.len(),
            s@ == zone_pills(zs@.subrange(0, i as int)),
        decreases zs@.len() - i,
    {
        let ghost pre = zs@.subrange(0, i as int);
        assert(zs@.subrange(0, i + 1).drop_last() =~= pre);
        let pill = zone_pill_html(zs[i].0.as_str(), zs[i].1);
        if i == 0 {
            s = pill;
        } else {
            s = cat(cat(s, " "), pill.as_str());
        }
        i = i + 1;
    }
    assert(zs@.subrange(0, zs@.len() as int) =~= zs@);
    s
}

/// The cooling line: the first fan and its speed, or the passive note.
pub open spec fn fan_status(fs: Seq<(String, u32)>) -> Seq<char> {
    if fs.len() > 0 {
        fs[0].0@ + ": "@ + decimal(fs[0].1 as nat) + " RPM"@
    } else {
        "0 RPM (Passive Silent Envelope)"@
    }
}

/// Renders the cooling line.
pub fn fan_status_text(fs: &Vec<(String, u32)>) -> (s: String)
    ensures
        s@ == fan_status(fs@),
{
    if fs.len() > 0 {
        cat(cat(cat(fs[0].0.clone(), ": "), num(fs[0].1 as u64).as_str()), " RPM")
    } else {
        lit("0 RPM (Passive Silent Envelope)")
    }
}

/// Installed memory in GiB with one decimal place.
pub fn memory_gib_text(bytes: u64) -> (s: String)
    ensures
        s@ == tenths(div_round_even(10 * bytes as nat, 1073741824)),
{
    let q = (10 * (bytes as u128)) / 1073741824;
    let r = (10 * (bytes as u128)) % 1073741824;
    let t: u64 = if 2 * r > 1073741824 {
        (q + 1) as u64
    } else if 2 * r < 1073741824 {
        q as u64
    } else if q % 2 == 0 {
        q as u64
    } else {
        (q + 1) as u64
    };
    tenths_text(t)
}

/// Uptime in whole hours.
pub fn uptime_hours_text(secs: u64) -> (s: String)
    ensures
        s@ == decimal((secs / 3600) as nat) + " hrs"@,
{
    cat(num(secs / 3600), " hrs")
}

/// The name of the exported JSON report for a timestamp.
pub fn json_report_file_name(stamp: &str) -> (s: String)
    ensures
        s@ == "OxidPulse_Diagnostic_Report_"@ + stamp@ + ".json"@,
{
    cat(cat(lit("OxidPulse_Diagnostic_Report_"), stamp), ".json")
}

/// The name of the printable certificate for a timestamp.
pub fn html_report_file_name(stamp: &str) -> (s: String)
    ensures
        s@ == "OxidPulse_Audit_Certificate_"@ + stamp@ + ".html"@,
{
    cat(cat(lit("OxidPulse_Audit_Certificate_"), stamp), ".html")
}

/// The document id of a certificate for a timestamp.
pub fn certificate_id(stamp: &str) -> (s: String)
    ensures
        s@ == "OP-AUDIT-"@ + stamp@,
{
    cat(lit("OP-AUDIT-"), stamp)
}

/// The PowerShell command that opens Explorer with a file selected.
pub open spec fn explorer_select(path: Seq<char>) -> Seq<char> {
    "Start-Process explorer.exe -ArgumentList '/select,\""@ + replace_all(path, "/"@, "\\"@) + "\"'"@
}

/// Builds the Explorer command for a file.
pub fn explorer_select_command(path: &str) -> (s: String)
    ensures
        s@ == explorer_select(path@),
{
    proof {
        reveal_strlit("/");
    }
    let p = replace_text(path, "/", "\\");
    cat(cat(lit("Start-Process explorer.exe -ArgumentList '/select,\""), p.as_str()), "\"'")
}


/// Everything the exported report holds.
pub struct ComprehensiveReportData {
    pub report: SystemHealthReport,
    pub battery: Option<BatterySnapshot>,
    pub storage: Vec<StorageDriveMetrics>,
    pub cpu: CpuMetrics,
    pub memory: MemoryMetrics,
    pub thermals: ThermalSensorMetrics,
    pub crash_dumps: CrashDumpInfo,
}

} // verus!
