use oxidpulse::model::BatterySnapshot;
use oxidpulse::report::{
    battery_html, certificate_id, drives_html, explorer_select_command, fan_status_text,
    html_report_file_name, json_report_file_name, memory_gib_text, thermals_html, uptime_hours_text,
};
use oxidpulse::text::{
    first_line_of, hundredths_text, parse_u64, replace_text, round_div, round_div_even,
    round_div_signed, shortest_tenths_text, signed_tenths_text, split_trimmed, tenths_text, trim_text,
};

#[test]
fn number_text() {
    assert_eq!(tenths_text(415), "41.5");
    assert_eq!(tenths_text(7), "0.7");
    assert_eq!(signed_tenths_text(-25), "-2.5");
    assert_eq!(hundredths_text(1251), "12.51");
    assert_eq!(hundredths_text(5), "0.05");
    assert_eq!(shortest_tenths_text(9990), "999");
    assert_eq!(shortest_tenths_text(125), "12.5");
    assert_eq!(format!("{:.1}", 0.25f64), tenths_text(round_div_even(25, 10)));
    assert_eq!(format!("{:.0}", 2.5f64), round_div_even(5, 2).to_string());
}

#[test]
fn rounding() {
    assert_eq!(round_div(15, 10), 2);
    assert_eq!(round_div(14, 10), 1);
    assert_eq!(round_div_even(25, 10), 2);
    assert_eq!(round_div_even(35, 10), 4);
    assert_eq!(round_div_signed(-15, 10), -2);
    assert_eq!(round_div_signed(-14, 10), -1);
    assert_eq!((2.5f64).round() as i64, round_div_signed(25, 10));
    assert_eq!((-2.5f64).round() as i64, round_div_signed(-25, 10));
}

#[test]
fn splitting_and_parsing() {
    assert_eq!(split_trimmed(" a , b,,c ", ','), vec!["a", "b", "", "c"]);
    assert_eq!(split_trimmed("", ','), vec![""]);
    assert_eq!(first_line_of("one\r\ntwo"), Some("one".to_string()));
    assert_eq!(first_line_of("\nx"), Some("".to_string()));
    assert_eq!(first_line_of(""), None);
    assert_eq!(parse_u64("+42"), Some(42));
    assert_eq!(parse_u64("18446744073709551616"), None);
    assert_eq!(parse_u64("4 2"), None);
    assert_eq!(trim_text("\t x \n"), "x");
    assert_eq!(replace_text("temp1_input", "_input", "_label"), "temp1_label");
}

fn battery() -> BatterySnapshot {
    BatterySnapshot {
        ac_status: "Online (AC Connected)".to_string(),
        battery_life_percent: 90,
        battery_flag: 8,
        battery_life_time_secs: 0,
        design_capacity_mwh: 52600,
        full_charge_capacity_mwh: 46288,
        current_capacity_mwh: 41659,
        cycle_count: 226,
        health_percent_tenths: 880,
        wear_percent_tenths: 120,
        chemistry: "Li-ion".to_string(),
        temperature_tenths: None,
        voltage_mv: 12507,
        charge_rate_mw: 0,
        is_present: true,
        is_charging: false,
    }
}

#[test]
fn certificate_sections() {
    let html = battery_html(&Some(battery()));
    assert!(html.contains("88.0% Health</span> (12.0% Wear)"));
    assert!(html.contains("<p><strong>Voltage:</strong> 12.51 V</p>"));
    assert!(html.contains("<p><strong>Temperature:</strong> 28.0 °C</p>"));
    assert!(html.starts_with("<div class=\"grid-2\">\n                <div>"));
    assert_eq!(battery_html(&None), "<p>No battery detected (Desktop / AC Mainframe Workstation).</p>");
    let zones = vec![("CPU".to_string(), 415), ("GPU".to_string(), -5)];
    assert_eq!(thermals_html(&zones),
        "<span class=\"sensor-pill\">CPU: <strong>41.5°C</strong></span> <span class=\"sensor-pill\">GPU: <strong>-0.5°C</strong></span>");
    assert_eq!(thermals_html(&Vec::new()), "");
    assert_eq!(fan_status_text(&vec![("CPU Fan".to_string(), 1200)]), "CPU Fan: 1200 RPM");
    assert_eq!(fan_status_text(&Vec::new()), "0 RPM (Passive Silent Envelope)");
    assert_eq!(drives_html(&Vec::new()), "");
    assert_eq!(memory_gib_text(17_179_869_184), "16.0");
    assert_eq!(uptime_hours_text(7300), "2 hrs");
}

#[test]
fn export_names_and_commands() {
    assert_eq!(json_report_file_name("20240501_100000"), "OxidPulse_Diagnostic_Report_20240501_100000.json");
    assert_eq!(html_report_file_name("20240501_100000"), "OxidPulse_Audit_Certificate_20240501_100000.html");
    assert_eq!(certificate_id("20240501-100000"), "OP-AUDIT-20240501-100000");
    assert_eq!(explorer_select_command("C:/Users/me/report.json"),
        "Start-Process explorer.exe -ArgumentList '/select,\"C:\\Users\\me\\report.json\"'");
}
