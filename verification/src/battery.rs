//! Battery state: what the Windows power status and battery queries, or the
//! Linux `power_supply` attributes, say about the battery.

use vstd::prelude::*;
use crate::json::{
    json_member, json_member_of, json_parse, json_parsed, member_array, member_elements, member_number,
    member_str, member_text, member_u64,
};
use crate::model::BatterySnapshot;
use crate::text::{
    chars_of, digit_value, is_digit, string_of, cat, decimal, div_round, eq_ignore_ascii_case, eq_ignore_case, lit, num, parse_u64,
    parse_unsigned, round_div, round_div_u128, starts_with, has_prefix, trim, trim_by, trim_text, trimmed, utf8_lossy,
    utf8_lossy_text,
};

verus! {

// ---------------------------------------------------------------- health

/// Full-charge over design capacity, in tenths of a percent, at most 100 %.
pub open spec fn health_tenths(full: nat, design: nat) -> nat {
    if full >= design { 1000 } else { div_round(1000 * full, design) }
}

/// The capacity lost, in tenths of a percent, at least 0 %.
pub open spec fn wear_tenths(full: nat, design: nat) -> nat {
    if full >= design { 0 } else { div_round(1000 * ((design - full) as nat), design) }
}

/// Health and wear of a battery with the given capacities; a battery whose
/// design capacity is unknown (zero) counts as healthy.
pub fn battery_health(full: u64, design: u64) -> (r: (u32, u32))
    ensures
        r.0 == (if design > 0 { health_tenths(full as nat, design as nat) } else { 1000 }),
        r.1 == (if design > 0 { wear_tenths(full as nat, design as nat) } else { 0 }),
{
    if design == 0 {
        return (1000, 0);
    }
    if full >= design {
        (1000, 0)
    } else {
        let h: u128 = round_div_u128(1000 * (full as u128), design as u128);
        let w: u128 = round_div_u128(1000 * ((design - full) as u128), design as u128);
        assert(h <= 1000) by (nonlinear_arith)
            requires h == (2 * (1000 * (full as int)) + design as int) / (2 * design as int), full < design;
        assert(w <= 1000) by (nonlinear_arith)
            requires w == (2 * (1000 * ((design - full) as int)) + design as int) / (2 * design as int), full < design;
        (h as u32, w as u32)
    }
}

// ---------------------------------------------------------------- Windows

/// What `GetSystemPowerStatus` reported.
pub struct PowerStatus {
    pub ac_line_status: u8,
    pub battery_flag: u8,
    pub battery_life_percent: u8,
    pub battery_life_time: u32,
}

/// What the battery information query reported.
pub struct BatteryInformation {
    pub designed_capacity: u32,
    pub full_charged_capacity: u32,
    pub cycle_count: u32,
    pub chemistry: Vec<u8>,
}

/// What the battery status query reported.
pub struct BatteryStatusReading {
    pub capacity: u32,
    pub voltage: u32,
    pub rate: i32,
}

/// The AC line status text of a present battery.
pub open spec fn ac_status_text(code: u8) -> Seq<char> {
    if code == 0 {
        "Offline (Battery)"@
    } else if code == 1 {
        "Online (AC Connected)"@
    } else if code == 255 {
        "Unknown AC Status"@
    } else {
        "Status Code "@ + decimal(code as nat)
    }
}

/// A battery is present unless the flags say "no system battery" (128) or
/// "unknown" (255), or the charge is unknown (255).
pub open spec fn battery_present(s: PowerStatus) -> bool {
    s.battery_flag != 128 && s.battery_flag != 255 && s.battery_life_percent != 255
}

/// The chemistry read from the battery, with NUL padding removed.
pub open spec fn chemistry_text(raw: Seq<u8>) -> Seq<char> {
    trimmed(utf8_lossy(raw), false, '\0')
}

/// The snapshot of a machine without a battery.
pub open spec fn no_battery_is(r: BatterySnapshot, s: PowerStatus) -> bool {
    &&& r.ac_status@ == (if s.ac_line_status == 1 {
        "Online (Desktop AC Power)"@
    } else if s.ac_line_status == 0 {
        "Offline (No Battery)"@
    } else {
        "Connected to AC Power"@
    })
    &&& r.battery_life_percent == 100
    &&& r.battery_flag == s.battery_flag
    &&& r.battery_life_time_secs == 0
    &&& r.design_capacity_mwh == 0
    &&& r.full_charge_capacity_mwh == 0
    &&& r.current_capacity_mwh == 0
    &&& r.cycle_count == 0
    &&& r.health_percent_tenths == 1000
    &&& r.wear_percent_tenths == 0
    &&& r.chemistry@ == "N/A (Desktop / AC Connected)"@
    &&& r.temperature_tenths is None
    &&& r.voltage_mv == 0
    &&& r.charge_rate_mw == 0
    &&& !r.is_present
    &&& !r.is_charging
}

/// The snapshot of a present battery: capacities default to 50 000 mWh
/// designed and 48 000 mWh full, with the current charge the reported share
/// of full; the battery queries override what they could read.
pub open spec fn windows_battery_is(
    r: BatterySnapshot,
    s: PowerStatus,
    info: Option<BatteryInformation>,
    status: Option<BatteryStatusReading>,
) -> bool {
    let charging = (s.battery_flag & 8) != 0;
    let design: u64 = match info { Some(i) => if i.designed_capacity > 0 { i.designed_capacity as u64 } else { 50000 }, None => 50000 };
    let full: u64 = match info { Some(i) => if i.full_charged_capacity > 0 { i.full_charged_capacity as u64 } else { 48000 }, None => 48000 };
    let pct: nat = if s.battery_life_percent <= 100 { s.battery_life_percent as nat } else { 100 };
    &&& r.ac_status@ == ac_status_text(s.ac_line_status)
    &&& r.battery_life_percent == s.battery_life_percent
    &&& r.battery_flag == s.battery_flag
    &&& r.battery_life_time_secs == s.battery_life_time as i64
    &&& r.design_capacity_mwh == design
    &&& r.full_charge_capacity_mwh == full
    &&& r.current_capacity_mwh == (match status { Some(b) => b.capacity as nat, None => 48000 * pct / 100 })
    &&& r.cycle_count == (match info { Some(i) => i.cycle_count, None => 0 })
    &&& r.health_percent_tenths == health_tenths(full as nat, design as nat)
    &&& r.wear_percent_tenths == wear_tenths(full as nat, design as nat)
    &&& r.chemistry@ == (match info {
        Some(i) => if chemistry_text(i.chemistry@).len() > 0 { chemistry_text(i.chemistry@) } else { "Li-ion"@ },
        None => "Li-ion"@,
    })
    &&& r.temperature_tenths == Some(300i32)
    &&& r.voltage_mv == (match status { Some(b) => b.voltage, None => 12000 })
    &&& r.charge_rate_mw == (match status { Some(b) => b.rate, None => if charging { 25000i32 } else { -12000i32 } })
    &&& r.is_present
    &&& r.is_charging == charging
}

/// The battery snapshot from the Windows power status and, for a present
/// battery, the information and status queries (each `None` when it failed
/// or no battery tag was found). Fails when the power status could not be
/// read.
pub fn windows_battery_snapshot(
    power: Option<PowerStatus>,
    info: Option<BatteryInformation>,
    status: Option<BatteryStatusReading>,
) -> (r: Result<BatterySnapshot, String>)
    ensures
        power is None <==> r is Err,
        r matches Err(e) ==> e@ == "Failed to query Win32 GetSystemPowerStatus"@,
        power matches Some(s) ==> (r matches Ok(b) && (if battery_present(s) {
            windows_battery_is(b, s, info, status)
        } else {
            no_battery_is(b, s)
        })),
{
    let s = match power {
        Some(s) => s,
        None => return Err(lit("Failed to query Win32 GetSystemPowerStatus")),
    };
    let present = s.battery_flag != 128 && s.battery_flag != 255 && s.battery_life_percent != 255;
    if !present {
        let ac = if s.ac_line_status == 1 {
            lit("Online (Desktop AC Power)")
        } else if s.ac_line_status == 0 {
            lit("Offline (No Battery)")
        } else {
            lit("Connected to AC Power")
        };
        return Ok(BatterySnapshot {
            ac_status: ac,
            battery_life_percent: 100,
            battery_flag: s.battery_flag,
            battery_life_time_secs: 0,
            design_capacity_mwh: 0,
            full_charge_capacity_mwh: 0,
            current_capacity_mwh: 0,
            cycle_count: 0,
            health_percent_tenths: 1000,
            wear_percent_tenths: 0,
            chemistry: lit("N/A (Desktop / AC Connected)"),
            temperature_tenths: None,
            voltage_mv: 0,
            charge_rate_mw: 0,
            is_present: false,
            is_charging: false,
        });
    }
    let charging = (s.battery_flag & 8) != 0;
    let ac = if s.ac_line_status == 0 {
        lit("Offline (Battery)")
    } else if s.ac_line_status == 1 {
        lit("Online (AC Connected)")
    } else if s.ac_line_status == 255 {
        lit("Unknown AC Status")
    } else {
        cat(lit("Status Code "), num(s.ac_line_status as u64).as_str())
    };
    let pct: u64 = if s.battery_life_percent <= 100 { s.battery_life_percent as u64 } else { 100 };
    let mut design: u64 = 50000;
    let mut full: u64 = 48000;
    let mut cycles: u32 = 0;
    let mut chemistry = lit("Li-ion");
    match &info {
        Some(i) => {
            if i.designed_capacity > 0 {
                design = i.designed_capacity as u64;
            }
            if i.full_charged_capacity > 0 {
                full = i.full_charged_capacity as u64;
            }
            cycles = i.cycle_count;
            let raw = utf8_lossy_text(i.chemistry.as_slice());
            let chem = trim_by(raw.as_str(), false, '\0');
            if chem.unicode_len() > 0 {
                chemistry = chem;
            }
        },
        None => {},
    }
    let (current, voltage, rate) = match &status {
        Some(b) => (b.capacity as u64, b.voltage, b.rate),
        None => ((48000 * pct) / 100, 12000u32, if charging { 25000i32 } else { -12000i32 }),
    };
    let (health, wear) = battery_health(full, design);
    Ok(BatterySnapshot {
        ac_status: ac,
        battery_life_percent: s.battery_life_percent,
        battery_flag: s.battery_flag,
        battery_life_time_secs: s.battery_life_time as i64,
        design_capacity_mwh: design,
        full_charge_capacity_mwh: full,
        current_capacity_mwh: current,
        cycle_count: cycles,
        health_percent_tenths: health,
        wear_percent_tenths: wear,
        chemistry,
        temperature_tenths: Some(300),
        voltage_mv: voltage,
        charge_rate_mw: rate,
        is_present: true,
        is_charging: charging,
    })
}

// ---------------------------------------------------------------- Linux

/// A `power_supply` entry whose name starts with "BAT" is a battery.
pub fn is_battery_entry(name: &str) -> (b: bool)
    ensures
        b == has_prefix(name@, "BAT"@),
{
    starts_with(name, "BAT")
}

/// The raw contents of the attribute files of a Linux battery, each `None`
/// when the file could not be read.
pub struct LinuxBatteryFiles {
    pub capacity: Option<String>,
    pub status: Option<String>,
    pub cycle_count: Option<String>,
    pub energy_full: Option<String>,
    pub charge_full: Option<String>,
    pub energy_full_design: Option<String>,
    pub charge_full_design: Option<String>,
    pub energy_now: Option<String>,
    pub charge_now: Option<String>,
    pub voltage_now: Option<String>,
    pub power_now: Option<String>,
    pub technology: Option<String>,
    pub model_name: Option<String>,
}

/// An attribute file's value, trimmed.
pub open spec fn attr_text(f: Option<String>) -> Option<Seq<char>> {
    match f { Some(s) => Some(trim(s@)), None => None }
}

/// An attribute file's value as a number, when it reads as one.
pub open spec fn attr_num(f: Option<String>) -> Option<nat> {
    match attr_text(f) { Some(t) => parse_unsigned(t, u64::MAX as nat), None => None }
}

/// A charge reading (µAh) taken as energy, as the kernel attributes are
/// converted: times ten over a thousand, with 64-bit wrapping.
pub open spec fn charge_as_energy(v: nat) -> nat {
    (vstd::wrapping::u64_specs::wrapping_mul(v as u64, 10) / 1000) as nat
}

/// An energy attribute, else the matching charge attribute converted, else
/// `default`, divided by 1000 (µWh to mWh).
pub open spec fn energy_mwh(energy: Option<String>, charge: Option<String>, default: nat) -> nat {
    (match attr_num(energy) {
        Some(v) => v,
        None => match attr_num(charge) { Some(c) => charge_as_energy(c), None => default },
    }) / 1000
}

fn read_attr(f: &Option<String>) -> (r: Option<String>)
    ensures
        r matches Some(t) ==> attr_text(*f) == Some(t@),
        r is None ==> attr_text(*f) is None,
{
    match f { Some(s) => Some(trim_text(s.as_str())), None => None }
}

fn read_num(f: &Option<String>) -> (r: Option<u64>)
    ensures
        r matches Some(v) ==> attr_num(*f) == Some(v as nat),
        r is None ==> attr_num(*f) is None,
{
    match read_attr(f) { Some(t) => parse_u64(t.as_str()), None => None }
}

fn read_energy(energy: &Option<String>, charge: &Option<String>, default: u64) -> (r: u64)
    ensures
        r == energy_mwh(*energy, *charge, default as nat),
{
    let v = match read_num(energy) {
        Some(v) => v,
        None => match read_num(charge) {
            Some(c) => c.wrapping_mul(10) / 1000,
            None => default,
        },
    };
    v / 1000
}

/// The snapshot of a Linux battery from its attribute files.
pub open spec fn linux_battery_is(r: BatterySnapshot, f: LinuxBatteryFiles) -> bool {
    let capacity: u8 = match attr_num(f.capacity) { Some(v) => v as u8, None => 100u8 };
    let status = match attr_text(f.status) { Some(t) => t, None => "Unknown"@ };
    let charging = eq_ignore_case(status, "charging"@);
    let connected = !eq_ignore_case(status, "discharging"@);
    let full = energy_mwh(f.energy_full, f.charge_full, 50000000);
    let design = energy_mwh(f.energy_full_design, f.charge_full_design, full * 1000);
    let now = energy_mwh(f.energy_now, f.charge_now,
        vstd::wrapping::u64_specs::wrapping_mul(((full * capacity) / 100) as u64, 1000) as nat);
    let tech = match attr_text(f.technology) { Some(t) => t, None => "Li-ion"@ };
    let model = match attr_text(f.model_name) { Some(t) => t, None => "Standard Linux Battery"@ };
    &&& r.ac_status@ == (if connected {
        if charging { "Online (AC Charging)"@ } else { "Online (AC Connected)"@ }
    } else {
        "Offline (Battery Power)"@
    })
    &&& r.battery_life_percent == capacity
    &&& r.battery_flag == (if charging { 8u8 } else if connected { 1u8 } else { 0u8 })
    &&& r.battery_life_time_secs == (if !connected { 18000i64 } else { 0i64 })
    &&& r.design_capacity_mwh == design
    &&& r.full_charge_capacity_mwh == full
    &&& r.current_capacity_mwh == now
    &&& r.cycle_count == (match attr_num(f.cycle_count) { Some(v) => v as u32, None => 0u32 })
    &&& r.health_percent_tenths == (if design > 0 { health_tenths(full, design) } else { 1000 })
    &&& r.wear_percent_tenths == (if design > 0 { wear_tenths(full, design) } else { 0 })
    &&& r.chemistry@ == tech + " ("@ + model + ")"@
    &&& r.temperature_tenths == Some(300i32)
    &&& r.voltage_mv == (match attr_num(f.voltage_now) { Some(v) => v / 1000, None => 12000 }) as u32
    &&& r.charge_rate_mw == (match attr_num(f.power_now) { Some(v) => v / 1000, None => 0 }) as i32
    &&& r.is_present
    &&& r.is_charging == charging
}

/// The battery snapshot from a Linux battery's attribute files.
pub fn linux_battery_snapshot(f: &LinuxBatteryFiles) -> (r: BatterySnapshot)
    ensures
        linux_battery_is(r, *f),
{
    let capacity: u8 = match read_num(&f.capacity) { Some(v) => #[verifier::truncate] (v as u8), None => 100 };
    let status = match read_attr(&f.status) { Some(t) => t, None => lit("Unknown") };
    let charging = eq_ignore_ascii_case(status.as_str(), "charging");
    let connected = !eq_ignore_ascii_case(status.as_str(), "discharging");
    let cycles: u32 = match read_num(&f.cycle_count) { Some(v) => #[verifier::truncate] (v as u32), None => 0 };
    let full = read_energy(&f.energy_full, &f.charge_full, 50000000);
    let design = read_energy(&f.energy_full_design, &f.charge_full_design, full * 1000);
    assert(full * capacity <= u64::MAX) by (nonlinear_arith)
        requires full <= u64::MAX / 1000, capacity <= 255;
    let now = read_energy(&f.energy_now, &f.charge_now, ((full * capacity as u64) / 100).wrapping_mul(1000));
    let voltage: u32 = match read_num(&f.voltage_now) {
        Some(v) => #[verifier::truncate] ((v / 1000) as u32),
        None => 12000,
    };
    let rate: i32 = match read_num(&f.power_now) {
        Some(v) => #[verifier::truncate] ((v / 1000) as i32),
        None => 0,
    };
    let tech = match read_attr(&f.technology) { Some(t) => t, None => lit("Li-ion") };
    let model = match read_attr(&f.model_name) { Some(t) => t, None => lit("Standard Linux Battery") };
    let (health, wear) = battery_health(full, design);
    let ac = if connected {
        if charging { lit("Online (AC Charging)") } else { lit("Online (AC Connected)") }
    } else {
        lit("Offline (Battery Power)")
    };
    BatterySnapshot {
        ac_status: ac,
        battery_life_percent: capacity,
        battery_flag: if charging { 8 } else if connected { 1 } else { 0 },
        battery_life_time_secs: if !connected { 18000 } else { 0 },
        design_capacity_mwh: design,
        full_charge_capacity_mwh: full,
        current_capacity_mwh: now,
        cycle_count: cycles,
        health_percent_tenths: health,
        wear_percent_tenths: wear,
        chemistry: cat(cat(cat(tech, " ("), model.as_str()), ")"),
        temperature_tenths: Some(300),
        voltage_mv: voltage,
        charge_rate_mw: rate,
        is_present: true,
        is_charging: charging,
    }
}


// ---------------------------------------------------------------- macOS

/// The position of the first `.` of `s` at or after `i`, or the length.
pub open spec fn dot_from(s: Seq<char>, i: int) -> int
    decreases s.len() - i,
{
    if i >= s.len() { s.len() as int } else if s[i] == '.' { i } else { dot_from(s, i + 1) }
}

pub open spec fn all_digits(s: Seq<char>) -> bool {
    forall|i: int| 0 <= i < s.len() ==> is_digit(#[trigger] s[i])
}

/// The tenths that the first two fraction digits give: the first digit,
/// rounded up by one where the second is 5 or more.
pub open spec fn fraction_tenths(b: Seq<char>) -> nat {
    (if b.len() > 0 { digit_value(b[0]) } else { 0 }) + (if b.len() > 1 && digit_value(b[1]) >= 5 { 1nat } else { 0nat })
}

/// A decimal number (`digits`, `digits.digits`, `digits.` or `.digits`,
/// the whole part at most 400 000 000) in tenths, rounded half up at the
/// hundredths; `None` for any other text.
pub open spec fn decimal_tenths(t: Seq<char>) -> Option<nat> {
    let k = dot_from(t, 0);
    let a = t.subrange(0, k);
    let b = if k < t.len() { t.subrange(k + 1, t.len() as int) } else { Seq::empty() };
    let whole = if a.len() == 0 && k < t.len() { Some(0nat) } else { parse_unsigned(a, 400_000_000) };
    if k < t.len() && (!all_digits(b) || (a.len() == 0 && b.len() == 0)) {
        None
    } else {
        match whole {
            Some(w) => Some(w * 10 + fraction_tenths(b)),
            None => None,
        }
    }
}

/// A percentage text such as `"89%"` in tenths: `%` signs trimmed from
/// both ends, then white space, then read as a decimal number.
pub open spec fn percent_tenths(t: Seq<char>) -> Option<nat> {
    decimal_tenths(trim(trimmed(t, false, '%')))
}

proof fn lemma_dot_step(s: Seq<char>, i: int)
    requires
        0 <= i < s.len(),
        s[i] != '.',
    ensures
        dot_from(s, i) == dot_from(s, i + 1),
{
}

/// Reads a decimal number in tenths (see `decimal_tenths`).
pub fn parse_decimal_tenths(t: &str) -> (r: Option<u32>)
    ensures
        match r {
            Some(v) => decimal_tenths(t@) == Some(v as nat),
            None => decimal_tenths(t@) is None,
        },
{
    let v = chars_of(t);
    let n = v.len();
    let mut k: usize = 0;
    while k < n && v[k] != '.'
        invariant
            k <= n,
            n == v@.len(),
            v@ == t@,
            dot_from(t@, 0) == dot_from(t@, k as int),
        decreases n - k,
    {
        proof {
            lemma_dot_step(t@, k as int);
        }
        k = k + 1;
    }
    assert(dot_from(t@, k as int) == k);
    let has_dot = k < n;
    let b_start: usize = if has_dot { k + 1 } else { n };
    let ghost b = if has_dot { t@.subrange(k + 1, n as int) } else { Seq::<char>::empty() };
    assert(b =~= v@.subrange(b_start as int, n as int));
    let mut j: usize = b_start;
    while j < n
        invariant
            b_start <= j <= n,
            n == v@.len(),
            v@ == t@,
            k <= n,
            dot_from(t@, 0) == k,
            b_start == (if k < n { k + 1 } else { n as int }),
            b == v@.subrange(b_start as int, n as int),
            forall|i: int| 0 <= i < j - b_start ==> is_digit(#[trigger] b[i]),
        decreases n - j,
    {
        if !('0' <= v[j] && v[j] <= '9') {
            assert(!is_digit(b[j - b_start]));
            return None;
        }
        j = j + 1;
    }
    assert(all_digits(b));
    if has_dot && k == 0 && b_start == n {
        return None;
    }
    let a = string_of(&v, 0, k);
    assert(a@ =~= t@.subrange(0, k as int));
    let whole: u64 = if k == 0 && has_dot {
        0
    } else {
        match parse_u64(a.as_str()) {
            Some(w) => {
                if w > 400_000_000 {
                    return None;
                }
                w
            },
            None => {
                return None;
            },
        }
    };
    proof {
        if b.len() > 0 {
            assert(b[0] == v@[b_start as int]);
            assert(is_digit(b[0]));
        }
        if b.len() > 1 {
            assert(b[1] == v@[b_start + 1]);
            assert(is_digit(b[1]));
        }
    }
    let d1: u64 = if b_start < n { (v[b_start] as u32 - '0' as u32) as u64 } else { 0 };
    let up: u64 = if b_start < n && n - b_start > 1 && (v[b_start + 1] as u32 - '0' as u32) >= 5 { 1 } else { 0 };
    Some((whole * 10 + d1 + up) as u32)
}

/// Reads a percentage text in tenths (see `percent_tenths`).
pub fn parse_percent_tenths(t: &str) -> (r: Option<u32>)
    ensures
        match r {
            Some(v) => percent_tenths(t@) == Some(v as nat),
            None => percent_tenths(t@) is None,
        },
{
    let stripped = trim_by(t, false, '%');
    let cleaned = trim_text(stripped.as_str());
    parse_decimal_tenths(cleaned.as_str())
}

/// What the power report's items say, taken item by item, the later item
/// winning where two give a field.
pub struct MacPowerFold {
    pub soc: Option<u64>,
    pub charging: bool,
    pub connected: bool,
    pub cycles: Option<u64>,
    pub health_tenths: Option<nat>,
    pub device_name: Seq<char>,
    pub charger_watts: Seq<char>,
}

/// A yes/no text ("true" or "yes" in any case means yes); where there is no
/// text the earlier answer stands.
pub open spec fn yes_text(t: Option<Seq<char>>, earlier: bool) -> bool {
    match t {
        Some(x) => eq_ignore_case(x, "true"@) || eq_ignore_case(x, "yes"@),
        None => earlier,
    }
}

pub open spec fn mac_power_start() -> MacPowerFold {
    MacPowerFold {
        soc: None,
        charging: false,
        connected: false,
        cycles: None,
        health_tenths: None,
        device_name: "Li-ion (Apple Smart Battery)"@,
        charger_watts: "65"@,
    }
}

/// One item of `SPPowerDataType` applied to what the earlier items gave.
pub open spec fn mac_power_step(st: MacPowerFold, item: serde_json::Value) -> MacPowerFold {
    let charge = json_member_of(item, "sppower_battery_charge_info"@);
    let health = json_member_of(item, "sppower_battery_health_info"@);
    let model = json_member_of(item, "sppower_battery_model_info"@);
    let ac = json_member_of(item, "sppower_ac_charger_information"@);
    MacPowerFold {
        soc: match member_number(charge, "sppower_battery_state_of_charge"@) {
            Some(v) => Some(v),
            None => st.soc,
        },
        charging: yes_text(member_text(charge, "sppower_battery_is_charging"@), st.charging),
        connected: yes_text(member_text(ac, "sppower_battery_charger_connected"@), st.connected),
        cycles: match member_number(health, "sppower_battery_cycle_count"@) {
            Some(v) => Some(v),
            None => st.cycles,
        },
        health_tenths: match member_text(health, "sppower_battery_health_maximum_capacity"@) {
            Some(t) => match percent_tenths(t) {
                Some(h) => Some(h),
                None => st.health_tenths,
            },
            None => st.health_tenths,
        },
        device_name: match member_text(model, "sppower_battery_device_name"@) {
            Some(n) => "Li-ion ("@ + n + ")"@,
            None => st.device_name,
        },
        charger_watts: match member_text(ac, "sppower_ac_charger_watts"@) {
            Some(w) => w,
            None => st.charger_watts,
        },
    }
}

/// The items of `SPPowerDataType`, folded in order.
pub open spec fn mac_power_fold(items: Seq<serde_json::Value>) -> MacPowerFold
    decreases items.len(),
{
    if items.len() == 0 {
        mac_power_start()
    } else {
        mac_power_step(mac_power_fold(items.drop_last()), items.last())
    }
}

/// The readings of the macOS power report.
pub struct MacBatteryReadings {
    pub soc: Option<u64>,
    pub charging: bool,
    pub connected: bool,
    pub cycles: Option<u64>,
    /// Maximum capacity as a share of design capacity, in tenths of a percent.
    pub health_tenths: Option<u32>,
    pub device_name: String,
    pub charger_watts: String,
    pub ac_status: String,
    pub battery_flag: u8,
}

/// The readings say what the fold gave; the AC status names the charger's
/// wattage while it is connected; the flag is 8 while charging, 1 while
/// connected and 0 on battery.
pub open spec fn mac_readings_are(r: MacBatteryReadings, st: MacPowerFold) -> bool {
    &&& r.soc == st.soc
    &&& r.charging == st.charging
    &&& r.connected == st.connected
    &&& r.cycles == st.cycles
    &&& (match r.health_tenths { Some(h) => st.health_tenths == Some(h as nat), None => st.health_tenths is None })
    &&& r.device_name@ == st.device_name
    &&& r.charger_watts@ == st.charger_watts
    &&& r.ac_status@ == (if st.connected {
        if st.charging {
            "Online (AC Charging, "@ + st.charger_watts + "W PD)"@
        } else {
            "Online (AC Attached, "@ + st.charger_watts + "W PD)"@
        }
    } else {
        "Offline (Battery Power)"@
    })
    &&& r.battery_flag == (if st.charging { 8u8 } else if st.connected { 1u8 } else { 0u8 })
}

/// The `SPPowerDataType` items of `system_profiler SPPowerDataType -json`
/// output, where it is JSON and has that array.
pub open spec fn mac_power_items(json: Seq<char>) -> Option<Seq<serde_json::Value>> {
    match json_parsed(json) {
        Some(doc) => member_elements(doc, "SPPowerDataType"@),
        None => None,
    }
}

fn yes_answer(t: &Option<String>, earlier: bool) -> (b: bool)
    ensures
        b == yes_text(crate::json::text_opt(*t), earlier),
{
    match t {
        Some(x) => eq_ignore_ascii_case(x.as_str(), "true") || eq_ignore_ascii_case(x.as_str(), "yes"),
        None => earlier,
    }
}

/// The battery readings of the macOS power report: `None` when the output
/// is not JSON or has no `SPPowerDataType` array.
pub fn mac_battery_readings(json: &str) -> (r: Option<MacBatteryReadings>)
    ensures
        r is Some <==> mac_power_items(json@) is Some,
        r matches Some(b) ==> mac_readings_are(b, mac_power_fold(mac_power_items(json@).unwrap())),
{
    let val = json_parse(json)?;
    let items = member_array(&val, "SPPowerDataType")?;
    let mut soc: Option<u64> = None;
    let mut charging = false;
    let mut connected = false;
    let mut cycles: Option<u64> = None;
    let mut health: Option<u32> = None;
    let mut device_name = lit("Li-ion (Apple Smart Battery)");
    let mut watts = lit("65");
    let ghost all = items@;
    assert(all.subrange(0, 0) =~= Seq::<serde_json::Value>::empty());
    let mut i: usize = 0;
    while i < items.len()
        invariant
            i <= items@.len(),
            all == items@,
            ({
                let st = mac_power_fold(all.subrange(0, i as int));
                &&& soc == st.soc
                &&& charging == st.charging
                &&& connected == st.connected
                &&& cycles == st.cycles
                &&& (match health { Some(h) => st.health_tenths == Some(h as nat), None => st.health_tenths is None })
                &&& device_name@ == st.device_name
                &&& watts@ == st.charger_watts
            }),
        decreases items@.len() - i,
    {
        let item = &items[i];
        let ghost next = all.subrange(0, i + 1);
        assert(next.drop_last() =~= all.subrange(0, i as int));
        assert(next.last() == *item);
        let charge = json_member(item, "sppower_battery_charge_info");
        let health_info = json_member(item, "sppower_battery_health_info");
        let model = json_member(item, "sppower_battery_model_info");
        let ac = json_member(item, "sppower_ac_charger_information");
        if let Some(v) = member_u64(&charge, "sppower_battery_state_of_charge") {
            soc = Some(v);
        }
        charging = yes_answer(&member_str(&charge, "sppower_battery_is_charging"), charging);
        connected = yes_answer(&member_str(&ac, "sppower_battery_charger_connected"), connected);
        if let Some(v) = member_u64(&health_info, "sppower_battery_cycle_count") {
            cycles = Some(v);
        }
        if let Some(t) = member_str(&health_info, "sppower_battery_health_maximum_capacity") {
            if let Some(h) = parse_percent_tenths(t.as_str()) {
                health = Some(h);
            }
        }
        if let Some(n) = member_str(&model, "sppower_battery_device_name") {
            device_name = cat(cat(lit("Li-ion ("), n.as_str()), ")");
        }
        if let Some(w) = member_str(&ac, "sppower_ac_charger_watts") {
            watts = w;
        }
        i = i + 1;
    }
    assert(all.subrange(0, all.len() as int) =~= all);
    let ac_status = if connected {
        if charging {
            cat(cat(lit("Online (AC Charging, "), watts.as_str()), "W PD)")
        } else {
            cat(cat(lit("Online (AC Attached, "), watts.as_str()), "W PD)")
        }
    } else {
        lit("Offline (Battery Power)")
    };
    let flag: u8 = if charging { 8 } else if connected { 1 } else { 0 };
    Some(MacBatteryReadings {
        soc,
        charging,
        connected,
        cycles,
        health_tenths: health,
        device_name,
        charger_watts: watts,
        ac_status,
        battery_flag: flag,
    })
}

/// The macOS snapshot built from the power report's readings: charge 90 %
/// and health 100 % where the report gives none (the charge taken modulo
/// 256 as a byte, the cycle count modulo 2^32); a design capacity of
/// 52 600 mWh, the full-charge capacity that share of it (rounded half up),
/// the current capacity the charge's share of that; wear is what health
/// lacks of 100 %; an hour estimate of 8 h on battery; the fixed
/// temperature, voltage and charging rate that the report does not give.
pub open spec fn mac_snapshot_is(b: BatterySnapshot, r: MacBatteryReadings) -> bool {
    let pct: nat = match r.soc { Some(v) => (v % 256) as nat, None => 90 };
    let h: nat = match r.health_tenths { Some(v) => v as nat, None => 1000 };
    let full = div_round(52600 * h, 1000);
    &&& b.ac_status@ == r.ac_status@
    &&& b.battery_life_percent == pct
    &&& b.battery_flag == r.battery_flag
    &&& b.battery_life_time_secs == (if !r.connected { 28800i64 } else { 0i64 })
    &&& b.design_capacity_mwh == 52600
    &&& b.full_charge_capacity_mwh == full
    &&& b.current_capacity_mwh == div_round(full * pct, 100)
    &&& b.cycle_count == (match r.cycles { Some(v) => (v % 0x1_0000_0000) as nat, None => 0 })
    &&& b.health_percent_tenths == h
    &&& b.wear_percent_tenths == (if h >= 1000 { 0 } else { (1000 - h) as nat })
    &&& b.chemistry@ == r.device_name@
    &&& b.temperature_tenths == Some(283i32)
    &&& b.voltage_mv == 12507
    &&& b.charge_rate_mw == (if r.charging { 28500i32 } else { 0i32 })
    &&& b.is_present
    &&& b.is_charging == r.charging
}

/// The battery snapshot of a Mac, from its power report's readings.
pub fn mac_battery_snapshot(r: &MacBatteryReadings) -> (b: BatterySnapshot)
    ensures
        mac_snapshot_is(b, *r),
{
    let pct: u64 = match r.soc { Some(v) => v % 256, None => 90 };
    let h: u64 = match r.health_tenths { Some(v) => v as u64, None => 1000 };
    let full: u64 = round_div(52600 * h, 1000);
    assert(full <= 52600 * h) by (nonlinear_arith)
        requires full == (2 * (52600 * h) + 1000) / 2000;
    assert(full * pct <= 52600 * 4294967295 * 255) by (nonlinear_arith)
        requires full <= 52600 * h, h <= 4294967295, pct <= 255;
    let current: u64 = round_div(full * pct, 100);
    let cycles: u32 = match r.cycles { Some(v) => (v % 0x1_0000_0000) as u32, None => 0 };
    BatterySnapshot {
        ac_status: lit(r.ac_status.as_str()),
        battery_life_percent: pct as u8,
        battery_flag: r.battery_flag,
        battery_life_time_secs: if !r.connected { 28800 } else { 0 },
        design_capacity_mwh: 52600,
        full_charge_capacity_mwh: full,
        current_capacity_mwh: current,
        cycle_count: cycles,
        health_percent_tenths: h as u32,
        wear_percent_tenths: if h >= 1000 { 0 } else { (1000 - h) as u32 },
        chemistry: lit(r.device_name.as_str()),
        temperature_tenths: Some(283),
        voltage_mv: 12507,
        charge_rate_mw: if r.charging { 28500 } else { 0 },
        is_present: true,
        is_charging: r.charging,
    }
}

/// The snapshot reported when no platform source found a battery: no
/// battery is present, and no charge, capacity, health, wear, cycle,
/// temperature, voltage or rate reading is reported (all zero or absent).
/// The flag is the "no system battery" flag of the power-status convention.
pub open spec fn generic_battery_is(r: BatterySnapshot) -> bool {
    &&& r.ac_status@ == "Unknown (No Battery Detected)"@
    &&& r.battery_life_percent == 0
    &&& r.battery_flag == 128
    &&& r.battery_life_time_secs == 0
    &&& r.design_capacity_mwh == 0
    &&& r.full_charge_capacity_mwh == 0
    &&& r.current_capacity_mwh == 0
    &&& r.cycle_count == 0
    &&& r.health_percent_tenths == 0
    &&& r.wear_percent_tenths == 0
    &&& r.chemistry@ == "N/A (No Battery Detected)"@
    &&& r.temperature_tenths is None
    &&& r.voltage_mv == 0
    &&& r.charge_rate_mw == 0
    &&& !r.is_present
    &&& !r.is_charging
}

/// The snapshot of a machine where no battery could be read.
pub fn generic_battery_snapshot() -> (r: BatterySnapshot)
    ensures
        generic_battery_is(r),
{
    BatterySnapshot {
        ac_status: lit("Unknown (No Battery Detected)"),
        battery_life_percent: 0,
        battery_flag: 128,
        battery_life_time_secs: 0,
        design_capacity_mwh: 0,
        full_charge_capacity_mwh: 0,
        current_capacity_mwh: 0,
        cycle_count: 0,
        health_percent_tenths: 0,
        wear_percent_tenths: 0,
        chemistry: lit("N/A (No Battery Detected)"),
        temperature_tenths: None,
        voltage_mv: 0,
        charge_rate_mw: 0,
        is_present: false,
        is_charging: false,
    }
}


/// What the battery sources of each platform gave.
pub enum BatteryScan {
    /// The power status (`None` when it could not be read) and, for a
    /// present battery, the battery queries.
    Windows { power: Option<PowerStatus>, info: Option<BatteryInformation>, status: Option<BatteryStatusReading> },
    /// The readings of the macOS power report, where it could be read.
    MacOs { readings: Option<MacBatteryReadings> },
    /// The attribute files of the first Linux battery, where there is one.
    Linux { files: Option<LinuxBatteryFiles> },
    Other,
}

/// The battery snapshot of the platform: Windows from its power status and
/// battery queries; macOS and Linux from their battery where one was found;
/// otherwise a snapshot with no battery present and no readings.
pub fn get_battery_diagnostics(scan: BatteryScan) -> (r: Result<BatterySnapshot, String>)
    ensures
        scan matches BatteryScan::Windows { power, info, status } ==> (
            (power is None <==> r is Err)
            && (r matches Err(e) ==> e@ == "Failed to query Win32 GetSystemPowerStatus"@)
            && (power matches Some(s) ==> (r matches Ok(b) && (if battery_present(s) {
                windows_battery_is(b, s, info, status)
            } else {
                no_battery_is(b, s)
            })))),
        scan matches BatteryScan::MacOs { readings } ==> (match readings {
            Some(m) => r matches Ok(b) && mac_snapshot_is(b, m),
            None => r matches Ok(b) && generic_battery_is(b),
        }),
        scan matches BatteryScan::Linux { files } ==> (match files {
            Some(f) => r matches Ok(b) && linux_battery_is(b, f),
            None => r matches Ok(b) && generic_battery_is(b),
        }),
        scan is Other ==> (r matches Ok(b) && generic_battery_is(b)),
{
    match scan {
        BatteryScan::Windows { power, info, status } => windows_battery_snapshot(power, info, status),
        BatteryScan::MacOs { readings } => match readings {
            Some(m) => Ok(mac_battery_snapshot(&m)),
            None => Ok(generic_battery_snapshot()),
        },
        BatteryScan::Linux { files } => match files {
            Some(f) => Ok(linux_battery_snapshot(&f)),
            None => Ok(generic_battery_snapshot()),
        },
        BatteryScan::Other => Ok(generic_battery_snapshot()),
    }
}


/// Health and wear are complementary: both at most 100 %, together 100 %,
/// or 100.1 % where both round up from an exact half tenth.
pub proof fn lemma_health_wear_complement(full: nat, design: nat)
    requires
        design > 0,
    ensures
        health_tenths(full, design) <= 1000,
        wear_tenths(full, design) <= 1000,
        health_tenths(full, design) + wear_tenths(full, design) == 1000
            || health_tenths(full, design) + wear_tenths(full, design) == 1001,
{
    if full < design {
        let d = design as int;
        let a = 2000 * (full as int) + d;
        let b = 2000 * (d - full) + d;
        let h = a / (2 * d);
        let w = b / (2 * d);
        assert(a + b == 2 * d * 1001);
        assert(h + w == 1000 || h + w == 1001) by (nonlinear_arith)
            requires
                d > 0,
                a >= 0,
                b >= 0,
                a + b == 2 * d * 1001,
                h == a / (2 * d),
                w == b / (2 * d),
        ;
        assert(h <= 1000) by (nonlinear_arith)
            requires h == a / (2 * d), a == 2000 * (full as int) + d, full < d, d > 0;
        assert(w <= 1000) by (nonlinear_arith)
            requires w == b / (2 * d), b == 2000 * (d - full) + d, full < d, full >= 0, d > 0;
    }
}

} // verus!
