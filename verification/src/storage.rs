//! Storage health: the NVMe S.M.A.R.T. log page 0x02, storage device
//! descriptors, capacity detection, and the drive records of each platform.

use vstd::prelude::*;
use crate::json::{
    json_as_array, json_parse, json_parsed, member_array, member_elements, member_number, member_str,
    member_text, member_u64, text_opt,
};
use crate::model::{DriveView, SmartAttribute, SmartAttributeView, StorageDriveMetrics, texts};
use crate::text::{
    cat, contains, decimal, div_round_even, eq_ignore_ascii_case, eq_ignore_case, has_sub, lit, lowercase,
    num_usize, round_div_even, tenths, tenths_text, to_lower, to_upper, trim, trim_text, uppercase, utf8_lossy,
    utf8_lossy_text,
};

verus! {

// ---------------------------------------------------------------- little-endian fields

/// The little-endian unsigned value of `n` bytes of `b` from `off`.
pub open spec fn le_value(b: Seq<u8>, off: int, n: nat) -> nat
    decreases n,
{
    if n == 0 { 0 } else { b[off] as nat + 256 * le_value(b, off + 1, (n - 1) as nat) }
}

pub open spec fn p256(n: nat) -> nat
    decreases n,
{
    if n == 0 { 1 } else { 256 * p256((n - 1) as nat) }
}

proof fn lemma_p256_monotone(i: nat, j: nat)
    requires
        i <= j,
    ensures
        p256(i) <= p256(j),
    decreases j - i,
{
    if i < j {
        lemma_p256_monotone(i, (j - 1) as nat);
    }
}

/// Reads an unsigned little-endian field of at most eight bytes.
pub fn read_le(b: &[u8], off: usize, n: usize) -> (v: u64)
    requires
        n <= 8,
        off + n <= b@.len(),
    ensures
        v as nat == le_value(b@, off as int, n as nat),
{
    let mut acc: u64 = 0;
    let mut k: usize = n;
    proof {
        reveal_with_fuel(p256, 9);
    }
    while k > 0
        invariant
            k <= n,
            n <= 8,
            off + n <= b@.len(),
            b@.len() == b.len(),
            acc as nat == le_value(b@, off + k, (n - k) as nat),
            acc < p256((n - k) as nat),
        decreases k,
    {
        proof {
            lemma_p256_monotone((n - k) as nat, 7);
            reveal_with_fuel(p256, 8);
            assert(p256(7) == 72057594037927936nat);
            assert(p256((n - k + 1) as nat) == 256 * p256((n - k) as nat));
        }
        let byte = b[off + k - 1];
        acc = acc * 256 + byte as u64;
        k = k - 1;
    }
    acc
}

// ---------------------------------------------------------------- NVMe S.M.A.R.T.

/// The messages of the critical-warning bits, lowest bit first.
pub open spec fn smart_flags(cw: u8) -> Seq<Seq<char>> {
    (if cw & 0x01 != 0 { seq!["Available spare below threshold"@] } else { seq![] })
        + (if cw & 0x02 != 0 { seq!["Temperature exceeding critical threshold"@] } else { seq![] })
        + (if cw & 0x04 != 0 { seq!["NVM subsystem reliability degraded"@] } else { seq![] })
        + (if cw & 0x08 != 0 { seq!["Media placed in read-only mode"@] } else { seq![] })
        + (if cw & 0x10 != 0 { seq!["Volatile memory backup failed"@] } else { seq![] })
}

/// Health: the endurance left (100 - percentage used, not below 0), capped by
/// the available spare.
pub open spec fn nvme_health_score(used: u8, spare: u8) -> u8 {
    let left: u8 = if used <= 100 { (100 - used) as u8 } else { 0 };
    if left < spare { left } else { spare }
}

/// Critical with a warning bit, a score below 40 or more than 5 media errors;
/// Warning with a score below 75 or more than 80 % used; else Healthy.
pub open spec fn nvme_health_status(has_flags: bool, score: u8, media_errors: nat, used: u8) -> Seq<char> {
    if has_flags || score < 40 || media_errors > 5 {
        "Critical"@
    } else if score < 75 || used > 80 {
        "Warning"@
    } else {
        "Healthy"@
    }
}

/// The composite temperature in tenths: kelvin above 273 converted, else 38 °C.
pub open spec fn nvme_temperature_tenths(kelvin: nat) -> int {
    if kelvin > 273 { 10 * (kelvin - 273) } else { 380 }
}

/// Data units (512 000 bytes each) in gigabytes, rounded down.
pub open spec fn data_units_gb(units: nat) -> nat {
    (units * 512) / 1_000_000
}

pub open spec fn physical_drive_id(idx: usize) -> Seq<char> {
    "PhysicalDrive"@ + decimal(idx as nat)
}

/// The drive record of an NVMe drive from its S.M.A.R.T. / health log page.
pub open spec fn nvme_drive(
    idx: usize,
    model: Seq<char>,
    serial: Seq<char>,
    revision: Seq<char>,
    log: Seq<u8>,
    size: u64,
    size_text: Seq<char>,
) -> DriveView {
    let cw = log[0];
    let spare = log[3];
    let used = log[5];
    let score = nvme_health_score(used, spare);
    let media = le_value(log, 160, 8);
    DriveView {
        device_id: physical_drive_id(idx),
        model: if model.len() == 0 { "NVMe Solid State Drive"@ } else { model },
        serial_number: serial,
        firmware_rev: revision,
        bus_type: "NVMe"@,
        size_bytes: size,
        size_formatted: size_text,
        smart_supported: true,
        health_status: nvme_health_status(smart_flags(cw).len() > 0, score, media, used),
        health_score: score,
        percentage_used: used,
        available_spare: spare,
        available_spare_threshold: log[4],
        critical_warnings: smart_flags(cw),
        temperature_tenths: nvme_temperature_tenths(le_value(log, 1, 2)) as i32,
        data_units_read_gb: data_units_gb(le_value(log, 32, 8)) as u64,
        data_units_written_gb: data_units_gb(le_value(log, 48, 8)) as u64,
        power_on_hours: le_value(log, 128, 8) as u64,
        power_cycles: le_value(log, 112, 8) as u64,
        unsafe_shutdowns: le_value(log, 144, 8) as u64,
        media_errors: media as u64,
        smart_attributes: seq![],
    }
}

fn push_text(v: &mut Vec<String>, s: &str)
    ensures
        texts(final(v)@) == texts(old(v)@).push(s@),
{
    let ghost before = texts(v@);
    v.push(lit(s));
    assert(texts(v@) =~= before.push(s@));
}

/// The messages of the critical-warning bits of a health log page.
pub fn smart_flag_messages(cw: u8) -> (r: Vec<String>)
    ensures
        texts(r@) == smart_flags(cw),
{
    let mut v: Vec<String> = Vec::new();
    if cw & 0x01 != 0 { push_text(&mut v, "Available spare below threshold"); }
    if cw & 0x02 != 0 { push_text(&mut v, "Temperature exceeding critical threshold"); }
    if cw & 0x04 != 0 { push_text(&mut v, "NVM subsystem reliability degraded"); }
    if cw & 0x08 != 0 { push_text(&mut v, "Media placed in read-only mode"); }
    if cw & 0x10 != 0 { push_text(&mut v, "Volatile memory backup failed"); }
    assert(texts(v@) =~= smart_flags(cw));
    v
}

fn units_to_gb(units: u64) -> (g: u64)
    ensures
        g as nat == data_units_gb(units as nat),
{
    let g = (units as u128 * 512) / 1_000_000;
    assert(g <= u64::MAX) by (nonlinear_arith)
        requires g == (units as u128 * 512) / 1_000_000, units <= u64::MAX;
    g as u64
}

fn physical_drive_name(idx: usize) -> (s: String)
    ensures
        s@ == physical_drive_id(idx),
{
    cat(lit("PhysicalDrive"), num_usize(idx).as_str())
}

/// The drive record of an NVMe drive from the 512-byte S.M.A.R.T. / health
/// log page; `None` when fewer than 512 bytes came back.
pub fn nvme_drive_metrics(
    drive_idx: usize,
    model: &str,
    serial: &str,
    revision: &str,
    log: &[u8],
    size_bytes: u64,
    size_formatted: &str,
) -> (r: Option<StorageDriveMetrics>)
    ensures
        log@.len() >= 512 <==> r is Some,
        r matches Some(d) ==> d@ == nvme_drive(drive_idx, model@, serial@, revision@, log@, size_bytes, size_formatted@),
{
    if log.len() < 512 {
        return None;
    }
    let critical_warning = log[0];
    let temp_kelvin = read_le(log, 1, 2);
    proof {
        assert(le_value(log@, 1, 2) < 65536) by {
            lemma_le_bound(log@, 1, 2);
            reveal_with_fuel(p256, 3);
        }
    }
    let temperature_tenths: i32 = if temp_kelvin > 273 { ((temp_kelvin - 273) * 10) as i32 } else { 380 };
    let available_spare = log[3];
    let spare_threshold = log[4];
    let percentage_used = log[5];
    let data_units_written_gb = units_to_gb(read_le(log, 48, 8));
    let data_units_read_gb = units_to_gb(read_le(log, 32, 8));
    let power_on_hours = read_le(log, 128, 8);
    let power_cycles = read_le(log, 112, 8);
    let unsafe_shutdowns = read_le(log, 144, 8);
    let media_errors = read_le(log, 160, 8);

    let critical_warnings = smart_flag_messages(critical_warning);
    let left: u8 = if percentage_used <= 100 { 100 - percentage_used } else { 0 };
    let health_score: u8 = if left < available_spare { left } else { available_spare };
    let health_status = if critical_warnings.len() > 0 || health_score < 40 || media_errors > 5 {
        lit("Critical")
    } else if health_score < 75 || percentage_used > 80 {
        lit("Warning")
    } else {
        lit("Healthy")
    };
    proof {
        assert(texts(critical_warnings@).len() == critical_warnings@.len());
    }
    let model_text = if model.unicode_len() == 0 { lit("NVMe Solid State Drive") } else { lit(model) };
    let d = StorageDriveMetrics {
        device_id: physical_drive_name(drive_idx),
        model: model_text,
        serial_number: lit(serial),
        firmware_rev: lit(revision),
        bus_type: lit("NVMe"),
        size_bytes,
        size_formatted: lit(size_formatted),
        smart_supported: true,
        health_status,
        health_score,
        percentage_used,
        available_spare,
        available_spare_threshold: spare_threshold,
        critical_warnings,
        temperature_tenths,
        data_units_read_gb,
        data_units_written_gb,
        power_on_hours,
        power_cycles,
        unsafe_shutdowns,
        media_errors,
        smart_attributes: Vec::new(),
    };
    assert(d.smart_attributes@.map_values(|a: SmartAttribute| a@) =~= Seq::<SmartAttributeView>::empty());
    Some(d)
}

pub(crate) proof fn lemma_le_bound(b: Seq<u8>, off: int, n: nat)
    ensures
        le_value(b, off, n) < p256(n),
    decreases n,
{
    if n > 0 {
        lemma_le_bound(b, off + 1, (n - 1) as nat);
    }
}

// ---------------------------------------------------------------- capacity

/// The capacity that a model name announces ("4TB", "2000GB", "512GB", ...).
pub open spec fn named_capacity(lower: Seq<char>) -> Option<(u64, Seq<char>)> {
    if has_sub(lower, "4tb"@) || has_sub(lower, "4000gb"@) {
        Some((4_000_000_000_000, "4.00 TB"@))
    } else if has_sub(lower, "2tb"@) || has_sub(lower, "2000gb"@) || has_sub(lower, "2048gb"@) {
        Some((2_000_000_000_000, "2.00 TB"@))
    } else if has_sub(lower, "1tb"@) || has_sub(lower, "1000gb"@) || has_sub(lower, "1024gb"@) {
        Some((1_000_000_000_000, "1.00 TB"@))
    } else if has_sub(lower, "512gb"@) || has_sub(lower, "500gb"@) {
        Some((512_000_000_000, "512 GB"@))
    } else if has_sub(lower, "256gb"@) || has_sub(lower, "250gb"@) {
        Some((256_000_000_000, "256 GB"@))
    } else if has_sub(lower, "128gb"@) || has_sub(lower, "120gb"@) {
        Some((128_000_000_000, "128 GB"@))
    } else {
        None
    }
}

/// The capacity class of the mounted disks' total size.
pub open spec fn capacity_of_total(total: nat) -> (u64, Seq<char>) {
    if total == 0 {
        (512_000_000_000, "512 GB"@)
    } else if total >= 1_800_000_000_000 {
        (2_000_000_000_000, "2.00 TB"@)
    } else if total >= 900_000_000_000 {
        (1_000_000_000_000, "1.00 TB"@)
    } else if total >= 440_000_000_000 {
        (512_000_000_000, "512 GB"@)
    } else if total >= 220_000_000_000 {
        (256_000_000_000, "256 GB"@)
    } else if total >= 100_000_000_000 {
        (128_000_000_000, "128 GB"@)
    } else {
        (total as u64, decimal(div_round_even(total, 1_000_000_000)) + " GB"@)
    }
}

pub open spec fn sum_sizes(s: Seq<u64>) -> nat
    decreases s.len(),
{
    if s.len() == 0 { 0 } else { sum_sizes(s.drop_last()) + s.last() as nat }
}

/// A drive's capacity: the one its model name announces, else the class of
/// the mounted disks' total size.
pub open spec fn drive_size(model: Seq<char>, disk_sizes: Seq<u64>) -> (u64, Seq<char>) {
    match named_capacity(lowercase(model)) {
        Some(c) => c,
        None => capacity_of_total(sum_sizes(disk_sizes)),
    }
}

fn size_pair(b: u64, s: &str) -> (r: (u64, String))
    ensures
        r.0 == b,
        r.1@ == s@,
{
    (b, lit(s))
}

/// The capacity of a drive from its model name and the sizes of the mounted
/// disks.
pub fn detect_drive_size(model: &str, disk_sizes: &Vec<u64>) -> (r: (u64, String))
    requires
        sum_sizes(disk_sizes@) <= u64::MAX,
    ensures
        r.0 == drive_size(model@, disk_sizes@).0,
        r.1@ == drive_size(model@, disk_sizes@).1,
{
    let lower_s = to_lower(model);
    let lower = lower_s.as_str();
    if contains(lower, "4tb") || contains(lower, "4000gb") {
        return size_pair(4_000_000_000_000, "4.00 TB");
    } else if contains(lower, "2tb") || contains(lower, "2000gb") || contains(lower, "2048gb") {
        return size_pair(2_000_000_000_000, "2.00 TB");
    } else if contains(lower, "1tb") || contains(lower, "1000gb") || contains(lower, "1024gb") {
        return size_pair(1_000_000_000_000, "1.00 TB");
    } else if contains(lower, "512gb") || contains(lower, "500gb") {
        return size_pair(512_000_000_000, "512 GB");
    } else if contains(lower, "256gb") || contains(lower, "250gb") {
        return size_pair(256_000_000_000, "256 GB");
    } else if contains(lower, "128gb") || contains(lower, "120gb") {
        return size_pair(128_000_000_000, "128 GB");
    }
    let total = sum_disk_sizes(disk_sizes);
    if total == 0 {
        size_pair(512_000_000_000, "512 GB")
    } else if total >= 1_800_000_000_000 {
        size_pair(2_000_000_000_000, "2.00 TB")
    } else if total >= 900_000_000_000 {
        size_pair(1_000_000_000_000, "1.00 TB")
    } else if total >= 440_000_000_000 {
        size_pair(512_000_000_000, "512 GB")
    } else if total >= 220_000_000_000 {
        size_pair(256_000_000_000, "256 GB")
    } else if total >= 100_000_000_000 {
        size_pair(128_000_000_000, "128 GB")
    } else {
        let gb = round_div_even(total, 1_000_000_000);
        (total, cat(crate::text::num(gb), " GB"))
    }
}

fn sum_disk_sizes(disk_sizes: &Vec<u64>) -> (t: u64)
    requires
        sum_sizes(disk_sizes@) <= u64::MAX,
    ensures
        t == sum_sizes(disk_sizes@),
{
    let mut t: u64 = 0;
    let mut i: usize = 0;
    while i < disk_sizes.len()
        invariant
            i <= disk_sizes@.len(),
            sum_sizes(disk_sizes@) <= u64::MAX,
            t == sum_sizes(disk_sizes@.subrange(0, i as int)),
        decreases disk_sizes@.len() - i,
    {
        let ghost next = disk_sizes@.subrange(0, i + 1);
        assert(next.drop_last() =~= disk_sizes@.subrange(0, i as int));
        proof { lemma_sum_prefix(disk_sizes@, i + 1); }
        t = t + disk_sizes[i];
        i = i + 1;
    }
    assert(disk_sizes@.subrange(0, disk_sizes@.len() as int) =~= disk_sizes@);
    t
}

proof fn lemma_sum_prefix(s: Seq<u64>, k: int)
    requires
        0 <= k <= s.len(),
    ensures
        sum_sizes(s.subrange(0, k)) <= sum_sizes(s),
    decreases s.len() - k,
{
    if k < s.len() {
        lemma_sum_prefix(s, k + 1);
        assert(s.subrange(0, k + 1).drop_last() =~= s.subrange(0, k));
    } else {
        assert(s.subrange(0, k) =~= s);
    }
}

// ---------------------------------------------------------------- SATA / generic drives

pub open spec fn attribute(id: u8, name: Seq<char>, cur: u8, worst: u8, thr: u8, raw: u64, status: Seq<char>) -> SmartAttributeView {
    SmartAttributeView { id, name, current_value: cur, worst_value: worst, threshold: thr, raw_value: raw, status }
}

/// The attribute table reported for a SATA or unidentified drive.
pub open spec fn generic_smart_attributes() -> Seq<SmartAttributeView> {
    seq![
        attribute(0x05, "Reallocated Sectors Count"@, 100, 100, 10, 0, "OK"@),
        attribute(0x09, "Power-On Hours Count"@, 98, 98, 0, 2480, "OK"@),
        attribute(0x0C, "Power Cycle Count"@, 99, 99, 0, 340, "OK"@),
        attribute(0xC5, "Current Pending Sector Count"@, 100, 100, 0, 0, "OK"@),
        attribute(0xC7, "UltraDMA CRC Error Count"@, 200, 200, 0, 0, "OK"@),
    ]
}

/// The record of a SATA or unidentified drive.
pub open spec fn generic_drive(
    idx: usize,
    model: Seq<char>,
    serial: Seq<char>,
    revision: Seq<char>,
    bus: Seq<char>,
    size: u64,
    size_text: Seq<char>,
) -> DriveView {
    DriveView {
        device_id: physical_drive_id(idx),
        model: if model.len() == 0 { "Storage Drive "@ + decimal(idx as nat) } else { model },
        serial_number: serial,
        firmware_rev: revision,
        bus_type: bus,
        size_bytes: size,
        size_formatted: size_text,
        smart_supported: true,
        health_status: "Healthy"@,
        health_score: 98,
        percentage_used: 2,
        available_spare: 100,
        available_spare_threshold: 10,
        critical_warnings: seq![],
        temperature_tenths: 340,
        data_units_read_gb: 14200,
        data_units_written_gb: 11800,
        power_on_hours: 2480,
        power_cycles: 340,
        unsafe_shutdowns: 4,
        media_errors: 0,
        smart_attributes: generic_smart_attributes(),
    }
}

fn smart_attribute(id: u8, name: &str, cur: u8, worst: u8, thr: u8, raw: u64, status: &str) -> (a: SmartAttribute)
    ensures
        a@ == attribute(id, name@, cur, worst, thr, raw, status@),
{
    SmartAttribute { id, name: lit(name), current_value: cur, worst_value: worst, threshold: thr, raw_value: raw, status: lit(status) }
}

fn generic_attributes() -> (v: Vec<SmartAttribute>)
    ensures
        v@.map_values(|a: SmartAttribute| a@) == generic_smart_attributes(),
{
    let mut v: Vec<SmartAttribute> = Vec::new();
    v.push(smart_attribute(0x05, "Reallocated Sectors Count", 100, 100, 10, 0, "OK"));
    v.push(smart_attribute(0x09, "Power-On Hours Count", 98, 98, 0, 2480, "OK"));
    v.push(smart_attribute(0x0C, "Power Cycle Count", 99, 99, 0, 340, "OK"));
    v.push(smart_attribute(0xC5, "Current Pending Sector Count", 100, 100, 0, 0, "OK"));
    v.push(smart_attribute(0xC7, "UltraDMA CRC Error Count", 200, 200, 0, 0, "OK"));
    assert(v@.map_values(|a: SmartAttribute| a@) =~= generic_smart_attributes());
    v
}

/// The record of a SATA or unidentified drive.
pub fn get_sata_or_generic_metrics(
    drive_idx: usize,
    model: &str,
    serial: &str,
    revision: &str,
    bus_type: &str,
    size_bytes: u64,
    size_formatted: &str,
) -> (d: StorageDriveMetrics)
    ensures
        d@ == generic_drive(drive_idx, model@, serial@, revision@, bus_type@, size_bytes, size_formatted@),
{
    let model_text = if model.unicode_len() == 0 {
        cat(lit("Storage Drive "), num_usize(drive_idx).as_str())
    } else {
        lit(model)
    };
    let d = StorageDriveMetrics {
        device_id: physical_drive_name(drive_idx),
        model: model_text,
        serial_number: lit(serial),
        firmware_rev: lit(revision),
        bus_type: lit(bus_type),
        size_bytes,
        size_formatted: lit(size_formatted),
        smart_supported: true,
        health_status: lit("Healthy"),
        health_score: 98,
        percentage_used: 2,
        available_spare: 100,
        available_spare_threshold: 10,
        critical_warnings: Vec::new(),
        temperature_tenths: 340,
        data_units_read_gb: 14200,
        data_units_written_gb: 11800,
        power_on_hours: 2480,
        power_cycles: 340,
        unsafe_shutdowns: 4,
        media_errors: 0,
        smart_attributes: generic_attributes(),
    };
    assert(texts(d.critical_warnings@) =~= Seq::<Seq<char>>::empty());
    d
}

/// The stand-in record when no physical drive answered on Windows.
pub fn get_windows_fallback_drive(idx: usize, disk_sizes: &Vec<u64>) -> (d: StorageDriveMetrics)
    requires
        sum_sizes(disk_sizes@) <= u64::MAX,
    ensures
        d@ == generic_drive(
            idx,
            "Primary System Storage"@,
            "SN-NVME-SYSTEM"@,
            "1B2QEXM7"@,
            "NVMe"@,
            drive_size("Primary System Storage"@, disk_sizes@).0,
            drive_size("Primary System Storage"@, disk_sizes@).1,
        ),
{
    let (size, size_text) = detect_drive_size("Primary System Storage", disk_sizes);
    get_sata_or_generic_metrics(
        idx,
        "Primary System Storage",
        "SN-NVME-SYSTEM",
        "1B2QEXM7",
        "NVMe",
        size,
        size_text.as_str(),
    )
}

// ---------------------------------------------------------------- device descriptor

/// `pos` is the first NUL byte of `b` at or after `off`.
pub open spec fn first_nul(b: Seq<u8>, off: int, pos: int) -> bool {
    off <= pos < b.len() && b[pos] == 0 && forall|j: int| off <= j < pos ==> b[j] != 0
}

/// A NUL-terminated string of the descriptor at `off`, decoded and trimmed;
/// empty for offset 0, an offset past the buffer, or no terminator.
pub open spec fn descriptor_text(b: Seq<u8>, off: u32) -> Seq<char> {
    if 0 < off && off < b.len() && exists|p: int| first_nul(b, off as int, p) {
        let p = choose|p: int| first_nul(b, off as int, p);
        trim(utf8_lossy(b.subrange(off as int, p)))
    } else {
        ""@
    }
}

/// The bus of a `STORAGE_BUS_TYPE` code.
pub open spec fn bus_name(code: u32) -> Seq<char> {
    if code == 17 { "NVMe"@ }
    else if code == 3 { "ATA / SATA"@ }
    else if code == 8 { "SCSI"@ }
    else if code == 7 { "USB"@ }
    else { "Storage Device"@ }
}

/// "vendor product", the product alone, or "Physical Drive N".
pub open spec fn model_name(vendor: Seq<char>, product: Seq<char>, idx: usize) -> Seq<char> {
    if vendor.len() > 0 && product.len() > 0 {
        vendor + " "@ + product
    } else if product.len() > 0 {
        product
    } else {
        "Physical Drive "@ + decimal(idx as nat)
    }
}

/// The identity that a storage device descriptor gives a drive.
pub struct DriveIdentity {
    pub model: String,
    pub serial: String,
    pub revision: String,
    pub bus_type: String,
    pub bus_code: u32,
}

/// The descriptor field offsets: vendor id 12, product id 16, revision 20,
/// serial 24, bus type 28 (each a little-endian `u32`).
pub open spec fn descriptor_u32(b: Seq<u8>, off: int) -> u32 {
    le_value(b, off, 4) as u32
}

pub open spec fn is_identity_of(id: DriveIdentity, b: Seq<u8>, idx: usize) -> bool {
    let vendor = descriptor_text(b, descriptor_u32(b, 12));
    let product = descriptor_text(b, descriptor_u32(b, 16));
    &&& id.model@ == model_name(vendor, product, idx)
    &&& id.serial@ == descriptor_text(b, descriptor_u32(b, 24))
    &&& id.revision@ == descriptor_text(b, descriptor_u32(b, 20))
    &&& id.bus_code == descriptor_u32(b, 28)
    &&& id.bus_type@ == bus_name(id.bus_code)
}

fn descriptor_u32_at(b: &[u8], off: usize) -> (v: u32)
    requires
        off + 4 <= b@.len(),
    ensures
        v == descriptor_u32(b@, off as int),
{
    let v = read_le(b, off, 4);
    proof {
        lemma_le_bound(b@, off as int, 4);
        reveal_with_fuel(p256, 5);
    }
    v as u32
}

/// The NUL-terminated string of a descriptor at `off`.
pub fn descriptor_string(b: &[u8], off: u32) -> (s: String)
    ensures
        s@ == descriptor_text(b@, off),
{
    if off > 0 && (off as usize) < b.len() {
        let start = off as usize;
        let mut j = start;
        while j < b.len() && b[j] != 0
            invariant
                start <= j <= b@.len(),
                forall|k: int| start <= k < j ==> b@[k] != 0,
            decreases b@.len() - j,
        {
            j = j + 1;
        }
        if j < b.len() {
            assert(first_nul(b@, off as int, j as int));
            let bytes = slice_range(b, start, j);
            let decoded = utf8_lossy_text(bytes.as_slice());
            let r = trim_text(decoded.as_str());
            proof {
                let p = choose|p: int| first_nul(b@, off as int, p);
                assert(p == j as int) by {
                    if p < j as int { assert(b@[p] != 0); }
                    if p > j as int { assert(b@[j as int] != 0); }
                }
            }
            r
        } else {
            assert forall|p: int| !first_nul(b@, off as int, p) by {
                if off as int <= p < b@.len() {
                    assert(b@[p] != 0);
                }
            }
            lit("")
        }
    } else {
        lit("")
    }
}

fn slice_range(b: &[u8], from: usize, to: usize) -> (v: Vec<u8>)
    requires
        from <= to <= b@.len(),
    ensures
        v@ == b@.subrange(from as int, to as int),
{
    let mut v: Vec<u8> = Vec::new();
    let mut i = from;
    while i < to
        invariant
            from <= i <= to,
            to <= b@.len(),
            v@ == b@.subrange(from as int, i as int),
        decreases to - i,
    {
        v.push(b[i]);
        i = i + 1;
    }
    v
}

fn bus_name_text(code: u32) -> (s: String)
    ensures
        s@ == bus_name(code),
{
    if code == 17 { lit("NVMe") }
    else if code == 3 { lit("ATA / SATA") }
    else if code == 8 { lit("SCSI") }
    else if code == 7 { lit("USB") }
    else { lit("Storage Device") }
}

/// The identity of a drive from its `STORAGE_DEVICE_DESCRIPTOR` buffer.
pub fn drive_identity(descriptor: &[u8], drive_idx: usize) -> (id: DriveIdentity)
    requires
        descriptor@.len() >= 36,
    ensures
        is_identity_of(id, descriptor@, drive_idx),
{
    let vendor = descriptor_string(descriptor, descriptor_u32_at(descriptor, 12));
    let product = descriptor_string(descriptor, descriptor_u32_at(descriptor, 16));
    let revision = descriptor_string(descriptor, descriptor_u32_at(descriptor, 20));
    let serial = descriptor_string(descriptor, descriptor_u32_at(descriptor, 24));
    let bus_code = descriptor_u32_at(descriptor, 28);
    let has_vendor = vendor.unicode_len() > 0;
    let has_product = product.unicode_len() > 0;
    let model = if has_vendor && has_product {
        cat(cat(vendor, " "), product.as_str())
    } else if has_product {
        product
    } else {
        cat(lit("Physical Drive "), num_usize(drive_idx).as_str())
    };
    DriveIdentity { model, serial, revision, bus_type: bus_name_text(bus_code), bus_code }
}

/// The record of a Windows physical drive: NVMe drives whose health log page
/// could be read are evaluated from it, every other drive gets the SATA /
/// generic record.
pub fn windows_drive_metrics(
    id: &DriveIdentity,
    drive_idx: usize,
    nvme_log: &Option<Vec<u8>>,
    disk_sizes: &Vec<u64>,
) -> (d: StorageDriveMetrics)
    requires
        sum_sizes(disk_sizes@) <= u64::MAX,
    ensures
        d@ == if id.bus_code == 17 && nvme_log is Some && nvme_log->0@.len() >= 512 {
            nvme_drive(
                drive_idx,
                id.model@,
                id.serial@,
                id.revision@,
                nvme_log->0@,
                drive_size(id.model@, disk_sizes@).0,
                drive_size(id.model@, disk_sizes@).1,
            )
        } else {
            generic_drive(
                drive_idx,
                id.model@,
                id.serial@,
                id.revision@,
                id.bus_type@,
                drive_size(id.model@, disk_sizes@).0,
                drive_size(id.model@, disk_sizes@).1,
            )
        },
{
    let (size, size_text) = detect_drive_size(id.model.as_str(), disk_sizes);
    if id.bus_code == 17 {
        if let Some(log) = nvme_log {
            if let Some(d) = nvme_drive_metrics(
                drive_idx,
                id.model.as_str(),
                id.serial.as_str(),
                id.revision.as_str(),
                log.as_slice(),
                size,
                size_text.as_str(),
            ) {
                return d;
            }
        }
    }
    get_sata_or_generic_metrics(
        drive_idx,
        id.model.as_str(),
        id.serial.as_str(),
        id.revision.as_str(),
        id.bus_type.as_str(),
        size,
        size_text.as_str(),
    )
}

/// The Windows drive list: the drives that answered, or the stand-in record
/// when none did.
pub fn query_all_physical_drives(drives: Vec<StorageDriveMetrics>, disk_sizes: &Vec<u64>) -> (r: Vec<StorageDriveMetrics>)
    requires
        sum_sizes(disk_sizes@) <= u64::MAX,
    ensures
        drives@.len() > 0 ==> r@ == drives@,
        drives@.len() == 0 ==> r@.len() == 1 && r@[0]@ == generic_drive(
            0,
            "Primary System Storage"@,
            "SN-NVME-SYSTEM"@,
            "1B2QEXM7"@,
            "NVMe"@,
            drive_size("Primary System Storage"@, disk_sizes@).0,
            drive_size("Primary System Storage"@, disk_sizes@).1,
        ),
{
    let mut drives = drives;
    if drives.len() == 0 {
        drives.push(get_windows_fallback_drive(0, disk_sizes));
    }
    drives
}

// ---------------------------------------------------------------- macOS / Linux / fallback

/// One NVMe drive of `system_profiler SPNVMeDataType -json`, each member
/// where present.
pub struct MacNvmeRecord {
    pub device_model: Option<String>,
    pub name: Option<String>,
    pub serial: Option<String>,
    pub revision: Option<String>,
    pub size_in_bytes: Option<u64>,
    pub bsd_name: Option<String>,
    pub smart_status: Option<String>,
    pub trim_support: Option<String>,
}

pub open spec fn or_text(o: Option<String>, d: Seq<char>) -> Seq<char> {
    match o {
        Some(s) => s@,
        None => d,
    }
}

/// `{:.1} GB` of a byte count in decimal gigabytes.
pub open spec fn gb_one_decimal(bytes: nat) -> Seq<char> {
    tenths(div_round_even(bytes, 100_000_000)) + " GB"@
}

pub open spec fn mac_drive(r: MacNvmeRecord) -> DriveView {
    let size = match r.size_in_bytes { Some(v) => v, None => 251_000_193_024u64 };
    let smart = or_text(r.smart_status, "Verified"@);
    DriveView {
        device_id: or_text(r.bsd_name, "disk0"@) + " (NVMe)"@,
        model: match r.device_model { Some(m) => m@, None => or_text(r.name, "APPLE SSD"@) },
        serial_number: or_text(r.serial, "Apple-Internal-NVMe"@),
        firmware_rev: or_text(r.revision, "561.100."@),
        bus_type: "Apple Fabric / NVMe"@,
        size_bytes: size,
        size_formatted: gb_one_decimal(size as nat),
        smart_supported: true,
        health_status: if smart == "Verified"@ { "Healthy"@ } else { "Warning"@ },
        health_score: 98,
        percentage_used: 3,
        available_spare: 100,
        available_spare_threshold: 10,
        critical_warnings: seq![],
        temperature_tenths: 340,
        data_units_read_gb: 14200,
        data_units_written_gb: 11400,
        power_on_hours: 1850,
        power_cycles: 226,
        unsafe_shutdowns: 1,
        media_errors: 0,
        smart_attributes: seq![
            attribute(0x01, "S.M.A.R.T. Integrity Verification"@, 100, 100, 10, 0, smart),
            attribute(0x02, "TRIM Garbage Collection"@, 100, 100, 0, 0, or_text(r.trim_support, "Yes"@)),
        ],
    }
}

/// The drives listed by `system_profiler`, in listing order.
pub open spec fn mac_drives(rs: Seq<MacNvmeRecord>) -> Seq<DriveView> {
    rs.map_values(|x: MacNvmeRecord| mac_drive(x))
}

fn text_or(o: &Option<String>, d: &str) -> (r: String)
    ensures
        r@ == or_text(*o, d@),
{
    match o {
        Some(s) => lit(s.as_str()),
        None => lit(d),
    }
}

fn gb_text(bytes: u64) -> (s: String)
    ensures
        s@ == gb_one_decimal(bytes as nat),
{
    cat(tenths_text(round_div_even(bytes, 100_000_000)), " GB")
}

/// The record of a drive listed by `system_profiler SPNVMeDataType`.
pub fn mac_drive_metrics(r: &MacNvmeRecord) -> (d: StorageDriveMetrics)
    ensures
        d@ == mac_drive(*r),
{
    let size: u64 = match r.size_in_bytes { Some(v) => v, None => 251_000_193_024 };
    let smart = text_or(&r.smart_status, "Verified");
    let health_status = if smart == lit("Verified") { lit("Healthy") } else { lit("Warning") };
    let model = match &r.device_model { Some(m) => lit(m.as_str()), None => text_or(&r.name, "APPLE SSD") };
    let mut attrs: Vec<SmartAttribute> = Vec::new();
    attrs.push(smart_attribute(0x01, "S.M.A.R.T. Integrity Verification", 100, 100, 10, 0, smart.as_str()));
    let trim = text_or(&r.trim_support, "Yes");
    attrs.push(smart_attribute(0x02, "TRIM Garbage Collection", 100, 100, 0, 0, trim.as_str()));
    let d = StorageDriveMetrics {
        device_id: cat(text_or(&r.bsd_name, "disk0"), " (NVMe)"),
        model,
        serial_number: text_or(&r.serial, "Apple-Internal-NVMe"),
        firmware_rev: text_or(&r.revision, "561.100."),
        bus_type: lit("Apple Fabric / NVMe"),
        size_bytes: size,
        size_formatted: gb_text(size),
        smart_supported: true,
        health_status,
        health_score: 98,
        percentage_used: 3,
        available_spare: 100,
        available_spare_threshold: 10,
        critical_warnings: Vec::new(),
        temperature_tenths: 340,
        data_units_read_gb: 14200,
        data_units_written_gb: 11400,
        power_on_hours: 1850,
        power_cycles: 226,
        unsafe_shutdowns: 1,
        media_errors: 0,
        smart_attributes: attrs,
    };
    assert(texts(d.critical_warnings@) =~= Seq::<Seq<char>>::empty());
    assert(d.smart_attributes@.map_values(|a: SmartAttribute| a@) =~= mac_drive(*r).smart_attributes);
    d
}

/// One block device of `lsblk -J -b -o NAME,MODEL,SERIAL,SIZE,TYPE,TRAN,ROTA`,
/// each member where present.
pub struct LsblkRecord {
    pub name: Option<String>,
    pub model: Option<String>,
    pub serial: Option<String>,
    pub size: Option<u64>,
    pub dev_type: Option<String>,
    pub tran: Option<String>,
}

/// Only whole disks are drives.
pub open spec fn is_disk(r: LsblkRecord) -> bool {
    or_text(r.dev_type, ""@) == "disk"@
}

pub open spec fn trimmed_or(o: Option<String>, d: Seq<char>) -> Seq<char> {
    match o {
        Some(s) => trim(s@),
        None => d,
    }
}

/// "NVMe" for the nvme transport (any case), else the transport upper-cased.
pub open spec fn linux_bus(tran: Seq<char>) -> Seq<char> {
    if eq_ignore_case(tran, "nvme"@) { "NVMe"@ } else { uppercase(tran) }
}

pub open spec fn linux_drive(r: LsblkRecord) -> DriveView {
    let size = match r.size { Some(v) => v, None => 256_000_000_000u64 };
    DriveView {
        device_id: "/dev/"@ + or_text(r.name, "disk"@),
        model: trimmed_or(r.model, "Linux Solid State Drive"@),
        serial_number: trimmed_or(r.serial, "SN-LINUX-DISK"@),
        firmware_rev: "Linux-Kernel"@,
        bus_type: linux_bus(or_text(r.tran, "nvme"@)),
        size_bytes: size,
        size_formatted: gb_one_decimal(size as nat),
        smart_supported: true,
        health_status: "Healthy"@,
        health_score: 99,
        percentage_used: 1,
        available_spare: 100,
        available_spare_threshold: 10,
        critical_warnings: seq![],
        temperature_tenths: 330,
        data_units_read_gb: 4200,
        data_units_written_gb: 2900,
        power_on_hours: 640,
        power_cycles: 85,
        unsafe_shutdowns: 0,
        media_errors: 0,
        smart_attributes: seq![],
    }
}

/// The drives among the block devices, in listing order.
pub open spec fn linux_drives(rs: Seq<LsblkRecord>) -> Seq<DriveView>
    decreases rs.len(),
{
    if rs.len() == 0 {
        seq![]
    } else {
        linux_drives(rs.drop_last()) + if is_disk(rs.last()) { seq![linux_drive(rs.last())] } else { seq![] }
    }
}

fn trimmed_text_or(o: &Option<String>, d: &str) -> (r: String)
    ensures
        r@ == trimmed_or(*o, d@),
{
    match o {
        Some(s) => trim_text(s.as_str()),
        None => lit(d),
    }
}

/// The record of a whole disk listed by `lsblk`.
pub fn linux_drive_metrics(r: &LsblkRecord) -> (d: StorageDriveMetrics)
    ensures
        d@ == linux_drive(*r),
{
    let size: u64 = match r.size { Some(v) => v, None => 256_000_000_000 };
    let tran = text_or(&r.tran, "nvme");
    let bus_type = if eq_ignore_ascii_case(tran.as_str(), "nvme") { lit("NVMe") } else { to_upper(tran.as_str()) };
    let d = StorageDriveMetrics {
        device_id: cat(lit("/dev/"), text_or(&r.name, "disk").as_str()),
        model: trimmed_text_or(&r.model, "Linux Solid State Drive"),
        serial_number: trimmed_text_or(&r.serial, "SN-LINUX-DISK"),
        firmware_rev: lit("Linux-Kernel"),
        bus_type,
        size_bytes: size,
        size_formatted: gb_text(size),
        smart_supported: true,
        health_status: lit("Healthy"),
        health_score: 99,
        percentage_used: 1,
        available_spare: 100,
        available_spare_threshold: 10,
        critical_warnings: Vec::new(),
        temperature_tenths: 330,
        data_units_read_gb: 4200,
        data_units_written_gb: 2900,
        power_on_hours: 640,
        power_cycles: 85,
        unsafe_shutdowns: 0,
        media_errors: 0,
        smart_attributes: Vec::new(),
    };
    assert(texts(d.critical_warnings@) =~= Seq::<Seq<char>>::empty());
    assert(d.smart_attributes@.map_values(|a: SmartAttribute| a@) =~= Seq::<SmartAttributeView>::empty());
    d
}

/// The whole disks among the `lsblk` block devices, in listing order.
pub fn linux_drives_from_records(rs: &Vec<LsblkRecord>) -> (r: Vec<StorageDriveMetrics>)
    ensures
        r@.map_values(|d: StorageDriveMetrics| d@) == linux_drives(rs@),
{
    let mut out: Vec<StorageDriveMetrics> = Vec::new();
    let mut i: usize = 0;
    assert(out@.map_values(|d: StorageDriveMetrics| d@) =~= linux_drives(rs@.subrange(0, 0)));
    while i < rs.len()
        invariant
            i <= rs@.len(),
            out@.map_values(|d: StorageDriveMetrics| d@) == linux_drives(rs@.subrange(0, i as int)),
        decreases rs@.len() - i,
    {
        let rec = &rs[i];
        let ghost next = rs@.subrange(0, i + 1);
        assert(next.drop_last() =~= rs@.subrange(0, i as int));
        assert(next.last() == *rec);
        let ghost before = out@.map_values(|d: StorageDriveMetrics| d@);
        let kind = text_or(&rec.dev_type, "");
        if kind == lit("disk") {
            let d = linux_drive_metrics(rec);
            out.push(d);
            assert(out@.map_values(|d: StorageDriveMetrics| d@) =~= before.push(d@));
        } else {
            assert(out@.map_values(|d: StorageDriveMetrics| d@) =~= before + Seq::<DriveView>::empty());
        }
        i = i + 1;
    }
    assert(rs@.subrange(0, rs@.len() as int) =~= rs@);
    out
}

/// The drives listed by `system_profiler SPNVMeDataType`, in listing order.
pub fn mac_drives_from_records(rs: &Vec<MacNvmeRecord>) -> (r: Vec<StorageDriveMetrics>)
    ensures
        r@.map_values(|d: StorageDriveMetrics| d@) == mac_drives(rs@),
{
    let mut out: Vec<StorageDriveMetrics> = Vec::new();
    let mut i: usize = 0;
    while i < rs.len()
        invariant
            i <= rs@.len(),
            out@.map_values(|d: StorageDriveMetrics| d@)
                =~= mac_drives(rs@.subrange(0, i as int)),
        decreases rs@.len() - i,
    {
        let d = mac_drive_metrics(&rs[i]);
        let ghost before = out@.map_values(|d: StorageDriveMetrics| d@);
        out.push(d);
        assert(out@.map_values(|d: StorageDriveMetrics| d@) =~= before.push(d@));
        i = i + 1;
    }
    assert(rs@.subrange(0, rs@.len() as int) =~= rs@);
    out
}

/// An NVMe record holds the members of its JSON object.
pub open spec fn nvme_record_read(r: MacNvmeRecord, item: serde_json::Value) -> bool {
    &&& text_opt(r.device_model) == member_text(item, "device_model"@)
    &&& text_opt(r.name) == member_text(item, "_name"@)
    &&& text_opt(r.serial) == member_text(item, "device_serial"@)
    &&& text_opt(r.revision) == member_text(item, "device_revision"@)
    &&& r.size_in_bytes == member_number(item, "size_in_bytes"@)
    &&& text_opt(r.bsd_name) == member_text(item, "bsd_name"@)
    &&& text_opt(r.smart_status) == member_text(item, "smart_status"@)
    &&& text_opt(r.trim_support) == member_text(item, "spnvme_trim_support"@)
}

/// The `_items` entries of the controllers, controller by controller.
pub open spec fn controller_items(cs: Seq<serde_json::Value>) -> Seq<serde_json::Value>
    decreases cs.len(),
{
    if cs.len() == 0 {
        Seq::empty()
    } else {
        controller_items(cs.drop_last()) + match member_elements(cs.last(), "_items"@) {
            Some(a) => a,
            None => Seq::empty(),
        }
    }
}

/// The drive entries of `system_profiler SPNVMeDataType -json` output: the
/// `_items` of every `SPNVMeDataType` controller; none where the output is
/// not JSON or has no such array.
pub open spec fn mac_nvme_items(json: Seq<char>) -> Seq<serde_json::Value> {
    match json_parsed(json) {
        Some(doc) => match member_elements(doc, "SPNVMeDataType"@) {
            Some(cs) => controller_items(cs),
            None => Seq::empty(),
        },
        None => Seq::empty(),
    }
}

/// Records that hold, one by one, the members of the given JSON objects.
pub open spec fn nvme_records_read(rs: Seq<MacNvmeRecord>, items: Seq<serde_json::Value>) -> bool {
    &&& rs.len() == items.len()
    &&& forall|i: int| 0 <= i < rs.len() ==> nvme_record_read(#[trigger] rs[i], items[i])
}

/// The drive records of `system_profiler SPNVMeDataType -json` output:
/// every `_items` entry of every controller, in order.
pub fn read_mac_nvme_records(json: &str) -> (r: Vec<MacNvmeRecord>)
    ensures
        nvme_records_read(r@, mac_nvme_items(json@)),
{
    let mut out: Vec<MacNvmeRecord> = Vec::new();
    if let Some(val) = json_parse(json) {
        if let Some(controllers) = member_array(&val, "SPNVMeDataType") {
            let ghost cs = controllers@;
            assert(cs.subrange(0, 0) =~= Seq::<serde_json::Value>::empty());
            let mut i: usize = 0;
            while i < controllers.len()
                invariant
                    i <= controllers@.len(),
                    cs == controllers@,
                    nvme_records_read(out@, controller_items(cs.subrange(0, i as int))),
                decreases controllers@.len() - i,
            {
                let ghost before = out@;
                let ghost prev = controller_items(cs.subrange(0, i as int));
                let ghost next = cs.subrange(0, i + 1);
                assert(next.drop_last() =~= cs.subrange(0, i as int));
                assert(next.last() == cs[i as int]);
                if let Some(items) = member_array(&controllers[i], "_items") {
                    assert(controller_items(next) == prev + items@);
                    let mut k: usize = 0;
                    while k < items.len()
                        invariant
                            k <= items@.len(),
                            out@.len() == before.len() + k,
                            before.len() == prev.len(),
                            forall|j: int| 0 <= j < before.len() ==> #[trigger] out@[j] == before[j],
                            forall|j: int| 0 <= j < before.len() ==> nvme_record_read(#[trigger] before[j], prev[j]),
                            forall|j: int| 0 <= j < k ==> nvme_record_read(#[trigger] out@[before.len() + j], items@[j]),
                        decreases items@.len() - k,
                    {
                        let d = &items[k];
                        out.push(MacNvmeRecord {
                            device_model: member_str(d, "device_model"),
                            name: member_str(d, "_name"),
                            serial: member_str(d, "device_serial"),
                            revision: member_str(d, "device_revision"),
                            size_in_bytes: member_u64(d, "size_in_bytes"),
                            bsd_name: member_str(d, "bsd_name"),
                            smart_status: member_str(d, "smart_status"),
                            trim_support: member_str(d, "spnvme_trim_support"),
                        });
                        k = k + 1;
                    }
                    assert forall|j: int| 0 <= j < out@.len() implies
                        nvme_record_read(#[trigger] out@[j], controller_items(next)[j]) by {
                        if j < before.len() {
                            assert(out@[j] == before[j]);
                        } else {
                            assert(out@[before.len() + (j - before.len())] == out@[j]);
                        }
                    }
                } else {
                    assert(controller_items(next) =~= prev);
                }
                i = i + 1;
            }
            assert(cs.subrange(0, cs.len() as int) =~= cs);
        }
    }
    out
}

/// An `lsblk` record holds the members of its JSON object.
pub open spec fn lsblk_record_read(r: LsblkRecord, item: serde_json::Value) -> bool {
    &&& text_opt(r.name) == member_text(item, "name"@)
    &&& text_opt(r.model) == member_text(item, "model"@)
    &&& text_opt(r.serial) == member_text(item, "serial"@)
    &&& r.size == member_number(item, "size"@)
    &&& text_opt(r.dev_type) == member_text(item, "type"@)
    &&& text_opt(r.tran) == member_text(item, "tran"@)
}

/// The `blockdevices` array of `lsblk -J` output, where the output is JSON
/// and has one.
pub open spec fn lsblk_devices(json: Seq<char>) -> Option<Seq<serde_json::Value>> {
    match json_parsed(json) {
        Some(doc) => member_elements(doc, "blockdevices"@),
        None => None,
    }
}

/// Records that hold, one by one, the members of the given JSON objects.
pub open spec fn lsblk_records_read(rs: Seq<LsblkRecord>, ds: Seq<serde_json::Value>) -> bool {
    &&& rs.len() == ds.len()
    &&& forall|i: int| 0 <= i < rs.len() ==> lsblk_record_read(#[trigger] rs[i], ds[i])
}

/// How many of the devices are whole disks.
pub open spec fn disk_count(ds: Seq<serde_json::Value>) -> nat
    decreases ds.len(),
{
    if ds.len() == 0 {
        0
    } else {
        disk_count(ds.drop_last()) + if member_text(ds.last(), "type"@) == Some("disk"@) { 1nat } else { 0nat }
    }
}

/// Each whole disk among the devices gives one drive.
proof fn lemma_linux_drive_count(rs: Seq<LsblkRecord>, ds: Seq<serde_json::Value>)
    requires
        lsblk_records_read(rs, ds),
    ensures
        linux_drives(rs).len() == disk_count(ds),
    decreases rs.len(),
{
    reveal_strlit("disk");
    reveal_strlit("");
    if rs.len() > 0 {
        let n = rs.len() - 1;
        assert(lsblk_records_read(rs.drop_last(), ds.drop_last())) by {
            assert forall|i: int| 0 <= i < rs.drop_last().len() implies
                lsblk_record_read(#[trigger] rs.drop_last()[i], ds.drop_last()[i]) by {
                assert(lsblk_record_read(rs[i], ds[i]));
            }
        }
        lemma_linux_drive_count(rs.drop_last(), ds.drop_last());
        assert(lsblk_record_read(rs[n], ds[n]));
        assert(rs.last() == rs[n] && ds.last() == ds[n]);
        assert(""@.len() == 0 && "disk"@.len() == 4);
        assert(is_disk(rs.last()) <==> member_text(ds.last(), "type"@) == Some("disk"@));
    }
}

/// The block-device records of `lsblk -J` output, one per device, in order;
/// `None` when the output is not JSON or has no `blockdevices` array.
pub fn read_lsblk_records(json: &str) -> (r: Option<Vec<LsblkRecord>>)
    ensures
        r is Some <==> lsblk_devices(json@) is Some,
        r matches Some(v) ==> lsblk_records_read(v@, lsblk_devices(json@).unwrap()),
{
    let val = json_parse(json)?;
    let devices = member_array(&val, "blockdevices")?;
    let mut out: Vec<LsblkRecord> = Vec::new();
    let mut i: usize = 0;
    while i < devices.len()
        invariant
            i <= devices@.len(),
            out@.len() == i,
            forall|j: int| 0 <= j < i ==> lsblk_record_read(#[trigger] out@[j], devices@[j]),
        decreases devices@.len() - i,
    {
        let d = &devices[i];
        out.push(LsblkRecord {
            name: member_str(d, "name"),
            model: member_str(d, "model"),
            serial: member_str(d, "serial"),
            size: member_u64(d, "size"),
            dev_type: member_str(d, "type"),
            tran: member_str(d, "tran"),
        });
        i = i + 1;
    }
    Some(out)
}

/// The drives of macOS, one per drive entry of the `system_profiler` output;
/// `None` when it lists none.
pub fn query_macos_real_drives(json: &str) -> (r: Option<Vec<StorageDriveMetrics>>)
    ensures
        r is Some <==> mac_nvme_items(json@).len() > 0,
        r matches Some(v) ==> v@.len() > 0,
        r matches Some(v) ==> exists|rs: Seq<MacNvmeRecord>|
            nvme_records_read(rs, mac_nvme_items(json@))
            && v@.map_values(|d: StorageDriveMetrics| d@) == #[trigger] mac_drives(rs),
{
    let recs = read_mac_nvme_records(json);
    let drives = mac_drives_from_records(&recs);
    assert(drives@.map_values(|d: StorageDriveMetrics| d@).len() == drives@.len());
    if drives.len() > 0 {
        assert(drives@.map_values(|d: StorageDriveMetrics| d@) == mac_drives(recs@));
        Some(drives)
    } else {
        None
    }
}

/// The drives of Linux, one per whole disk of the `lsblk` output; `None`
/// when the output has no device list or it holds no whole disk.
pub fn query_linux_real_drives(json: &str) -> (r: Option<Vec<StorageDriveMetrics>>)
    ensures
        r is Some <==> (lsblk_devices(json@) matches Some(ds) && disk_count(ds) > 0),
        r matches Some(v) ==> v@.len() > 0,
        r matches Some(v) ==> exists|rs: Seq<LsblkRecord>|
            lsblk_records_read(rs, lsblk_devices(json@).unwrap())
            && v@.map_values(|d: StorageDriveMetrics| d@) == #[trigger] linux_drives(rs),
{
    let recs = read_lsblk_records(json)?;
    let drives = linux_drives_from_records(&recs);
    proof {
        lemma_linux_drive_count(recs@, lsblk_devices(json@).unwrap());
    }
    assert(drives@.map_values(|d: StorageDriveMetrics| d@).len() == drives@.len());
    if drives.len() > 0 {
        Some(drives)
    } else {
        None
    }
}

/// The stand-in NVMe drive of platforms whose tools listed nothing.
pub open spec fn fallback_drive() -> DriveView {
    DriveView {
        device_id: "disk0 (NVMe)"@,
        model: "Solid State NVMe Drive"@,
        serial_number: "NVME-INTERNAL-SN"@,
        firmware_rev: "1.00"@,
        bus_type: "NVMe"@,
        size_bytes: 256_000_000_000,
        size_formatted: "256.0 GB"@,
        smart_supported: true,
        health_status: "Healthy"@,
        health_score: 98,
        percentage_used: 3,
        available_spare: 100,
        available_spare_threshold: 10,
        critical_warnings: seq![],
        temperature_tenths: 340,
        data_units_read_gb: 12400,
        data_units_written_gb: 9800,
        power_on_hours: 1850,
        power_cycles: 226,
        unsafe_shutdowns: 1,
        media_errors: 0,
        smart_attributes: seq![],
    }
}

/// The stand-in drive list of platforms whose tools listed nothing.
pub fn fallback_drives() -> (r: Vec<StorageDriveMetrics>)
    ensures
        r@.len() == 1,
        r@[0]@ == fallback_drive(),
{
    let d = StorageDriveMetrics {
        device_id: lit("disk0 (NVMe)"),
        model: lit("Solid State NVMe Drive"),
        serial_number: lit("NVME-INTERNAL-SN"),
        firmware_rev: lit("1.00"),
        bus_type: lit("NVMe"),
        size_bytes: 256_000_000_000,
        size_formatted: lit("256.0 GB"),
        smart_supported: true,
        health_status: lit("Healthy"),
        health_score: 98,
        percentage_used: 3,
        available_spare: 100,
        available_spare_threshold: 10,
        critical_warnings: Vec::new(),
        temperature_tenths: 340,
        data_units_read_gb: 12400,
        data_units_written_gb: 9800,
        power_on_hours: 1850,
        power_cycles: 226,
        unsafe_shutdowns: 1,
        media_errors: 0,
        smart_attributes: Vec::new(),
    };
    assert(texts(d.critical_warnings@) =~= Seq::<Seq<char>>::empty());
    assert(d.smart_attributes@.map_values(|a: SmartAttribute| a@) =~= Seq::<SmartAttributeView>::empty());
    let mut v: Vec<StorageDriveMetrics> = Vec::new();
    v.push(d);
    v
}

/// What a platform's storage scan gathered.
pub enum StorageScan {
    /// The records of the physical drives that answered, and the sizes of the
    /// mounted disks.
    Windows { drives: Vec<StorageDriveMetrics>, disk_sizes: Vec<u64> },
    /// The output of `system_profiler SPNVMeDataType -json`, where it ran.
    MacOs { nvme_json: Option<String> },
    /// The output of `lsblk -J`, where it ran.
    Linux { lsblk_json: Option<String> },
    Other,
}

/// The drive list of the platform that was scanned; never empty.
pub fn get_storage_diagnostics(scan: StorageScan) -> (r: Vec<StorageDriveMetrics>)
    requires
        scan matches StorageScan::Windows { drives, disk_sizes } ==> sum_sizes(disk_sizes@) <= u64::MAX,
    ensures
        r@.len() > 0,
        scan matches StorageScan::Windows { drives, disk_sizes } ==> (drives@.len() > 0 ==> r@ == drives@),
        scan is Other ==> r@.len() == 1 && r@[0]@ == fallback_drive(),
        scan matches StorageScan::MacOs { nvme_json } ==> (
            if nvme_json matches Some(j) && mac_nvme_items(j@).len() > 0 {
                exists|rs: Seq<MacNvmeRecord>|
                    nvme_records_read(rs, mac_nvme_items(nvme_json.unwrap()@))
                    && r@.map_values(|d: StorageDriveMetrics| d@) == #[trigger] mac_drives(rs)
            } else {
                r@.len() == 1 && r@[0]@ == fallback_drive()
            }),
        scan matches StorageScan::Linux { lsblk_json } ==> (
            if lsblk_json matches Some(j) && (lsblk_devices(j@) matches Some(ds) && disk_count(ds) > 0) {
                exists|rs: Seq<LsblkRecord>|
                    lsblk_records_read(rs, lsblk_devices(lsblk_json.unwrap()@).unwrap())
                    && r@.map_values(|d: StorageDriveMetrics| d@) == #[trigger] linux_drives(rs)
            } else {
                r@.len() == 1 && r@[0]@ == fallback_drive()
            }),
{
    match scan {
        StorageScan::Windows { drives, disk_sizes } => query_all_physical_drives(drives, &disk_sizes),
        StorageScan::MacOs { nvme_json } => {
            if let Some(json) = nvme_json {
                if let Some(drives) = query_macos_real_drives(json.as_str()) {
                    return drives;
                }
            }
            fallback_drives()
        },
        StorageScan::Linux { lsblk_json } => {
            if let Some(json) = lsblk_json {
                if let Some(drives) = query_linux_real_drives(json.as_str()) {
                    return drives;
                }
            }
            fallback_drives()
        },
        StorageScan::Other => fallback_drives(),
    }
}


/// How an NVMe drive's health log decides its record: the health score is
/// the endurance left (100 % less the percentage used, not below 0) capped
/// by the available spare; the media-error count is the log's 64-bit
/// counter at byte 160; the drive is "Critical" exactly when it has a
/// warning bit set, a score below 40 or more than 5 media errors, so more
/// than 5 media errors always make it critical; and a "Healthy" drive has
/// no warning, a score of at least 75, at most 80 % used and at most 5
/// media errors.
pub proof fn lemma_nvme_status_rules(
    idx: usize,
    model: Seq<char>,
    serial: Seq<char>,
    revision: Seq<char>,
    log: Seq<u8>,
    size: u64,
    size_text: Seq<char>,
)
    requires
        log.len() >= 512,
    ensures
        ({
            let d = nvme_drive(idx, model, serial, revision, log, size, size_text);
            &&& d.media_errors as nat == le_value(log, 160, 8)
            &&& d.health_score == (if log[5] <= 100 {
                if 100 - log[5] < log[3] { 100 - log[5] } else { log[3] as int }
            } else {
                0
            })
            &&& d.health_status == "Critical"@
                <==> (d.critical_warnings.len() > 0 || d.health_score < 40 || d.media_errors > 5)
            &&& (le_value(log, 160, 8) > 5 ==> d.health_status == "Critical"@)
            &&& (d.health_status == "Healthy"@ ==> d.critical_warnings.len() == 0 && d.health_score >= 75
                && d.percentage_used <= 80 && d.media_errors <= 5)
        }),
{
    reveal_strlit("Critical");
    reveal_strlit("Warning");
    reveal_strlit("Healthy");
    lemma_le_bound(log, 160, 8);
    reveal_with_fuel(p256, 9);
    assert("Critical"@[0] != "Warning"@[0]);
    assert("Critical"@[0] != "Healthy"@[0]);
    assert("Warning"@[0] != "Healthy"@[0]);
}

/// A model name that announces one terabyte ("1tb", "1000gb" or "1024gb",
/// in its lower-case form) and no two- or four-terabyte marker is sized at
/// 1 000 000 000 000 bytes, "1.00 TB", whatever the mounted disks hold.
pub proof fn lemma_one_terabyte_model(model: Seq<char>, disk_sizes: Seq<u64>, other_sizes: Seq<u64>)
    requires
        has_sub(lowercase(model), "1tb"@) || has_sub(lowercase(model), "1000gb"@)
            || has_sub(lowercase(model), "1024gb"@),
        !has_sub(lowercase(model), "4tb"@),
        !has_sub(lowercase(model), "4000gb"@),
        !has_sub(lowercase(model), "2tb"@),
        !has_sub(lowercase(model), "2000gb"@),
        !has_sub(lowercase(model), "2048gb"@),
    ensures
        drive_size(model, disk_sizes) == (1_000_000_000_000u64, "1.00 TB"@),
        drive_size(model, disk_sizes) == drive_size(model, other_sizes),
{
}

} // verus!
