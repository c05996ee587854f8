//! Crash-dump and stability assessment: which reports count as crashes, how
//! system-log events and problem devices are tallied, and the hardware / OS
//! integrity verdict drawn from them.

use vstd::prelude::*;
use crate::json::{
    json_as_array, json_items, json_parse, json_parsed, member_number, member_str, member_text,
    member_u64, text_opt,
};
use crate::model::{
    CrashDetail, CrashDetailView, CrashDumpInfo, HardwareIntegrityStatus, OsIntegrityStatus, ProblemDevice,
    ProblemDeviceView, StabilityEventView, SystemStabilityEvent, texts,
};
use crate::storage::{le_value, lemma_le_bound, p256, read_le};
use crate::text::{
    cat, contains, decimal, ends_with, has_sub, has_suffix, lit, num_usize, push_char, trim, trim_text,
};

verus! {

// ---------------------------------------------------------------- inputs

/// A file of a crash-report directory, as the directory listing gives it.
pub struct DumpFileEntry {
    pub file_name: String,
    pub path: String,
    /// Modification time as `%Y-%m-%d %H:%M:%S` local time, where known.
    pub modified: Option<String>,
    /// The bytes of the file (a minidump: its header, then its triage data
    /// with the driver list), as far as they could be read.
    pub contents: Vec<u8>,
}

/// The platform whose crash reports are scanned.
#[derive(Clone, Copy, PartialEq, Eq, Structural)]
pub enum ReportKind {
    WindowsMinidump,
    MacPanic,
    LinuxCrash,
}

/// One entry of the system-log query, each member where present.
pub struct RawEventRecord {
    pub time: Option<String>,
    pub provider: Option<String>,
    pub id: Option<u64>,
    pub category: Option<String>,
    pub level: Option<String>,
    pub title: Option<String>,
    pub description: Option<String>,
}

/// One entry of the problem-device query, each member where present.
pub struct RawDeviceRecord {
    pub name: Option<String>,
    pub device_id: Option<String>,
    pub error_code: Option<u64>,
    pub status: Option<String>,
}

/// What a platform's crash scan gathered.
pub enum CrashScan {
    /// `C:\Windows\Minidump` listing and the JSON output of the system-log
    /// and problem-device queries (`None` where a query did not run).
    Windows { dumps: Vec<DumpFileEntry>, events_json: Option<String>, devices_json: Option<String> },
    /// `/Library/Logs/DiagnosticReports` listing.
    MacOs { reports: Vec<DumpFileEntry> },
    /// `/var/crash` listing.
    Linux { reports: Vec<DumpFileEntry> },
    /// Any other platform.
    Other,
}

// ---------------------------------------------------------------- crash reports

/// Which file names are crash reports: `*.dmp` minidumps on Windows,
/// `*.panic` or `*panic*.ips` on macOS, `*.crash` / `*.dump` on Linux.
pub open spec fn is_crash_report(name: Seq<char>, kind: ReportKind) -> bool {
    match kind {
        ReportKind::WindowsMinidump => has_suffix(name, ".dmp"@) && name.len() > 4,
        ReportKind::MacPanic => has_suffix(name, ".panic"@) || (has_suffix(name, ".ips"@) && has_sub(name, "panic"@)),
        ReportKind::LinuxCrash => has_suffix(name, ".crash"@) || has_suffix(name, ".dump"@),
    }
}

pub open spec fn time_text(m: Option<String>) -> Seq<char> {
    match m {
        Some(t) => t@,
        None => "Unknown"@,
    }
}

pub open spec fn crash_detail_of(e: DumpFileEntry, kind: ReportKind) -> CrashDetailView {
    match kind {
        ReportKind::WindowsMinidump => CrashDetailView {
            dump_file_name: e.file_name@,
            dump_path: e.path@,
            crash_time: time_text(e.modified),
            bugcheck_code: match dump_bugcheck(e.contents@) {
                Some(c) => "0x"@ + hex_digits(c as nat, 8),
                None => "Unreadable"@,
            },
            bugcheck_symbol: match dump_bugcheck(e.contents@) {
                Some(c) => bugcheck_name(c),
                None => "UNREADABLE_DUMP_HEADER"@,
            },
            faulting_driver: match faulting_driver_name(e.contents@) {
                Some(n) => n,
                None => "Unknown (not identified from the dump)"@,
            },
            description: match dump_bugcheck(e.contents@) {
                Some(c) => "Windows stop error read from the minidump header."@,
                None => "The minidump header could not be read."@,
            },
        },
        ReportKind::MacPanic => CrashDetailView {
            dump_file_name: e.file_name@,
            dump_path: e.path@,
            crash_time: time_text(e.modified),
            bugcheck_code: "KERNEL_PANIC"@,
            bugcheck_symbol: "MACH_KERNEL_EXCEPTION"@,
            faulting_driver: "xnu-kernel"@,
            description: "macOS Kernel Panic diagnostic report."@,
        },
        ReportKind::LinuxCrash => CrashDetailView {
            dump_file_name: e.file_name@,
            dump_path: e.path@,
            crash_time: time_text(e.modified),
            bugcheck_code: "KERNEL_OOPS"@,
            bugcheck_symbol: "LINUX_CORE_DUMP"@,
            faulting_driver: "kernel"@,
            description: "Diagnostic crash report recorded in /var/crash"@,
        },
    }
}

// ---------------------------------------------------------------- minidump header

/// A kernel dump header begins with "PAGE" and then "DU64" (64-bit layout)
/// or "DUMP" (32-bit layout).
pub open spec fn has_dump_signature(h: Seq<u8>, tail: Seq<u8>) -> bool {
    &&& h.len() >= 8
    &&& h[0] == 0x50u8 && h[1] == 0x41u8 && h[2] == 0x47u8 && h[3] == 0x45u8
    &&& h[4] == tail[0] && h[5] == tail[1] && h[6] == tail[2] && h[7] == tail[3]
}

/// The stop code of a kernel dump header: the little-endian 32-bit word at
/// offset 0x38 of a 64-bit header, at 0x20 of a 32-bit one; `None` where
/// the bytes hold no such header.
pub open spec fn dump_bugcheck(h: Seq<u8>) -> Option<u32> {
    if h.len() >= 0x3C && has_dump_signature(h, seq![0x44u8, 0x55u8, 0x36u8, 0x34u8]) {
        Some(le_value(h, 0x38, 4) as u32)
    } else if h.len() >= 0x24 && has_dump_signature(h, seq![0x44u8, 0x55u8, 0x4Du8, 0x50u8]) {
        Some(le_value(h, 0x20, 4) as u32)
    } else {
        None
    }
}

/// A 64-bit small memory dump (`DumpType` 4 at offset 0xF98 of the
/// header): after the 0x2000-byte header comes its triage data, whose
/// offsets count from the triage data's start.
pub open spec fn is_small_dump64(d: Seq<u8>) -> bool {
    &&& d.len() >= 0x2040
    &&& has_dump_signature(d, seq![0x44u8, 0x55u8, 0x36u8, 0x34u8])
    &&& le_value(d, 0xF98, 4) == 4
}

/// Bug-check parameter `k` (1 to 4) of a 64-bit header.
pub open spec fn bugcheck_parameter(d: Seq<u8>, k: nat) -> nat {
    le_value(d, 0x40 + 8 * (k - 1), 8)
}

/// The faulting address that the stop code's parameters give, for the
/// codes whose documentation names one: the address that referenced
/// memory (0x0A, 0xD1: parameter 4; 0x50: parameter 3) or where the
/// exception occurred (0x1E, 0x3B, 0x7E, 0x8E: parameter 2).
pub open spec fn faulting_address(d: Seq<u8>) -> Option<nat> {
    let code = le_value(d, 0x38, 4);
    if code == 0x0A || code == 0xD1 {
        Some(bugcheck_parameter(d, 4))
    } else if code == 0x50 {
        Some(bugcheck_parameter(d, 3))
    } else if code == 0x1E || code == 0x3B || code == 0x7E || code == 0x8E {
        Some(bugcheck_parameter(d, 2))
    } else {
        None
    }
}

/// The file offset of driver entry `k`: the triage data's driver list
/// (its offset at triage byte 0x30) holds 0x90-byte entries, each the
/// offset of the driver's name (32 bits, 4 bytes of padding) and then its
/// loader entry, whose image base is at entry byte 0x38 (64 bits) and image
/// size at 0x48 (32 bits).
pub open spec fn driver_entry(d: Seq<u8>, k: nat) -> int {
    (0x2000 + le_value(d, 0x2030, 4) + 0x90 * k) as int
}

/// The driver of the entry at `e` holds the address in its image.
pub open spec fn entry_holds(d: Seq<u8>, e: int, a: nat) -> bool {
    le_value(d, e + 0x38, 8) <= a && a < le_value(d, e + 0x38, 8) + le_value(d, e + 0x48, 4)
}

/// The first of the drivers `k..count` whose image holds the address, as
/// long as the entries lie within the file.
pub open spec fn find_driver(d: Seq<u8>, a: nat, k: nat, count: nat) -> Option<int>
    decreases count - k,
{
    if k >= count {
        None
    } else {
        let e = driver_entry(d, k);
        if e + 0x90 > d.len() {
            None
        } else if entry_holds(d, e, a) {
            Some(e)
        } else {
            find_driver(d, a, k + 1, count)
        }
    }
}

/// A UTF-16 code unit of a driver name: ASCII as itself, anything else `?`.
pub open spec fn unit_char(u: nat) -> char {
    if u < 128 { u as char } else { '?' }
}

/// The name of the driver of the entry at `e`: a string of the triage data
/// (a 32-bit length in characters, then that many UTF-16 code units) of 1
/// to 256 characters lying within the file.
pub open spec fn driver_name_at(d: Seq<u8>, e: int) -> Option<Seq<char>> {
    let s: int = (0x2000 + le_value(d, e, 4)) as int;
    if s + 4 <= d.len() {
        let n = le_value(d, s, 4);
        if 0 < n && n <= 256 && s + 4 + 2 * n <= d.len() {
            Some(Seq::new(n, |i: int| unit_char(le_value(d, s + 4 + 2 * i, 2))))
        } else {
            None
        }
    } else {
        None
    }
}

/// The faulting driver of a small memory dump: the first driver of its
/// driver list whose image holds the faulting address of the stop code.
pub open spec fn faulting_driver_name(d: Seq<u8>) -> Option<Seq<char>> {
    if is_small_dump64(d) {
        match faulting_address(d) {
            Some(a) => match find_driver(d, a, 0, le_value(d, 0x2034, 4)) {
                Some(e) => driver_name_at(d, e),
                None => None,
            },
            None => None,
        }
    } else {
        None
    }
}

fn le_at(d: &Vec<u8>, off: u64, n: usize) -> (v: u64)
    requires
        n <= 8,
        off + n <= d@.len(),
    ensures
        v as nat == le_value(d@, off as int, n as nat),
        n == 2 ==> v < 0x10000,
        n == 4 ==> v < 0x1_0000_0000,
{
    let l = d.len();
    assert(off <= l);
    let o = off as usize;
    assert(o as int == off as int);
    let v = read_le(d.as_slice(), o, n);
    proof {
        lemma_le_bound(d@, off as int, n as nat);
        reveal_with_fuel(p256, 5);
    }
    v
}

/// Reads the name of the driver of the entry at `e` (see `driver_name_at`).
fn read_driver_name(d: &Vec<u8>, e: u64) -> (r: Option<String>)
    requires
        e + 0x90 <= d@.len(),
    ensures
        match r {
            Some(t) => driver_name_at(d@, e as int) == Some(t@),
            None => driver_name_at(d@, e as int) is None,
        },
{
    let len = d.len() as u64;
    let s = 0x2000 + le_at(d, e, 4);
    if s + 4 > len {
        return None;
    }
    let n = le_at(d, s, 4);
    if n == 0 || n > 256 || s + 4 + 2 * n > len {
        return None;
    }
    let ghost want = Seq::new(n as nat, |i: int| unit_char(le_value(d@, s + 4 + 2 * i, 2)));
    let mut out = lit("");
    proof {
        reveal_strlit("");
    }
    let mut i: u64 = 0;
    while i < n
        invariant
            i <= n,
            n <= 256,
            len == d@.len(),
            s + 4 + 2 * n <= len,
            want == Seq::new(n as nat, |i: int| unit_char(le_value(d@, s + 4 + 2 * i, 2))),
            out@.len() == i,
            forall|j: int| 0 <= j < i ==> #[trigger] out@[j] == want[j],
        decreases n - i,
    {
        let u = le_at(d, s + 4 + 2 * i, 2);
        let c: char = if u < 128 { (u as u8) as char } else { '?' };
        assert(c == unit_char(u as nat));
        push_char(&mut out, c);
        i = i + 1;
    }
    assert(out@ =~= want);
    Some(out)
}

/// Reads the faulting driver of a small memory dump (see
/// `faulting_driver_name`).
pub fn read_faulting_driver(d: &Vec<u8>) -> (r: Option<String>)
    ensures
        match r {
            Some(t) => faulting_driver_name(d@) == Some(t@),
            None => faulting_driver_name(d@) is None,
        },
{
    let len = d.len() as u64;
    if len < 0x2040 || !signature_is(d, 0x44, 0x55, 0x36, 0x34) || le_at(d, 0xF98, 4) != 4 {
        return None;
    }
    let code = le_at(d, 0x38, 4);
    let a: u64 = if code == 0x0A || code == 0xD1 {
        le_at(d, 0x58, 8)
    } else if code == 0x50 {
        le_at(d, 0x50, 8)
    } else if code == 0x1E || code == 0x3B || code == 0x7E || code == 0x8E {
        le_at(d, 0x48, 8)
    } else {
        return None;
    };
    assert(faulting_address(d@) == Some(a as nat));
    let list = le_at(d, 0x2030, 4);
    let count = le_at(d, 0x2034, 4);
    let mut k: u64 = 0;
    while k < count
        invariant
            k <= count,
            count == le_value(d@, 0x2034, 4),
            count < 0x1_0000_0000,
            list == le_value(d@, 0x2030, 4),
            list < 0x1_0000_0000,
            len == d@.len(),
            is_small_dump64(d@),
            faulting_address(d@) == Some(a as nat),
            find_driver(d@, a as nat, 0, count as nat) == find_driver(d@, a as nat, k as nat, count as nat),
        decreases count - k,
    {
        let e: u64 = 0x2000 + list + 0x90 * k;
        assert(e == driver_entry(d@, k as nat));
        if e + 0x90 > len {
            return None;
        }
        let base = le_at(d, e + 0x38, 8);
        let size = le_at(d, e + 0x48, 4);
        if base <= a && (a as u128) < (base as u128) + (size as u128) {
            return read_driver_name(d, e);
        }
        k = k + 1;
    }
    None
}

/// The symbolic name of a stop code, for the codes Windows documents that
/// crashes most often give.
pub open spec fn bugcheck_name(code: u32) -> Seq<char> {
    if code == 0xA { "IRQL_NOT_LESS_OR_EQUAL"@ } else
    if code == 0x1A { "MEMORY_MANAGEMENT"@ } else
    if code == 0x1E { "KMODE_EXCEPTION_NOT_HANDLED"@ } else
    if code == 0x3B { "SYSTEM_SERVICE_EXCEPTION"@ } else
    if code == 0x50 { "PAGE_FAULT_IN_NONPAGED_AREA"@ } else
    if code == 0x7E { "SYSTEM_THREAD_EXCEPTION_NOT_HANDLED"@ } else
    if code == 0x7F { "UNEXPECTED_KERNEL_MODE_TRAP"@ } else
    if code == 0x9F { "DRIVER_POWER_STATE_FAILURE"@ } else
    if code == 0xA0 { "INTERNAL_POWER_ERROR"@ } else
    if code == 0xC2 { "BAD_POOL_CALLER"@ } else
    if code == 0xC5 { "DRIVER_CORRUPTED_EXPOOL"@ } else
    if code == 0xD1 { "DRIVER_IRQL_NOT_LESS_OR_EQUAL"@ } else
    if code == 0xEF { "CRITICAL_PROCESS_DIED"@ } else
    if code == 0xF4 { "CRITICAL_OBJECT_TERMINATION"@ } else
    if code == 0x101 { "CLOCK_WATCHDOG_TIMEOUT"@ } else
    if code == 0x109 { "CRITICAL_STRUCTURE_CORRUPTION"@ } else
    if code == 0x116 { "VIDEO_TDR_FAILURE"@ } else
    if code == 0x117 { "VIDEO_TDR_TIMEOUT_DETECTED"@ } else
    if code == 0x124 { "WHEA_UNCORRECTABLE_ERROR"@ } else
    if code == 0x133 { "DPC_WATCHDOG_VIOLATION"@ } else
    if code == 0x139 { "KERNEL_SECURITY_CHECK_FAILURE"@ } else
    if code == 0x154 { "UNEXPECTED_STORE_EXCEPTION"@ } else
    { "UNKNOWN_BUGCHECK"@ }
}

/// The upper-case hexadecimal digit of `d` (below 16).
pub open spec fn hex_digit(d: nat) -> char {
    "0123456789ABCDEF"@[d as int]
}

/// The last `n` hexadecimal digits of `v`, most significant first.
pub open spec fn hex_digits(v: nat, n: nat) -> Seq<char>
    decreases n,
{
    if n == 0 { Seq::empty() } else { hex_digits(v / 16, (n - 1) as nat).push(hex_digit(v % 16)) }
}

fn signature_is(h: &Vec<u8>, t0: u8, t1: u8, t2: u8, t3: u8) -> (b: bool)
    requires
        h@.len() >= 8,
    ensures
        b == has_dump_signature(h@, seq![t0, t1, t2, t3]),
{
    h[0] == 0x50 && h[1] == 0x41 && h[2] == 0x47 && h[3] == 0x45 && h[4] == t0 && h[5] == t1 && h[6] == t2
        && h[7] == t3
}

fn word_at(h: &Vec<u8>, off: usize) -> (w: u32)
    requires
        off + 4 <= h@.len(),
    ensures
        w == le_value(h@, off as int, 4) as u32,
        w as int == le_value(h@, off as int, 4),
{
    let v = read_le(h.as_slice(), off, 4);
    proof {
        lemma_le_bound(h@, off as int, 4);
        reveal_with_fuel(p256, 5);
    }
    v as u32
}

/// Reads the stop code from the first bytes of a kernel dump.
pub fn read_dump_bugcheck(h: &Vec<u8>) -> (r: Option<u32>)
    ensures
        r == dump_bugcheck(h@),
{
    if h.len() >= 0x3C && signature_is(h, 0x44, 0x55, 0x36, 0x34) {
        Some(word_at(h, 0x38))
    } else if h.len() >= 0x24 && signature_is(h, 0x44, 0x55, 0x4D, 0x50) {
        Some(word_at(h, 0x20))
    } else {
        None
    }
}

/// Names a stop code.
pub fn bugcheck_name_text(code: u32) -> (r: String)
    ensures
        r@ == bugcheck_name(code),
{
    if code == 0xA { lit("IRQL_NOT_LESS_OR_EQUAL") } else
    if code == 0x1A { lit("MEMORY_MANAGEMENT") } else
    if code == 0x1E { lit("KMODE_EXCEPTION_NOT_HANDLED") } else
    if code == 0x3B { lit("SYSTEM_SERVICE_EXCEPTION") } else
    if code == 0x50 { lit("PAGE_FAULT_IN_NONPAGED_AREA") } else
    if code == 0x7E { lit("SYSTEM_THREAD_EXCEPTION_NOT_HANDLED") } else
    if code == 0x7F { lit("UNEXPECTED_KERNEL_MODE_TRAP") } else
    if code == 0x9F { lit("DRIVER_POWER_STATE_FAILURE") } else
    if code == 0xA0 { lit("INTERNAL_POWER_ERROR") } else
    if code == 0xC2 { lit("BAD_POOL_CALLER") } else
    if code == 0xC5 { lit("DRIVER_CORRUPTED_EXPOOL") } else
    if code == 0xD1 { lit("DRIVER_IRQL_NOT_LESS_OR_EQUAL") } else
    if code == 0xEF { lit("CRITICAL_PROCESS_DIED") } else
    if code == 0xF4 { lit("CRITICAL_OBJECT_TERMINATION") } else
    if code == 0x101 { lit("CLOCK_WATCHDOG_TIMEOUT") } else
    if code == 0x109 { lit("CRITICAL_STRUCTURE_CORRUPTION") } else
    if code == 0x116 { lit("VIDEO_TDR_FAILURE") } else
    if code == 0x117 { lit("VIDEO_TDR_TIMEOUT_DETECTED") } else
    if code == 0x124 { lit("WHEA_UNCORRECTABLE_ERROR") } else
    if code == 0x133 { lit("DPC_WATCHDOG_VIOLATION") } else
    if code == 0x139 { lit("KERNEL_SECURITY_CHECK_FAILURE") } else
    if code == 0x154 { lit("UNEXPECTED_STORE_EXCEPTION") } else
    { lit("UNKNOWN_BUGCHECK") }
}

/// The last `n` hexadecimal digits of `v`, upper case, most significant first.
pub fn hex_text(v: u32, n: u32) -> (r: String)
    ensures
        r@ == hex_digits(v as nat, n as nat),
    decreases n,
{
    if n == 0 {
        proof {
            reveal_strlit("");
        }
        lit("")
    } else {
        let mut s = hex_text(v / 16, n - 1);
        assert((v / 16) as nat == (v as nat) / 16);
        let digits = "0123456789ABCDEF";
        proof {
            reveal_strlit("0123456789ABCDEF");
        }
        let d = digits.get_char((v % 16) as usize);
        push_char(&mut s, d);
        assert(d == hex_digit(v as nat % 16));
        s
    }
}

/// The crash reports among the entries, in listing order.
pub open spec fn crash_details(es: Seq<DumpFileEntry>, kind: ReportKind) -> Seq<CrashDetailView>
    decreases es.len(),
{
    if es.len() == 0 {
        seq![]
    } else {
        crash_details(es.drop_last(), kind) + if is_crash_report(es.last().file_name@, kind) {
            seq![crash_detail_of(es.last(), kind)]
        } else {
            seq![]
        }
    }
}

/// The crash time of the first report listed.
pub open spec fn latest_time(ds: Seq<CrashDetailView>) -> Option<Seq<char>> {
    if ds.len() > 0 { Some(ds[0].crash_time) } else { None }
}

pub open spec fn opt_text(o: Option<String>) -> Option<Seq<char>> {
    match o {
        Some(s) => Some(s@),
        None => None,
    }
}

// ---------------------------------------------------------------- system log

pub open spec fn or_text(o: Option<String>, d: Seq<char>) -> Seq<char> {
    match o {
        Some(s) => s@,
        None => d,
    }
}

/// The event id, truncated to 32 bits, 0 where absent.
pub open spec fn event_id_of(r: RawEventRecord) -> u32 {
    match r.id {
        Some(v) => v as u32,
        None => 0,
    }
}

pub open spec fn event_of(r: RawEventRecord) -> StabilityEventView {
    StabilityEventView {
        timestamp: or_text(r.time, ""@),
        provider: or_text(r.provider, "System"@),
        event_id: event_id_of(r),
        category: or_text(r.category, "System"@),
        level: or_text(r.level, "Warning"@),
        title: or_text(r.title, "System Event"@),
        description: or_text(r.description, ""@),
    }
}

/// A Kernel-Power event or an event 41: the machine lost power.
pub open spec fn is_sudden_shutdown(r: RawEventRecord) -> bool {
    has_sub(or_text(r.provider, "System"@), "Kernel-Power"@) || event_id_of(r) == 41
}

/// A WHEA-Logger hardware error.
pub open spec fn is_whea_error(r: RawEventRecord) -> bool {
    has_sub(or_text(r.provider, "System"@), "WHEA"@)
}

/// A "System" category event: a service or driver timeout.
pub open spec fn is_service_timeout(r: RawEventRecord) -> bool {
    or_text(r.category, "System"@) == "System"@
}

pub open spec fn events_of(rs: Seq<RawEventRecord>) -> Seq<StabilityEventView> {
    Seq::new(rs.len(), |i: int| event_of(rs[i]))
}

pub open spec fn count_sudden(rs: Seq<RawEventRecord>) -> nat
    decreases rs.len(),
{
    if rs.len() == 0 { 0 } else { count_sudden(rs.drop_last()) + if is_sudden_shutdown(rs.last()) { 1nat } else { 0 } }
}

pub open spec fn count_whea(rs: Seq<RawEventRecord>) -> nat
    decreases rs.len(),
{
    if rs.len() == 0 { 0 } else { count_whea(rs.drop_last()) + if is_whea_error(rs.last()) { 1nat } else { 0 } }
}

pub open spec fn count_timeouts(rs: Seq<RawEventRecord>) -> nat
    decreases rs.len(),
{
    if rs.len() == 0 { 0 } else { count_timeouts(rs.drop_last()) + if is_service_timeout(rs.last()) { 1nat } else { 0 } }
}

// ---------------------------------------------------------------- problem devices

/// The explanation of a configuration-manager error code.
pub open spec fn device_description(code: u32) -> Seq<char> {
    if code == 10 {
        "This device cannot start (Code 10). Outdated or corrupted device driver."@
    } else if code == 28 {
        "Drivers for this device are not installed (Code 28)."@
    } else if code == 43 {
        "Windows has stopped this device because it has reported problems (Code 43). Often GPU or USB hardware fault."@
    } else if code == 14 {
        "This device cannot work properly until you restart your computer (Code 14)."@
    } else {
        "Hardware device reported a configuration manager error code."@
    }
}

pub open spec fn device_code_of(r: RawDeviceRecord) -> u32 {
    match r.error_code {
        Some(v) => v as u32,
        None => 0,
    }
}

pub open spec fn device_of(r: RawDeviceRecord) -> ProblemDeviceView {
    ProblemDeviceView {
        name: or_text(r.name, "Unknown Device"@),
        device_id: or_text(r.device_id, ""@),
        error_code: device_code_of(r),
        status: or_text(r.status, "Error"@),
        description: device_description(device_code_of(r)),
    }
}

pub open spec fn devices_of(rs: Seq<RawDeviceRecord>) -> Seq<ProblemDeviceView> {
    Seq::new(rs.len(), |i: int| device_of(rs[i]))
}

// ---------------------------------------------------------------- verdict

/// Hardware integrity: 50 with WHEA errors, 70 with problem devices, else 100.
pub open spec fn hardware_score(whea: nat, devices: nat) -> u8 {
    if whea > 0 { 50 } else if devices > 0 { 70 } else { 100 }
}

/// Operating-system integrity: 65 with crash dumps, 80 after more than three
/// sudden shutdowns, 90 after any, else 100.
pub open spec fn os_score(minidumps: nat, sudden: nat) -> u8 {
    if minidumps > 0 { 65 } else if sudden > 3 { 80 } else if sudden > 0 { 90 } else { 100 }
}

/// Healthy from 90, Warning from 70, Critical below.
pub open spec fn integrity_status(score: u8) -> Seq<char> {
    if score >= 90 { "Healthy"@ } else if score >= 70 { "Warning"@ } else { "Critical"@ }
}

pub open spec fn hardware_details(whea: nat, devices: nat) -> Seq<Seq<char>> {
    if whea == 0 && devices == 0 {
        seq![
            "Zero WHEA hardware parity errors detected (CPU & PCIe architectures healthy)."@,
            "Device Manager reports 0 malfunctioning hardware devices."@,
        ]
    } else {
        (if whea > 0 {
            seq!["Found "@ + decimal(whea)
                + " WHEA Machine Check errors. Possible CPU core voltage, RAM stability, or PCIe contact issue."@]
        } else {
            seq![]
        }) + (if devices > 0 {
            seq!["Device Manager reports "@ + decimal(devices) + " hardware device(s) with error codes."@]
        } else {
            seq![]
        })
    }
}

pub open spec fn os_details(minidumps: nat, sudden: nat) -> Seq<Seq<char>> {
    if minidumps == 0 && sudden == 0 {
        seq![
            "No BSOD minidumps found in C:\\Windows\\Minidump. Windows kernel is 100% clean."@,
            "Zero unexpected power loss events recorded."@,
        ]
    } else {
        (if minidumps > 0 {
            seq!["Detected "@ + decimal(minidumps) + " kernel BSOD crash minidump(s)."@]
        } else {
            seq![]
        }) + (if sudden > 0 {
            seq!["Detected "@ + decimal(sudden)
                + " sudden power loss / unannounced reboot event(s) (Kernel-Power 41)."@]
        } else {
            seq![]
        })
    }
}

/// The diagnosis: hardware faults first, then device conflicts, then kernel
/// crashes; a clean machine is either fully healthy or suffers power cuts.
pub open spec fn windows_verdict(whea: nat, devices: nat, minidumps: nat, sudden: nat) -> Seq<char> {
    if whea == 0 && devices == 0 && minidumps == 0 {
        if sudden > 0 {
            "Hardware is 100% Healthy (No WHEA or Device Manager faults). Found "@ + decimal(sudden)
                + " sudden power cut events (Kernel-Power 41). The issue is likely external power, PSU drop, or Fast Startup rather than a broken component."@
        } else {
            "All Hardware and Windows OS Subsystems are 100% Healthy and operating normally."@
        }
    } else if whea > 0 {
        "Hardware Error Detected: WHEA-Logger reported physical CPU/Memory/PCIe parity errors. Check BIOS PBO/XMP settings or memory stability."@
    } else if devices > 0 {
        "Driver/Hardware Conflict: "@ + decimal(devices) + " device(s) in Device Manager reported error codes."@
    } else {
        "Windows Kernel Crash Detected: Minidump files indicate a driver or software exception."@
    }
}

pub open spec fn windows_recommendations(whea: nat, sudden: nat) -> Seq<Seq<char>> {
    (if sudden > 0 {
        seq![
            "Inspect power strip / wall outlet / PSU cable connections to prevent sudden power dropouts."@,
            "Disable 'Fast Startup' in Windows Control Panel -> Power Options to prevent kernel boot hibersys anomalies."@,
        ]
    } else {
        seq![]
    }) + (if whea > 0 {
        seq!["Disable CPU overclocking, Curve Optimizer undervolt, or memory XMP/EXPO profiles in BIOS to test baseline stability."@]
    } else {
        seq![]
    }) + seq![
        "Run 'sfc /scannow' in Command Prompt (Admin) to verify Windows core system file integrity."@,
        "Check Reliability Monitor (perfmon /rel) for timeline correlation with installed software or updates."@,
    ]
}

pub open spec fn hardware_status_is(
    h: HardwareIntegrityStatus,
    score: u8,
    status: Seq<char>,
    whea: nat,
    devices: nat,
    details: Seq<Seq<char>>,
) -> bool {
    &&& h.score == score
    &&& h.status@ == status
    &&& h.whea_error_count == whea
    &&& h.problem_device_count == devices
    &&& texts(h.details@) == details
}

pub open spec fn os_status_is(
    o: OsIntegrityStatus,
    score: u8,
    status: Seq<char>,
    sudden: nat,
    minidumps: nat,
    timeouts: nat,
    details: Seq<Seq<char>>,
) -> bool {
    &&& o.score == score
    &&& o.status@ == status
    &&& o.sudden_shutdown_count == sudden
    &&& o.minidump_count == minidumps
    &&& o.service_timeout_count == timeouts
    &&& texts(o.details@) == details
}

/// The Windows assessment of a minidump listing, system-log events and
/// problem devices.
pub open spec fn is_windows_assessment(
    r: CrashDumpInfo,
    dumps: Seq<DumpFileEntry>,
    events: Seq<RawEventRecord>,
    devices: Seq<RawDeviceRecord>,
) -> bool {
    let crashes = crash_details(dumps, ReportKind::WindowsMinidump);
    let whea = count_whea(events);
    let sudden = count_sudden(events);
    let ndev = devices.len();
    let nmini = crashes.len();
    &&& r.minidump_directory@ == "C:\\Windows\\Minidump"@
    &&& r.total_dumps_found == nmini
    &&& opt_text(r.latest_dump_time) == latest_time(crashes)
    &&& r.recent_crashes@.map_values(|d: CrashDetail| d@) == crashes
    &&& r.problem_devices@.map_values(|d: ProblemDevice| d@) == devices_of(devices)
    &&& r.stability_events@.map_values(|e: SystemStabilityEvent| e@) == events_of(events)
    &&& hardware_status_is(
        r.hardware_status,
        hardware_score(whea, ndev),
        integrity_status(hardware_score(whea, ndev)),
        whea,
        ndev,
        hardware_details(whea, ndev),
    )
    &&& os_status_is(
        r.os_status,
        os_score(nmini, sudden),
        integrity_status(os_score(nmini, sudden)),
        sudden,
        nmini,
        count_timeouts(events),
        os_details(nmini, sudden),
    )
    &&& r.diagnosis_verdict@ == windows_verdict(whea, ndev, nmini, sudden)
    &&& texts(r.recommendations@) == windows_recommendations(whea, sudden)
}

/// The macOS assessment of a diagnostic-report listing.
pub open spec fn is_macos_assessment(r: CrashDumpInfo, reports: Seq<DumpFileEntry>) -> bool {
    let crashes = crash_details(reports, ReportKind::MacPanic);
    let n = crashes.len();
    &&& r.minidump_directory@ == "/Library/Logs/DiagnosticReports"@
    &&& r.total_dumps_found == n
    &&& opt_text(r.latest_dump_time) == latest_time(crashes)
    &&& r.recent_crashes@.map_values(|d: CrashDetail| d@) == crashes
    &&& r.problem_devices@.len() == 0
    &&& r.stability_events@.len() == 0
    &&& hardware_status_is(r.hardware_status, 100, "Healthy"@, 0, 0, seq!["Apple Silicon IOKit reports clean hardware bus."@])
    &&& os_status_is(
        r.os_status,
        if n > 0 { 80 } else { 100 },
        if n > 0 { "Warning"@ } else { "Healthy"@ },
        0,
        n,
        0,
        seq!["macOS system integrity clean."@],
    )
    &&& r.diagnosis_verdict@ == "macOS hardware and software telemetry clean."@
    &&& texts(r.recommendations@) == seq!["Run Apple Diagnostics (press D during boot) for low-level hardware tests."@]
}

/// The Linux assessment of a `/var/crash` listing.
pub open spec fn is_linux_assessment(r: CrashDumpInfo, reports: Seq<DumpFileEntry>) -> bool {
    let crashes = crash_details(reports, ReportKind::LinuxCrash);
    &&& r.minidump_directory@ == "/var/crash"@
    &&& r.total_dumps_found == crashes.len()
    &&& opt_text(r.latest_dump_time) == latest_time(crashes)
    &&& r.recent_crashes@.map_values(|d: CrashDetail| d@) == crashes
    &&& r.problem_devices@.len() == 0
    &&& r.stability_events@.len() == 0
    &&& hardware_status_is(r.hardware_status, 100, "Healthy"@, 0, 0, seq!["Linux dmesg reports clean hardware status."@])
    &&& os_status_is(r.os_status, 100, "Healthy"@, 0, 0, 0, seq!["Linux systemd journal audit clean."@])
    &&& r.diagnosis_verdict@ == "Linux system stability clean."@
    &&& texts(r.recommendations@) == seq!["Inspect 'journalctl -xb -p 3' for kernel error logs."@]
}

/// The clean report of a platform without a crash scanner.
pub open spec fn is_generic_assessment(r: CrashDumpInfo) -> bool {
    &&& r.minidump_directory@ == "/var/crash"@
    &&& r.total_dumps_found == 0
    &&& r.latest_dump_time is None
    &&& r.recent_crashes@.len() == 0
    &&& r.problem_devices@.len() == 0
    &&& r.stability_events@.len() == 0
    &&& hardware_status_is(r.hardware_status, 100, "Healthy"@, 0, 0, seq![])
    &&& os_status_is(r.os_status, 100, "Healthy"@, 0, 0, 0, seq![])
    &&& r.diagnosis_verdict@ == "System clean."@
    &&& r.recommendations@.len() == 0
}

// ---------------------------------------------------------------- laws

/// The Windows integrity statuses always agree with their scores, and a
/// machine with neither WHEA errors nor problem devices nor crash dumps nor
/// power cuts is judged fully healthy on both sides.
pub proof fn lemma_clean_windows_is_healthy(
    r: CrashDumpInfo,
    dumps: Seq<DumpFileEntry>,
    events: Seq<RawEventRecord>,
    devices: Seq<RawDeviceRecord>,
)
    requires
        is_windows_assessment(r, dumps, events, devices),
        count_whea(events) == 0,
        count_sudden(events) == 0,
        devices.len() == 0,
        crash_details(dumps, ReportKind::WindowsMinidump).len() == 0,
    ensures
        r.hardware_status.score == 100,
        r.os_status.score == 100,
        r.hardware_status.status@ == "Healthy"@,
        r.os_status.status@ == "Healthy"@,
        r.diagnosis_verdict@ == "All Hardware and Windows OS Subsystems are 100% Healthy and operating normally."@,
{
}

/// A WHEA hardware error always outweighs every other finding: hardware
/// integrity is critical and the verdict names the hardware error.
pub proof fn lemma_whea_dominates(
    r: CrashDumpInfo,
    dumps: Seq<DumpFileEntry>,
    events: Seq<RawEventRecord>,
    devices: Seq<RawDeviceRecord>,
)
    requires
        is_windows_assessment(r, dumps, events, devices),
        count_whea(events) > 0,
    ensures
        r.hardware_status.score == 50,
        r.hardware_status.status@ == "Critical"@,
        r.diagnosis_verdict@ == "Hardware Error Detected: WHEA-Logger reported physical CPU/Memory/PCIe parity errors. Check BIOS PBO/XMP settings or memory stability."@,
{
}

/// Each counter counts events of the log, so none exceeds their number.
pub proof fn lemma_counts_bounded(events: Seq<RawEventRecord>)
    ensures
        count_whea(events) <= events.len(),
        count_sudden(events) <= events.len(),
        count_timeouts(events) <= events.len(),
    decreases events.len(),
{
    if events.len() > 0 {
        lemma_counts_bounded(events.drop_last());
    }
}

// ---------------------------------------------------------------- computing

/// Is a file of the listing a crash report?
pub fn is_crash_report_name(name: &str, kind: ReportKind) -> (b: bool)
    ensures
        b == is_crash_report(name@, kind),
{
    match kind {
        ReportKind::WindowsMinidump => ends_with(name, ".dmp") && name.unicode_len() > 4,
        ReportKind::MacPanic => ends_with(name, ".panic") || (ends_with(name, ".ips") && contains(name, "panic")),
        ReportKind::LinuxCrash => ends_with(name, ".crash") || ends_with(name, ".dump"),
    }
}

fn opt_clone(o: &Option<String>) -> (r: Option<String>)
    ensures
        opt_text(r) == opt_text(*o),
{
    match o {
        Some(s) => Some(lit(s.as_str())),
        None => None,
    }
}

fn text_or(o: &Option<String>, d: &str) -> (r: String)
    ensures
        r@ == or_text(*o, d@),
{
    match o {
        Some(s) => lit(s.as_str()),
        None => lit(d),
    }
}

/// The crash report of a listed file.
pub fn crash_detail(e: &DumpFileEntry, kind: ReportKind) -> (d: CrashDetail)
    ensures
        d@ == crash_detail_of(*e, kind),
{
    let dump_file_name = lit(e.file_name.as_str());
    let dump_path = lit(e.path.as_str());
    let crash_time = text_or(&e.modified, "Unknown");
    match kind {
        ReportKind::WindowsMinidump => {
            let (bugcheck_code, bugcheck_symbol, description) = match read_dump_bugcheck(&e.contents) {
                Some(c) => (
                    cat(lit("0x"), hex_text(c, 8).as_str()),
                    bugcheck_name_text(c),
                    lit("Windows stop error read from the minidump header."),
                ),
                None => (
                    lit("Unreadable"),
                    lit("UNREADABLE_DUMP_HEADER"),
                    lit("The minidump header could not be read."),
                ),
            };
            CrashDetail {
                dump_file_name,
                dump_path,
                crash_time,
                bugcheck_code,
                bugcheck_symbol,
                faulting_driver: match read_faulting_driver(&e.contents) {
                    Some(n) => n,
                    None => lit("Unknown (not identified from the dump)"),
                },
                description,
            }
        },
        ReportKind::MacPanic => CrashDetail {
            dump_file_name,
            dump_path,
            crash_time,
            bugcheck_code: lit("KERNEL_PANIC"),
            bugcheck_symbol: lit("MACH_KERNEL_EXCEPTION"),
            faulting_driver: lit("xnu-kernel"),
            description: lit("macOS Kernel Panic diagnostic report."),
        },
        ReportKind::LinuxCrash => CrashDetail {
            dump_file_name,
            dump_path,
            crash_time,
            bugcheck_code: lit("KERNEL_OOPS"),
            bugcheck_symbol: lit("LINUX_CORE_DUMP"),
            faulting_driver: lit("kernel"),
            description: lit("Diagnostic crash report recorded in /var/crash"),
        },
    }
}

/// The crash reports of a directory listing, in listing order.
pub fn collect_crash_reports(entries: &Vec<DumpFileEntry>, kind: ReportKind) -> (r: Vec<CrashDetail>)
    ensures
        r@.map_values(|d: CrashDetail| d@) == crash_details(entries@, kind),
{
    let mut out: Vec<CrashDetail> = Vec::new();
    let mut i: usize = 0;
    assert(entries@.subrange(0, 0) =~= Seq::<DumpFileEntry>::empty());
    assert(out@.map_values(|d: CrashDetail| d@) =~= Seq::<CrashDetailView>::empty());
    while i < entries.len()
        invariant
            i <= entries@.len(),
            out@.map_values(|d: CrashDetail| d@) == crash_details(entries@.subrange(0, i as int), kind),
        decreases entries@.len() - i,
    {
        let e = &entries[i];
        let ghost before = out@.map_values(|d: CrashDetail| d@);
        let ghost next = entries@.subrange(0, i + 1);
        assert(next.drop_last() =~= entries@.subrange(0, i as int));
        assert(next.last() == *e);
        if is_crash_report_name(e.file_name.as_str(), kind) {
            let d = crash_detail(e, kind);
            out.push(d);
            assert(out@.map_values(|d: CrashDetail| d@) =~= before.push(d@));
        } else {
            assert(out@.map_values(|d: CrashDetail| d@) =~= before + Seq::<CrashDetailView>::empty());
        }
        i = i + 1;
    }
    assert(entries@.subrange(0, entries@.len() as int) =~= entries@);
    out
}

fn first_crash_time(crashes: &Vec<CrashDetail>) -> (r: Option<String>)
    ensures
        opt_text(r) == latest_time(crashes@.map_values(|d: CrashDetail| d@)),
{
    if crashes.len() > 0 {
        Some(lit(crashes[0].crash_time.as_str()))
    } else {
        None
    }
}

/// The stability event of a system-log record.
pub fn stability_event(r: &RawEventRecord) -> (e: SystemStabilityEvent)
    ensures
        e@ == event_of(*r),
{
    let event_id: u32 = match r.id {
        Some(v) => v as u32,
        None => 0,
    };
    SystemStabilityEvent {
        timestamp: text_or(&r.time, ""),
        provider: text_or(&r.provider, "System"),
        event_id,
        category: text_or(&r.category, "System"),
        level: text_or(&r.level, "Warning"),
        title: text_or(&r.title, "System Event"),
        description: text_or(&r.description, ""),
    }
}

/// The problem device of a device-query record.
pub fn problem_device(r: &RawDeviceRecord) -> (d: ProblemDevice)
    ensures
        d@ == device_of(*r),
{
    let code: u32 = match r.error_code {
        Some(v) => v as u32,
        None => 0,
    };
    let description = if code == 10 {
        lit("This device cannot start (Code 10). Outdated or corrupted device driver.")
    } else if code == 28 {
        lit("Drivers for this device are not installed (Code 28).")
    } else if code == 43 {
        lit("Windows has stopped this device because it has reported problems (Code 43). Often GPU or USB hardware fault.")
    } else if code == 14 {
        lit("This device cannot work properly until you restart your computer (Code 14).")
    } else {
        lit("Hardware device reported a configuration manager error code.")
    };
    ProblemDevice {
        name: text_or(&r.name, "Unknown Device"),
        device_id: text_or(&r.device_id, ""),
        error_code: code,
        status: text_or(&r.status, "Error"),
        description,
    }
}

/// The stability events of the system-log records, with the number of
/// sudden shutdowns, WHEA errors and service timeouts among them.
pub fn tally_events(records: &Vec<RawEventRecord>) -> (r: (Vec<SystemStabilityEvent>, usize, usize, usize))
    ensures
        r.0@.map_values(|e: SystemStabilityEvent| e@) == events_of(records@),
        r.1 == count_sudden(records@),
        r.2 == count_whea(records@),
        r.3 == count_timeouts(records@),
{
    let mut events: Vec<SystemStabilityEvent> = Vec::new();
    let mut sudden: usize = 0;
    let mut whea: usize = 0;
    let mut timeouts: usize = 0;
    let mut i: usize = 0;
    while i < records.len()
        invariant
            i <= records@.len(),
            events@.map_values(|e: SystemStabilityEvent| e@) =~= events_of(records@.subrange(0, i as int)),
            sudden == count_sudden(records@.subrange(0, i as int)),
            whea == count_whea(records@.subrange(0, i as int)),
            timeouts == count_timeouts(records@.subrange(0, i as int)),
            sudden <= i,
            whea <= i,
            timeouts <= i,
        decreases records@.len() - i,
    {
        let rec = &records[i];
        let ghost next = records@.subrange(0, i + 1);
        assert(next.drop_last() =~= records@.subrange(0, i as int));
        assert(next.last() == *rec);
        let ev = stability_event(rec);
        if contains(ev.provider.as_str(), "Kernel-Power") || ev.event_id == 41 {
            sudden = sudden + 1;
        }
        if contains(ev.provider.as_str(), "WHEA") {
            whea = whea + 1;
        }
        if ev.category == lit("System") {
            timeouts = timeouts + 1;
        }
        let ghost before = events@.map_values(|e: SystemStabilityEvent| e@);
        events.push(ev);
        assert(events@.map_values(|e: SystemStabilityEvent| e@) =~= before.push(ev@));
        i = i + 1;
    }
    assert(records@.subrange(0, records@.len() as int) =~= records@);
    (events, sudden, whea, timeouts)
}

/// The problem devices of the device-query records.
pub fn collect_problem_devices(records: &Vec<RawDeviceRecord>) -> (r: Vec<ProblemDevice>)
    ensures
        r@.map_values(|d: ProblemDevice| d@) == devices_of(records@),
{
    let mut out: Vec<ProblemDevice> = Vec::new();
    let mut i: usize = 0;
    while i < records.len()
        invariant
            i <= records@.len(),
            out@.map_values(|d: ProblemDevice| d@) =~= devices_of(records@.subrange(0, i as int)),
        decreases records@.len() - i,
    {
        let d = problem_device(&records[i]);
        let ghost before = out@.map_values(|d: ProblemDevice| d@);
        out.push(d);
        assert(out@.map_values(|d: ProblemDevice| d@) =~= before.push(d@));
        i = i + 1;
    }
    assert(records@.subrange(0, records@.len() as int) =~= records@);
    out
}

fn integrity_status_text(score: u8) -> (r: String)
    ensures
        r@ == integrity_status(score),
{
    if score >= 90 { lit("Healthy") } else if score >= 70 { lit("Warning") } else { lit("Critical") }
}

fn hardware_details_text(whea: usize, devices: usize) -> (r: Vec<String>)
    ensures
        texts(r@) == hardware_details(whea as nat, devices as nat),
{
    let mut out: Vec<String> = Vec::new();
    if whea == 0 && devices == 0 {
        out.push(lit("Zero WHEA hardware parity errors detected (CPU & PCIe architectures healthy)."));
        out.push(lit("Device Manager reports 0 malfunctioning hardware devices."));
    } else {
        if whea > 0 {
            let m = cat(lit("Found "), num_usize(whea).as_str());
            out.push(cat(m, " WHEA Machine Check errors. Possible CPU core voltage, RAM stability, or PCIe contact issue."));
        }
        if devices > 0 {
            let m = cat(lit("Device Manager reports "), num_usize(devices).as_str());
            out.push(cat(m, " hardware device(s) with error codes."));
        }
    }
    assert(texts(out@) =~= hardware_details(whea as nat, devices as nat));
    out
}

fn os_details_text(minidumps: usize, sudden: usize) -> (r: Vec<String>)
    ensures
        texts(r@) == os_details(minidumps as nat, sudden as nat),
{
    let mut out: Vec<String> = Vec::new();
    if minidumps == 0 && sudden == 0 {
        out.push(lit("No BSOD minidumps found in C:\\Windows\\Minidump. Windows kernel is 100% clean."));
        out.push(lit("Zero unexpected power loss events recorded."));
    } else {
        if minidumps > 0 {
            let m = cat(lit("Detected "), num_usize(minidumps).as_str());
            out.push(cat(m, " kernel BSOD crash minidump(s)."));
        }
        if sudden > 0 {
            let m = cat(lit("Detected "), num_usize(sudden).as_str());
            out.push(cat(m, " sudden power loss / unannounced reboot event(s) (Kernel-Power 41)."));
        }
    }
    assert(texts(out@) =~= os_details(minidumps as nat, sudden as nat));
    out
}

fn verdict_text(whea: usize, devices: usize, minidumps: usize, sudden: usize) -> (r: String)
    ensures
        r@ == windows_verdict(whea as nat, devices as nat, minidumps as nat, sudden as nat),
{
    if whea == 0 && devices == 0 && minidumps == 0 {
        if sudden > 0 {
            let m = cat(lit("Hardware is 100% Healthy (No WHEA or Device Manager faults). Found "), num_usize(sudden).as_str());
            cat(m, " sudden power cut events (Kernel-Power 41). The issue is likely external power, PSU drop, or Fast Startup rather than a broken component.")
        } else {
            lit("All Hardware and Windows OS Subsystems are 100% Healthy and operating normally.")
        }
    } else if whea > 0 {
        lit("Hardware Error Detected: WHEA-Logger reported physical CPU/Memory/PCIe parity errors. Check BIOS PBO/XMP settings or memory stability.")
    } else if devices > 0 {
        let m = cat(lit("Driver/Hardware Conflict: "), num_usize(devices).as_str());
        cat(m, " device(s) in Device Manager reported error codes.")
    } else {
        lit("Windows Kernel Crash Detected: Minidump files indicate a driver or software exception.")
    }
}

fn recommendations_text(whea: usize, sudden: usize) -> (r: Vec<String>)
    ensures
        texts(r@) == windows_recommendations(whea as nat, sudden as nat),
{
    let mut out: Vec<String> = Vec::new();
    if sudden > 0 {
        out.push(lit("Inspect power strip / wall outlet / PSU cable connections to prevent sudden power dropouts."));
        out.push(lit("Disable 'Fast Startup' in Windows Control Panel -> Power Options to prevent kernel boot hibersys anomalies."));
    }
    if whea > 0 {
        out.push(lit("Disable CPU overclocking, Curve Optimizer undervolt, or memory XMP/EXPO profiles in BIOS to test baseline stability."));
    }
    out.push(lit("Run 'sfc /scannow' in Command Prompt (Admin) to verify Windows core system file integrity."));
    out.push(lit("Check Reliability Monitor (perfmon /rel) for timeline correlation with installed software or updates."));
    assert(texts(out@) =~= windows_recommendations(whea as nat, sudden as nat));
    out
}

/// The Windows integrity assessment of a minidump listing and the records of
/// the system-log and problem-device queries.
pub fn assess_windows_integrity(
    dumps: &Vec<DumpFileEntry>,
    events: &Vec<RawEventRecord>,
    devices: &Vec<RawDeviceRecord>,
) -> (r: CrashDumpInfo)
    ensures
        is_windows_assessment(r, dumps@, events@, devices@),
{
    let recent_crashes = collect_crash_reports(dumps, ReportKind::WindowsMinidump);
    let latest = first_crash_time(&recent_crashes);
    let (stability_events, sudden, whea, timeouts) = tally_events(events);
    let problem_devices = collect_problem_devices(devices);
    let ndev = problem_devices.len();
    let nmini = recent_crashes.len();
    proof {
        assert(problem_devices@.map_values(|d: ProblemDevice| d@).len() == devices@.len());
        assert(recent_crashes@.map_values(|d: CrashDetail| d@).len() == nmini);
    }

    let hw_score: u8 = if whea > 0 { 50 } else if ndev > 0 { 70 } else { 100 };
    let os_score_v: u8 = if nmini > 0 { 65 } else if sudden > 3 { 80 } else if sudden > 0 { 90 } else { 100 };

    CrashDumpInfo {
        minidump_directory: lit("C:\\Windows\\Minidump"),
        total_dumps_found: nmini,
        latest_dump_time: latest,
        recent_crashes,
        problem_devices,
        stability_events,
        hardware_status: HardwareIntegrityStatus {
            score: hw_score,
            status: integrity_status_text(hw_score),
            whea_error_count: whea,
            problem_device_count: ndev,
            details: hardware_details_text(whea, ndev),
        },
        os_status: OsIntegrityStatus {
            score: os_score_v,
            status: integrity_status_text(os_score_v),
            sudden_shutdown_count: sudden,
            minidump_count: nmini,
            service_timeout_count: timeouts,
            details: os_details_text(nmini, sudden),
        },
        diagnosis_verdict: verdict_text(whea, ndev, nmini, sudden),
        recommendations: recommendations_text(whea, sudden),
    }
}

/// The objects of a query's JSON output: its trimmed text parsed as one
/// object or an array of objects; none where the output is absent, blank or
/// not JSON.
pub open spec fn output_items(json: Option<String>) -> Seq<serde_json::Value> {
    match json {
        Some(t) => if trim(t@).len() > 0 {
            match json_parsed(trim(t@)) {
                Some(doc) => json_items(doc),
                None => Seq::empty(),
            }
        } else {
            Seq::empty()
        },
        None => Seq::empty(),
    }
}

/// A system-log record holds the members of its JSON object.
pub open spec fn event_record_read(r: RawEventRecord, item: serde_json::Value) -> bool {
    &&& text_opt(r.time) == member_text(item, "Time"@)
    &&& text_opt(r.provider) == member_text(item, "Provider"@)
    &&& r.id == member_number(item, "Id"@)
    &&& text_opt(r.category) == member_text(item, "Category"@)
    &&& text_opt(r.level) == member_text(item, "Level"@)
    &&& text_opt(r.title) == member_text(item, "Title"@)
    &&& text_opt(r.description) == member_text(item, "Description"@)
}

/// A problem-device record holds the members of its JSON object.
pub open spec fn device_record_read(r: RawDeviceRecord, item: serde_json::Value) -> bool {
    &&& text_opt(r.name) == member_text(item, "Name"@)
    &&& text_opt(r.device_id) == member_text(item, "DeviceID"@)
    &&& r.error_code == member_number(item, "ErrorCode"@)
    &&& text_opt(r.status) == member_text(item, "Status"@)
}

/// System-log records that hold, one by one, the objects of the output.
pub open spec fn event_records_read(rs: Seq<RawEventRecord>, json: Option<String>) -> bool {
    &&& rs.len() == output_items(json).len()
    &&& forall|i: int| 0 <= i < rs.len() ==> event_record_read(#[trigger] rs[i], output_items(json)[i])
}

/// Problem-device records that hold, one by one, the objects of the output.
pub open spec fn device_records_read(rs: Seq<RawDeviceRecord>, json: Option<String>) -> bool {
    &&& rs.len() == output_items(json).len()
    &&& forall|i: int| 0 <= i < rs.len() ==> device_record_read(#[trigger] rs[i], output_items(json)[i])
}

/// The records of the system-log query's JSON output (one object or an
/// array of objects), one per object, in order. Nothing is read from absent
/// or blank output.
pub fn read_event_records(json: &Option<String>) -> (r: Vec<RawEventRecord>)
    ensures
        r@.len() == output_items(*json).len(),
        forall|i: int| 0 <= i < r@.len() ==> event_record_read(#[trigger] r@[i], output_items(*json)[i]),
{
    let mut out: Vec<RawEventRecord> = Vec::new();
    if let Some(text) = json {
        let trimmed = trim_text(text.as_str());
        if trimmed.unicode_len() > 0 {
            if let Some(parsed) = json_parse(trimmed.as_str()) {
                let items = match json_as_array(&parsed) {
                    Some(a) => a,
                    None => vec![parsed],
                };
                assert(items@ == output_items(*json));
                let mut i: usize = 0;
                while i < items.len()
                    invariant
                        i <= items@.len(),
                        items@ == output_items(*json),
                        out@.len() == i,
                        forall|j: int| 0 <= j < i ==> event_record_read(#[trigger] out@[j], items@[j]),
                    decreases items@.len() - i,
                {
                    let item = &items[i];
                    out.push(RawEventRecord {
                        time: member_str(item, "Time"),
                        provider: member_str(item, "Provider"),
                        id: member_u64(item, "Id"),
                        category: member_str(item, "Category"),
                        level: member_str(item, "Level"),
                        title: member_str(item, "Title"),
                        description: member_str(item, "Description"),
                    });
                    i = i + 1;
                }
            }
        }
    }
    out
}

/// The records of the problem-device query's JSON output (one object or an
/// array of objects), one per object, in order. Nothing is read from absent
/// or blank output.
pub fn read_device_records(json: &Option<String>) -> (r: Vec<RawDeviceRecord>)
    ensures
        r@.len() == output_items(*json).len(),
        forall|i: int| 0 <= i < r@.len() ==> device_record_read(#[trigger] r@[i], output_items(*json)[i]),
{
    let mut out: Vec<RawDeviceRecord> = Vec::new();
    if let Some(text) = json {
        let trimmed = trim_text(text.as_str());
        if trimmed.unicode_len() > 0 {
            if let Some(parsed) = json_parse(trimmed.as_str()) {
                let items = match json_as_array(&parsed) {
                    Some(a) => a,
                    None => vec![parsed],
                };
                assert(items@ == output_items(*json));
                let mut i: usize = 0;
                while i < items.len()
                    invariant
                        i <= items@.len(),
                        items@ == output_items(*json),
                        out@.len() == i,
                        forall|j: int| 0 <= j < i ==> device_record_read(#[trigger] out@[j], items@[j]),
                    decreases items@.len() - i,
                {
                    let item = &items[i];
                    out.push(RawDeviceRecord {
                        name: member_str(item, "Name"),
                        device_id: member_str(item, "DeviceID"),
                        error_code: member_u64(item, "ErrorCode"),
                        status: member_str(item, "Status"),
                    });
                    i = i + 1;
                }
            }
        }
    }
    out
}

/// The Windows scan: minidumps plus the JSON output of the system-log and
/// problem-device queries. The assessment is that of the records the JSON
/// holds; absent output contributes no record.
pub fn scan_windows_integrity_and_crashes(
    dumps: &Vec<DumpFileEntry>,
    events_json: &Option<String>,
    devices_json: &Option<String>,
) -> (r: CrashDumpInfo)
    ensures
        exists|events: Seq<RawEventRecord>, devices: Seq<RawDeviceRecord>|
            is_windows_assessment(r, dumps@, events, devices)
            && event_records_read(events, *events_json)
            && device_records_read(devices, *devices_json),
{
    let events = read_event_records(events_json);
    let devices = read_device_records(devices_json);
    let r = assess_windows_integrity(dumps, &events, &devices);
    assert(is_windows_assessment(r, dumps@, events@, devices@));
    r
}

fn one_line(s: &str) -> (r: Vec<String>)
    ensures
        texts(r@) == seq![s@],
{
    let mut v: Vec<String> = Vec::new();
    v.push(lit(s));
    assert(texts(v@) =~= seq![s@]);
    v
}

/// The macOS scan of `/Library/Logs/DiagnosticReports`.
pub fn scan_macos_panic_reports(reports: &Vec<DumpFileEntry>) -> (r: CrashDumpInfo)
    ensures
        is_macos_assessment(r, reports@),
{
    let recent_crashes = collect_crash_reports(reports, ReportKind::MacPanic);
    let latest = first_crash_time(&recent_crashes);
    let total = recent_crashes.len();
    proof { assert(recent_crashes@.map_values(|d: CrashDetail| d@).len() == total); }
    CrashDumpInfo {
        minidump_directory: lit("/Library/Logs/DiagnosticReports"),
        total_dumps_found: total,
        latest_dump_time: latest,
        recent_crashes,
        problem_devices: Vec::new(),
        stability_events: Vec::new(),
        hardware_status: HardwareIntegrityStatus {
            score: 100,
            status: lit("Healthy"),
            whea_error_count: 0,
            problem_device_count: 0,
            details: one_line("Apple Silicon IOKit reports clean hardware bus."),
        },
        os_status: OsIntegrityStatus {
            score: if total > 0 { 80 } else { 100 },
            status: if total > 0 { lit("Warning") } else { lit("Healthy") },
            sudden_shutdown_count: 0,
            minidump_count: total,
            service_timeout_count: 0,
            details: one_line("macOS system integrity clean."),
        },
        diagnosis_verdict: lit("macOS hardware and software telemetry clean."),
        recommendations: one_line("Run Apple Diagnostics (press D during boot) for low-level hardware tests."),
    }
}

/// The Linux scan of `/var/crash`.
pub fn scan_linux_crash_reports(reports: &Vec<DumpFileEntry>) -> (r: CrashDumpInfo)
    ensures
        is_linux_assessment(r, reports@),
{
    let recent_crashes = collect_crash_reports(reports, ReportKind::LinuxCrash);
    let latest = first_crash_time(&recent_crashes);
    let total = recent_crashes.len();
    proof { assert(recent_crashes@.map_values(|d: CrashDetail| d@).len() == total); }
    CrashDumpInfo {
        minidump_directory: lit("/var/crash"),
        total_dumps_found: total,
        latest_dump_time: latest,
        recent_crashes,
        problem_devices: Vec::new(),
        stability_events: Vec::new(),
        hardware_status: HardwareIntegrityStatus {
            score: 100,
            status: lit("Healthy"),
            whea_error_count: 0,
            problem_device_count: 0,
            details: one_line("Linux dmesg reports clean hardware status."),
        },
        os_status: OsIntegrityStatus {
            score: 100,
            status: lit("Healthy"),
            sudden_shutdown_count: 0,
            minidump_count: 0,
            service_timeout_count: 0,
            details: one_line("Linux systemd journal audit clean."),
        },
        diagnosis_verdict: lit("Linux system stability clean."),
        recommendations: one_line("Inspect 'journalctl -xb -p 3' for kernel error logs."),
    }
}

/// The clean report of a platform without a crash scanner.
pub fn get_generic_clean_dumps() -> (r: CrashDumpInfo)
    ensures
        is_generic_assessment(r),
{
    let r = CrashDumpInfo {
        minidump_directory: lit("/var/crash"),
        total_dumps_found: 0,
        latest_dump_time: None,
        recent_crashes: Vec::new(),
        problem_devices: Vec::new(),
        stability_events: Vec::new(),
        hardware_status: HardwareIntegrityStatus {
            score: 100,
            status: lit("Healthy"),
            whea_error_count: 0,
            problem_device_count: 0,
            details: Vec::new(),
        },
        os_status: OsIntegrityStatus {
            score: 100,
            status: lit("Healthy"),
            sudden_shutdown_count: 0,
            minidump_count: 0,
            service_timeout_count: 0,
            details: Vec::new(),
        },
        diagnosis_verdict: lit("System clean."),
        recommendations: Vec::new(),
    };
    assert(texts(r.hardware_status.details@) =~= Seq::<Seq<char>>::empty());
    assert(texts(r.os_status.details@) =~= Seq::<Seq<char>>::empty());
    r
}

/// The crash and stability report of the platform that was scanned.
pub fn get_crash_dump_diagnostics(scan: &CrashScan) -> (r: CrashDumpInfo)
    ensures
        match *scan {
            CrashScan::Windows { dumps, events_json, devices_json } => exists|
                events: Seq<RawEventRecord>,
                devices: Seq<RawDeviceRecord>,
            |
                is_windows_assessment(r, dumps@, events, devices)
                && event_records_read(events, events_json)
                && device_records_read(devices, devices_json),
            CrashScan::MacOs { reports } => is_macos_assessment(r, reports@),
            CrashScan::Linux { reports } => is_linux_assessment(r, reports@),
            CrashScan::Other => is_generic_assessment(r),
        },
{
    match scan {
        CrashScan::Windows { dumps, events_json, devices_json } => {
            scan_windows_integrity_and_crashes(dumps, events_json, devices_json)
        },
        CrashScan::MacOs { reports } => scan_macos_panic_reports(reports),
        CrashScan::Linux { reports } => scan_linux_crash_reports(reports),
        CrashScan::Other => get_generic_clean_dumps(),
    }
}


/// Hardware integrity follows the WHEA errors and problem devices alone: with
/// no WHEA error and at least one problem device it is 70, "Warning"; it is
/// 100, "Healthy", exactly when there is neither; and any problem device
/// keeps it below 100.
pub proof fn lemma_problem_devices_warn(
    r: CrashDumpInfo,
    dumps: Seq<DumpFileEntry>,
    events: Seq<RawEventRecord>,
    devices: Seq<RawDeviceRecord>,
)
    requires
        is_windows_assessment(r, dumps, events, devices),
    ensures
        count_whea(events) == 0 && devices.len() > 0 ==> r.hardware_status.score == 70
            && r.hardware_status.status@ == "Warning"@,
        r.hardware_status.score == 100 <==> (count_whea(events) == 0 && devices.len() == 0),
        r.hardware_status.score == 100 ==> r.hardware_status.status@ == "Healthy"@,
        r.problem_devices@.len() > 0 ==> r.hardware_status.score < 100,
        r.problem_devices@.len() == devices.len(),
{
    assert(r.problem_devices@.map_values(|d: ProblemDevice| d@).len() == r.problem_devices@.len());
}

} // verus!
