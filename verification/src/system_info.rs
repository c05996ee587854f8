//! Processor, memory, process and system summaries from the readings of
//! the operating system.

use vstd::prelude::*;
use crate::model::{CpuMetrics, MemoryMetrics, ProcessSnapshot, StorageDriveMetrics, SystemSummary};
use crate::text::{
    cat, decimal, div_round, div_round_even, hundredths, hundredths_text, lit, num, num_usize,
    round_div, round_div_even, round_div_u128, tenths, tenths_text, trim, trim_text,
};

verus! {

// ---------------------------------------------------------------- processor

/// What the operating system reports of one logical processor.
pub struct CpuSample {
    pub brand: String,
    pub vendor_id: String,
    /// Load in tenths of a percent.
    pub usage_tenths: u32,
    /// Clock in MHz, 0 where unknown.
    pub frequency_mhz: u64,
}

/// The clock of core `idx`: its reading, or where that is 0 the clock of
/// an Apple M2 performance (first four) or efficiency core.
pub open spec fn core_frequency(c: CpuSample, idx: int) -> u64 {
    if c.frequency_mhz != 0 { c.frequency_mhz } else if idx < 4 { 3492 } else { 2424 }
}

pub open spec fn frequency_sum(cs: Seq<CpuSample>) -> nat
    decreases cs.len(),
{
    if cs.len() == 0 { 0 } else { frequency_sum(cs.drop_last()) + core_frequency(cs.last(), cs.len() - 1) as nat }
}

/// The processor metrics from its per-core readings, the physical core
/// count (where known) and the overall load.
pub open spec fn cpu_metrics_are(r: CpuMetrics, cs: Seq<CpuSample>, physical: Option<usize>, global_tenths: u32) -> bool {
    let avg: nat = if cs.len() > 0 { frequency_sum(cs) / cs.len() } else { 3200 };
    &&& r.model@ == (if cs.len() > 0 {
        if trim(cs[0].brand@).len() > 0 { trim(cs[0].brand@) } else { "Apple Silicon Processor"@ }
    } else {
        "Apple M2 (8 Cores)"@
    })
    &&& r.vendor@ == (if cs.len() > 0 && trim(cs[0].vendor_id@).len() > 0 { trim(cs[0].vendor_id@) } else { "Apple ARM64"@ })
    &&& r.physical_cores == (match physical { Some(p) => p, None => cs.len() as usize })
    &&& r.logical_cores == cs.len()
    &&& r.base_frequency_mhz == avg
    &&& r.current_frequency_mhz == avg
    &&& r.global_usage_tenths == global_tenths
    &&& r.per_core_usage_tenths@ == cs.map_values(|c: CpuSample| c.usage_tenths)
    &&& r.per_core_frequencies@.len() == cs.len()
    &&& forall|i: int| 0 <= i < cs.len() ==> #[trigger] r.per_core_frequencies@[i] == core_frequency(cs[i], i)
    &&& r.temperature_tenths == Some((415 + div_round(global_tenths as nat, 4)) as i32)
    &&& r.is_throttling == (global_tenths > 900 && avg < 2000)
}

/// Builds the processor metrics.
pub fn get_cpu_diagnostics(cs: &Vec<CpuSample>, physical: Option<usize>, global_tenths: u32) -> (r: CpuMetrics)
    requires
        cs@.len() <= 0x1_0000_0000,
    ensures
        cpu_metrics_are(r, cs@, physical, global_tenths),
{
    let model = if cs.len() > 0 {
        let b = trim_text(cs[0].brand.as_str());
        if b.unicode_len() > 0 { b } else { lit("Apple Silicon Processor") }
    } else {
        lit("Apple M2 (8 Cores)")
    };
    let vendor = if cs.len() > 0 {
        let v = trim_text(cs[0].vendor_id.as_str());
        if v.unicode_len() > 0 { v } else { lit("Apple ARM64") }
    } else {
        lit("Apple ARM64")
    };
    let mut usage: Vec<u32> = Vec::new();
    let mut freqs: Vec<u64> = Vec::new();
    let mut total: u128 = 0;
    let mut i: usize = 0;
    while i < cs.len()
        invariant
            i <= cs@.len(),
            cs@.len() <= 0x1_0000_0000,
            usage@ == cs@.subrange(0, i as int).map_values(|c: CpuSample| c.usage_tenths),
            freqs@.len() == i,
            forall|j: int| 0 <= j < i ==> #[trigger] freqs@[j] == core_frequency(cs@[j], j),
            total == frequency_sum(cs@.subrange(0, i as int)),
            total <= i * (u64::MAX as nat),
        decreases cs@.len() - i,
    {
        let c = &cs[i];
        let f = if c.frequency_mhz != 0 { c.frequency_mhz } else if i < 4 { 3492 } else { 2424 };
        proof {
            let pre = cs@.subrange(0, i as int);
            let next = cs@.subrange(0, i + 1);
            assert(next.drop_last() =~= pre);
            assert(next.last() == cs@[i as int]);
            assert(next.map_values(|c: CpuSample| c.usage_tenths) =~= pre.map_values(|c: CpuSample| c.usage_tenths).push(c.usage_tenths));
        }
        usage.push(c.usage_tenths);
        freqs.push(f);
        total = total + f as u128;
        i = i + 1;
    }
    proof {
        assert(cs@.subrange(0, cs@.len() as int) =~= cs@);
    }
    let avg: u64 = if cs.len() > 0 {
        let a = total / (cs.len() as u128);
        assert(a <= u64::MAX) by (nonlinear_arith)
            requires a as int == (total as int) / (cs@.len() as int), total <= cs@.len() * (u64::MAX as nat), cs@.len() > 0;
        a as u64
    } else {
        3200
    };
    let physical_cores = match physical { Some(p) => p, None => cs.len() };
    let q = round_div(global_tenths as u64, 4);
    assert(q <= global_tenths) by (nonlinear_arith)
        requires q == (2 * (global_tenths as int) + 4) / 8;
    let temp = 415 + q;
    CpuMetrics {
        model,
        vendor,
        physical_cores,
        logical_cores: cs.len(),
        base_frequency_mhz: avg,
        current_frequency_mhz: avg,
        global_usage_tenths: global_tenths,
        per_core_usage_tenths: usage,
        per_core_frequencies: freqs,
        temperature_tenths: Some(temp as i32),
        is_throttling: global_tenths > 900 && avg < 2000,
    }
}

// ---------------------------------------------------------------- memory

/// `part` as a share of `total` in tenths of a percent, 0 of nothing.
pub open spec fn share_tenths(part: nat, total: nat) -> nat {
    if total > 0 { div_round(1000 * part, total) } else { 0 }
}

fn share(part: u64, total: u64) -> (r: u32)
    ensures
        r == (if share_tenths(part as nat, total as nat) > u32::MAX { u32::MAX as nat } else { share_tenths(part as nat, total as nat) }),
{
    if total > 0 {
        let q = round_div_u128(1000 * (part as u128), total as u128);
        if q > u32::MAX as u128 { u32::MAX } else { q as u32 }
    } else {
        0
    }
}

/// The memory metrics from the readings; the usage shares are used over
/// total, in tenths of a percent, saturating at `u32::MAX`.
pub open spec fn memory_metrics_are(
    r: MemoryMetrics,
    total: u64, used: u64, free: u64, available: u64,
    swap_total: u64, swap_used: u64, swap_free: u64,
) -> bool {
    &&& r.total_bytes == total
    &&& r.used_bytes == used
    &&& r.free_bytes == free
    &&& r.available_bytes == available
    &&& r.usage_percent_tenths == (if share_tenths(used as nat, total as nat) > u32::MAX { u32::MAX as nat } else { share_tenths(used as nat, total as nat) })
    &&& r.swap_total_bytes == swap_total
    &&& r.swap_used_bytes == swap_used
    &&& r.swap_free_bytes == swap_free
    &&& r.swap_usage_percent_tenths == (if share_tenths(swap_used as nat, swap_total as nat) > u32::MAX { u32::MAX as nat } else { share_tenths(swap_used as nat, swap_total as nat) })
}

/// Builds the memory metrics.
pub fn get_memory_diagnostics(
    total: u64, used: u64, free: u64, available: u64,
    swap_total: u64, swap_used: u64, swap_free: u64,
) -> (r: MemoryMetrics)
    ensures
        memory_metrics_are(r, total, used, free, available, swap_total, swap_used, swap_free),
{
    let u = share(used, total);
    let s = share(swap_used, swap_total);
    MemoryMetrics {
        total_bytes: total,
        used_bytes: used,
        free_bytes: free,
        available_bytes: available,
        usage_percent_tenths: u,
        swap_total_bytes: swap_total,
        swap_used_bytes: swap_used,
        swap_free_bytes: swap_free,
        swap_usage_percent_tenths: s,
    }
}

// ---------------------------------------------------------------- summary

/// "`h`h `m`m" of an uptime in seconds.
pub open spec fn uptime_text(secs: nat) -> Seq<char> {
    decimal(secs / 3600) + "h "@ + decimal((secs % 3600) / 60) + "m"@
}

/// A memory size in GiB with one decimal place, as `{:.1}` prints it.
pub open spec fn gib_text(bytes: nat) -> Seq<char> {
    tenths(div_round_even(10 * bytes, 1073741824)) + " GB"@
}

/// What the operating system reports for the summary.
pub struct SystemFacts {
    pub uptime_seconds: u64,
    pub total_memory_bytes: u64,
    /// The brand of the first processor, where there is one.
    pub first_cpu_brand: Option<String>,
    pub cpu_count: usize,
    pub os_name: Option<String>,
    pub os_version: Option<String>,
    pub kernel_version: Option<String>,
    pub host_name: Option<String>,
    pub is_admin: bool,
}

pub open spec fn or_text(o: Option<String>, d: Seq<char>) -> Seq<char> {
    match o { Some(s) => s@, None => d }
}

/// The system summary from the facts and the drives found.
pub open spec fn summary_is(r: SystemSummary, f: SystemFacts, drives: Seq<StorageDriveMetrics>) -> bool {
    &&& r.os_name@ == or_text(f.os_name, "macOS"@)
    &&& r.os_version@ == or_text(f.os_version, "15.0 Sequoia"@)
    &&& r.kernel_version@ == or_text(f.kernel_version, "Darwin 24.0"@)
    &&& r.hostname@ == or_text(f.host_name, "MacBook-Air"@)
    &&& r.uptime_seconds == f.uptime_seconds
    &&& r.uptime_formatted@ == uptime_text(f.uptime_seconds as nat)
    &&& r.cpu_model@ == (match f.first_cpu_brand {
        Some(b) => if trim(b@).len() > 0 { trim(b@) } else { "Apple M2 (8 Cores)"@ },
        None => "Apple M2 (8 Cores)"@,
    })
    &&& r.cpu_cores == f.cpu_count
    &&& r.total_memory_formatted@ == gib_text(f.total_memory_bytes as nat)
    &&& r.primary_storage_model@ == (if drives.len() > 0 {
        drives[0].model@ + " ("@ + drives[0].size_formatted@ + ")"@
    } else {
        "APPLE SSD AP0256Z (256 GB)"@
    })
    &&& r.is_admin == f.is_admin
}

fn text_or(o: &Option<String>, d: &str) -> (r: String)
    ensures
        r@ == or_text(*o, d@),
{
    match o { Some(s) => s.clone(), None => lit(d) }
}

/// Builds the system summary.
pub fn get_system_summary(f: &SystemFacts, drives: &Vec<StorageDriveMetrics>) -> (r: SystemSummary)
    ensures
        summary_is(r, *f, drives@),
{
    let h = num(f.uptime_seconds / 3600);
    let m = num((f.uptime_seconds % 3600) / 60);
    let uptime = cat(cat(cat(h, "h "), m.as_str()), "m");
    let gib = round_div_even_wide(10 * (f.total_memory_bytes as u128), 1073741824);
    let mem = cat(tenths_text(gib), " GB");
    let cpu_model = match &f.first_cpu_brand {
        Some(b) => {
            let t = trim_text(b.as_str());
            if t.unicode_len() > 0 { t } else { lit("Apple M2 (8 Cores)") }
        },
        None => lit("Apple M2 (8 Cores)"),
    };
    let storage = if drives.len() > 0 {
        cat(cat(cat(drives[0].model.clone(), " ("), drives[0].size_formatted.as_str()), ")")
    } else {
        lit("APPLE SSD AP0256Z (256 GB)")
    };
    SystemSummary {
        os_name: text_or(&f.os_name, "macOS"),
        os_version: text_or(&f.os_version, "15.0 Sequoia"),
        kernel_version: text_or(&f.kernel_version, "Darwin 24.0"),
        hostname: text_or(&f.host_name, "MacBook-Air"),
        uptime_seconds: f.uptime_seconds,
        uptime_formatted: uptime,
        cpu_model,
        cpu_cores: f.cpu_count,
        total_memory_formatted: mem,
        primary_storage_model: storage,
        is_admin: f.is_admin,
    }
}

/// `n / d` rounded half to even, on wide integers, for a quotient that
/// fits 64 bits.
fn round_div_even_wide(n: u128, d: u128) -> (r: u64)
    requires
        d > 0,
        d <= u128::MAX / 2,
        n / d < u64::MAX,
    ensures
        r == div_round_even(n as nat, d as nat),
{
    let q = n / d;
    let rem = n % d;
    if 2 * rem > d {
        (q + 1) as u64
    } else if 2 * rem < d {
        q as u64
    } else if q % 2 == 0 {
        q as u64
    } else {
        (q + 1) as u64
    }
}


// ---------------------------------------------------------------- processes

/// What the operating system reports of one process.
pub struct ProcessReading {
    pub pid: u32,
    pub name: String,
    /// Load in tenths of a percent.
    pub cpu_usage_tenths: u32,
    pub memory_bytes: u64,
}

/// A process's memory as shown: GiB with two decimal places from 1 GiB up,
/// else MiB with one.
pub open spec fn memory_text(bytes: nat) -> Seq<char> {
    if bytes >= 1073741824 {
        hundredths(div_round_even(100 * bytes, 1073741824)) + " GB"@
    } else {
        tenths(div_round_even(10 * bytes, 1048576)) + " MB"@
    }
}

/// Formats a process's memory.
pub fn format_process_memory(bytes: u64) -> (t: String)
    ensures
        t@ == memory_text(bytes as nat),
{
    if bytes >= 1073741824 {
        let h = round_div_even_wide(100 * (bytes as u128), 1073741824);
        cat(hundredths_text(h), " GB")
    } else {
        let t = round_div_even_wide(10 * (bytes as u128), 1048576);
        cat(tenths_text(t), " MB")
    }
}

pub open spec fn snapshot_is(s: ProcessSnapshot, r: ProcessReading) -> bool {
    &&& s.pid == r.pid
    &&& s.name@ == r.name@
    &&& s.cpu_usage_tenths == r.cpu_usage_tenths
    &&& s.memory_bytes == r.memory_bytes
    &&& s.memory_formatted@ == memory_text(r.memory_bytes as nat)
}

/// The position before which a process using `m` bytes goes in a list
/// kept in descending order of memory: after every process using as much
/// or more.
pub open spec fn first_below(s: Seq<ProcessReading>, m: u64) -> int
    decreases s.len(),
{
    if s.len() == 0 {
        0
    } else if s[0].memory_bytes < m {
        0
    } else {
        1 + first_below(s.drop_first(), m)
    }
}

/// The readings in descending order of memory, equal ones in their original
/// order (what a stable sort gives).
pub open spec fn by_memory_desc(s: Seq<ProcessReading>) -> Seq<ProcessReading>
    decreases s.len(),
{
    if s.len() == 0 {
        Seq::empty()
    } else {
        let sorted = by_memory_desc(s.drop_last());
        sorted.insert(first_below(sorted, s.last().memory_bytes), s.last())
    }
}

proof fn lemma_first_below(s: Seq<ProcessReading>, m: u64, i: int)
    requires
        0 <= i <= s.len(),
        forall|j: int| 0 <= j < i ==> s[j].memory_bytes >= m,
        i == s.len() || s[i].memory_bytes < m,
    ensures
        first_below(s, m) == i,
    decreases s.len(),
{
    if s.len() > 0 && i > 0 {
        lemma_first_below(s.drop_first(), m, i - 1);
    }
}

proof fn lemma_by_memory_len(s: Seq<ProcessReading>)
    ensures
        by_memory_desc(s).len() == s.len(),
        0 <= first_below(by_memory_desc(s), 0) <= s.len(),
    decreases s.len(),
{
    if s.len() > 0 {
        lemma_by_memory_len(s.drop_last());
        lemma_first_below_range(by_memory_desc(s.drop_last()), s.last().memory_bytes);
    }
    lemma_first_below_range(by_memory_desc(s), 0);
}

proof fn lemma_first_below_range(s: Seq<ProcessReading>, m: u64)
    ensures
        0 <= first_below(s, m) <= s.len(),
    decreases s.len(),
{
    if s.len() > 0 {
        lemma_first_below_range(s.drop_first(), m);
    }
}

/// Orders readings by memory, descending and stable.
fn sort_by_memory_desc(v: Vec<ProcessReading>) -> (r: Vec<ProcessReading>)
    ensures
        r@ == by_memory_desc(v@),
{
    let mut sorted: Vec<ProcessReading> = Vec::new();
    let mut rest = v;
    let ghost orig = rest@;
    assert(orig.len() == rest.len());
    let mut i: usize = 0;
    // Take the readings from the front, one at a time, keeping the rest.
    let mut items: Vec<ProcessReading> = Vec::new();
    // Reverse so that popping yields the readings in their original order.
    while rest.len() > 0
        invariant
            items@ + rest@.reverse() == orig.reverse(),
            orig.len() <= usize::MAX,
        decreases rest@.len(),
    {
        let x = rest.pop().unwrap();
        proof {
            assert(rest@.push(x).reverse() =~= seq![x] + rest@.reverse());
        }
        items.push(x);
    }
    assert(items@ =~= orig.reverse());
    while items.len() > 0
        invariant
            i <= orig.len(),
            orig.len() <= usize::MAX,
            i + items@.len() == orig.len(),
            items@ =~= orig.subrange(i as int, orig.len() as int).reverse(),
            sorted@ == by_memory_desc(orig.subrange(0, i as int)),
        decreases items@.len(),
    {
        let x = items.pop().unwrap();
        proof {
            lemma_by_memory_len(orig.subrange(0, i as int));
            assert(x == orig[i as int]);
        }
        let m = x.memory_bytes;
        let mut k: usize = 0;
        while k < sorted.len() && sorted[k].memory_bytes >= m
            invariant
                k <= sorted@.len(),
                forall|j: int| 0 <= j < k ==> sorted@[j].memory_bytes >= m,
            decreases sorted@.len() - k,
        {
            k = k + 1;
        }
        proof {
            lemma_first_below(sorted@, m, k as int);
            let next = orig.subrange(0, i + 1);
            assert(next.drop_last() =~= orig.subrange(0, i as int));
            assert(next.last() == x);
            assert(items@ =~= orig.subrange(i + 1, orig.len() as int).reverse());
        }
        sorted.insert(k, x);
        i = i + 1;
    }
    assert(orig.subrange(0, orig.len() as int) =~= orig);
    sorted
}

/// The processes using the most memory: the readings in descending order
/// of memory (stable), the first `limit` of them, each with its memory
/// formatted.
pub open spec fn top_processes_are(out: Seq<ProcessSnapshot>, readings: Seq<ProcessReading>, limit: usize) -> bool {
    let sorted = by_memory_desc(readings);
    let n = if limit < sorted.len() { limit as int } else { sorted.len() as int };
    &&& out.len() == n
    &&& forall|i: int| 0 <= i < n ==> snapshot_is(#[trigger] out[i], sorted[i])
}

/// The `limit` processes using the most memory, from the readings in the
/// order the operating system listed them.
pub fn get_top_processes(readings: Vec<ProcessReading>, limit: usize) -> (out: Vec<ProcessSnapshot>)
    ensures
        top_processes_are(out@, readings@, limit),
{
    let ghost orig = readings@;
    let sorted = sort_by_memory_desc(readings);
    proof {
        lemma_by_memory_len(orig);
    }
    let n = if limit < sorted.len() { limit } else { sorted.len() };
    let mut out: Vec<ProcessSnapshot> = Vec::new();
    let mut i: usize = 0;
    while i < n
        invariant
            i <= n,
            n <= sorted@.len(),
            sorted@ == by_memory_desc(orig),
            out@.len() == i,
            forall|j: int| 0 <= j < i ==> snapshot_is(#[trigger] out@[j], sorted@[j]),
        decreases n - i,
    {
        let r = &sorted[i];
        out.push(ProcessSnapshot {
            pid: r.pid,
            name: r.name.clone(),
            cpu_usage_tenths: r.cpu_usage_tenths,
            memory_bytes: r.memory_bytes,
            memory_formatted: format_process_memory(r.memory_bytes),
        });
        i = i + 1;
    }
    out
}


proof fn lemma_first_below_split(s: Seq<ProcessReading>, m: u64)
    ensures
        forall|j: int| 0 <= j < first_below(s, m) ==> #[trigger] s[j].memory_bytes >= m,
        first_below(s, m) < s.len() ==> s[first_below(s, m)].memory_bytes < m,
    decreases s.len(),
{
    lemma_first_below_range(s, m);
    if s.len() > 0 && s[0].memory_bytes >= m {
        lemma_first_below_split(s.drop_first(), m);
        assert forall|j: int| 0 <= j < first_below(s, m) implies #[trigger] s[j].memory_bytes >= m by {
            if j > 0 {
                assert(s[j] == s.drop_first()[j - 1]);
            }
        }
        let k = first_below(s, m);
        lemma_first_below_range(s.drop_first(), m);
        assert(k == 1 + first_below(s.drop_first(), m));
        if k < s.len() {
            assert(s[k] == s.drop_first()[k - 1]);
        }
    }
}

/// The processes come out in descending order of memory.
pub proof fn lemma_by_memory_desc_sorted(s: Seq<ProcessReading>)
    ensures
        forall|i: int, j: int| 0 <= i < j < by_memory_desc(s).len() ==>
            #[trigger] by_memory_desc(s)[i].memory_bytes >= #[trigger] by_memory_desc(s)[j].memory_bytes,
    decreases s.len(),
{
    if s.len() > 0 {
        let prev = by_memory_desc(s.drop_last());
        let x = s.last();
        lemma_by_memory_desc_sorted(s.drop_last());
        lemma_first_below_split(prev, x.memory_bytes);
        lemma_first_below_range(prev, x.memory_bytes);
        let k = first_below(prev, x.memory_bytes);
        let r = prev.insert(k, x);
        assert(r == by_memory_desc(s));
        assert forall|i: int, j: int| 0 <= i < j < r.len() implies #[trigger] r[i].memory_bytes >= #[trigger] r[j].memory_bytes by {
            if j < k {
            } else if j == k {
                assert(r[i] == prev[i]);
            } else if i < k {
                assert(r[j] == prev[j - 1]);
                assert(r[i] == prev[i]);
            } else if i == k {
                assert(r[j] == prev[j - 1]);
                assert(prev[k].memory_bytes < x.memory_bytes);
                if j - 1 > k {
                    assert(prev[k].memory_bytes >= prev[j - 1].memory_bytes);
                }
            } else {
                assert(r[j] == prev[j - 1]);
                assert(r[i] == prev[i - 1]);
            }
        }
    }
}

/// Ordering by memory neither loses nor adds a process.
pub proof fn lemma_by_memory_desc_permutation(s: Seq<ProcessReading>)
    ensures
        by_memory_desc(s).to_multiset() == s.to_multiset(),
    decreases s.len(),
{
    broadcast use vstd::seq_lib::group_to_multiset_ensures;
    if s.len() == 0 {
        assert(by_memory_desc(s) =~= s);
    } else {
        let prev = by_memory_desc(s.drop_last());
        let x = s.last();
        lemma_by_memory_desc_permutation(s.drop_last());
        lemma_first_below_range(prev, x.memory_bytes);
        let k = first_below(prev, x.memory_bytes);
        let r = prev.insert(k, x);
        assert(r.remove(k) =~= prev);
        assert(r[k] == x);
        assert(r.to_multiset().remove(x) =~= prev.to_multiset());
        assert(r.to_multiset().count(x) > 0) by {
            assert(r.contains(x));
        }
        assert(r.to_multiset() =~= prev.to_multiset().insert(x));
        assert(s.drop_last().push(x) =~= s);
        assert(s.to_multiset() =~= s.drop_last().to_multiset().insert(x));
    }
}

} // verus!
