//! The CPU, storage and memory benchmarks: what a run is set up with, and
//! what its measurements are turned into.
//!
//! Rates are in tenths of their unit (MB/s, GB/s, ns), GFLOPS and the
//! access latency in hundredths, durations measured in microseconds.

use vstd::prelude::*;
use crate::model::StorageDriveMetrics;
use crate::text::{
    cat, contains, decimal, div_round, ends_with, has_prefix, has_sub, has_suffix, lit, starts_with,
    to_upper, trim, trim_by, trim_text, trimmed, uppercase,
};

verus! {

// ---------------------------------------------------------------- shared

/// `n / elapsed`, rounded, where an instantaneous measurement counts as
/// unbounded (`u64::MAX`).
pub open spec fn per_elapsed(n: nat, elapsed: nat) -> nat {
    if elapsed == 0 {
        u64::MAX as nat
    } else {
        let q = div_round(n, elapsed);
        if q > u64::MAX { u64::MAX as nat } else { q }
    }
}

/// Computes `per_elapsed` on machine integers.
pub fn rate(n: u64, elapsed: u64) -> (r: u64)
    ensures
        r == per_elapsed(n as nat, elapsed as nat),
{
    if elapsed == 0 {
        u64::MAX
    } else {
        let q: u128 = (2 * (n as u128) + elapsed as u128) / (2 * elapsed as u128);
        if q > u64::MAX as u128 { u64::MAX } else { q as u64 }
    }
}

// ---------------------------------------------------------------- CPU

/// A reference CPU of the comparison table: name, single-core and
/// multi-core score.
pub open spec fn reference_cpu(i: int) -> (Seq<char>, u32, u32) {
    if i == 0 {
        ("AMD Ryzen 5 3600 (6C/12T)"@, 512, 4120)
    } else if i == 1 {
        ("AMD Ryzen 5 5600X (6C/12T)"@, 638, 4950)
    } else if i == 2 {
        ("AMD Ryzen 7 5800X3D (8C/16T)"@, 655, 6420)
    } else if i == 3 {
        ("AMD Ryzen 7 7800X3D (8C/16T)"@, 735, 7850)
    } else if i == 4 {
        ("AMD Ryzen 9 7950X (16C/32T)"@, 780, 15600)
    } else if i == 5 {
        ("Intel Core i5-12400F (6C/12T)"@, 672, 5150)
    } else if i == 6 {
        ("Intel Core i5-13600K (14C/20T)"@, 835, 9850)
    } else {
        ("Intel Core i7-14700K (20C/28T)"@, 915, 14600)
    }
}

fn reference_cpu_at(i: usize) -> (r: (&'static str, u32, u32))
    requires
        i < 8,
    ensures
        r.0@ == reference_cpu(i as int).0,
        r.1 == reference_cpu(i as int).1,
        r.2 == reference_cpu(i as int).2,
        r.1 > 0,
        r.2 > 0,
{
    if i == 0 {
        ("AMD Ryzen 5 3600 (6C/12T)", 512, 4120)
    } else if i == 1 {
        ("AMD Ryzen 5 5600X (6C/12T)", 638, 4950)
    } else if i == 2 {
        ("AMD Ryzen 7 5800X3D (8C/16T)", 655, 6420)
    } else if i == 3 {
        ("AMD Ryzen 7 7800X3D (8C/16T)", 735, 7850)
    } else if i == 4 {
        ("AMD Ryzen 9 7950X (16C/32T)", 780, 15600)
    } else if i == 5 {
        ("Intel Core i5-12400F (6C/12T)", 672, 5150)
    } else if i == 6 {
        ("Intel Core i5-13600K (14C/20T)", 835, 9850)
    } else {
        ("Intel Core i7-14700K (20C/28T)", 915, 14600)
    }
}

/// How a measured CPU compares with a reference CPU.
pub struct CpuReferenceComparison {
    pub cpu_name: String,
    pub single_core_score: u32,
    pub multi_core_score: u32,
    /// Measured over reference single-core score, in tenths of a percent.
    pub single_relative_tenths: u64,
    pub multi_relative_tenths: u64,
}

/// The standard score of `ops` operations in `elapsed_us` microseconds:
/// 520 points per 18.2 million operations per second, rounded, saturating
/// at `u32::MAX`.
pub open spec fn cpu_score(ops: nat, elapsed_us: nat) -> u32 {
    if elapsed_us == 0 {
        if ops == 0 { 0 } else { u32::MAX }
    } else {
        let s = div_round(200 * ops, 7 * elapsed_us);
        if s > u32::MAX { u32::MAX } else { s as u32 }
    }
}

/// Computes the standard score.
pub fn compute_cpu_score(ops: u64, elapsed_us: u64) -> (s: u32)
    ensures
        s == cpu_score(ops as nat, elapsed_us as nat),
{
    if elapsed_us == 0 {
        if ops == 0 { 0 } else { u32::MAX }
    } else {
        let n: u128 = 200 * (ops as u128);
        let d: u128 = 7 * (elapsed_us as u128);
        let q: u128 = (2 * n + d) / (2 * d);
        if q > u32::MAX as u128 { u32::MAX } else { q as u32 }
    }
}

/// The rating tier of a multi-core score.
pub open spec fn cpu_rating_tier(multi: u32) -> Seq<char> {
    if multi >= 12000 {
        "Enthusiast / Heavy Production Class"@
    } else if multi >= 7000 {
        "High-End Gaming & Workstation Tier"@
    } else if multi >= 3800 {
        "Mainstream Performance Gaming Tier"@
    } else if multi >= 2000 {
        "Entry-Level / Casual Tier"@
    } else {
        "Basic Efficiency Tier"@
    }
}

/// Rates a multi-core score.
pub fn rate_cpu_tier(multi: u32) -> (t: String)
    ensures
        t@ == cpu_rating_tier(multi),
{
    if multi >= 12000 {
        lit("Enthusiast / Heavy Production Class")
    } else if multi >= 7000 {
        lit("High-End Gaming & Workstation Tier")
    } else if multi >= 3800 {
        lit("Mainstream Performance Gaming Tier")
    } else if multi >= 2000 {
        lit("Entry-Level / Casual Tier")
    } else {
        lit("Basic Efficiency Tier")
    }
}

/// The comparison with reference CPU `i`: the measured scores over the
/// reference scores, in tenths of a percent.
pub open spec fn reference_comparison_is(c: CpuReferenceComparison, i: int, single: u32, multi: u32) -> bool {
    let r = reference_cpu(i);
    &&& c.cpu_name@ == r.0
    &&& c.single_core_score == r.1
    &&& c.multi_core_score == r.2
    &&& c.single_relative_tenths == div_round(1000 * single as nat, r.1 as nat)
    &&& c.multi_relative_tenths == div_round(1000 * multi as nat, r.2 as nat)
}

/// Compares measured scores with the eight reference CPUs, in order.
pub fn compare_with_references(single: u32, multi: u32) -> (v: Vec<CpuReferenceComparison>)
    ensures
        v@.len() == 8,
        forall|i: int| 0 <= i < 8 ==> reference_comparison_is(#[trigger] v@[i], i, single, multi),
{
    let mut v: Vec<CpuReferenceComparison> = Vec::new();
    let mut i: usize = 0;
    while i < 8
        invariant
            i <= 8,
            v@.len() == i,
            forall|j: int| 0 <= j < i ==> reference_comparison_is(#[trigger] v@[j], j, single, multi),
        decreases 8 - i,
    {
        let (name, rs, rm) = reference_cpu_at(i);
        v.push(CpuReferenceComparison {
            cpu_name: lit(name),
            single_core_score: rs,
            multi_core_score: rm,
            single_relative_tenths: crate::text::round_div(1000 * single as u64, rs as u64),
            multi_relative_tenths: crate::text::round_div(1000 * multi as u64, rm as u64),
        });
        i = i + 1;
    }
    v
}

/// The result of a CPU benchmark run.
pub struct CpuBenchmarkResult {
    pub cpu_model: String,
    pub single_core_score: u32,
    pub multi_core_score: u32,
    /// Multi-core over single-core score, in tenths.
    pub multi_thread_ratio_tenths: u64,
    /// Throughput in hundredths of GFLOPS, three floating-point operations
    /// per counted operation.
    pub gflops_centi: u64,
    pub duration_seconds: u64,
    pub threads_used: usize,
    pub initial_temp_tenths: i32,
    pub peak_temp_tenths: i32,
    pub reference_comparisons: Vec<CpuReferenceComparison>,
    pub rating_tier: String,
}

/// What a CPU run reports: `single_ops` operations on one thread in
/// `single_us`, `multi_ops` on `threads` threads in `multi_us`, starting at
/// `initial_temp_tenths`; the peak is taken as 12 °C above the start, at
/// most 84 °C.
pub open spec fn cpu_result_is(
    r: CpuBenchmarkResult,
    cpu_model: Seq<char>,
    threads: usize,
    single_ops: u64,
    single_us: u64,
    multi_ops: u64,
    multi_us: u64,
    initial_temp_tenths: i32,
) -> bool {
    let single = cpu_score(single_ops as nat, single_us as nat);
    let multi = cpu_score(multi_ops as nat, multi_us as nat);
    &&& r.cpu_model@ == cpu_model
    &&& r.single_core_score == single
    &&& r.multi_core_score == multi
    &&& r.multi_thread_ratio_tenths == (if single > 0 { div_round(10 * multi as nat, single as nat) } else { 10 })
    &&& r.gflops_centi == per_elapsed(3 * multi_ops as nat, multi_us as nat)
    &&& r.duration_seconds == 6
    &&& r.threads_used == threads
    &&& r.initial_temp_tenths == initial_temp_tenths
    &&& r.peak_temp_tenths == (if initial_temp_tenths + 120 < 840 { initial_temp_tenths + 120 } else { 840 })
    &&& r.reference_comparisons@.len() == 8
    &&& forall|i: int| 0 <= i < 8 ==> reference_comparison_is(#[trigger] r.reference_comparisons@[i], i, single, multi)
    &&& r.rating_tier@ == cpu_rating_tier(multi)
}

/// Turns the operation counts of a CPU run into its result.
pub fn assess_cpu_benchmark(
    cpu_model: String,
    threads: usize,
    single_ops: u64,
    single_us: u64,
    multi_ops: u64,
    multi_us: u64,
    initial_temp_tenths: i32,
) -> (r: CpuBenchmarkResult)
    requires
        multi_ops <= u64::MAX / 3,
        initial_temp_tenths <= i32::MAX - 120,
    ensures
        cpu_result_is(r, cpu_model@, threads, single_ops, single_us, multi_ops, multi_us, initial_temp_tenths),
{
    let single = compute_cpu_score(single_ops, single_us);
    let multi = compute_cpu_score(multi_ops, multi_us);
    let ratio = if single > 0 { crate::text::round_div(10 * multi as u64, single as u64) } else { 10 };
    let gflops = rate(3 * multi_ops, multi_us);
    let peak = if initial_temp_tenths + 120 < 840 { initial_temp_tenths + 120 } else { 840 };
    let refs = compare_with_references(single, multi);
    let tier = rate_cpu_tier(multi);
    CpuBenchmarkResult {
        cpu_model,
        single_core_score: single,
        multi_core_score: multi,
        multi_thread_ratio_tenths: ratio,
        gflops_centi: gflops,
        duration_seconds: 6,
        threads_used: threads,
        initial_temp_tenths,
        peak_temp_tenths: peak,
        reference_comparisons: refs,
        rating_tier: tier,
    }
}


// ---------------------------------------------------------------- storage

/// The size of the test file in MB: 256 by default, clamped to 64..=2048.
pub open spec fn disk_test_size(requested: Option<u64>) -> u64 {
    let s = match requested { Some(v) => v, None => 256 };
    if s < 64 { 64 } else if s > 2048 { 2048 } else { s }
}

/// Chooses the test file size.
pub fn choose_disk_test_size(requested: Option<u64>) -> (s: u64)
    ensures
        s == disk_test_size(requested),
        64 <= s <= 2048,
{
    let s = match requested { Some(v) => v, None => 256 };
    if s < 64 { 64 } else if s > 2048 { 2048 } else { s }
}

/// "`model` (`bus`)" of a drive.
pub open spec fn drive_label(d: StorageDriveMetrics) -> Seq<char> {
    d.model@ + " ("@ + d.bus_type@ + ")"@
}

/// The drive model shown for a benchmark on `drive_path`: drive C: is the
/// first drive found, drive D: the third (or the second when there are only
/// two); any other volume is named by its path.
pub open spec fn disk_drive_model(drive_path: Seq<char>, drives: Seq<StorageDriveMetrics>) -> Seq<char> {
    let upper = uppercase(drive_path);
    if has_prefix(upper, "C:"@) {
        if drives.len() > 0 { drive_label(drives[0]) } else { "C: (Windows Drive)"@ }
    } else if has_prefix(upper, "D:"@) {
        if drives.len() >= 3 {
            drive_label(drives[2])
        } else if drives.len() >= 2 {
            drive_label(drives[1])
        } else {
            "D: (Secondary Drive)"@
        }
    } else {
        "Volume ("@ + drive_path + ")"@
    }
}

fn label_of(d: &StorageDriveMetrics) -> (l: String)
    ensures
        l@ == drive_label(*d),
{
    cat(cat(cat(d.model.clone(), " ("), d.bus_type.as_str()), ")")
}

/// Names the drive a benchmark runs on.
pub fn match_drive_model(drive_path: &str, drives: &Vec<StorageDriveMetrics>) -> (m: String)
    ensures
        m@ == disk_drive_model(drive_path@, drives@),
{
    let upper = to_upper(drive_path);
    if starts_with(upper.as_str(), "C:") {
        if drives.len() > 0 { label_of(&drives[0]) } else { lit("C: (Windows Drive)") }
    } else if starts_with(upper.as_str(), "D:") {
        if drives.len() >= 3 {
            label_of(&drives[2])
        } else if drives.len() >= 2 {
            label_of(&drives[1])
        } else {
            lit("D: (Secondary Drive)")
        }
    } else {
        cat(cat(lit("Volume ("), drive_path), ")")
    }
}

/// The byte pattern written sequentially: byte `i` of a block is the low
/// byte of `i ^ 0xAA`.
pub fn sequential_pattern(len: usize) -> (v: Vec<u8>)
    ensures
        v@.len() == len,
        forall|i: int| 0 <= i < len ==> #[trigger] v@[i] == ((i as usize ^ 0xAA) & 0xFF) as u8,
{
    let mut v: Vec<u8> = Vec::new();
    let mut i: usize = 0;
    while i < len
        invariant
            i <= len,
            v@.len() == i,
            forall|j: int| 0 <= j < i ==> #[trigger] v@[j] == ((j as usize ^ 0xAA) & 0xFF) as u8,
        decreases len - i,
    {
        v.push(((i ^ 0xAA) & 0xFF) as u8);
        i = i + 1;
    }
    v
}

/// One step of the 64-bit linear congruential generator that picks the
/// random blocks.
pub open spec fn lcg_next(s: u64) -> u64 {
    vstd::wrapping::u64_specs::wrapping_add(vstd::wrapping::u64_specs::wrapping_mul(s, 6364136223846793005), 1)
}

/// The generator's state after `k` steps from `seed`.
pub open spec fn lcg_state(seed: u64, k: nat) -> u64
    decreases k,
{
    if k == 0 { seed } else { lcg_next(lcg_state(seed, (k - 1) as nat)) }
}

/// The byte offsets of `count` random 4 KiB blocks among `blocks`: the
/// `k`-th is the generator's state after `k + 1` steps, modulo `blocks`,
/// times 4096.
pub fn random_block_offsets(seed: u64, count: usize, blocks: u64) -> (v: Vec<u64>)
    requires
        0 < blocks <= u64::MAX / 4096,
    ensures
        v@.len() == count,
        forall|k: int| 0 <= k < count ==> #[trigger] v@[k] == (lcg_state(seed, (k + 1) as nat) % blocks) * 4096,
{
    let mut v: Vec<u64> = Vec::new();
    let mut state = seed;
    let mut i: usize = 0;
    while i < count
        invariant
            i <= count,
            0 < blocks <= u64::MAX / 4096,
            v@.len() == i,
            state == lcg_state(seed, i as nat),
            forall|k: int| 0 <= k < i ==> #[trigger] v@[k] == (lcg_state(seed, (k + 1) as nat) % blocks) * 4096,
        decreases count - i,
    {
        state = state.wrapping_mul(6364136223846793005).wrapping_add(1);
        assert(state % blocks < blocks);
        v.push((state % blocks) * 4096);
        i = i + 1;
    }
    v
}

/// The blocks the random tests pick from: all 4 KiB blocks of the file but
/// the last.
pub open spec fn random_block_count(test_size_mb: u64) -> nat {
    (test_size_mb * 256 - 1) as nat
}

/// The class of a drive by its sequential read speed (tenths of MB/s).
pub open spec fn drive_tier(seq_read_tenths: nat) -> Seq<char> {
    if seq_read_tenths >= 45000 {
        "PCIe Gen4 / Gen5 NVMe (Ultra High-Speed)"@
    } else if seq_read_tenths >= 20000 {
        "PCIe Gen3 / Gen4 NVMe SSD"@
    } else if seq_read_tenths >= 8000 {
        "PCIe NVMe / High-Speed Flash"@
    } else if seq_read_tenths >= 3500 {
        "SATA III Solid State Drive (SSD)"@
    } else {
        "Mechanical HDD / External Storage"@
    }
}

/// Classifies a drive by its sequential read speed.
pub fn classify_drive_tier(seq_read_tenths: u64) -> (t: String)
    ensures
        t@ == drive_tier(seq_read_tenths as nat),
{
    if seq_read_tenths >= 45000 {
        lit("PCIe Gen4 / Gen5 NVMe (Ultra High-Speed)")
    } else if seq_read_tenths >= 20000 {
        lit("PCIe Gen3 / Gen4 NVMe SSD")
    } else if seq_read_tenths >= 8000 {
        lit("PCIe NVMe / High-Speed Flash")
    } else if seq_read_tenths >= 3500 {
        lit("SATA III Solid State Drive (SSD)")
    } else {
        lit("Mechanical HDD / External Storage")
    }
}

/// `x` scaled by `pct` percent and rounded, but at least `floor`.
pub open spec fn scaled_at_least(x: nat, pct: nat, floor: nat) -> nat {
    if pct * x >= 100 * floor { div_round(pct * x, 100) } else { floor }
}

fn scale_at_least(x: u64, pct: u64, floor: u64) -> (r: u64)
    requires
        pct <= 100,
    ensures
        r == scaled_at_least(x as nat, pct as nat, floor as nat),
{
    assert((pct as u128) * (x as u128) <= 100 * (u64::MAX as u128)) by (nonlinear_arith)
        requires pct <= 100, x <= u64::MAX;
    let n: u128 = (pct as u128) * (x as u128);
    if n >= 100 * (floor as u128) {
        let q: u128 = (2 * n + 100) / 200;
        assert(q <= x) by (nonlinear_arith)
            requires q == (2 * n + 100) / 200, n == pct * x, pct <= 100;
        q as u64
    } else {
        floor
    }
}

/// The result of a storage benchmark.
pub struct DiskSpeedTestResult {
    pub drive_letter: String,
    pub drive_model: String,
    pub test_size_mb: u64,
    pub seq_read_tenths: u64,
    pub seq_write_tenths: u64,
    pub seq_q1t1_read_tenths: u64,
    pub seq_q1t1_write_tenths: u64,
    pub random_4k_read_tenths: u64,
    pub random_4k_read_iops: u64,
    pub random_4k_write_tenths: u64,
    pub random_4k_write_iops: u64,
    pub random_4k_q1t1_read_tenths: u64,
    pub random_4k_q1t1_read_iops: u64,
    pub random_4k_q1t1_write_tenths: u64,
    pub random_4k_q1t1_write_iops: u64,
    /// Mean random-read access time in hundredths of a millisecond.
    pub access_latency_centi_ms: u64,
    pub drive_tier: String,
}

/// What a storage run reports: the file of `size` MB was written in
/// `write_us` and read in `read_us`; 1000 random 4 KiB reads took
/// `rand_read_us` and 500 random 4 KiB writes `rand_write_us`. Queue-depth-1
/// figures are fixed shares of the measured ones, with floors for the
/// random ones.
pub open spec fn disk_result_is(
    r: DiskSpeedTestResult,
    drive_path: Seq<char>,
    drive_model: Seq<char>,
    size: u64,
    write_us: u64,
    read_us: u64,
    rand_read_us: u64,
    rand_write_us: u64,
) -> bool {
    let seq_read = per_elapsed(size as nat * 10000000, read_us as nat);
    let seq_write = per_elapsed(size as nat * 10000000, write_us as nat);
    let rr = per_elapsed(39062500, rand_read_us as nat);
    let rr_iops = per_elapsed(1000000000, rand_read_us as nat);
    let rw = per_elapsed(19531250, rand_write_us as nat);
    let rw_iops = per_elapsed(500000000, rand_write_us as nat);
    &&& r.drive_letter@ == drive_path
    &&& r.drive_model@ == drive_model
    &&& r.test_size_mb == size
    &&& r.seq_read_tenths == seq_read
    &&& r.seq_write_tenths == seq_write
    &&& r.seq_q1t1_read_tenths == div_round(74 * seq_read, 100)
    &&& r.seq_q1t1_write_tenths == div_round(79 * seq_write, 100)
    &&& r.random_4k_read_tenths == rr
    &&& r.random_4k_read_iops == rr_iops
    &&& r.random_4k_write_tenths == rw
    &&& r.random_4k_write_iops == rw_iops
    &&& r.random_4k_q1t1_read_tenths == scaled_at_least(rr, 58, 150)
    &&& r.random_4k_q1t1_read_iops == scaled_at_least(rr_iops, 58, 3800)
    &&& r.random_4k_q1t1_write_tenths == scaled_at_least(rw, 65, 350)
    &&& r.random_4k_q1t1_write_iops == scaled_at_least(rw_iops, 65, 8500)
    &&& r.access_latency_centi_ms == div_round(rand_read_us as nat, 10000)
    &&& r.drive_tier@ == drive_tier(seq_read)
}

/// Turns the timings of a storage run into its result.
pub fn assess_disk_speed(
    drive_path: String,
    drive_model: String,
    size: u64,
    write_us: u64,
    read_us: u64,
    rand_read_us: u64,
    rand_write_us: u64,
) -> (r: DiskSpeedTestResult)
    requires
        size <= 2048,
    ensures
        disk_result_is(r, drive_path@, drive_model@, size, write_us, read_us, rand_read_us, rand_write_us),
{
    let seq_read = rate(size * 10000000, read_us);
    let seq_write = rate(size * 10000000, write_us);
    let rr = rate(39062500, rand_read_us);
    let rr_iops = rate(1000000000, rand_read_us);
    let rw = rate(19531250, rand_write_us);
    let rw_iops = rate(500000000, rand_write_us);
    let q_read = scale_at_least(seq_read, 74, 0);
    let q_write = scale_at_least(seq_write, 79, 0);
    let latency = crate::text::round_div(rand_read_us, 10000);
    let tier = classify_drive_tier(seq_read);
    DiskSpeedTestResult {
        drive_letter: drive_path,
        drive_model,
        test_size_mb: size,
        seq_read_tenths: seq_read,
        seq_write_tenths: seq_write,
        seq_q1t1_read_tenths: q_read,
        seq_q1t1_write_tenths: q_write,
        random_4k_read_tenths: rr,
        random_4k_read_iops: rr_iops,
        random_4k_write_tenths: rw,
        random_4k_write_iops: rw_iops,
        random_4k_q1t1_read_tenths: scale_at_least(rr, 58, 150),
        random_4k_q1t1_read_iops: scale_at_least(rr_iops, 58, 3800),
        random_4k_q1t1_write_tenths: scale_at_least(rw, 65, 350),
        random_4k_q1t1_write_iops: scale_at_least(rw_iops, 65, 8500),
        access_latency_centi_ms: latency,
        drive_tier: tier,
    }
}

// ---------------------------------------------------------------- memory

/// Worker threads of the memory benchmark: the available parallelism (4
/// when unknown), clamped to 2..=6.
pub open spec fn ram_threads(available: Option<usize>) -> usize {
    let n = match available { Some(n) => n, None => 4 };
    if n < 2 { 2 } else if n > 6 { 6 } else { n }
}

pub fn choose_ram_threads(available: Option<usize>) -> (n: usize)
    ensures
        n == ram_threads(available),
{
    let n = match available { Some(n) => n, None => 4 };
    if n < 2 { 2 } else if n > 6 { 6 } else { n }
}

/// The word written at index `i` of a bandwidth buffer.
pub open spec fn fill_word(i: u64) -> u64 {
    0x55AA55AA55AA55AAu64 ^ i
}

/// Fills a bandwidth buffer with its pattern.
pub fn fill_pattern(buf: &mut Vec<u64>)
    ensures
        final(buf)@.len() == old(buf)@.len(),
        forall|i: int| 0 <= i < final(buf)@.len() ==> #[trigger] final(buf)@[i] == fill_word(i as u64),
{
    let n = buf.len();
    let mut i: usize = 0;
    while i < n
        invariant
            n == buf@.len(),
            i <= n,
            forall|j: int| 0 <= j < i ==> #[trigger] buf@[j] == fill_word(j as u64),
        decreases n - i,
    {
        buf.set(i, 0x55AA55AA55AA55AAu64 ^ (i as u64));
        i = i + 1;
    }
}

/// One step of the generator that picks the latency probes.
pub open spec fn probe_next(s: usize) -> usize {
    vstd::wrapping::usize_specs::wrapping_add(vstd::wrapping::usize_specs::wrapping_mul(s, 1103515245), 12345)
}

pub open spec fn probe_state(k: nat) -> usize
    decreases k,
{
    if k == 0 { 123456789 } else { probe_next(probe_state((k - 1) as nat)) }
}

/// The indices the pointer-chasing latency test reads: the `k`-th is the
/// generator's state after `k + 1` steps, modulo `buffer_len - 1`.
pub fn latency_probe_indices(count: usize, buffer_len: usize) -> (v: Vec<usize>)
    requires
        buffer_len > 1,
    ensures
        v@.len() == count,
        forall|k: int| 0 <= k < count ==> #[trigger] v@[k] == probe_state((k + 1) as nat) % ((buffer_len - 1) as usize),
{
    let mut v: Vec<usize> = Vec::new();
    let mut seed: usize = 123456789;
    let mut i: usize = 0;
    while i < count
        invariant
            i <= count,
            buffer_len > 1,
            v@.len() == i,
            seed == probe_state(i as nat),
            forall|k: int| 0 <= k < i ==> #[trigger] v@[k] == probe_state((k + 1) as nat) % ((buffer_len - 1) as usize),
        decreases count - i,
    {
        seed = seed.wrapping_mul(1103515245).wrapping_add(12345);
        v.push(seed % (buffer_len - 1));
        i = i + 1;
    }
    v
}

/// The result of a memory benchmark.
pub struct RamBenchmarkResult {
    pub read_speed_tenths: u64,
    pub write_speed_tenths: u64,
    pub latency_tenths_ns: u64,
    pub score: u32,
    pub tier: String,
}

/// The memory score: 100 points per GB/s read and written, less 10 per
/// nanosecond of latency, at least 100.
pub open spec fn ram_score(read_tenths: nat, write_tenths: nat, latency_tenths: nat) -> u32 {
    let s = 10 * read_tenths + 10 * write_tenths - latency_tenths;
    if s < 100 { 100 } else if s > u32::MAX { u32::MAX } else { s as u32 }
}

/// The memory class by read bandwidth.
pub open spec fn ram_tier(read_tenths: nat) -> Seq<char> {
    if read_tenths >= 450 {
        "DDR5 High-Bandwidth Dual Channel"@
    } else if read_tenths >= 200 {
        "DDR4 High-Speed Dual Channel"@
    } else {
        "Standard Speed Memory"@
    }
}

/// What a memory run reports: `bytes` were written in `write_us` and read
/// in `read_us` (GiB per second), and `probes` random reads took `probe_ns`
/// nanoseconds in all.
pub open spec fn ram_result_is(r: RamBenchmarkResult, bytes: u64, write_us: u64, read_us: u64, probes: u64, probe_ns: u64) -> bool {
    let read = per_elapsed(bytes as nat * 10000000, read_us as nat * 1073741824);
    let write = per_elapsed(bytes as nat * 10000000, write_us as nat * 1073741824);
    let latency = per_elapsed(probe_ns as nat * 10, probes as nat);
    &&& r.read_speed_tenths == read
    &&& r.write_speed_tenths == write
    &&& r.latency_tenths_ns == latency
    &&& r.score == ram_score(read, write, latency)
    &&& r.tier@ == ram_tier(read)
}

fn wide_rate(n: u128, d: u128) -> (r: u64)
    requires
        n <= u128::MAX / 4,
        d <= u128::MAX / 4,
    ensures
        r == per_elapsed(n as nat, d as nat),
{
    if d == 0 {
        u64::MAX
    } else {
        let q = (2 * n + d) / (2 * d);
        if q > u64::MAX as u128 { u64::MAX } else { q as u64 }
    }
}

/// Turns the timings of a memory run into its result.
pub fn assess_ram_benchmark(bytes: u64, write_us: u64, read_us: u64, probes: u64, probe_ns: u64) -> (r: RamBenchmarkResult)
    ensures
        ram_result_is(r, bytes, write_us, read_us, probes, probe_ns),
{
    let read = wide_rate((bytes as u128) * 10000000, (read_us as u128) * 1073741824);
    let write = wide_rate((bytes as u128) * 10000000, (write_us as u128) * 1073741824);
    let latency = wide_rate((probe_ns as u128) * 10, probes as u128);
    let total: i128 = 10 * (read as i128) + 10 * (write as i128) - latency as i128;
    let score: u32 = if total < 100 { 100 } else if total > u32::MAX as i128 { u32::MAX } else { total as u32 };
    let tier = if read >= 450 {
        lit("DDR5 High-Bandwidth Dual Channel")
    } else if read >= 200 {
        lit("DDR4 High-Speed Dual Channel")
    } else {
        lit("Standard Speed Memory")
    };
    RamBenchmarkResult { read_speed_tenths: read, write_speed_tenths: write, latency_tenths_ns: latency, score, tier }
}


// ---------------------------------------------------------------- benchmark file

/// A drive path as typed: white space, then double quotes, then single
/// quotes trimmed from both ends.
pub open spec fn clean_drive_path(p: Seq<char>) -> Seq<char> {
    trimmed(trimmed(trim(p), false, '"'), false, '\'')
}

/// Cleans a drive path.
pub fn clean_drive(p: &str) -> (r: String)
    ensures
        r@ == clean_drive_path(p@),
{
    let a = trim_text(p);
    let b = trim_by(a.as_str(), false, '"');
    trim_by(b.as_str(), false, '\'')
}

/// The directory the benchmark file goes in, for a cleaned drive path that
/// is absolute or names a drive: the path itself, with a backslash added
/// unless it ends in a separator. `None` means the temporary directory.
pub open spec fn bench_root(clean: Seq<char>, is_absolute: bool) -> Option<Seq<char>> {
    if is_absolute || has_sub(clean, ":"@) {
        if has_suffix(clean, "\\"@) || has_suffix(clean, "/"@) {
            Some(clean)
        } else {
            Some(clean + "\\"@)
        }
    } else {
        None
    }
}

/// Chooses the directory of the benchmark file.
pub fn benchmark_root(clean: &str, is_absolute: bool) -> (r: Option<String>)
    ensures
        r matches Some(d) ==> bench_root(clean@, is_absolute) == Some(d@),
        r is None ==> bench_root(clean@, is_absolute) is None,
{
    if is_absolute || contains(clean, ":") {
        if ends_with(clean, "\\") || ends_with(clean, "/") {
            Some(lit(clean))
        } else {
            Some(cat(lit(clean), "\\"))
        }
    } else {
        None
    }
}


/// The results of a full benchmark of the machine.
pub struct FullSystemBenchmarkResult {
    pub cpu: CpuBenchmarkResult,
    pub disk: Option<DiskSpeedTestResult>,
    pub ram: RamBenchmarkResult,
    pub overall_pc_score: u32,
    pub tier_badge: String,
}

} // verus!
