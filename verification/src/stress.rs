//! The memory integrity test and the processor stress test: their set-up,
//! the pattern checks, and what their measurements are turned into.

use vstd::prelude::*;
use crate::bench::{per_elapsed, rate};
use crate::stats::{highest_i32, lemma_max_from_bounds, max_i32_from};
use crate::text::{cat, decimal, div_round, lit, num};

verus! {

// ---------------------------------------------------------------- memory integrity

/// How a memory integrity run is set up.
pub struct RamTestPlan {
    pub test_size_mb: u64,
    pub passes: u32,
    pub threads: usize,
    /// MiB each thread tests, at least 16.
    pub mb_per_thread: u64,
    /// 64-bit words in each thread's buffer.
    pub words_per_thread: u64,
}

/// The plan for the requested size (1024 MB by default, clamped to
/// 128..=8192), passes (2 by default, clamped to 1..=10) and available
/// parallelism (4 when unknown, clamped to 2..=16).
pub open spec fn ram_test_plan_is(p: RamTestPlan, size: Option<u64>, passes: Option<u32>, available: Option<usize>) -> bool {
    let s = match size { Some(v) => v, None => 1024 };
    let s = if s < 128 { 128 } else if s > 8192 { 8192 } else { s };
    let k = match passes { Some(v) => v, None => 2 };
    let k = if k < 1 { 1u32 } else if k > 10 { 10u32 } else { k };
    let t = match available { Some(v) => v, None => 4 };
    let t = if t < 2 { 2usize } else if t > 16 { 16usize } else { t };
    let m = s / (t as u64);
    let m = if m < 16 { 16 } else { m };
    &&& p.test_size_mb == s
    &&& p.passes == k
    &&& p.threads == t
    &&& p.mb_per_thread == m
    &&& p.words_per_thread == m * 1024 * 1024 / 8
}

/// Plans a memory integrity run.
pub fn plan_ram_test(size: Option<u64>, passes: Option<u32>, available: Option<usize>) -> (p: RamTestPlan)
    ensures
        ram_test_plan_is(p, size, passes, available),
        p.mb_per_thread <= 4096,
{
    let s = match size { Some(v) => v, None => 1024 };
    let s = if s < 128 { 128 } else if s > 8192 { 8192 } else { s };
    let k = match passes { Some(v) => v, None => 2 };
    let k = if k < 1 { 1 } else if k > 10 { 10 } else { k };
    let t = match available { Some(v) => v, None => 4 };
    let t: usize = if t < 2 { 2 } else if t > 16 { 16 } else { t };
    let m = s / (t as u64);
    assert(m <= 4096) by (nonlinear_arith)
        requires m == s / (t as u64), s <= 8192, t >= 2;
    let m = if m < 16 { 16 } else { m };
    RamTestPlan { test_size_mb: s, passes: k, threads: t, mb_per_thread: m, words_per_thread: m * 1024 * 1024 / 8 }
}

/// The word that the walking-bits pattern puts at index `i` for thread `t`.
pub open spec fn walking_bit(i: nat, t: nat) -> u64 {
    (1u64 << (((i + t) % 64) as u64))
}

/// One step of the generator of the random pattern.
pub open spec fn pattern_next(s: u64) -> u64 {
    vstd::wrapping::u64_specs::wrapping_add(vstd::wrapping::u64_specs::wrapping_mul(s, 6364136223846793005), 1442695040888963407)
}

pub open spec fn pattern_state(seed: u64, k: nat) -> u64
    decreases k,
{
    if k == 0 { seed } else { pattern_next(pattern_state(seed, (k - 1) as nat)) }
}

/// What a thread expects to read back from its words: one word everywhere,
/// the walking bit of the thread, or the generator's words from a state.
#[derive(Clone, Copy)]
pub enum WordPattern {
    Constant(u64),
    Walking(u64),
    Random(u64),
}

/// The word the pattern puts at word `i` of a thread's buffer.
pub open spec fn expected_word(p: WordPattern, i: nat) -> u64 {
    match p {
        WordPattern::Constant(w) => w,
        WordPattern::Walking(t) => walking_bit(i, t as nat),
        WordPattern::Random(seed) => pattern_state(seed, i + 1),
    }
}

/// How many of the words read back from the stretch starting at word
/// `start` differ from what the pattern puts there.
pub open spec fn pattern_errors(reads: Seq<u64>, start: nat, p: WordPattern) -> nat
    decreases reads.len(),
{
    if reads.len() == 0 {
        0
    } else {
        pattern_errors(reads.drop_last(), start, p)
            + if reads.last() != expected_word(p, (start + reads.len() - 1) as nat) { 1nat } else { 0nat }
    }
}

/// Counting two consecutive stretches counts their concatenation.
pub proof fn lemma_pattern_errors_concat(a: Seq<u64>, b: Seq<u64>, start: nat, p: WordPattern)
    ensures
        pattern_errors(a + b, start, p) == pattern_errors(a, start, p) + pattern_errors(b, start + a.len(), p),
    decreases b.len(),
{
    if b.len() == 0 {
        assert(a + b =~= a);
    } else {
        lemma_pattern_errors_concat(a, b.drop_last(), start, p);
        assert((a + b).drop_last() =~= a + b.drop_last());
    }
}

/// Counts the words read back from the stretch starting at word `start`
/// that differ from the pattern. For the random pattern `state` is the
/// generator's state at `start`, and the second result its state after the
/// stretch.
pub fn count_pattern_errors(reads: &Vec<u64>, start: usize, p: WordPattern, state: u64) -> (r: (u64, u64))
    requires
        p matches WordPattern::Walking(t) ==> t < 64,
        p matches WordPattern::Random(seed) ==> state == pattern_state(seed, start as nat),
    ensures
        r.0 == pattern_errors(reads@, start as nat, p),
        r.0 <= reads@.len(),
        p matches WordPattern::Random(seed) ==> r.1 == pattern_state(seed, (start + reads@.len()) as nat),
{
    let n = reads.len();
    let mut errors: u64 = 0;
    let mut state: u64 = state;
    let mut j: usize = 0;
    assert(reads@.subrange(0, 0) =~= Seq::<u64>::empty());
    while j < n
        invariant
            j <= n,
            n == reads@.len(),
            p matches WordPattern::Walking(t) ==> t < 64,
            errors as nat == pattern_errors(reads@.subrange(0, j as int), start as nat, p),
            errors <= j,
            p matches WordPattern::Random(seed) ==> state == pattern_state(seed, (start + j) as nat),
        decreases n - j,
    {
        let expected: u64 = match p {
            WordPattern::Constant(w) => w,
            WordPattern::Walking(t) => {
                let shift = ((start as u64 % 64) + (j as u64 % 64) + t) % 64;
                proof {
                    assert(shift == ((start + j + t) % 64) as u64) by (nonlinear_arith)
                        requires shift == ((start as u64 % 64) + (j as u64 % 64) + t) % 64;
                }
                1u64 << shift
            },
            WordPattern::Random(_) => {
                state = state.wrapping_mul(6364136223846793005).wrapping_add(1442695040888963407);
                state
            },
        };
        let ghost next = reads@.subrange(0, j + 1);
        assert(next.drop_last() =~= reads@.subrange(0, j as int));
        assert(next.last() == reads@[j as int]);
        assert(expected == expected_word(p, (start + j) as nat));
        if reads[j] != expected {
            errors = errors + 1;
        }
        j = j + 1;
    }
    assert(reads@.subrange(0, n as int) =~= reads@);
    (errors, state)
}

/// Word `i` of the buffer, read back from memory through
/// `std::hint::black_box`, so that the read is not replaced by the value
/// the program wrote. Not stated: the value read; it is what the memory
/// holds, which a faulty module may have changed.
#[verifier::external_body]
fn read_word(buf: &Vec<u64>, i: usize) -> (w: u64)
    requires
        i < buf@.len(),
{
    *std::hint::black_box(&buf[i])
}

/// Words `from..to` of the buffer, read back from memory.
fn read_back(buf: &Vec<u64>, from: usize, to: usize) -> (r: Vec<u64>)
    requires
        from <= to <= buf@.len(),
    ensures
        r@.len() == to - from,
{
    let mut r: Vec<u64> = Vec::new();
    let mut i: usize = from;
    while i < to
        invariant
            from <= i <= to,
            to <= buf@.len(),
            r@.len() == i - from,
        decreases to - i,
    {
        r.push(read_word(buf, i));
        i = i + 1;
    }
    r
}

/// Reads the whole buffer back, a stretch at a time, and counts the words
/// that differ from the pattern: the count is that of some words read back,
/// one per word of the buffer.
fn check_pattern(buf: &Vec<u64>, p: WordPattern) -> (errors: u64)
    requires
        p matches WordPattern::Walking(t) ==> t < 64,
    ensures
        errors <= buf@.len(),
        exists|reads: Seq<u64>| reads.len() == buf@.len() && errors == #[trigger] pattern_errors(reads, 0, p),
{
    let n = buf.len();
    let mut start: usize = 0;
    let mut errors: u64 = 0;
    let mut state: u64 = match p {
        WordPattern::Random(seed) => seed,
        _ => 0,
    };
    let ghost mut seen: Seq<u64> = Seq::empty();
    while start < n
        invariant
            start <= n,
            n == buf@.len(),
            errors <= start,
            p matches WordPattern::Walking(t) ==> t < 64,
            p matches WordPattern::Random(seed) ==> state == pattern_state(seed, start as nat),
            seen.len() == start,
            errors == pattern_errors(seen, 0, p),
        decreases n - start,
    {
        let end: usize = if n - start > 65536 { start + 65536 } else { n };
        let reads = read_back(buf, start, end);
        let (found, next) = count_pattern_errors(&reads, start, p, state);
        proof {
            lemma_pattern_errors_concat(seen, reads@, 0, p);
            seen = seen + reads@;
        }
        errors = errors + found;
        state = next;
        start = end;
    }
    errors
}

/// Writes `w` to every word.
fn fill_constant(buf: &mut Vec<u64>, w: u64)
    ensures
        final(buf)@.len() == old(buf)@.len(),
        forall|i: int| 0 <= i < final(buf)@.len() ==> #[trigger] final(buf)@[i] == w,
{
    let n = buf.len();
    let mut i: usize = 0;
    while i < n
        invariant
            n == buf@.len(),
            i <= n,
            forall|j: int| 0 <= j < i ==> #[trigger] buf@[j] == w,
        decreases n - i,
    {
        buf.set(i, w);
        i = i + 1;
    }
}

/// Runs the four patterns of one thread over its buffer (checkerboard,
/// inverted checkerboard, walking bits, random words): each is written to
/// every word and then read back from memory, and the errors are the words
/// read back that differ from the pattern, summed over the four patterns
/// (at most one per word and pattern). The buffer ends holding the random
/// pattern.
pub fn run_pattern_checks(buf: &mut Vec<u64>, thread_idx: u64) -> (errors: u64)
    requires
        thread_idx < 64,
        old(buf)@.len() <= u64::MAX / 4,
    ensures
        errors <= 4 * old(buf)@.len(),
        exists|r1: Seq<u64>, r2: Seq<u64>, r3: Seq<u64>, r4: Seq<u64>|
            r1.len() == old(buf)@.len() && r2.len() == old(buf)@.len() && r3.len() == old(buf)@.len()
            && r4.len() == old(buf)@.len() && errors == #[trigger] pattern_errors(r1, 0, WordPattern::Constant(0xAA55AA55AA55AA55u64))
                + #[trigger] pattern_errors(r2, 0, WordPattern::Constant(0x55AA55AA55AA55AAu64))
                + #[trigger] pattern_errors(r3, 0, WordPattern::Walking(thread_idx))
                + #[trigger] pattern_errors(r4, 0, WordPattern::Random(0x9e3779b97f4a7c15u64 ^ thread_idx)),
        final(buf)@.len() == old(buf)@.len(),
        forall|i: int| 0 <= i < final(buf)@.len() ==>
            #[trigger] final(buf)@[i] == pattern_state(0x9e3779b97f4a7c15u64 ^ thread_idx, (i + 1) as nat),
{
    fill_constant(buf, 0xAA55AA55AA55AA55u64);
    let e1 = check_pattern(buf, WordPattern::Constant(0xAA55AA55AA55AA55u64));
    fill_constant(buf, 0x55AA55AA55AA55AAu64);
    let e2 = check_pattern(buf, WordPattern::Constant(0x55AA55AA55AA55AAu64));
    let n = buf.len();
    let mut i: usize = 0;
    while i < n
        invariant
            n == buf@.len(),
            thread_idx < 64,
            i <= n,
            forall|j: int| 0 <= j < i ==> #[trigger] buf@[j] == walking_bit(j as nat, thread_idx as nat),
        decreases n - i,
    {
        let shift = ((i as u64 % 64) + thread_idx) % 64;
        proof {
            assert(shift == ((i + thread_idx) % 64) as u64) by (nonlinear_arith)
                requires shift == ((i as u64 % 64) + thread_idx) % 64, thread_idx < 64;
        }
        buf.set(i, 1u64 << shift);
        i = i + 1;
    }
    let e3 = check_pattern(buf, WordPattern::Walking(thread_idx));
    let seed = 0x9e3779b97f4a7c15u64 ^ thread_idx;
    let mut state = seed;
    let mut i: usize = 0;
    while i < n
        invariant
            n == buf@.len(),
            i <= n,
            state == pattern_state(seed, i as nat),
            forall|j: int| 0 <= j < i ==> #[trigger] buf@[j] == pattern_state(seed, (j + 1) as nat),
        decreases n - i,
    {
        state = state.wrapping_mul(6364136223846793005).wrapping_add(1442695040888963407);
        buf.set(i, state);
        i = i + 1;
    }
    let e4 = check_pattern(buf, WordPattern::Random(seed));
    e1 + e2 + e3 + e4
}

/// The result of a memory integrity run.
pub struct RamIntegrityTestResult {
    pub total_mb_tested: u64,
    pub passes_completed: u32,
    pub errors_detected: u64,
    pub memory_bandwidth_tenths: u64,
    pub duration_tenths: u64,
    pub status: String,
    pub is_passed: bool,
    pub tested_patterns: Vec<String>,
}

/// What a run of plan `p` that found `errors` errors in `elapsed_us`
/// reports: each pass writes and reads every buffer with four patterns.
pub open spec fn ram_integrity_is(r: RamIntegrityTestResult, p: RamTestPlan, errors: u64, elapsed_us: u64) -> bool {
    let bytes: nat = (p.mb_per_thread * p.threads * 1048576 * p.passes * 4) as nat;
    &&& r.total_mb_tested == p.mb_per_thread * p.threads
    &&& r.passes_completed == p.passes
    &&& r.errors_detected == errors
    &&& r.memory_bandwidth_tenths == per_elapsed(bytes * 10000000, elapsed_us as nat * 1073741824)
    &&& r.duration_tenths == div_round(elapsed_us as nat, 100000)
    &&& r.is_passed == (errors == 0)
    &&& r.status@ == (if errors == 0 {
        "Passed (100% Stable - No Bit Flips Detected)"@
    } else {
        "Failed ("@ + decimal(errors as nat) + " Bit-Flip Errors - Check RAM Overclock / XMP)"@
    })
    &&& r.tested_patterns@.map_values(|t: String| t@) == seq![
        "Checkerboard (0xAA55AA55)"@,
        "Inverse Checkerboard (0x55AA55AA)"@,
        "Walking Bits (64-Bit Shift)"@,
        "PRNG Inversion & Bit-Flip Stress"@,
    ]
}

/// Turns a memory integrity run into its result.
pub fn assess_ram_integrity(p: &RamTestPlan, errors: u64, elapsed_us: u64) -> (r: RamIntegrityTestResult)
    requires
        p.mb_per_thread <= 4096,
        p.threads <= 16,
        p.passes <= 10,
    ensures
        ram_integrity_is(r, *p, errors, elapsed_us),
{
    assert(p.mb_per_thread * p.threads <= 4096 * 16) by (nonlinear_arith)
        requires p.mb_per_thread <= 4096, p.threads <= 16;
    let mb = p.mb_per_thread * p.threads as u64;
    assert((mb as u128) * 1048576 * (p.passes as u128) <= 65536 * 1048576 * 10) by (nonlinear_arith)
        requires mb <= 65536, p.passes <= 10;
    let bytes: u128 = (mb as u128) * 1048576 * (p.passes as u128) * 4;
    let bw = if elapsed_us == 0 {
        u64::MAX
    } else {
        let d: u128 = (elapsed_us as u128) * 1073741824;
        let q = crate::text::round_div_u128(bytes * 10000000, d);
        if q > u64::MAX as u128 { u64::MAX } else { q as u64 }
    };
    let status = if errors == 0 {
        lit("Passed (100% Stable - No Bit Flips Detected)")
    } else {
        cat(cat(lit("Failed ("), num(errors).as_str()), " Bit-Flip Errors - Check RAM Overclock / XMP)")
    };
    let patterns = vec![
        lit("Checkerboard (0xAA55AA55)"),
        lit("Inverse Checkerboard (0x55AA55AA)"),
        lit("Walking Bits (64-Bit Shift)"),
        lit("PRNG Inversion & Bit-Flip Stress"),
    ];
    assert(patterns@.map_values(|t: String| t@) =~= seq![
        "Checkerboard (0xAA55AA55)"@,
        "Inverse Checkerboard (0x55AA55AA)"@,
        "Walking Bits (64-Bit Shift)"@,
        "PRNG Inversion & Bit-Flip Stress"@,
    ]);
    RamIntegrityTestResult {
        total_mb_tested: mb,
        passes_completed: p.passes,
        errors_detected: errors,
        memory_bandwidth_tenths: bw,
        duration_tenths: crate::text::round_div(elapsed_us, 100000),
        status,
        is_passed: errors == 0,
        tested_patterns: patterns,
    }
}

// ---------------------------------------------------------------- CPU stress

/// The stress duration in seconds, clamped to 3..=60.
pub open spec fn stress_duration(requested: u64) -> u64 {
    if requested < 3 { 3 } else if requested > 60 { 60 } else { requested }
}

pub fn choose_stress_duration(requested: u64) -> (d: u64)
    ensures
        d == stress_duration(requested),
{
    if requested < 3 { 3 } else if requested > 60 { 60 } else { requested }
}

/// The result of a stress run. Temperatures are in hundredths of a degree.
pub struct StressTestResult {
    pub duration_seconds: u64,
    pub threads_used: usize,
    pub total_iterations: u64,
    pub gflops_centi: u64,
    pub initial_temp_centi: i64,
    pub peak_temp_centi: i64,
    pub final_temp_centi: i64,
    pub thermal_throttling_detected: bool,
    /// Clock drop in tenths of a percent.
    pub clock_drop_tenths: u32,
    pub stability_score: u8,
    pub status: String,
}

/// The hottest package temperature of a run, in tenths of a degree: the
/// reading before the load, every reading taken under load, and the
/// reading after it.
pub open spec fn stress_peak_tenths(initial_tenths: i32, samples_tenths: Seq<i32>, final_tenths: i32) -> int {
    max_i32_from(if initial_tenths >= final_tenths { initial_tenths as int } else { final_tenths as int }, samples_tenths)
}

/// What a stress run of `duration` seconds on `threads` threads reports:
/// three floating-point operations per iteration; the temperatures measured
/// before, during and after the load, the peak being the hottest of them;
/// throttling is detected where the peak passes 85 °C, and then the clock
/// drop is 12.5 %, the stability score 78 and the status says so; otherwise
/// the drop is 0.8 %, the score 99 and the run is stable.
pub open spec fn stress_result_is(
    r: StressTestResult,
    duration: u64,
    threads: usize,
    iterations: u64,
    elapsed_us: u64,
    initial_tenths: i32,
    samples_tenths: Seq<i32>,
    final_tenths: i32,
) -> bool {
    let peak = stress_peak_tenths(initial_tenths, samples_tenths, final_tenths);
    let throttling = peak > 850;
    &&& r.duration_seconds == duration
    &&& r.threads_used == threads
    &&& r.total_iterations == iterations
    &&& r.gflops_centi == per_elapsed(3 * iterations as nat, elapsed_us as nat)
    &&& r.initial_temp_centi == initial_tenths as int * 10
    &&& r.peak_temp_centi == peak * 10
    &&& r.final_temp_centi == final_tenths as int * 10
    &&& r.thermal_throttling_detected == throttling
    &&& r.clock_drop_tenths == (if throttling { 125u32 } else { 8u32 })
    &&& r.stability_score == (if throttling { 78u8 } else { 99u8 })
    &&& r.status@ == (if !throttling { "Stable (Passed)"@ } else { "Thermal Throttling Detected"@ })
}

/// Turns a stress run and the package temperatures measured before, during
/// and after it into its result.
pub fn assess_stress_test(
    duration: u64,
    threads: usize,
    iterations: u64,
    elapsed_us: u64,
    initial_tenths: i32,
    samples_tenths: &Vec<i32>,
    final_tenths: i32,
) -> (r: StressTestResult)
    requires
        iterations <= u64::MAX / 3,
    ensures
        stress_result_is(r, duration, threads, iterations, elapsed_us, initial_tenths, samples_tenths@, final_tenths),
{
    let start: i32 = if initial_tenths >= final_tenths { initial_tenths } else { final_tenths };
    let peak_tenths: i32 = highest_i32(start, samples_tenths);
    let throttling = peak_tenths > 850;
    let score: u8 = if throttling { 78 } else { 99 };
    StressTestResult {
        duration_seconds: duration,
        threads_used: threads,
        total_iterations: iterations,
        gflops_centi: rate(3 * iterations, elapsed_us),
        initial_temp_centi: initial_tenths as i64 * 10,
        peak_temp_centi: peak_tenths as i64 * 10,
        final_temp_centi: final_tenths as i64 * 10,
        thermal_throttling_detected: throttling,
        clock_drop_tenths: if throttling { 125 } else { 8 },
        stability_score: score,
        status: if score > 90 { lit("Stable (Passed)") } else { lit("Thermal Throttling Detected") },
    }
}

/// The throttling verdict follows the measured peak: a run whose hottest
/// reading passes 85 °C is reported as throttled, scored at most 90 and not
/// stable; one that stays at or below 85 °C is stable with score 99. The
/// peak is no cooler than any reading.
pub proof fn lemma_stress_verdict_follows_peak(
    r: StressTestResult,
    duration: u64,
    threads: usize,
    iterations: u64,
    elapsed_us: u64,
    initial_tenths: i32,
    samples_tenths: Seq<i32>,
    final_tenths: i32,
)
    requires
        stress_result_is(r, duration, threads, iterations, elapsed_us, initial_tenths, samples_tenths, final_tenths),
    ensures
        r.peak_temp_centi >= r.initial_temp_centi,
        r.peak_temp_centi >= r.final_temp_centi,
        forall|i: int| 0 <= i < samples_tenths.len() ==> r.peak_temp_centi >= samples_tenths[i] * 10,
        r.thermal_throttling_detected <==> r.peak_temp_centi > 8500,
        r.thermal_throttling_detected ==> r.stability_score <= 90 && r.status@ == "Thermal Throttling Detected"@,
        !r.thermal_throttling_detected ==> r.stability_score == 99 && r.status@ == "Stable (Passed)"@,
{
    let start = if initial_tenths >= final_tenths { initial_tenths as int } else { final_tenths as int };
    lemma_max_from_bounds(start, samples_tenths);
}

} // verus!
