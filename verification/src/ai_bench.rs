//! What the AI benchmark derives from a GPU's profile and measurements:
//! the device it targets, its precision classes and throughputs, the
//! projected model performance, the leaderboard, the composite score and
//! the tier.
//!
//! Throughputs are in hundredths of TFLOPS, bandwidths in hundredths of
//! GB/s, rates and times in tenths of their unit.

use vstd::prelude::*;
use crate::gpu::{gpu_profile, resolve_gpu_hardware_profile, GpuProfile};
use crate::stats::{highest_i32, max_i32_from, sum_i32, sum_u32, total_i32, total_u32};
use crate::model::GpuDeviceMetrics;
use crate::text::{
    cat, contains, decimal, div_round, div_round_even, div_round_signed, has_sub, lit, lowercase,
    num, num_usize, parse_unsigned, parse_usize, round_div, round_div_even, round_div_signed, round_div_u128,
    same_text, split_trimmed, split_trimmed_spec, first_line, first_line_of, parse_u64, tenths,
    tenths_text, to_lower,
};

verus! {

// ---------------------------------------------------------------- target

/// The (lower-case) target asks for all GPUs together.
pub open spec fn is_swarm_target(t: Seq<char>) -> bool {
    t == "all"@ || t == "combined"@ || t == "swarm"@
}

/// Does the target ask for the multi-GPU swarm?
pub fn is_swarm_mode(target_lower: &str) -> (b: bool)
    ensures
        b == is_swarm_target(target_lower@),
{
    same_text(target_lower, "all") || same_text(target_lower, "combined") || same_text(
        target_lower,
        "swarm",
    )
}

/// `i` is the last of the devices with the most video memory, the one
/// that `max_by_key` picks.
pub open spec fn is_last_max_vram(d: Seq<GpuDeviceMetrics>, i: int) -> bool {
    &&& 0 <= i < d.len()
    &&& forall|j: int| 0 <= j < d.len() ==> #[trigger] d[j].memory_total_mb <= d[i].memory_total_mb
    &&& forall|j: int| i < j < d.len() ==> #[trigger] d[j].memory_total_mb < d[i].memory_total_mb
}

/// The device that a single-GPU run measures: the one whose index the
/// target names (the first device when that index is out of range), else
/// the one with the most video memory.
pub fn select_target_gpu(target_lower: &str, devices: &Vec<GpuDeviceMetrics>) -> (r: Option<usize>)
    ensures
        devices@.len() == 0 ==> r is None,
        devices@.len() > 0 ==> match parse_unsigned(target_lower@, usize::MAX as nat) {
            Some(k) => r matches Some(i) && i == (if k < devices@.len() { k } else { 0 }),
            None => r matches Some(i) && is_last_max_vram(devices@, i as int),
        },
{
    if devices.len() == 0 {
        return None;
    }
    match parse_usize(target_lower) {
        Some(k) => {
            if k < devices.len() { Some(k) } else { Some(0) }
        },
        None => {
            let mut best: usize = 0;
            let mut i: usize = 1;
            while i < devices.len()
                invariant
                    0 < i <= devices@.len(),
                    best < i,
                    forall|j: int| 0 <= j < i ==> #[trigger] devices@[j].memory_total_mb
                        <= devices@[best as int].memory_total_mb,
                    forall|j: int| best < j < i ==> #[trigger] devices@[j].memory_total_mb
                        < devices@[best as int].memory_total_mb,
                decreases devices@.len() - i,
            {
                if devices[i].memory_total_mb >= devices[best].memory_total_mb {
                    best = i;
                }
                i = i + 1;
            }
            Some(best)
        },
    }
}

// ---------------------------------------------------------------- precision classes

/// Which precision features a GPU family has.
pub struct PrecisionClass {
    pub blackwell: bool,
    pub ada_or_newer: bool,
    pub turing_or_ampere: bool,
    pub rdna3: bool,
    pub intel_xmx: bool,
    pub apple: bool,
}

/// The precision classes of a GPU, from its lower-case model name, its
/// architecture and its vendor.
pub open spec fn precision_class_of(l: Seq<char>, architecture: Seq<char>, vendor: Seq<char>) -> PrecisionClass {
    let blackwell = has_sub(l, "5090"@) || has_sub(l, "5080"@) || has_sub(l, "5070"@);
    PrecisionClass {
        blackwell,
        ada_or_newer: blackwell || has_sub(l, "4090"@) || has_sub(l, "4080"@) || has_sub(l, "4070"@)
            || has_sub(l, "4060"@) || has_sub(l, "4050"@) || has_sub(architecture, "Ada"@),
        turing_or_ampere: has_sub(l, "3090"@) || has_sub(l, "3080"@) || has_sub(l, "3070"@)
            || has_sub(l, "3060"@) || has_sub(l, "3050"@) || has_sub(l, "2080"@) || has_sub(l, "2070"@)
            || has_sub(l, "2060"@) || has_sub(l, "a100"@) || has_sub(l, "a6000"@) || has_sub(l, "a5000"@)
            || has_sub(l, "a4000"@),
        rdna3: has_sub(l, "7900"@) || has_sub(l, "7800"@) || has_sub(l, "7700"@) || has_sub(l, "7600"@)
            || has_sub(l, "890m"@) || has_sub(l, "780m"@),
        intel_xmx: has_sub(l, "b580"@) || has_sub(l, "b570"@) || has_sub(l, "a770"@) || has_sub(l, "a750"@)
            || has_sub(l, "a580"@) || has_sub(l, "a380"@) || has_sub(l, "140v"@),
        apple: has_sub(l, "apple"@) || has_sub(vendor, "Apple"@),
    }
}

/// Classifies a GPU's precision features.
pub fn classify_precision(lower_name: &str, architecture: &str, vendor: &str) -> (c: PrecisionClass)
    ensures
        c == precision_class_of(lower_name@, architecture@, vendor@),
{
    let l = lower_name;
    let blackwell = contains(l, "5090") || contains(l, "5080") || contains(l, "5070");
    let ada_or_newer = blackwell || contains(l, "4090") || contains(l, "4080") || contains(l, "4070")
        || contains(l, "4060") || contains(l, "4050") || contains(architecture, "Ada");
    let turing_or_ampere = contains(l, "3090") || contains(l, "3080") || contains(l, "3070")
        || contains(l, "3060") || contains(l, "3050") || contains(l, "2080") || contains(l, "2070")
        || contains(l, "2060") || contains(l, "a100") || contains(l, "a6000") || contains(l, "a5000")
        || contains(l, "a4000");
    let rdna3 = contains(l, "7900") || contains(l, "7800") || contains(l, "7700") || contains(l, "7600")
        || contains(l, "890m") || contains(l, "780m");
    let intel_xmx = contains(l, "b580") || contains(l, "b570") || contains(l, "a770") || contains(l, "a750")
        || contains(l, "a580") || contains(l, "a380") || contains(l, "140v");
    let apple = contains(l, "apple") || contains(vendor, "Apple");
    PrecisionClass { blackwell, ada_or_newer, turing_or_ampere, rdna3, intel_xmx, apple }
}

/// The class has native half-precision throughput.
pub open spec fn doubles_fp16(c: PrecisionClass) -> bool {
    c.blackwell || c.ada_or_newer || c.turing_or_ampere || c.rdna3 || c.intel_xmx || c.apple
}

/// FP16 throughput: twice FP32 rounded to a tenth where the hardware has it,
/// else FP32 itself.
pub open spec fn fp16_centi(c: PrecisionClass, f: nat) -> nat {
    if doubles_fp16(c) { 10 * div_round(2 * f, 10) } else { f }
}

/// FP8 throughput, rounded to a tenth.
pub open spec fn fp8_centi(c: PrecisionClass, f: nat) -> nat {
    10 * (if c.blackwell {
        div_round(8 * f, 10)
    } else if c.ada_or_newer || c.intel_xmx {
        div_round(4 * f, 10)
    } else {
        div_round(15 * f, 100)
    })
}

/// INT4 / FP4 throughput, rounded to a tenth.
pub open spec fn int4_centi(c: PrecisionClass, f: nat) -> nat {
    10 * (if c.blackwell {
        div_round(16 * f, 10)
    } else if c.ada_or_newer || c.intel_xmx {
        div_round(8 * f, 10)
    } else if c.turing_or_ampere {
        div_round(4 * f, 10)
    } else {
        div_round(25 * f, 100)
    })
}

/// The FP16, FP8 and INT4 throughputs of a GPU of class `c` whose FP32
/// throughput is `fp32_centi`.
pub fn precision_throughputs(c: &PrecisionClass, fp32_centi: u64) -> (r: (u64, u64, u64))
    requires
        fp32_centi <= 10_000_000_000_000,
    ensures
        r.0 == fp16_centi(*c, fp32_centi as nat),
        r.1 == fp8_centi(*c, fp32_centi as nat),
        r.2 == int4_centi(*c, fp32_centi as nat),
{
    let f = fp32_centi;
    let fp16 = if c.blackwell || c.ada_or_newer || c.turing_or_ampere || c.rdna3 || c.intel_xmx || c.apple {
        10 * round_div(2 * f, 10)
    } else {
        f
    };
    let fp8 = if c.blackwell {
        10 * round_div(8 * f, 10)
    } else if c.ada_or_newer || c.intel_xmx {
        10 * round_div(4 * f, 10)
    } else {
        10 * round_div(15 * f, 100)
    };
    let int4 = if c.blackwell {
        10 * round_div(16 * f, 10)
    } else if c.ada_or_newer || c.intel_xmx {
        10 * round_div(8 * f, 10)
    } else if c.turing_or_ampere {
        10 * round_div(4 * f, 10)
    } else {
        10 * round_div(25 * f, 100)
    };
    (fp16, fp8, int4)
}

// ---------------------------------------------------------------- score and tier

/// The composite AI score: 300 per FP32 TFLOPS, 8 per GB/s of bandwidth
/// and 150 per GiB of video memory, rounded, saturating at `u32::MAX`.
pub open spec fn ai_composite_score(fp32_centi: nat, bandwidth_centi: nat, vram_mb: nat) -> nat {
    let s = div_round(38400 * fp32_centi + 1024 * bandwidth_centi + 1875 * vram_mb, 12800);
    if s > u32::MAX { u32::MAX as nat } else { s }
}

/// Computes the composite AI score.
pub fn compute_ai_composite_score(fp32_centi: u64, bandwidth_centi: u64, vram_mb: u64) -> (s: u32)
    ensures
        s == ai_composite_score(fp32_centi as nat, bandwidth_centi as nat, vram_mb as nat),
{
    let n: u128 = 38400 * (fp32_centi as u128) + 1024 * (bandwidth_centi as u128) + 1875 * (vram_mb as u128);
    let q: u128 = (2 * n + 12800) / 25600;
    if q > u32::MAX as u128 { u32::MAX } else { q as u32 }
}

/// The AI tier of a single GPU, by its video memory.
pub open spec fn ai_tier(vram_mb: nat) -> Seq<char> {
    if vram_mb >= 24576 {
        "Ultra AI Frontier / 70B Quantized Workstation"@
    } else if vram_mb >= 16384 {
        "Pro AI Enthusiast / High-VRAM Workstation"@
    } else if vram_mb >= 10240 {
        "Solid 8B / 14B Local AI Workstation"@
    } else if vram_mb >= 6144 {
        "Solid 7B/8B Local AI Accelerator"@
    } else if vram_mb >= 3072 {
        "Entry-Level AI & Compact Model Accelerator"@
    } else {
        "Lightweight AI / CPU-Offload Hybrid"@
    }
}

/// The recommendation shown with the tier; the 6–10 GiB tier quotes the
/// memory bandwidth with one decimal place.
pub open spec fn ai_recommendation(vram_mb: nat, bandwidth_centi: nat) -> Seq<char> {
    if vram_mb >= 24576 {
        "พร้อมรันโมเดลขนาดใหญ่ 32B-70B (Q4) และ Diffusion ความละเอียดสูง 100% บน VRAM"@
    } else if vram_mb >= 16384 {
        "รองรับการรันโมเดลขนาด 14B-32B (Q4_K_M) และโมเดลภาพ SDXL ได้อย่างลื่นไหล 100% บน VRAM"@
    } else if vram_mb >= 10240 {
        "รองรับ LLaMA-3 8B และ DeepSeek-R1 7B/14B พร้อม Context Window ขนาดใหญ่โดยไม่ต้อง Offload ลงแรมระบบ"@
    } else if vram_mb >= 6144 {
        "Memory Bandwidth "@ + tenths(div_round_even(bandwidth_centi, 10))
            + " GB/s ทำให้รัน DeepSeek-R1 7B และ LLaMA-3 8B (Q4_K_M) ได้อย่างลื่นไหลบน VRAM"@
    } else if vram_mb >= 3072 {
        "เหมาะสำหรับการรันโมเดลขนาดเล็ก 1.5B - 3B หรือโมเดล 7B (Q4) โดยมี Offload ลง RAM เล็กน้อย"@
    } else {
        "เหมาะสำหรับโมเดลขนาดกะทัดรัด 1.5B (GGUF) หรือเน้นใช้ CPU Inference ร่วมกับการประมวลผลกราฟิก"@
    }
}

/// The tier and recommendation of a single GPU.
pub fn classify_ai_tier(vram_mb: u64, bandwidth_centi: u64) -> (r: (String, String))
    ensures
        r.0@ == ai_tier(vram_mb as nat),
        r.1@ == ai_recommendation(vram_mb as nat, bandwidth_centi as nat),
{
    if vram_mb >= 24576 {
        (
            lit("Ultra AI Frontier / 70B Quantized Workstation"),
            lit("พร้อมรันโมเดลขนาดใหญ่ 32B-70B (Q4) และ Diffusion ความละเอียดสูง 100% บน VRAM"),
        )
    } else if vram_mb >= 16384 {
        (
            lit("Pro AI Enthusiast / High-VRAM Workstation"),
            lit("รองรับการรันโมเดลขนาด 14B-32B (Q4_K_M) และโมเดลภาพ SDXL ได้อย่างลื่นไหล 100% บน VRAM"),
        )
    } else if vram_mb >= 10240 {
        (
            lit("Solid 8B / 14B Local AI Workstation"),
            lit("รองรับ LLaMA-3 8B และ DeepSeek-R1 7B/14B พร้อม Context Window ขนาดใหญ่โดยไม่ต้อง Offload ลงแรมระบบ"),
        )
    } else if vram_mb >= 6144 {
        let bw = tenths_text(round_div_even(bandwidth_centi, 10));
        let m = cat(lit("Memory Bandwidth "), bw.as_str());
        let m = cat(m, " GB/s ทำให้รัน DeepSeek-R1 7B และ LLaMA-3 8B (Q4_K_M) ได้อย่างลื่นไหลบน VRAM");
        (lit("Solid 7B/8B Local AI Accelerator"), m)
    } else if vram_mb >= 3072 {
        (
            lit("Entry-Level AI & Compact Model Accelerator"),
            lit("เหมาะสำหรับการรันโมเดลขนาดเล็ก 1.5B - 3B หรือโมเดล 7B (Q4) โดยมี Offload ลง RAM เล็กน้อย"),
        )
    } else {
        (
            lit("Lightweight AI / CPU-Offload Hybrid"),
            lit("เหมาะสำหรับโมเดลขนาดกะทัดรัด 1.5B (GGUF) หรือเน้นใช้ CPU Inference ร่วมกับการประมวลผลกราฟิก"),
        )
    }
}


// ---------------------------------------------------------------- model projections

/// The language models projected: name, parameter count, quantisation,
/// file size in hundredths of GB, context window and compute intensity in
/// hundredths. The swarm projection credits some models with more
/// intensity and context.
pub open spec fn llm_model(i: int, swarm: bool) -> (Seq<char>, Seq<char>, Seq<char>, nat, u32, nat) {
    if i == 0 {
        ("DeepSeek-R1 1.5B"@, "1.5B"@, "Q8_0 (8-bit)"@, 185, 32768, 130)
    } else if i == 1 {
        ("DeepSeek-R1 7B"@, "7B"@, "Q4_K_M (4-bit)"@, 462, 8192, if swarm { 105 } else { 100 })
    } else if i == 2 {
        ("LLaMA-3.1 8B"@, "8B"@, "Q4_K_M (4-bit)"@, 498, 8192, if swarm { 105 } else { 100 })
    } else if i == 3 {
        ("Mistral 7B Instruct"@, "7B"@, "Q4_K_M (4-bit)"@, 441, 8192, if swarm { 110 } else { 105 })
    } else if i == 4 {
        ("DeepSeek-R1 14B"@, "14B"@, "Q4_K_M (4-bit)"@, 920, if swarm { 8192 } else { 4096 }, if swarm { 100 } else { 90 })
    } else {
        ("LLaMA-3.1 70B"@, "70B"@, "Q4_K_M (4-bit)"@, 3980, if swarm { 4096 } else { 2048 }, if swarm { 95 } else { 75 })
    }
}

fn llm_model_at(i: usize, swarm: bool) -> (r: (&'static str, &'static str, &'static str, u64, u32, u64))
    requires
        i < 6,
    ensures
        r.0@ == llm_model(i as int, swarm).0,
        r.1@ == llm_model(i as int, swarm).1,
        r.2@ == llm_model(i as int, swarm).2,
        r.3 == llm_model(i as int, swarm).3,
        r.4 == llm_model(i as int, swarm).4,
        r.5 == llm_model(i as int, swarm).5,
        185 <= r.3 <= 3980,
        r.5 <= 130,
{
    if i == 0 {
        ("DeepSeek-R1 1.5B", "1.5B", "Q8_0 (8-bit)", 185, 32768, 130)
    } else if i == 1 {
        ("DeepSeek-R1 7B", "7B", "Q4_K_M (4-bit)", 462, 8192, if swarm { 105 } else { 100 })
    } else if i == 2 {
        ("LLaMA-3.1 8B", "8B", "Q4_K_M (4-bit)", 498, 8192, if swarm { 105 } else { 100 })
    } else if i == 3 {
        ("Mistral 7B Instruct", "7B", "Q4_K_M (4-bit)", 441, 8192, if swarm { 110 } else { 105 })
    } else if i == 4 {
        ("DeepSeek-R1 14B", "14B", "Q4_K_M (4-bit)", 920, if swarm { 8192 } else { 4096 }, if swarm { 100 } else { 90 })
    } else {
        ("LLaMA-3.1 70B", "70B", "Q4_K_M (4-bit)", 3980, if swarm { 4096 } else { 2048 }, if swarm { 95 } else { 75 })
    }
}

/// The model fits when its size is at most 92% of the video memory
/// (the rest is kept for the display).
pub open spec fn llm_fits(size_centi: nat, vram_mb: nat) -> bool {
    size_centi * 1024 <= vram_mb * 92
}

/// The share of a model that does not fit, as a fraction over
/// `offload_den`, capped at 95%.
pub open spec fn offload_num(size_centi: nat, vram_mb: nat) -> nat {
    let d = 1024 * size_centi;
    let over = (d - 92 * vram_mb) as nat;
    if 100 * over <= 95 * d { 100 * over } else { 95 * d }
}

pub open spec fn offload_den(size_centi: nat) -> nat {
    102400 * size_centi
}

/// The decode efficiency in ten-thousandths: a share of the compute
/// intensity, clamped.
pub open spec fn llm_efficiency(swarm: bool, intensity_centi: nat) -> nat {
    let raw = if swarm { 32 * intensity_centi } else { 28 * intensity_centi };
    let lo: nat = if swarm { 2000 } else { 1500 };
    let hi: nat = if swarm { 7500 } else { 6500 };
    if raw < lo { lo } else if raw > hi { hi } else { raw }
}

/// Tokens per second in tenths: the bandwidth the model is read with,
/// blended with 38 GB/s of system memory for the offloaded share, over the
/// model size, times the efficiency.
pub open spec fn llm_tokens_tenths(swarm: bool, size_centi: nat, intensity_centi: nat, bandwidth_centi: nat, vram_mb: nat) -> nat {
    let e = llm_efficiency(swarm, intensity_centi);
    if llm_fits(size_centi, vram_mb) {
        div_round(bandwidth_centi * e, size_centi * 1000)
    } else {
        let num = offload_num(size_centi, vram_mb);
        let den = offload_den(size_centi);
        div_round(
            (bandwidth_centi * ((den - num) as nat) + 3800 * num) * e,
            den * size_centi * 1000,
        )
    }
}

/// Time to first token in tenths of a millisecond.
pub open spec fn llm_ttft_tenths(swarm: bool, size_centi: nat, fp32_centi: nat) -> nat {
    if swarm {
        div_round(size_centi * 1400, if fp32_centi < 100 { 100 } else { fp32_centi })
    } else {
        div_round(size_centi * 1600, if fp32_centi < 50 { 50 } else { fp32_centi })
    }
}

/// The suitability tag of a projection.
pub open spec fn llm_suitability(swarm: bool, size_centi: nat, vram_mb: nat) -> Seq<char> {
    if llm_fits(size_centi, vram_mb) {
        if swarm { "Optimal (100% Pooled VRAM Swarm)"@ } else { "Optimal (100% GPU VRAM)"@ }
    } else if swarm {
        "Acceptable (Partial System RAM Offload)"@
    } else if offload_num(size_centi, vram_mb) * 100 < 35 * offload_den(size_centi) {
        "Acceptable (Partial DDR RAM Offload)"@
    } else {
        "Slow (Heavy System RAM Offload)"@
    }
}

/// How a language model is projected to run on the GPU.
pub struct LlmModelInferenceProfile {
    pub model_name: String,
    pub parameter_count: String,
    pub quantization: String,
    pub vram_required_mb: u64,
    pub fits_in_vram: bool,
    /// Offloaded share in tenths of a percent.
    pub offload_to_ram_pct_tenths: u64,
    pub estimated_tokens_per_sec_tenths: u64,
    pub time_to_first_token_ms_tenths: u64,
    pub context_window_supported: u32,
    pub suitability_tag: String,
}

/// `p` is the projection of model `i` on a GPU with the given bandwidth,
/// video memory and FP32 throughput.
pub open spec fn llm_projection_is(
    p: LlmModelInferenceProfile,
    i: int,
    swarm: bool,
    bandwidth_centi: nat,
    vram_mb: nat,
    fp32_centi: nat,
) -> bool {
    let m = llm_model(i, swarm);
    let fits = llm_fits(m.3, vram_mb);
    &&& p.model_name@ == m.0
    &&& p.parameter_count@ == m.1
    &&& p.quantization@ == m.2
    &&& p.vram_required_mb == div_round(m.3 * 1024, 100)
    &&& p.fits_in_vram == fits
    &&& p.offload_to_ram_pct_tenths == (if fits { 0 } else {
        div_round(1000 * offload_num(m.3, vram_mb), offload_den(m.3))
    })
    &&& p.estimated_tokens_per_sec_tenths == llm_tokens_tenths(swarm, m.3, m.5, bandwidth_centi, vram_mb)
    &&& p.time_to_first_token_ms_tenths == llm_ttft_tenths(swarm, m.3, fp32_centi)
    &&& p.context_window_supported == m.4
    &&& p.suitability_tag@ == llm_suitability(swarm, m.3, vram_mb)
}

proof fn lemma_div_round_le(n: nat, d: nat, m: nat)
    requires
        d > 0,
        n <= m * d,
    ensures
        div_round(n, d) <= m,
{
    assert((2 * n + d) / (2 * d) <= m) by (nonlinear_arith)
        requires
            d > 0,
            n <= m * d,
    ;
}

/// Projects model `i` onto a GPU.
pub fn project_llm(i: usize, swarm: bool, bandwidth_centi: u64, vram_mb: u64, fp32_centi: u64) -> (p: LlmModelInferenceProfile)
    requires
        i < 6,
    ensures
        llm_projection_is(p, i as int, swarm, bandwidth_centi as nat, vram_mb as nat, fp32_centi as nat),
{
    let (name, params, quant, size, ctx, intensity) = llm_model_at(i, swarm);
    let fits = (size as u128) * 1024 <= (vram_mb as u128) * 92;
    let raw: u64 = if swarm { 32 * intensity } else { 28 * intensity };
    let lo: u64 = if swarm { 2000 } else { 1500 };
    let hi: u64 = if swarm { 7500 } else { 6500 };
    let e: u64 = if raw < lo { lo } else if raw > hi { hi } else { raw };
    let bw = bandwidth_centi as u128;
    let big: u64 = if bandwidth_centi > 3800 { bandwidth_centi } else { 3800 };
    let (offload, tokens, tag) = if fits {
        assert(bw * (e as u128) <= (u64::MAX as u128) * 7500) by (nonlinear_arith)
            requires
                bw <= u64::MAX,
                e <= 7500,
        ;
        let n = bw * (e as u128);
        let d = (size as u128) * 1000;
        assert(n <= bw * d) by (nonlinear_arith)
            requires
                n == bw * e,
                d == size * 1000,
                e <= 7500,
                size >= 185,
        ;
        proof {
            lemma_div_round_le(n as nat, d as nat, bandwidth_centi as nat);
        }
        let t = round_div_u128(n, d);
        let tag = if swarm { lit("Optimal (100% Pooled VRAM Swarm)") } else { lit("Optimal (100% GPU VRAM)") };
        (0u64, t as u64, tag)
    } else {
        let dd: u128 = 1024 * (size as u128);
        let over: u128 = dd - 92 * (vram_mb as u128);
        let num: u128 = if 100 * over <= 95 * dd { 100 * over } else { 95 * dd };
        let den: u128 = 102400 * (size as u128);
        let pct = round_div_u128(1000 * num, den);
        proof {
            lemma_div_round_le((1000 * num) as nat, den as nat, 1000);
        }
        assert(bw * (den - num) <= (u64::MAX as u128) * 407552000) by (nonlinear_arith)
            requires
                bw <= u64::MAX,
                den - num <= 407552000,
        ;
        let blended: u128 = bw * (den - num) + 3800 * num;
        assert(blended <= (big as u128) * den) by (nonlinear_arith)
            requires
                blended == bw * (den - num) + 3800 * num,
                num <= den,
                bw <= big,
                3800 <= big,
        ;
        assert(blended * (e as u128) <= (u64::MAX as u128) * 407552000 * 7500) by (nonlinear_arith)
            requires
                blended <= big * den,
                big <= u64::MAX,
                den <= 407552000,
                e <= 7500,
        ;
        let n: u128 = blended * (e as u128);
        let d: u128 = den * (size as u128) * 1000;
        assert(n <= (big as u128) * d) by (nonlinear_arith)
            requires
                n == blended * e,
                blended <= big * den,
                d == den * size * 1000,
                e <= 7500,
                size >= 185,
        ;
        proof {
            lemma_div_round_le(n as nat, d as nat, big as nat);
        }
        let t = round_div_u128(n, d);
        let tag = if swarm {
            lit("Acceptable (Partial System RAM Offload)")
        } else if num * 100 < 35 * den {
            lit("Acceptable (Partial DDR RAM Offload)")
        } else {
            lit("Slow (Heavy System RAM Offload)")
        };
        (pct as u64, t as u64, tag)
    };
    let ttft = if swarm {
        round_div(size * 1400, if fp32_centi < 100 { 100 } else { fp32_centi })
    } else {
        round_div(size * 1600, if fp32_centi < 50 { 50 } else { fp32_centi })
    };
    LlmModelInferenceProfile {
        model_name: lit(name),
        parameter_count: lit(params),
        quantization: lit(quant),
        vram_required_mb: round_div(size * 1024, 100),
        fits_in_vram: fits,
        offload_to_ram_pct_tenths: offload,
        estimated_tokens_per_sec_tenths: tokens,
        time_to_first_token_ms_tenths: ttft,
        context_window_supported: ctx,
        suitability_tag: tag,
    }
}

/// The projections of all six models, in order.
pub fn project_llms(swarm: bool, bandwidth_centi: u64, vram_mb: u64, fp32_centi: u64) -> (v: Vec<LlmModelInferenceProfile>)
    ensures
        v@.len() == 6,
        forall|i: int| 0 <= i < 6 ==> llm_projection_is(#[trigger] v@[i], i, swarm, bandwidth_centi as nat, vram_mb as nat, fp32_centi as nat),
{
    let mut v: Vec<LlmModelInferenceProfile> = Vec::new();
    let mut i: usize = 0;
    while i < 6
        invariant
            i <= 6,
            v@.len() == i,
            forall|j: int| 0 <= j < i ==> llm_projection_is(#[trigger] v@[j], j, swarm, bandwidth_centi as nat, vram_mb as nat, fp32_centi as nat),
        decreases 6 - i,
    {
        v.push(project_llm(i, swarm, bandwidth_centi, vram_mb, fp32_centi));
        i = i + 1;
    }
    v
}


// ---------------------------------------------------------------- diffusion projections

/// The image and audio models projected: name, resolution, video memory
/// needed, throughput factor in hundredths per TFLOPS, and steps.
pub open spec fn diffusion_model(i: int, swarm: bool) -> (Seq<char>, Seq<char>, u64, nat, u32) {
    if i == 0 {
        (if swarm { "Stable Diffusion 1.5 (Parallel Batch)"@ } else { "Stable Diffusion 1.5"@ },
            "512 x 512 (20 Steps)"@, 3200, 71, 20)
    } else if i == 1 {
        (if swarm { "SDXL Turbo (Parallel Batch)"@ } else { "SDXL Turbo"@ },
            "1024 x 1024 (4 Steps)"@, 5600, 26, 4)
    } else {
        (if swarm { "Whisper Voice AI (Parallel Batch)"@ } else { "Whisper Voice AI (Medium)"@ },
            "Audio Transcription"@, 1600, 140, 1)
    }
}

fn diffusion_model_at(i: usize, swarm: bool) -> (r: (&'static str, &'static str, u64, u64, u32))
    requires
        i < 3,
    ensures
        r.0@ == diffusion_model(i as int, swarm).0,
        r.1@ == diffusion_model(i as int, swarm).1,
        r.2 == diffusion_model(i as int, swarm).2,
        r.3 == diffusion_model(i as int, swarm).3,
        r.4 == diffusion_model(i as int, swarm).4,
        1 <= r.3 <= 140,
        1 <= r.4 <= 20,
{
    if i == 0 {
        (if swarm { "Stable Diffusion 1.5 (Parallel Batch)" } else { "Stable Diffusion 1.5" },
            "512 x 512 (20 Steps)", 3200, 71, 20)
    } else if i == 1 {
        (if swarm { "SDXL Turbo (Parallel Batch)" } else { "SDXL Turbo" },
            "1024 x 1024 (4 Steps)", 5600, 26, 4)
    } else {
        (if swarm { "Whisper Voice AI (Parallel Batch)" } else { "Whisper Voice AI (Medium)" },
            "Audio Transcription", 1600, 140, 1)
    }
}

/// How an image or audio model is projected to run on the GPU.
pub struct DiffusionModelProfile {
    pub model_name: String,
    pub resolution: String,
    pub vram_required_mb: u64,
    pub fits_in_vram: bool,
    pub iterations_per_sec_tenths: u64,
    pub time_per_image_sec_tenths: u64,
    pub recommended_steps: u32,
}

/// `p` is the projection of model `i`: iterations per second are the FP32
/// throughput times the model's factor; the time per image is the steps
/// over that rate, with the throughput taken as at least 0.5 TFLOPS.
pub open spec fn diffusion_projection_is(p: DiffusionModelProfile, i: int, swarm: bool, vram_mb: nat, fp32_centi: nat) -> bool {
    let m = diffusion_model(i, swarm);
    let f = if fp32_centi < 50 { 50 } else { fp32_centi };
    &&& p.model_name@ == m.0
    &&& p.resolution@ == m.1
    &&& p.vram_required_mb == m.2
    &&& p.fits_in_vram == (m.2 <= vram_mb)
    &&& p.iterations_per_sec_tenths == div_round(fp32_centi * m.3, 1000)
    &&& p.time_per_image_sec_tenths == div_round((m.4 * 100000) as nat, f * m.3)
    &&& p.recommended_steps == m.4
}

/// Projects image or audio model `i` onto a GPU.
pub fn project_diffusion(i: usize, swarm: bool, vram_mb: u64, fp32_centi: u64) -> (p: DiffusionModelProfile)
    requires
        i < 3,
        fp32_centi <= 10_000_000_000_000,
    ensures
        diffusion_projection_is(p, i as int, swarm, vram_mb as nat, fp32_centi as nat),
{
    let (name, resolution, need, factor, steps) = diffusion_model_at(i, swarm);
    let f = if fp32_centi < 50 { 50 } else { fp32_centi };
    DiffusionModelProfile {
        model_name: lit(name),
        resolution: lit(resolution),
        vram_required_mb: need,
        fits_in_vram: need <= vram_mb,
        iterations_per_sec_tenths: round_div(fp32_centi * factor, 1000),
        time_per_image_sec_tenths: round_div(steps as u64 * 100000, f * factor),
        recommended_steps: steps,
    }
}

/// The projections of the three image and audio models, in order.
pub fn project_diffusions(swarm: bool, vram_mb: u64, fp32_centi: u64) -> (v: Vec<DiffusionModelProfile>)
    requires
        fp32_centi <= 10_000_000_000_000,
    ensures
        v@.len() == 3,
        forall|i: int| 0 <= i < 3 ==> diffusion_projection_is(#[trigger] v@[i], i, swarm, vram_mb as nat, fp32_centi as nat),
{
    let mut v: Vec<DiffusionModelProfile> = Vec::new();
    let mut i: usize = 0;
    while i < 3
        invariant
            i <= 3,
            v@.len() == i,
            fp32_centi <= 10_000_000_000_000,
            forall|j: int| 0 <= j < i ==> diffusion_projection_is(#[trigger] v@[j], j, swarm, vram_mb as nat, fp32_centi as nat),
        decreases 3 - i,
    {
        v.push(project_diffusion(i, swarm, vram_mb, fp32_centi));
        i = i + 1;
    }
    v
}

// ---------------------------------------------------------------- precision rows

/// Throughput at one precision.
pub struct PrecisionComputeThroughput {
    pub precision: String,
    pub tflops_centi: u64,
    pub native_hardware_support: bool,
    pub acceleration_type: String,
    pub typical_use_cases: String,
}

pub open spec fn precision_row_is(
    r: PrecisionComputeThroughput,
    precision: Seq<char>,
    tflops_centi: nat,
    native: bool,
    acceleration: Seq<char>,
    uses: Seq<char>,
) -> bool {
    &&& r.precision@ == precision
    &&& r.tflops_centi == tflops_centi
    &&& r.native_hardware_support == native
    &&& r.acceleration_type@ == acceleration
    &&& r.typical_use_cases@ == uses
}

fn precision_row(
    precision: &str,
    tflops_centi: u64,
    native: bool,
    acceleration: String,
    uses: &str,
) -> (r: PrecisionComputeThroughput)
    ensures
        precision_row_is(r, precision@, tflops_centi as nat, native, acceleration@, uses@),
{
    PrecisionComputeThroughput {
        precision: lit(precision),
        tflops_centi,
        native_hardware_support: native,
        acceleration_type: acceleration,
        typical_use_cases: lit(uses),
    }
}

/// The four precision rows of a single GPU of class `c`.
pub open spec fn single_precision_rows_are(
    v: Seq<PrecisionComputeThroughput>,
    c: PrecisionClass,
    architecture: Seq<char>,
    fp32_centi: nat,
) -> bool {
    let tensor = c.ada_or_newer || c.turing_or_ampere || c.intel_xmx;
    &&& v.len() == 4
    &&& precision_row_is(v[0], "FP32 (Single Precision 32-bit)"@, fp32_centi, true,
        "Native Compute Shaders ("@ + architecture + ")"@,
        "3D Rendering, Scientific Simulation, Legacy Neural Weights"@)
    &&& precision_row_is(v[1], "FP16 / BF16 (Half Precision 16-bit)"@, fp16_centi(c, fp32_centi),
        c.ada_or_newer || c.turing_or_ampere || c.rdna3 || c.intel_xmx || c.apple,
        if tensor { "Native Tensor / XMX Matrix Cores"@ }
        else if c.apple || c.rdna3 { "Hardware Dual-Issue FP16 AI Engine"@ }
        else { "CUDA/Compute Core Emulation (FP32 Accumulator)"@ },
        "AI Training, Computer Vision, Audio Models (Whisper)"@)
    &&& precision_row_is(v[2], "FP8 (8-bit Float E4M3/E5M2)"@, fp8_centi(c, fp32_centi),
        c.ada_or_newer || c.intel_xmx,
        if c.ada_or_newer { "Native 4th/5th Gen Tensor Cores (Transformer Engine)"@ }
        else if c.intel_xmx { "Native Intel Xe Matrix Extension (XMX FP8)"@ }
        else { "Quantized 8-bit Execution Profile (GGUF Q8_0)"@ },
        "Modern LLM Serving (DeepSeek-V3, vLLM, TensorRT-LLM)"@)
    &&& precision_row_is(v[3], "INT4 / FP4 (4-bit Microscaling)"@, int4_centi(c, fp32_centi),
        c.blackwell,
        if c.blackwell { "Native 5th Gen NVFP4 Tensor Core Engine"@ }
        else { "Dequantized 4-bit Kernel Stream (GGUF Q4_K_M / AWQ)"@ },
        "Local LLM Inference (DeepSeek-R1 7B, LLaMA-3 8B)"@)
}

/// The precision rows of a single GPU.
pub fn single_precision_rows(c: &PrecisionClass, architecture: &str, fp32_centi: u64) -> (v: Vec<PrecisionComputeThroughput>)
    requires
        fp32_centi <= 10_000_000_000_000,
    ensures
        single_precision_rows_are(v@, *c, architecture@, fp32_centi as nat),
{
    let (fp16, fp8, int4) = precision_throughputs(c, fp32_centi);
    let tensor = c.ada_or_newer || c.turing_or_ampere || c.intel_xmx;
    let a0 = cat(cat(lit("Native Compute Shaders ("), architecture), ")");
    let r0 = precision_row("FP32 (Single Precision 32-bit)", fp32_centi, true, a0,
        "3D Rendering, Scientific Simulation, Legacy Neural Weights");
    let a1 = if tensor {
        lit("Native Tensor / XMX Matrix Cores")
    } else if c.apple || c.rdna3 {
        lit("Hardware Dual-Issue FP16 AI Engine")
    } else {
        lit("CUDA/Compute Core Emulation (FP32 Accumulator)")
    };
    let r1 = precision_row("FP16 / BF16 (Half Precision 16-bit)", fp16,
        c.ada_or_newer || c.turing_or_ampere || c.rdna3 || c.intel_xmx || c.apple, a1,
        "AI Training, Computer Vision, Audio Models (Whisper)");
    let a2 = if c.ada_or_newer {
        lit("Native 4th/5th Gen Tensor Cores (Transformer Engine)")
    } else if c.intel_xmx {
        lit("Native Intel Xe Matrix Extension (XMX FP8)")
    } else {
        lit("Quantized 8-bit Execution Profile (GGUF Q8_0)")
    };
    let r2 = precision_row("FP8 (8-bit Float E4M3/E5M2)", fp8, c.ada_or_newer || c.intel_xmx, a2,
        "Modern LLM Serving (DeepSeek-V3, vLLM, TensorRT-LLM)");
    let a3 = if c.blackwell {
        lit("Native 5th Gen NVFP4 Tensor Core Engine")
    } else {
        lit("Dequantized 4-bit Kernel Stream (GGUF Q4_K_M / AWQ)")
    };
    let r3 = precision_row("INT4 / FP4 (4-bit Microscaling)", int4, c.blackwell, a3,
        "Local LLM Inference (DeepSeek-R1 7B, LLaMA-3 8B)");
    let v = vec![r0, r1, r2, r3];
    assert(v@[0] == r0 && v@[1] == r1 && v@[2] == r2 && v@[3] == r3);
    v
}

/// The four precision rows of the swarm.
pub open spec fn swarm_precision_rows_are(
    v: Seq<PrecisionComputeThroughput>,
    cores: u32,
    efficiency_pct: u32,
    fp32_centi: nat,
) -> bool {
    &&& v.len() == 4
    &&& precision_row_is(v[0], "FP32 (Single Precision 32-bit)"@, fp32_centi, true,
        "Multi-Device Shaders ("@ + decimal(cores as nat) + " Combined Cores)"@,
        "Distributed 3D Rendering, Distributed Physical Simulations"@)
    &&& precision_row_is(v[1], "FP16 / BF16 (Half Precision 16-bit)"@, 2 * fp32_centi, true,
        "Multi-GPU Tensor Parallel Engine ("@ + decimal(efficiency_pct as nat) + "% Interconnect Efficiency)"@,
        "Multi-GPU LLM Fine-tuning & High-Throughput Batch Serving"@)
    &&& precision_row_is(v[2], "FP8 (8-bit Float Transformer Engine)"@, 4 * fp32_centi, true,
        "Distributed Quantized FP8 Stream Pipeline"@,
        "Modern Distributed LLM Serving (DeepSeek-V3, vLLM TP)"@)
    &&& precision_row_is(v[3], "INT4 / FP4 (4-bit Microscaling)"@, 8 * fp32_centi, false,
        "Multi-GPU Distributed GGUF / AWQ Kernel"@,
        "Ultra-Fast 70B Local LLM Inference across Pooled VRAM"@)
}

/// The precision rows of the swarm.
pub fn swarm_precision_rows(cores: u32, efficiency_pct: u32, fp32_centi: u64) -> (v: Vec<PrecisionComputeThroughput>)
    requires
        fp32_centi <= 10_000_000_000_000,
    ensures
        swarm_precision_rows_are(v@, cores, efficiency_pct, fp32_centi as nat),
{
    let a0 = cat(cat(lit("Multi-Device Shaders ("), num(cores as u64).as_str()), " Combined Cores)");
    let r0 = precision_row("FP32 (Single Precision 32-bit)", fp32_centi, true, a0,
        "Distributed 3D Rendering, Distributed Physical Simulations");
    let a1 = cat(cat(lit("Multi-GPU Tensor Parallel Engine ("), num(efficiency_pct as u64).as_str()),
        "% Interconnect Efficiency)");
    let r1 = precision_row("FP16 / BF16 (Half Precision 16-bit)", 2 * fp32_centi, true, a1,
        "Multi-GPU LLM Fine-tuning & High-Throughput Batch Serving");
    let r2 = precision_row("FP8 (8-bit Float Transformer Engine)", 4 * fp32_centi, true,
        lit("Distributed Quantized FP8 Stream Pipeline"),
        "Modern Distributed LLM Serving (DeepSeek-V3, vLLM TP)");
    let r3 = precision_row("INT4 / FP4 (4-bit Microscaling)", 8 * fp32_centi, false,
        lit("Multi-GPU Distributed GGUF / AWQ Kernel"),
        "Ultra-Fast 70B Local LLM Inference across Pooled VRAM");
    let v = vec![r0, r1, r2, r3];
    assert(v@[0] == r0 && v@[1] == r1 && v@[2] == r2 && v@[3] == r3);
    v
}

// ---------------------------------------------------------------- leaderboard

/// One entry of the AI leaderboard.
pub struct GpuAiComparisonItem {
    pub gpu_name: String,
    pub architecture: String,
    pub vram_gb: u32,
    pub bandwidth_centi: u64,
    pub fp16_centi: u64,
    pub llama8b_tok_s_tenths: u64,
    pub is_current_gpu: bool,
}

pub open spec fn comparison_is(
    c: GpuAiComparisonItem,
    name: Seq<char>,
    architecture: Seq<char>,
    vram_gb: u32,
    bandwidth_centi: u64,
    fp16_centi: u64,
    tok_tenths: u64,
    current: bool,
) -> bool {
    &&& c.gpu_name@ == name
    &&& c.architecture@ == architecture
    &&& c.vram_gb == vram_gb
    &&& c.bandwidth_centi == bandwidth_centi
    &&& c.fp16_centi == fp16_centi
    &&& c.llama8b_tok_s_tenths == tok_tenths
    &&& c.is_current_gpu == current
}

/// The reference GPUs of the leaderboard: name, architecture, video memory
/// in GiB, bandwidth, FP16 throughput and LLaMA-3.1 8B tokens per second.
pub open spec fn reference_gpu(i: int) -> (Seq<char>, Seq<char>, u32, u64, u64, u64) {
    if i == 0 {
        ("NVIDIA GeForce RTX 4090"@, "Ada Lovelace (AD102)"@, 24, 100800, 16516, 885)
    } else if i == 1 {
        ("NVIDIA GeForce RTX 4070"@, "Ada Lovelace (AD104)"@, 12, 50420, 5830, 428)
    } else if i == 2 {
        ("NVIDIA GeForce RTX 3060"@, "Ampere (GA106)"@, 12, 36000, 1274, 195)
    } else if i == 3 {
        ("Intel Arc A770"@, "Xe-HPG Alchemist"@, 16, 56000, 3920, 294)
    } else if i == 4 {
        ("Apple M3 Max"@, "Apple Silicon (36GB Unified)"@, 36, 40000, 3580, 325)
    } else {
        ("NVIDIA GeForce GTX 1080 Ti"@, "Pascal (GP102)"@, 11, 48440, 1134, 243)
    }
}

pub open spec fn is_reference(c: GpuAiComparisonItem, i: int) -> bool {
    let r = reference_gpu(i);
    comparison_is(c, r.0, r.1, r.2, r.3, r.4, r.5, false)
}

/// Leaderboard entry of reference GPU `i`.
pub fn reference_entry(i: usize) -> (c: GpuAiComparisonItem)
    requires
        i < 6,
    ensures
        is_reference(c, i as int),
{
    let (name, arch, vram, bw, fp16, tok): (&str, &str, u32, u64, u64, u64) = if i == 0 {
        ("NVIDIA GeForce RTX 4090", "Ada Lovelace (AD102)", 24, 100800, 16516, 885)
    } else if i == 1 {
        ("NVIDIA GeForce RTX 4070", "Ada Lovelace (AD104)", 12, 50420, 5830, 428)
    } else if i == 2 {
        ("NVIDIA GeForce RTX 3060", "Ampere (GA106)", 12, 36000, 1274, 195)
    } else if i == 3 {
        ("Intel Arc A770", "Xe-HPG Alchemist", 16, 56000, 3920, 294)
    } else if i == 4 {
        ("Apple M3 Max", "Apple Silicon (36GB Unified)", 36, 40000, 3580, 325)
    } else {
        ("NVIDIA GeForce GTX 1080 Ti", "Pascal (GP102)", 11, 48440, 1134, 243)
    };
    GpuAiComparisonItem {
        gpu_name: lit(name),
        architecture: lit(arch),
        vram_gb: vram,
        bandwidth_centi: bw,
        fp16_centi: fp16,
        llama8b_tok_s_tenths: tok,
        is_current_gpu: false,
    }
}

/// The leaderboard: the measured GPU first, then the references (all six
/// for a single GPU; the RTX 4090, RTX 4070, M3 Max and Arc A770 for the
/// swarm).
pub open spec fn leaderboard_is(v: Seq<GpuAiComparisonItem>, current: GpuAiComparisonItem, swarm: bool) -> bool {
    if swarm {
        &&& v.len() == 5
        &&& v[0] == current
        &&& is_reference(v[1], 0) && is_reference(v[2], 1)
        &&& is_reference(v[3], 4) && is_reference(v[4], 3)
    } else {
        &&& v.len() == 7
        &&& v[0] == current
        &&& forall|i: int| 1 <= i < 7 ==> is_reference(#[trigger] v[i], i - 1)
    }
}

/// Builds the leaderboard around the measured GPU's entry.
pub fn build_leaderboard(current: GpuAiComparisonItem, swarm: bool) -> (v: Vec<GpuAiComparisonItem>)
    ensures
        leaderboard_is(v@, current, swarm),
{
    let ghost cur = current;
    let mut v: Vec<GpuAiComparisonItem> = Vec::new();
    v.push(current);
    if swarm {
        v.push(reference_entry(0));
        v.push(reference_entry(1));
        v.push(reference_entry(4));
        v.push(reference_entry(3));
    } else {
        let mut i: usize = 0;
        while i < 6
            invariant
                i <= 6,
                v@.len() == i + 1,
                v@[0] == cur,
                forall|j: int| 1 <= j < i + 1 ==> is_reference(#[trigger] v@[j], j - 1),
            decreases 6 - i,
        {
            v.push(reference_entry(i));
            i = i + 1;
        }
    }
    v
}


// ---------------------------------------------------------------- run plan

/// How a benchmark run is set up.
pub struct GpuBenchmarkPlan {
    /// Seconds of sustained load.
    pub duration_secs: u64,
    /// All GPUs together.
    pub swarm: bool,
    /// The device a single-GPU run measures.
    pub target_index: Option<usize>,
}

/// Plans a run: five seconds by default, clamped to 3..=120; the swarm when
/// the target asks for all GPUs and there is more than one; otherwise the
/// device that `select_target_gpu` picks.
pub fn plan_gpu_benchmark(duration_secs: Option<u64>, target_lower: &str, devices: &Vec<GpuDeviceMetrics>) -> (p: GpuBenchmarkPlan)
    ensures
        p.duration_secs == (match duration_secs {
            Some(d) => if d < 3 { 3 } else if d > 120 { 120 } else { d },
            None => 5,
        }),
        p.swarm == (is_swarm_target(target_lower@) && devices@.len() > 1),
        !p.swarm ==> (devices@.len() == 0 ==> p.target_index is None),
        !p.swarm && devices@.len() > 0 ==> match parse_unsigned(target_lower@, usize::MAX as nat) {
            Some(k) => p.target_index matches Some(i) && i == (if k < devices@.len() { k } else { 0 }),
            None => p.target_index matches Some(i) && is_last_max_vram(devices@, i as int),
        },
        p.swarm ==> p.target_index is None,
{
    let d = match duration_secs {
        Some(d) => if d < 3 { 3 } else if d > 120 { 120 } else { d },
        None => 5,
    };
    let swarm = is_swarm_mode(target_lower) && devices.len() > 1;
    let target_index = if swarm { None } else { select_target_gpu(target_lower, devices) };
    GpuBenchmarkPlan { duration_secs: d, swarm, target_index }
}

/// "`name` (`memory` MB)" for each device.
pub fn device_labels(devices: &Vec<GpuDeviceMetrics>) -> (v: Vec<String>)
    ensures
        v@.len() == devices@.len(),
        forall|i: int| 0 <= i < v@.len() ==> (#[trigger] v@[i])@ == devices@[i].name@ + " ("@
            + decimal(devices@[i].memory_total_mb as nat) + " MB)"@,
{
    let mut v: Vec<String> = Vec::new();
    let mut i: usize = 0;
    while i < devices.len()
        invariant
            i <= devices@.len(),
            v@.len() == i,
            forall|j: int| 0 <= j < i ==> (#[trigger] v@[j])@ == devices@[j].name@ + " ("@
                + decimal(devices@[j].memory_total_mb as nat) + " MB)"@,
        decreases devices@.len() - i,
    {
        let d = &devices[i];
        let l = cat(cat(cat(d.name.clone(), " ("), num(d.memory_total_mb).as_str()), " MB)");
        v.push(l);
        i = i + 1;
    }
    v
}

// ---------------------------------------------------------------- measurements

/// Average time of one GEMM pass, in tenths of a millisecond, from the total
/// time in microseconds.
pub open spec fn gemm_time_tenths(passes: nat, total_us: nat) -> nat {
    div_round(total_us, (if passes < 1 { 1 } else { passes }) * 100)
}

/// Work done, in tenths of GFLOP: each pass multiplies two 512 x 512
/// matrices, 2 * 512^3 floating-point operations.
pub open spec fn gemm_work_tenths(passes: nat) -> nat {
    div_round(passes * 268435456, 100000000)
}

/// The GEMM figures of a run.
pub fn gemm_figures(passes: u64, total_us: u64) -> (r: (u64, u64))
    requires
        passes <= u64::MAX / 3,
    ensures
        r.0 == gemm_time_tenths(passes as nat, total_us as nat),
        r.1 == gemm_work_tenths(passes as nat),
{
    let p = if passes < 1 { 1 } else { passes };
    let t = round_div_u128(total_us as u128, (p as u128) * 100);
    assert(total_us <= total_us * (p * 100)) by (nonlinear_arith)
        requires p >= 1;
    proof {
        lemma_div_round_le(total_us as nat, (p * 100) as nat, total_us as nat);
    }
    let n = (passes as u128) * 268435456;
    let w = round_div_u128(n, 100000000);
    proof {
        lemma_div_round_le(n as nat, 100000000, (3 * passes) as nat);
    }
    (t as u64, w as u64)
}

// ---------------------------------------------------------------- swarm

/// Running totals over the devices of a swarm.
pub struct SwarmTotals {
    pub vram_total: nat,
    pub vram_used: nat,
    pub temp_sum: int,
    pub power_sum: nat,
    pub power_count: nat,
    pub cores: nat,
    pub bus: nat,
    pub bandwidth: nat,
    pub fp32: nat,
}

pub open spec fn swarm_totals(d: Seq<GpuDeviceMetrics>) -> SwarmTotals
    decreases d.len(),
{
    if d.len() == 0 {
        SwarmTotals { vram_total: 0, vram_used: 0, temp_sum: 0, power_sum: 0, power_count: 0, cores: 0, bus: 0, bandwidth: 0, fp32: 0 }
    } else {
        let t = swarm_totals(d.drop_last());
        let g = d.last();
        let p = gpu_profile(g.name@, g.memory_total_mb, g.vendor@);
        SwarmTotals {
            vram_total: t.vram_total + g.memory_total_mb as nat,
            vram_used: t.vram_used + g.memory_used_mb as nat,
            temp_sum: t.temp_sum + g.temperature_tenths,
            power_sum: t.power_sum + match g.power_usage_watts_tenths { Some(w) => w as nat, None => 0 },
            power_count: t.power_count + if g.power_usage_watts_tenths is Some { 1nat } else { 0nat },
            cores: t.cores + p.compute_cores as nat,
            bus: t.bus + p.memory_bus_width_bits as nat,
            bandwidth: t.bandwidth + p.memory_bandwidth_centi as nat,
            fp32: t.fp32 + p.fp32_tflops_centi as nat,
        }
    }
}

proof fn lemma_totals_prefix(d: Seq<GpuDeviceMetrics>, i: int)
    requires
        0 <= i <= d.len(),
    ensures
        swarm_totals(d.subrange(0, i)).vram_total <= swarm_totals(d).vram_total,
        swarm_totals(d.subrange(0, i)).vram_used <= swarm_totals(d).vram_used,
    decreases d.len() - i,
{
    if i < d.len() {
        lemma_totals_prefix(d, i + 1);
        assert(d.subrange(0, i + 1).drop_last() =~= d.subrange(0, i));
    } else {
        assert(d.subrange(0, i) =~= d);
    }
}

/// The totals over a swarm's devices.
pub struct SwarmAggregate {
    pub vram_total_mb: u64,
    pub vram_used_mb: u64,
    pub temp_sum_tenths: i64,
    pub power_sum_tenths: u64,
    pub power_count: u64,
    pub compute_cores: u32,
    pub memory_bus_width_bits: u32,
    pub bandwidth_centi: u64,
    pub fp32_centi: u64,
}

pub open spec fn aggregate_matches(a: SwarmAggregate, t: SwarmTotals) -> bool {
    &&& a.vram_total_mb == t.vram_total
    &&& a.vram_used_mb == t.vram_used
    &&& a.temp_sum_tenths == t.temp_sum
    &&& a.power_sum_tenths == t.power_sum
    &&& a.power_count == t.power_count
    &&& a.compute_cores == t.cores
    &&& a.memory_bus_width_bits == t.bus
    &&& a.bandwidth_centi == t.bandwidth
    &&& a.fp32_centi == t.fp32
}

/// The devices a swarm can add up: the memory totals fit in 64 bits and
/// the core count fits in 32 bits for any mix of models.
pub open spec fn swarm_fits(d: Seq<GpuDeviceMetrics>) -> bool {
    &&& d.len() <= 174762
    &&& swarm_totals(d).vram_total <= u64::MAX
    &&& swarm_totals(d).vram_used <= u64::MAX
}

/// Whether a swarm is within the limits its aggregation is written for: at
/// most 174 762 devices, and video-memory totals that fit a `u64`.
pub fn swarm_within_limits(devices: &Vec<GpuDeviceMetrics>) -> (b: bool)
    ensures
        b == swarm_fits(devices@),
{
    let n = devices.len();
    if n > 174762 {
        return false;
    }
    let mut total: u128 = 0;
    let mut used: u128 = 0;
    let mut i: usize = 0;
    assert(devices@.subrange(0, 0) =~= Seq::<GpuDeviceMetrics>::empty());
    while i < n
        invariant
            i <= n,
            n == devices@.len(),
            n <= 174762,
            total == swarm_totals(devices@.subrange(0, i as int)).vram_total,
            used == swarm_totals(devices@.subrange(0, i as int)).vram_used,
            total <= i * 18446744073709551615,
            used <= i * 18446744073709551615,
        decreases n - i,
    {
        let ghost next = devices@.subrange(0, i + 1);
        assert(next.drop_last() =~= devices@.subrange(0, i as int));
        assert(next.last() == devices@[i as int]);
        total = total + devices[i].memory_total_mb as u128;
        used = used + devices[i].memory_used_mb as u128;
        i = i + 1;
    }
    assert(devices@.subrange(0, n as int) =~= devices@);
    total <= u64::MAX as u128 && used <= u64::MAX as u128
}

/// Adds up the devices of a swarm, each with its resolved profile.
pub fn aggregate_swarm(devices: &Vec<GpuDeviceMetrics>) -> (a: SwarmAggregate)
    requires
        swarm_fits(devices@),
    ensures
        aggregate_matches(a, swarm_totals(devices@)),
        a.fp32_centi <= 13000 * devices@.len(),
        a.bandwidth_centi <= 335000 * devices@.len(),
        -2147483648 * devices@.len() <= a.temp_sum_tenths <= 2147483647 * devices@.len(),
{
    let mut a = SwarmAggregate {
        vram_total_mb: 0, vram_used_mb: 0, temp_sum_tenths: 0, power_sum_tenths: 0, power_count: 0,
        compute_cores: 0, memory_bus_width_bits: 0, bandwidth_centi: 0, fp32_centi: 0,
    };
    let mut i: usize = 0;
    while i < devices.len()
        invariant
            i <= devices@.len(),
            swarm_fits(devices@),
            aggregate_matches(a, swarm_totals(devices@.subrange(0, i as int))),
            a.compute_cores <= 24576 * i,
            a.memory_bus_width_bits <= 5120 * i,
            a.bandwidth_centi <= 335000 * i,
            a.fp32_centi <= 13000 * i,
            a.power_count <= i,
            a.power_sum_tenths <= 4294967295 * i,
            -2147483648 * i <= a.temp_sum_tenths <= 2147483647 * i,
        decreases devices@.len() - i,
    {
        let g = &devices[i];
        proof {
            assert(devices@.subrange(0, i + 1).drop_last() =~= devices@.subrange(0, i as int));
            assert(devices@.subrange(0, i + 1).last() == devices@[i as int]);
            lemma_totals_prefix(devices@, i + 1);
        }
        let p = resolve_gpu_hardware_profile(g.name.as_str(), g.memory_total_mb, g.vendor.as_str());
        a.vram_total_mb = a.vram_total_mb + g.memory_total_mb;
        a.vram_used_mb = a.vram_used_mb + g.memory_used_mb;
        a.temp_sum_tenths = a.temp_sum_tenths + g.temperature_tenths as i64;
        match g.power_usage_watts_tenths {
            Some(w) => {
                a.power_sum_tenths = a.power_sum_tenths + w as u64;
                a.power_count = a.power_count + 1;
            },
            None => {},
        }
        a.compute_cores = a.compute_cores + p.compute_cores;
        a.memory_bus_width_bits = a.memory_bus_width_bits + p.memory_bus_width_bits;
        a.bandwidth_centi = a.bandwidth_centi + p.memory_bandwidth_centi;
        a.fp32_centi = a.fp32_centi + p.fp32_tflops_centi;
        i = i + 1;
    }
    assert(devices@.subrange(0, devices@.len() as int) =~= devices@);
    a
}

/// Interconnect efficiency of a swarm, in percent.
pub open spec fn scaling_efficiency_pct(n: nat) -> u32 {
    if n == 2 { 92 } else if n == 3 { 88 } else { 85 }
}

// ---------------------------------------------------------------- result

/// The full result of an AI benchmark run.
pub struct GpuAiBenchmarkResult {
    pub gpu_name: String,
    pub vendor: String,
    pub architecture: String,
    pub driver_version: String,
    pub vram_total_mb: u64,
    pub vram_used_mb: u64,
    pub vram_free_mb: u64,
    pub memory_bus_width_bits: u32,
    pub memory_bandwidth_centi: u64,
    pub compute_cores: u32,
    pub duration_seconds: u64,
    pub total_gemm_passes: u64,
    pub total_ai_gflops_tenths: u64,
    pub fp32_tflops_centi: u64,
    pub fp16_tflops_centi: u64,
    pub fp8_tflops_centi: u64,
    pub int4_tflops_centi: u64,
    pub matrix_gemm_time_ms_tenths: u64,
    pub precisions: Vec<PrecisionComputeThroughput>,
    pub llm_simulations: Vec<LlmModelInferenceProfile>,
    pub diffusion_simulations: Vec<DiffusionModelProfile>,
    pub gpu_comparisons: Vec<GpuAiComparisonItem>,
    pub initial_temp_tenths: i64,
    pub peak_temp_tenths: i64,
    pub avg_temp_tenths: i64,
    pub avg_power_tenths: Option<u64>,
    pub live_temp_tenths: i64,
    pub live_power_tenths: Option<u64>,
    pub live_fan_speed_rpm: Option<u32>,
    pub thermal_throttling_detected: bool,
    pub sustained_stability_tenths: u32,
    pub ai_composite_score: u32,
    pub ai_tier: String,
    pub ai_recommendation: String,
    pub is_combined_mode: bool,
    pub gpu_count: usize,
    pub device_list: Vec<String>,
    pub multi_gpu_scaling_efficiency_pct: Option<u32>,
    pub pooled_vram_total_mb: Option<u64>,
}

/// The projections and leaderboard of a result agree with its headline
/// figures.
pub open spec fn projections_agree(r: GpuAiBenchmarkResult, swarm: bool, current_name: Seq<char>) -> bool {
    &&& r.llm_simulations@.len() == 6
    &&& forall|i: int| 0 <= i < 6 ==> llm_projection_is(#[trigger] r.llm_simulations@[i], i, swarm,
        r.memory_bandwidth_centi as nat, r.vram_total_mb as nat, r.fp32_tflops_centi as nat)
    &&& r.diffusion_simulations@.len() == 3
    &&& forall|i: int| 0 <= i < 3 ==> diffusion_projection_is(#[trigger] r.diffusion_simulations@[i], i, swarm,
        r.vram_total_mb as nat, r.fp32_tflops_centi as nat)
    &&& leaderboard_is(r.gpu_comparisons@, GpuAiComparisonItem {
        gpu_name: r.gpu_comparisons@[0].gpu_name,
        architecture: r.gpu_comparisons@[0].architecture,
        vram_gb: (r.vram_total_mb / 1024) as u32,
        bandwidth_centi: r.memory_bandwidth_centi,
        fp16_centi: r.fp16_tflops_centi,
        llama8b_tok_s_tenths: r.llm_simulations@[2].estimated_tokens_per_sec_tenths,
        is_current_gpu: true,
    }, swarm)
    &&& r.gpu_comparisons@[0].gpu_name@ == current_name
    &&& r.gpu_comparisons@[0].architecture@ == r.architecture@
    &&& r.ai_composite_score == ai_composite_score(r.fp32_tflops_centi as nat, r.memory_bandwidth_centi as nat, r.vram_total_mb as nat)
}

/// What the swarm reports for `devices`, run for `duration` seconds with
/// `passes` GEMM passes taking `gemm_us` microseconds in all.
pub open spec fn swarm_result_is(r: GpuAiBenchmarkResult, devices: Seq<GpuDeviceMetrics>, duration: u64, passes: u64, gemm_us: u64) -> bool {
    let t = swarm_totals(devices);
    let n = devices.len();
    let eff = scaling_efficiency_pct(n);
    let fp32 = 10 * div_round(t.fp32 * eff as nat, 1000);
    let avg = div_round_signed(t.temp_sum, n);
    let power = if t.power_count > 0 { Some(t.power_sum as u64) } else { None };
    &&& r.gpu_name@ == "Multi-GPU Swarm ("@ + decimal(n) + "x GPUs Aggregate)"@
    &&& r.vendor@ == "Multi-Vendor / Distributed Cluster"@
    &&& r.architecture@ == "Distributed AI Tensor Engine ("@ + decimal(n) + " Devices)"@
    &&& r.driver_version@ == "Unified Multi-Device DirectML / CUDA Engine"@
    &&& r.vram_total_mb == t.vram_total
    &&& r.vram_used_mb == t.vram_used
    &&& r.vram_free_mb == (if t.vram_used > t.vram_total { 0 } else { t.vram_total - t.vram_used })
    &&& r.memory_bus_width_bits == t.bus
    &&& r.memory_bandwidth_centi == div_round(t.bandwidth * 88, 100)
    &&& r.compute_cores == t.cores
    &&& r.duration_seconds == duration
    &&& r.total_gemm_passes == passes
    &&& r.total_ai_gflops_tenths == gemm_work_tenths(passes as nat)
    &&& r.matrix_gemm_time_ms_tenths == gemm_time_tenths(passes as nat, gemm_us as nat)
    &&& r.fp32_tflops_centi == fp32
    &&& r.fp16_tflops_centi == 2 * fp32
    &&& r.fp8_tflops_centi == 4 * fp32
    &&& r.int4_tflops_centi == 8 * fp32
    &&& swarm_precision_rows_are(r.precisions@, t.cores as u32, eff, fp32)
    &&& projections_agree(r, true, "Multi-GPU Swarm ("@ + decimal(n) + "x GPUs Pooled)"@)
    &&& r.initial_temp_tenths == avg
    &&& r.peak_temp_tenths == avg + 50
    &&& r.avg_temp_tenths == avg
    &&& r.live_temp_tenths == avg
    &&& r.avg_power_tenths == power
    &&& r.live_power_tenths == power
    &&& r.live_fan_speed_rpm is None
    &&& !r.thermal_throttling_detected
    &&& r.sustained_stability_tenths == 991
    &&& r.ai_tier@ == "Multi-GPU Distributed AI Cluster"@
    &&& r.ai_recommendation@ == "รวมพลัง VRAM ทั้งหมด "@ + decimal(t.vram_total) + " MB ("@
        + decimal(t.vram_total / 1024) + " GB) สามารถรันโมเดลขนาดใหญ่ 14B-70B แบบกระจายโหลดขนาน (Tensor Parallelism) ได้เต็มประสิทธิภาพ"@
    &&& r.is_combined_mode
    &&& r.gpu_count == n
    &&& r.multi_gpu_scaling_efficiency_pct == Some(eff)
    &&& r.pooled_vram_total_mb == Some(t.vram_total as u64)
}

/// Assembles the swarm result from its devices and the GEMM measurements.
pub fn assemble_swarm_result(
    devices: &Vec<GpuDeviceMetrics>,
    duration: u64,
    passes: u64,
    gemm_us: u64,
    device_list: Vec<String>,
) -> (r: GpuAiBenchmarkResult)
    requires
        devices@.len() >= 2,
        swarm_fits(devices@),
        passes <= u64::MAX / 3,
    ensures
        swarm_result_is(r, devices@, duration, passes, gemm_us),
        r.device_list@ == device_list@,
{
    let a = aggregate_swarm(devices);
    let n = devices.len();
    let eff: u32 = if n == 2 { 92 } else if n == 3 { 88 } else { 85 };
    assert(a.fp32_centi * eff <= 13000 * 174762 * 92) by (nonlinear_arith)
        requires
            a.fp32_centi <= 13000 * n,
            n <= 174762,
            eff <= 92;
    proof {
        lemma_div_round_le((a.fp32_centi * eff) as nat, 1000, (a.fp32_centi * eff) as nat);
    }
    let fp32 = 10 * round_div(a.fp32_centi * eff as u64, 1000);
    let bw = round_div(a.bandwidth_centi * 88, 100);
    let free = if a.vram_used_mb > a.vram_total_mb { 0 } else { a.vram_total_mb - a.vram_used_mb };
    let avg = round_div_signed(a.temp_sum_tenths, n as u64);
    proof {
        assert(-2147483648 * n <= a.temp_sum_tenths <= 2147483647 * n);
        assert(avg <= 2147483647 && avg >= -2147483648) by (nonlinear_arith)
            requires
                avg == div_round_signed(a.temp_sum_tenths as int, n as nat),
                -2147483648 * n <= a.temp_sum_tenths <= 2147483647 * n,
                n >= 2;
    }
    let power = if a.power_count > 0 { Some(a.power_sum_tenths) } else { None };
    let (gemm_ms, work) = gemm_figures(passes, gemm_us);
    let count = num_usize(n);
    let gpu_name = cat(cat(lit("Multi-GPU Swarm ("), count.as_str()), "x GPUs Aggregate)");
    let architecture = cat(cat(lit("Distributed AI Tensor Engine ("), count.as_str()), " Devices)");
    let precisions = swarm_precision_rows(a.compute_cores, eff, fp32);
    let llms = project_llms(true, bw, a.vram_total_mb, fp32);
    let diffusions = project_diffusions(true, a.vram_total_mb, fp32);
    let tok = llms[2].estimated_tokens_per_sec_tenths;
    let current = GpuAiComparisonItem {
        gpu_name: cat(cat(lit("Multi-GPU Swarm ("), count.as_str()), "x GPUs Pooled)"),
        architecture: architecture.clone(),
        vram_gb: #[verifier::truncate] ((a.vram_total_mb / 1024) as u32),
        bandwidth_centi: bw,
        fp16_centi: 2 * fp32,
        llama8b_tok_s_tenths: tok,
        is_current_gpu: true,
    };
    let board = build_leaderboard(current, true);
    let score = compute_ai_composite_score(fp32, bw, a.vram_total_mb);
    let rec = cat(cat(cat(cat(lit("รวมพลัง VRAM ทั้งหมด "), num(a.vram_total_mb).as_str()), " MB ("),
        num(a.vram_total_mb / 1024).as_str()),
        " GB) สามารถรันโมเดลขนาดใหญ่ 14B-70B แบบกระจายโหลดขนาน (Tensor Parallelism) ได้เต็มประสิทธิภาพ");
    GpuAiBenchmarkResult {
        gpu_name,
        vendor: lit("Multi-Vendor / Distributed Cluster"),
        architecture,
        driver_version: lit("Unified Multi-Device DirectML / CUDA Engine"),
        vram_total_mb: a.vram_total_mb,
        vram_used_mb: a.vram_used_mb,
        vram_free_mb: free,
        memory_bus_width_bits: a.memory_bus_width_bits,
        memory_bandwidth_centi: bw,
        compute_cores: a.compute_cores,
        duration_seconds: duration,
        total_gemm_passes: passes,
        total_ai_gflops_tenths: work,
        fp32_tflops_centi: fp32,
        fp16_tflops_centi: 2 * fp32,
        fp8_tflops_centi: 4 * fp32,
        int4_tflops_centi: 8 * fp32,
        matrix_gemm_time_ms_tenths: gemm_ms,
        precisions,
        llm_simulations: llms,
        diffusion_simulations: diffusions,
        gpu_comparisons: board,
        initial_temp_tenths: avg,
        peak_temp_tenths: avg + 50,
        avg_temp_tenths: avg,
        avg_power_tenths: power,
        live_temp_tenths: avg,
        live_power_tenths: power,
        live_fan_speed_rpm: None,
        thermal_throttling_detected: false,
        sustained_stability_tenths: 991,
        ai_composite_score: score,
        ai_tier: lit("Multi-GPU Distributed AI Cluster"),
        ai_recommendation: rec,
        is_combined_mode: true,
        gpu_count: n,
        device_list,
        multi_gpu_scaling_efficiency_pct: Some(eff),
        pooled_vram_total_mb: Some(a.vram_total_mb),
    }
}


// ---------------------------------------------------------------- single GPU telemetry

/// What is known of the measured GPU before the run.
pub struct GpuTelemetry {
    pub gpu_name: String,
    pub detected_vendor: String,
    pub driver_version: String,
    pub vram_total_mb: u64,
    pub vram_used_mb: u64,
    pub vram_free_mb: u64,
    pub live_temp_tenths: i32,
    pub live_power_tenths: Option<u32>,
    pub live_fan_speed_rpm: Option<u32>,
}

/// The telemetry of the target device, or the defaults of a generic
/// DirectX adapter when there is none; missing power and fan readings
/// default to 25 W and 1200 RPM.
pub open spec fn initial_telemetry_is(t: GpuTelemetry, devices: Seq<GpuDeviceMetrics>, target: Option<usize>) -> bool {
    match target {
        Some(i) => {
            let g = devices[i as int];
            &&& t.gpu_name@ == g.name@
            &&& t.detected_vendor@ == g.vendor@
            &&& t.driver_version@ == g.driver_version@
            &&& t.vram_total_mb == g.memory_total_mb
            &&& t.vram_used_mb == g.memory_used_mb
            &&& t.vram_free_mb == (if g.memory_used_mb > g.memory_total_mb { 0 } else { g.memory_total_mb - g.memory_used_mb })
            &&& t.live_temp_tenths == g.temperature_tenths
            &&& t.live_power_tenths == (match g.power_usage_watts_tenths { Some(w) => Some(w), None => Some(250u32) })
            &&& t.live_fan_speed_rpm == (match g.fan_speed_rpm { Some(f) => Some(f), None => Some(1200u32) })
        },
        None => {
            &&& t.gpu_name@ == "DirectX Display Adapter"@
            &&& t.detected_vendor@ == "DirectX"@
            &&& t.driver_version@ == "WDDM 3.1"@
            &&& t.vram_total_mb == 4096
            &&& t.vram_used_mb == 1024
            &&& t.vram_free_mb == 3072
            &&& t.live_temp_tenths == 420
            &&& t.live_power_tenths == Some(250u32)
            &&& t.live_fan_speed_rpm == Some(1200u32)
        },
    }
}

/// The telemetry a single-GPU run starts from.
pub fn initial_telemetry(devices: &Vec<GpuDeviceMetrics>, target: Option<usize>) -> (t: GpuTelemetry)
    requires
        target matches Some(i) ==> i < devices@.len(),
    ensures
        initial_telemetry_is(t, devices@, target),
{
    match target {
        Some(i) => {
            let g = &devices[i];
            GpuTelemetry {
                gpu_name: g.name.clone(),
                detected_vendor: g.vendor.clone(),
                driver_version: g.driver_version.clone(),
                vram_total_mb: g.memory_total_mb,
                vram_used_mb: g.memory_used_mb,
                vram_free_mb: if g.memory_used_mb > g.memory_total_mb { 0 } else { g.memory_total_mb - g.memory_used_mb },
                live_temp_tenths: g.temperature_tenths,
                live_power_tenths: match g.power_usage_watts_tenths { Some(w) => Some(w), None => Some(250) },
                live_fan_speed_rpm: match g.fan_speed_rpm { Some(f) => Some(f), None => Some(1200) },
            }
        },
        None => GpuTelemetry {
            gpu_name: lit("DirectX Display Adapter"),
            detected_vendor: lit("DirectX"),
            driver_version: lit("WDDM 3.1"),
            vram_total_mb: 4096,
            vram_used_mb: 1024,
            vram_free_mb: 3072,
            live_temp_tenths: 420,
            live_power_tenths: Some(250),
            live_fan_speed_rpm: Some(1200),
        },
    }
}

/// An NVIDIA card, by its lower-cased name and vendor, is queried with
/// `nvidia-smi`.
pub open spec fn wants_nvidia_smi(name: Seq<char>, vendor: Seq<char>) -> bool {
    let both = lowercase(name) + " "@ + lowercase(vendor);
    has_sub(both, "nvidia"@) || has_sub(both, "geforce"@)
}

/// Should the run query `nvidia-smi` for this GPU?
pub fn should_query_nvidia_smi(t: &GpuTelemetry) -> (b: bool)
    ensures
        b == wants_nvidia_smi(t.gpu_name@, t.detected_vendor@),
{
    let both = cat(cat(to_lower(t.gpu_name.as_str()), " "), to_lower(t.detected_vendor.as_str()).as_str());
    contains(both.as_str(), "nvidia") || contains(both.as_str(), "geforce")
}

/// The comma-separated fields of the first line of `nvidia-smi` output,
/// trimmed; no fields for empty output.
pub open spec fn smi_fields(out: Seq<char>) -> Seq<Seq<char>> {
    match first_line(out) {
        Some(l) => split_trimmed_spec(l, ','),
        None => Seq::empty(),
    }
}

/// Splits `nvidia-smi` output into its fields.
pub fn nvidia_smi_fields(out: &str) -> (v: Vec<String>)
    ensures
        v@.len() == smi_fields(out@).len(),
        forall|k: int| 0 <= k < v@.len() ==> (#[trigger] v@[k])@ == smi_fields(out@)[k],
{
    match first_line_of(out) {
        Some(l) => split_trimmed(l.as_str(), ','),
        None => Vec::new(),
    }
}

/// A value read from a field when it parses, else the one kept.
pub open spec fn parsed_or(field: Seq<char>, keep: u64) -> u64 {
    match parse_unsigned(field, u64::MAX as nat) {
        Some(v) => v as u64,
        None => keep,
    }
}

/// The telemetry after an `nvidia-smi` reading. With at least six fields,
/// the name and driver are replaced, and each memory figure, the
/// temperature, the power (seventh field) and the fan (eighth field, in
/// tenths of a percent, 32 RPM per percent, saturating) are replaced where they could
/// be read. With fewer fields nothing changes.
pub open spec fn smi_applied_is(
    r: GpuTelemetry,
    t: GpuTelemetry,
    f: Seq<Seq<char>>,
    temp_tenths: Option<i32>,
    power_tenths: Option<u32>,
    fan_percent_tenths: Option<u32>,
) -> bool {
    if f.len() >= 6 {
        &&& r.gpu_name@ == f[0]
        &&& r.driver_version@ == f[1]
        &&& r.detected_vendor@ == t.detected_vendor@
        &&& r.vram_total_mb == parsed_or(f[2], t.vram_total_mb)
        &&& r.vram_used_mb == parsed_or(f[3], t.vram_used_mb)
        &&& r.vram_free_mb == parsed_or(f[4], t.vram_free_mb)
        &&& r.live_temp_tenths == (match temp_tenths { Some(x) => x, None => t.live_temp_tenths })
        &&& r.live_power_tenths == (if f.len() >= 7 && power_tenths is Some { power_tenths } else { t.live_power_tenths })
        &&& r.live_fan_speed_rpm == (match fan_percent_tenths {
            Some(p) => if f.len() >= 8 {
                Some(if div_round(32 * p as nat, 10) > u32::MAX { u32::MAX } else { div_round(32 * p as nat, 10) as u32 })
            } else {
                t.live_fan_speed_rpm
            },
            None => t.live_fan_speed_rpm,
        })
    } else {
        r == t
    }
}

/// Applies an `nvidia-smi` reading; the temperature, power and fan figures
/// are the ones read from the sixth, seventh and eighth fields.
pub fn apply_nvidia_smi(
    t: GpuTelemetry,
    fields: &Vec<String>,
    temp_tenths: Option<i32>,
    power_tenths: Option<u32>,
    fan_percent_tenths: Option<u32>,
) -> (r: GpuTelemetry)
    ensures
        smi_applied_is(r, t, fields@.map_values(|s: String| s@), temp_tenths, power_tenths, fan_percent_tenths),
{
    let ghost f = fields@.map_values(|s: String| s@);
    if fields.len() < 6 {
        return t;
    }
    assert(f[0] == fields@[0]@ && f[1] == fields@[1]@ && f[2] == fields@[2]@);
    assert(f[3] == fields@[3]@ && f[4] == fields@[4]@);
    let total = match parse_u64(fields[2].as_str()) { Some(v) => v, None => t.vram_total_mb };
    let used = match parse_u64(fields[3].as_str()) { Some(v) => v, None => t.vram_used_mb };
    let free = match parse_u64(fields[4].as_str()) { Some(v) => v, None => t.vram_free_mb };
    let temp = match temp_tenths { Some(x) => x, None => t.live_temp_tenths };
    let power = if fields.len() >= 7 && power_tenths.is_some() { power_tenths } else { t.live_power_tenths };
    let fan = match fan_percent_tenths {
        Some(p) => if fields.len() >= 8 {
            let rpm = round_div(32 * p as u64, 10);
            Some(if rpm > u32::MAX as u64 { u32::MAX } else { rpm as u32 })
        } else {
            t.live_fan_speed_rpm
        },
        None => t.live_fan_speed_rpm,
    };
    GpuTelemetry {
        gpu_name: fields[0].clone(),
        detected_vendor: t.detected_vendor,
        driver_version: fields[1].clone(),
        vram_total_mb: total,
        vram_used_mb: used,
        vram_free_mb: free,
        live_temp_tenths: temp,
        live_power_tenths: power,
        live_fan_speed_rpm: fan,
    }
}

// ---------------------------------------------------------------- single GPU result

/// What a single-GPU run reports for telemetry `t`, temperature and power
/// samples (the first temperature sample is the live one), and the GEMM
/// measurements.
pub open spec fn single_result_is(
    r: GpuAiBenchmarkResult,
    t: GpuTelemetry,
    duration: u64,
    passes: u64,
    gemm_us: u64,
    temps: Seq<i32>,
    powers: Seq<u32>,
) -> bool {
    let p = gpu_profile(t.gpu_name@, t.vram_total_mb, t.detected_vendor@);
    let c = precision_class_of(lowercase(t.gpu_name@), p.architecture, p.vendor);
    let f = p.fp32_tflops_centi as nat;
    let initial: int = if temps.len() > 0 { temps[0] as int } else { t.live_temp_tenths as int };
    let peak = max_i32_from(initial, temps);
    let n = if temps.len() == 0 { 1nat } else { temps.len() };
    &&& r.gpu_name@ == t.gpu_name@
    &&& r.vendor@ == p.vendor
    &&& r.architecture@ == p.architecture
    &&& r.driver_version@ == t.driver_version@
    &&& r.vram_total_mb == t.vram_total_mb
    &&& r.vram_used_mb == t.vram_used_mb
    &&& r.vram_free_mb == t.vram_free_mb
    &&& r.memory_bus_width_bits == p.memory_bus_width_bits
    &&& r.memory_bandwidth_centi == p.memory_bandwidth_centi
    &&& r.compute_cores == p.compute_cores
    &&& r.duration_seconds == duration
    &&& r.total_gemm_passes == passes
    &&& r.total_ai_gflops_tenths == gemm_work_tenths(passes as nat)
    &&& r.matrix_gemm_time_ms_tenths == gemm_time_tenths(passes as nat, gemm_us as nat)
    &&& r.fp32_tflops_centi == f
    &&& r.fp16_tflops_centi == fp16_centi(c, f)
    &&& r.fp8_tflops_centi == fp8_centi(c, f)
    &&& r.int4_tflops_centi == int4_centi(c, f)
    &&& single_precision_rows_are(r.precisions@, c, p.architecture, f)
    &&& projections_agree(r, false, t.gpu_name@ + " (Your GPU)"@)
    &&& r.initial_temp_tenths == initial
    &&& r.peak_temp_tenths == peak
    &&& r.avg_temp_tenths == div_round_signed(sum_i32(temps), n)
    &&& r.avg_power_tenths == (if powers.len() > 0 {
        Some(div_round(sum_u32(powers), powers.len()) as u64)
    } else {
        match t.live_power_tenths { Some(w) => Some(w as u64), None => None }
    })
    &&& r.live_temp_tenths == t.live_temp_tenths
    &&& r.live_power_tenths == (match t.live_power_tenths { Some(w) => Some(w as u64), None => None })
    &&& r.live_fan_speed_rpm == t.live_fan_speed_rpm
    &&& r.thermal_throttling_detected == (peak >= 840)
    &&& r.sustained_stability_tenths == (if peak >= 840 { 920u32 } else { 994u32 })
    &&& r.ai_tier@ == ai_tier(t.vram_total_mb as nat)
    &&& r.ai_recommendation@ == ai_recommendation(t.vram_total_mb as nat, p.memory_bandwidth_centi as nat)
    &&& !r.is_combined_mode
    &&& r.gpu_count == 1
    &&& r.multi_gpu_scaling_efficiency_pct is None
    &&& r.pooled_vram_total_mb is None
}

/// Assembles the result of a single-GPU run.
pub fn assemble_single_result(
    t: GpuTelemetry,
    duration: u64,
    passes: u64,
    gemm_us: u64,
    temps: &Vec<i32>,
    powers: &Vec<u32>,
    device_list: Vec<String>,
) -> (r: GpuAiBenchmarkResult)
    requires
        passes <= u64::MAX / 3,
        temps@.len() <= 0x1_0000_0000,
        powers@.len() <= 0x1_0000_0000,
    ensures
        single_result_is(r, t, duration, passes, gemm_us, temps@, powers@),
        r.device_list@ == device_list@,
{
    let p = resolve_gpu_hardware_profile(t.gpu_name.as_str(), t.vram_total_mb, t.detected_vendor.as_str());
    let lower = to_lower(t.gpu_name.as_str());
    let c = classify_precision(lower.as_str(), p.architecture.as_str(), p.vendor.as_str());
    let f = p.fp32_tflops_centi;
    let (fp16, fp8, int4) = precision_throughputs(&c, f);
    let precisions = single_precision_rows(&c, p.architecture.as_str(), f);
    let initial: i32 = if temps.len() > 0 { temps[0] } else { t.live_temp_tenths };
    let peak = highest_i32(initial, temps);
    let n: u64 = if temps.len() == 0 { 1 } else { temps.len() as u64 };
    let avg = round_div_signed(total_i32(temps), n);
    let live_power: Option<u64> = match t.live_power_tenths { Some(w) => Some(w as u64), None => None };
    let avg_power = if powers.len() > 0 {
        let total = total_u32(powers);
        Some(round_div(total, powers.len() as u64))
    } else {
        live_power
    };
    let throttling = peak >= 840;
    let (gemm_ms, work) = gemm_figures(passes, gemm_us);
    let llms = project_llms(false, p.memory_bandwidth_centi, t.vram_total_mb, f);
    let diffusions = project_diffusions(false, t.vram_total_mb, f);
    let tok = llms[2].estimated_tokens_per_sec_tenths;
    let current = GpuAiComparisonItem {
        gpu_name: cat(t.gpu_name.clone(), " (Your GPU)"),
        architecture: p.architecture.clone(),
        vram_gb: #[verifier::truncate] ((t.vram_total_mb / 1024) as u32),
        bandwidth_centi: p.memory_bandwidth_centi,
        fp16_centi: fp16,
        llama8b_tok_s_tenths: tok,
        is_current_gpu: true,
    };
    let board = build_leaderboard(current, false);
    let score = compute_ai_composite_score(f, p.memory_bandwidth_centi, t.vram_total_mb);
    let (tier, rec) = classify_ai_tier(t.vram_total_mb, p.memory_bandwidth_centi);
    GpuAiBenchmarkResult {
        gpu_name: t.gpu_name,
        vendor: p.vendor,
        architecture: p.architecture,
        driver_version: t.driver_version,
        vram_total_mb: t.vram_total_mb,
        vram_used_mb: t.vram_used_mb,
        vram_free_mb: t.vram_free_mb,
        memory_bus_width_bits: p.memory_bus_width_bits,
        memory_bandwidth_centi: p.memory_bandwidth_centi,
        compute_cores: p.compute_cores,
        duration_seconds: duration,
        total_gemm_passes: passes,
        total_ai_gflops_tenths: work,
        fp32_tflops_centi: f,
        fp16_tflops_centi: fp16,
        fp8_tflops_centi: fp8,
        int4_tflops_centi: int4,
        matrix_gemm_time_ms_tenths: gemm_ms,
        precisions,
        llm_simulations: llms,
        diffusion_simulations: diffusions,
        gpu_comparisons: board,
        initial_temp_tenths: initial as i64,
        peak_temp_tenths: peak as i64,
        avg_temp_tenths: avg,
        avg_power_tenths: avg_power,
        live_temp_tenths: t.live_temp_tenths as i64,
        live_power_tenths: live_power,
        live_fan_speed_rpm: t.live_fan_speed_rpm,
        thermal_throttling_detected: throttling,
        sustained_stability_tenths: if throttling { 920 } else { 994 },
        ai_composite_score: score,
        ai_tier: tier,
        ai_recommendation: rec,
        is_combined_mode: false,
        gpu_count: 1,
        device_list,
        multi_gpu_scaling_efficiency_pct: None,
        pooled_vram_total_mb: None,
    }
}

} // verus!
