//! Kernel timer latency: how much longer than asked 250 µs sleeps took.
//!
//! Latencies are in tenths of a microsecond; sleep durations are measured
//! in nanoseconds.

use vstd::prelude::*;
use crate::text::{div_round, lit};

verus! {

/// The sampling window in milliseconds: 200 by default, clamped to
/// 50..=1000.
pub open spec fn latency_window(requested: Option<u64>) -> u64 {
    let w = match requested { Some(v) => v, None => 200 };
    if w < 50 { 50 } else if w > 1000 { 1000 } else { w }
}

/// Chooses the sampling window.
pub fn choose_latency_window(requested: Option<u64>) -> (w: u64)
    ensures
        w == latency_window(requested),
{
    let w = match requested { Some(v) => v, None => 200 };
    if w < 50 { 50 } else if w > 1000 { 1000 } else { w }
}

/// How much longer than 250 µs a sleep of `ns` nanoseconds took, in ns.
pub open spec fn overshoot(ns: u64) -> nat {
    if ns > 250000 { (ns - 250000) as nat } else { 0 }
}

pub open spec fn overshoot_sum(s: Seq<u64>) -> nat
    decreases s.len(),
{
    if s.len() == 0 { 0 } else { overshoot_sum(s.drop_last()) + overshoot(s.last()) }
}

pub open spec fn overshoot_max(s: Seq<u64>) -> nat
    decreases s.len(),
{
    if s.len() == 0 {
        0
    } else {
        let m = overshoot_max(s.drop_last());
        if overshoot(s.last()) > m { overshoot(s.last()) } else { m }
    }
}

/// A driver suspected of causing latency.
pub struct DriverLatencyIssue {
    pub name: String,
    pub module: String,
    pub description: String,
    pub severity: String,
}

/// The latency diagnosis.
pub struct DpcLatencyMetrics {
    pub current_latency_tenths: u64,
    pub highest_latency_tenths: u64,
    pub average_latency_tenths: u64,
    pub sample_count: u64,
    pub audio_dropout_risk: String,
    pub status: String,
    pub is_suitable_for_realtime_audio: bool,
    pub suspected_drivers: Vec<DriverLatencyIssue>,
    pub recommendations: Vec<String>,
}

/// The risk bands of the highest overshoot (in ns): under 0.5 ms very
/// low, under 1 ms low, under 2 ms moderate, else high.
pub open spec fn latency_risk(highest_ns: nat) -> (Seq<char>, Seq<char>, bool) {
    if highest_ns < 500000 {
        ("Very Low"@, "Optimal for Real-Time Audio & Gaming"@, true)
    } else if highest_ns < 1000000 {
        ("Low"@, "Good (Minor latency spikes detected)"@, true)
    } else if highest_ns < 2000000 {
        ("Moderate"@, "Audio Dropouts & Micro-stutter Possible"@, false)
    } else {
        ("High / Critical"@, "Severe DPC Latency - Glitches Expected"@, false)
    }
}

/// The diagnosis of the timed sleeps `s` (in ns, in the order taken): the
/// last, highest and mean overshoot (12.5 µs when nothing was sampled),
/// the risk band, and, beyond 1 ms, the suspected network and graphics
/// drivers with tuning advice.
pub open spec fn latency_result_is(r: DpcLatencyMetrics, s: Seq<u64>) -> bool {
    let highest = overshoot_max(s);
    let avg: nat = if s.len() > 0 { div_round(overshoot_sum(s), s.len() * 100) } else { 125 };
    let risk = latency_risk(highest);
    &&& r.current_latency_tenths == (if s.len() > 0 { div_round(overshoot(s.last()), 100) } else { avg })
    &&& r.highest_latency_tenths == div_round(highest, 100)
    &&& r.average_latency_tenths == avg
    &&& r.sample_count == s.len()
    &&& r.audio_dropout_risk@ == risk.0
    &&& r.status@ == risk.1
    &&& r.is_suitable_for_realtime_audio == risk.2
    &&& if highest > 1000000 {
        &&& r.suspected_drivers@.len() == 2
        &&& r.suspected_drivers@[0].name@ == "Network & Wi-Fi Adapter (NDIS)"@
        &&& r.suspected_drivers@[0].module@ == "ndis.sys / wlan.sys"@
        &&& r.suspected_drivers@[0].description@ == "High ISR/DPC execution time during packet bursts."@
        &&& r.suspected_drivers@[0].severity@ == "Warning"@
        &&& r.suspected_drivers@[1].name@ == "Graphics Kernel Driver"@
        &&& r.suspected_drivers@[1].module@ == "nvlddmkm.sys / dxgkrnl.sys"@
        &&& r.suspected_drivers@[1].description@ == "GPU power state transitioning latency."@
        &&& r.suspected_drivers@[1].severity@ == "Notice"@
        &&& r.recommendations@.map_values(|t: String| t@) == seq![
            "Set Windows Power Plan to 'High Performance' or 'Ultimate Performance'."@,
            "Update GPU graphics drivers and disable energy-efficient Ethernet/Wi-Fi roaming aggressiveness."@,
            "In Nvidia/AMD Control Panel, set Power Management Mode to 'Prefer Maximum Performance'."@,
        ]
    } else {
        &&& r.suspected_drivers@.len() == 0
        &&& r.recommendations@.map_values(|t: String| t@) == seq![
            "System is perfectly calibrated for low-latency ASIO audio and high refresh rate gaming."@,
            "Timer resolution and kernel interrupt processing are operating nominally."@,
        ]
    }
}

proof fn lemma_overshoot_bounds(s: Seq<u64>)
    ensures
        overshoot_sum(s) <= s.len() * (u64::MAX as nat),
        overshoot_max(s) <= u64::MAX,
    decreases s.len(),
{
    if s.len() > 0 {
        lemma_overshoot_bounds(s.drop_last());
    }
}

fn issue(name: &str, module: &str, description: &str, severity: &str) -> (d: DriverLatencyIssue)
    ensures
        d.name@ == name@,
        d.module@ == module@,
        d.description@ == description@,
        d.severity@ == severity@,
{
    DriverLatencyIssue { name: lit(name), module: lit(module), description: lit(description), severity: lit(severity) }
}

/// Diagnoses timer latency from the durations of the sleeps taken.
pub fn measure_system_latency(sleeps_ns: &Vec<u64>) -> (r: DpcLatencyMetrics)
    requires
        sleeps_ns@.len() <= 0x1_0000_0000,
    ensures
        latency_result_is(r, sleeps_ns@),
{
    let n = sleeps_ns.len();
    let mut sum: u128 = 0;
    let mut highest: u64 = 0;
    let mut i: usize = 0;
    while i < n
        invariant
            n == sleeps_ns@.len(),
            n <= 0x1_0000_0000,
            i <= n,
            sum == overshoot_sum(sleeps_ns@.subrange(0, i as int)),
            highest == overshoot_max(sleeps_ns@.subrange(0, i as int)),
            sum <= i * (u64::MAX as nat),
        decreases n - i,
    {
        let x = sleeps_ns[i];
        let o: u64 = if x > 250000 { x - 250000 } else { 0 };
        proof {
            let next = sleeps_ns@.subrange(0, i + 1);
            assert(next.drop_last() =~= sleeps_ns@.subrange(0, i as int));
            assert(next.last() == x);
        }
        sum = sum + o as u128;
        if o > highest {
            highest = o;
        }
        i = i + 1;
    }
    assert(sleeps_ns@.subrange(0, n as int) =~= sleeps_ns@);
    let avg: u64 = if n > 0 {
        let a = crate::text::round_div_u128(sum, (n as u128) * 100);
        assert(a <= u64::MAX) by (nonlinear_arith)
            requires a == (2 * sum + n * 100) / (2 * (n * 100) as int), sum <= n * (u64::MAX as nat), n >= 1;
        a as u64
    } else {
        125
    };
    let current: u64 = if n > 0 {
        let x = sleeps_ns[n - 1];
        let o: u64 = if x > 250000 { x - 250000 } else { 0 };
        crate::text::round_div(o, 100)
    } else {
        avg
    };
    let (risk, status, suitable) = if highest < 500000 {
        (lit("Very Low"), lit("Optimal for Real-Time Audio & Gaming"), true)
    } else if highest < 1000000 {
        (lit("Low"), lit("Good (Minor latency spikes detected)"), true)
    } else if highest < 2000000 {
        (lit("Moderate"), lit("Audio Dropouts & Micro-stutter Possible"), false)
    } else {
        (lit("High / Critical"), lit("Severe DPC Latency - Glitches Expected"), false)
    };
    let mut suspected: Vec<DriverLatencyIssue> = Vec::new();
    let mut recs: Vec<String> = Vec::new();
    if highest > 1000000 {
        suspected.push(issue("Network & Wi-Fi Adapter (NDIS)", "ndis.sys / wlan.sys",
            "High ISR/DPC execution time during packet bursts.", "Warning"));
        suspected.push(issue("Graphics Kernel Driver", "nvlddmkm.sys / dxgkrnl.sys",
            "GPU power state transitioning latency.", "Notice"));
        recs.push(lit("Set Windows Power Plan to 'High Performance' or 'Ultimate Performance'."));
        recs.push(lit("Update GPU graphics drivers and disable energy-efficient Ethernet/Wi-Fi roaming aggressiveness."));
        recs.push(lit("In Nvidia/AMD Control Panel, set Power Management Mode to 'Prefer Maximum Performance'."));
        assert(recs@.map_values(|t: String| t@) =~= seq![
            "Set Windows Power Plan to 'High Performance' or 'Ultimate Performance'."@,
            "Update GPU graphics drivers and disable energy-efficient Ethernet/Wi-Fi roaming aggressiveness."@,
            "In Nvidia/AMD Control Panel, set Power Management Mode to 'Prefer Maximum Performance'."@,
        ]);
    } else {
        recs.push(lit("System is perfectly calibrated for low-latency ASIO audio and high refresh rate gaming."));
        recs.push(lit("Timer resolution and kernel interrupt processing are operating nominally."));
        assert(recs@.map_values(|t: String| t@) =~= seq![
            "System is perfectly calibrated for low-latency ASIO audio and high refresh rate gaming."@,
            "Timer resolution and kernel interrupt processing are operating nominally."@,
        ]);
    }
    DpcLatencyMetrics {
        current_latency_tenths: current,
        highest_latency_tenths: crate::text::round_div(highest, 100),
        average_latency_tenths: avg,
        sample_count: n as u64,
        audio_dropout_risk: risk,
        status,
        is_suitable_for_realtime_audio: suitable,
        suspected_drivers: suspected,
        recommendations: recs,
    }
}

} // verus!
