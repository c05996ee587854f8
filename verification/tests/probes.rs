use oxidpulse::latency::{choose_latency_window, measure_system_latency};
use oxidpulse::network::{assess_network, dns_target_at, round_probe};
use oxidpulse::stress::{
    assess_ram_integrity, assess_stress_test, choose_stress_duration, count_pattern_errors, plan_ram_test,
    run_pattern_checks, WordPattern,
};

#[test]
fn network_with_mixed_resolvers() {
    let probes = vec![vec![120, 140], vec![], vec![250], vec![260, 240], vec![900, 1100], vec![1300]];
    let r = assess_network(&probes);
    assert_eq!(r.ping_tenths, 539);
    assert_eq!((r.min_latency_tenths, r.max_latency_tenths), (120, 1300));
    assert_eq!(r.jitter_tenths, 174);
    assert_eq!(r.packet_loss_tenths, 333);
    assert_eq!(r.gaming_grade, "B (Moderate Latency - Casual Play)");
    assert_eq!(r.streaming_grade, "1080p Standard Streaming");
    let order: Vec<&str> = r.dns_results.iter().map(|d| d.provider.as_str()).collect();
    assert_eq!(order, vec!["Cloudflare DNS", "Google DNS", "Google Secondary", "Quad9 Secure DNS", "OpenDNS Home", "Cloudflare Secondary"]);
    assert_eq!(r.dns_results[0].status, "Fast (Ultra Low-Latency)");
    assert_eq!(r.dns_results[3].status, "Good");
    assert_eq!(r.dns_results[5].latency_tenths, 9990);
    assert_eq!(r.dns_results[5].status, "High Latency / Slow");
    assert_eq!(r.recommended_dns, "Cloudflare DNS (1.1.1.1) - 13 ms");
    assert_eq!(r.gateway_ip, "192.168.1.1 (Gateway Router)");
}

#[test]
fn network_flawless_and_unreachable() {
    let probes = vec![vec![100, 100]; 6];
    let r = assess_network(&probes);
    assert_eq!((r.ping_tenths, r.jitter_tenths, r.packet_loss_tenths), (100, 0, 0));
    assert_eq!(r.gaming_grade, "A+ (Flawless Gaming & Esport Tier)");
    assert_eq!(r.streaming_grade, "4K UHD / 60FPS Lossless Stream");
    assert_eq!(r.recommended_dns, "Cloudflare DNS (1.1.1.1) - 10 ms");
    let none = assess_network(&vec![Vec::new(); 6]);
    assert_eq!((none.min_latency_tenths, none.max_latency_tenths, none.ping_tenths, none.jitter_tenths), (180, 350, 245, 21));
    assert_eq!(none.packet_loss_tenths, 1000);
    assert_eq!(none.recommended_dns, "Cloudflare DNS (1.1.1.1) - 999 ms");
    assert_eq!(round_probe(12_345), 123);
    assert_eq!(dns_target_at(5).2, "208.67.222.222:53");
}

#[test]
fn timer_latency_diagnosis() {
    assert_eq!(choose_latency_window(None), 200);
    assert_eq!(choose_latency_window(Some(10)), 50);
    assert_eq!(choose_latency_window(Some(5000)), 1000);
    let m = measure_system_latency(&vec![260_000, 250_000, 240_000, 300_550]);
    assert_eq!(m.sample_count, 4);
    assert_eq!(m.highest_latency_tenths, 506);
    assert_eq!(m.current_latency_tenths, 506);
    assert_eq!(m.average_latency_tenths, 151);
    assert_eq!(m.audio_dropout_risk, "Very Low");
    assert!(m.is_suitable_for_realtime_audio);
    assert!(m.suspected_drivers.is_empty());
    assert_eq!(m.recommendations.len(), 2);
    let spiky = measure_system_latency(&vec![2_500_000, 250_000]);
    assert_eq!(spiky.audio_dropout_risk, "High / Critical");
    assert!(!spiky.is_suitable_for_realtime_audio);
    assert_eq!(spiky.suspected_drivers.len(), 2);
    assert_eq!(spiky.suspected_drivers[0].module, "ndis.sys / wlan.sys");
    assert_eq!(spiky.recommendations.len(), 3);
    assert_eq!(spiky.current_latency_tenths, 0);
    let empty = measure_system_latency(&Vec::new());
    assert_eq!((empty.average_latency_tenths, empty.current_latency_tenths, empty.highest_latency_tenths), (125, 125, 0));
}

#[test]
fn memory_integrity_plan_and_checks() {
    let p = plan_ram_test(None, None, None);
    assert_eq!((p.test_size_mb, p.passes, p.threads, p.mb_per_thread), (1024, 2, 4, 256));
    assert_eq!(p.words_per_thread, 256 * 1024 * 1024 / 8);
    let p = plan_ram_test(Some(10), Some(99), Some(64));
    assert_eq!((p.test_size_mb, p.passes, p.threads, p.mb_per_thread), (128, 10, 16, 16));
    let mut buf = vec![0u64; 70];
    assert_eq!(run_pattern_checks(&mut buf, 3), 0);
    let mut s: u64 = 0x9e3779b97f4a7c15 ^ 3;
    for w in &buf {
        s = s.wrapping_mul(6364136223846793005).wrapping_add(1442695040888963407);
        assert_eq!(*w, s);
    }
}

#[test]
fn memory_integrity_result() {
    let p = plan_ram_test(Some(1024), Some(1), Some(4));
    let r = assess_ram_integrity(&p, 0, 2_000_000);
    assert_eq!(r.total_mb_tested, 1024);
    assert_eq!(r.memory_bandwidth_tenths, 20);
    assert_eq!(r.duration_tenths, 20);
    assert!(r.is_passed);
    assert_eq!(r.status, "Passed (100% Stable - No Bit Flips Detected)");
    assert_eq!(r.tested_patterns.len(), 4);
    let bad = assess_ram_integrity(&p, 3, 2_000_000);
    assert_eq!(bad.status, "Failed (3 Bit-Flip Errors - Check RAM Overclock / XMP)");
    assert!(!bad.is_passed);
}

#[test]
fn stress_result() {
    assert_eq!(choose_stress_duration(1), 3);
    assert_eq!(choose_stress_duration(600), 60);
    let r = assess_stress_test(10, 8, 3_000_000_000, 10_000_000, 500, &vec![580, 615, 610], 575);
    assert_eq!(r.gflops_centi, 900);
    assert_eq!((r.initial_temp_centi, r.peak_temp_centi, r.final_temp_centi), (5000, 6150, 5750));
    assert!(!r.thermal_throttling_detected);
    assert_eq!((r.clock_drop_tenths, r.stability_score), (8, 99));
    assert_eq!(r.status, "Stable (Passed)");
    let edge = assess_stress_test(60, 8, 0, 1, 800, &vec![850], 820);
    assert!(!edge.thermal_throttling_detected);
    assert_eq!(edge.peak_temp_centi, 8500);
    let hot = assess_stress_test(60, 8, 0, 1, 860, &vec![910, 955, 940], 900);
    assert!(hot.thermal_throttling_detected);
    assert_eq!((hot.peak_temp_centi, hot.final_temp_centi), (9550, 9000));
    assert_eq!((hot.clock_drop_tenths, hot.stability_score), (125, 78));
    assert_eq!(hot.status, "Thermal Throttling Detected");
    let no_samples = assess_stress_test(3, 1, 0, 0, 870, &Vec::new(), 700);
    assert!(no_samples.thermal_throttling_detected);
}

#[test]
fn resolver_order_is_a_stable_permutation() {
    let r = assess_network(&vec![vec![100, 100]; 6]);
    let order: Vec<String> = r.dns_results.iter().map(|d| d.ip.clone()).collect();
    let probe_order: Vec<String> = (0..6).map(|i| dns_target_at(i).1.to_string()).collect();
    assert_eq!(order, probe_order);
    let mixed = assess_network(&vec![vec![500], vec![100], vec![500], vec![100], vec![300], vec![300]]);
    let mut seen: Vec<String> = mixed.dns_results.iter().map(|d| d.ip.clone()).collect();
    let lat: Vec<u64> = mixed.dns_results.iter().map(|d| d.latency_tenths).collect();
    assert_eq!(lat, vec![100, 100, 300, 300, 500, 500]);
    assert_eq!(mixed.dns_results[0].ip, dns_target_at(1).1.to_string());
    assert_eq!(mixed.dns_results[1].ip, dns_target_at(3).1.to_string());
    seen.sort();
    let mut all = probe_order.clone();
    all.sort();
    assert_eq!(seen, all);
}

#[test]
fn flipped_words_are_counted() {
    let mut reads = vec![0xAA55AA55AA55AA55u64; 10];
    reads[2] ^= 1 << 7;
    reads[9] = 0;
    assert_eq!(count_pattern_errors(&reads, 0, WordPattern::Constant(0xAA55AA55AA55AA55), 0).0, 2);
    let walking: Vec<u64> = (0..8u64).map(|i| 1u64 << ((100 + i + 5) % 64)).collect();
    assert_eq!(count_pattern_errors(&walking, 100, WordPattern::Walking(5), 0).0, 0);
    let mut bad = walking.clone();
    bad[3] = 1;
    assert_eq!(count_pattern_errors(&bad, 100, WordPattern::Walking(5), 0).0, 1);
    let seed = 0x1234u64;
    let mut s = seed;
    let words: Vec<u64> = (0..5).map(|_| { s = s.wrapping_mul(6364136223846793005).wrapping_add(1442695040888963407); s }).collect();
    let (e, next) = count_pattern_errors(&words, 0, WordPattern::Random(seed), seed);
    assert_eq!((e, next), (0, s));
    let mut flipped = words.clone();
    flipped[0] ^= u64::MAX;
    flipped[4] ^= 2;
    assert_eq!(count_pattern_errors(&flipped, 0, WordPattern::Random(seed), seed).0, 2);
}

#[test]
fn random_pattern_counts_from_a_later_word() {
    let seed = 77u64;
    let mut s = seed;
    let all: Vec<u64> = (0..10).map(|_| { s = s.wrapping_mul(6364136223846793005).wrapping_add(1442695040888963407); s }).collect();
    let mut at4 = seed;
    for _ in 0..4 {
        at4 = at4.wrapping_mul(6364136223846793005).wrapping_add(1442695040888963407);
    }
    let (e, next) = count_pattern_errors(&all[4..].to_vec(), 4, WordPattern::Random(seed), at4);
    assert_eq!((e, next), (0, s));
}
